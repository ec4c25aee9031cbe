//! Identifiers that the controller assigns and the host only hands back.

use vstd::prelude::*;

verus! {

/// Identifies a connection. The host never interprets the value.
#[derive(Clone, Copy, Debug, PartialEq, Eq, Structural)]
pub struct ConnectionHandle(pub u16);

/// Identifies an advertising set. The host never interprets the value.
#[derive(Clone, Copy, Debug, PartialEq, Eq, Structural)]
pub struct AdvertisingHandle(pub u8);

} // verus!
