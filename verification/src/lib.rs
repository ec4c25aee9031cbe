//! Parameter codec for the host side of a Bluetooth Host Controller Interface.
//!
//! Every structure here is a plain value with a validated constructor where the
//! Bluetooth specification restricts its fields, and a serializer that writes its
//! exact little-endian layout into a buffer owned by the caller.

pub mod command;
pub mod event;
pub mod handle;
pub mod opcode;
pub mod time;
pub mod types;
pub mod vendor;
pub mod wire;

pub use handle::{AdvertisingHandle, ConnectionHandle};
pub use opcode::Opcode;
