//! Value types that commands and events are built from.

pub mod advertisement;
pub mod connection_interval;
pub mod extended_advertisement;
pub mod flags;

pub use advertisement::Advertisement;
pub use connection_interval::{
    ConnectionInterval, ConnectionIntervalError, ExpectedConnectionLength,
    ExpectedConnectionLengthError,
};
pub use extended_advertisement::{
    AdvSet, AdvertisingOperation, AdvertisingPhy, ExtendedAdvertisingInterval,
    ExtendedAdvertisingIntervalError,
};
pub use flags::{AdvertisingEvent, AdvertisingMode};
