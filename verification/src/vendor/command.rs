//! Parameters of the vendor's commands, by the layer that they belong to.

pub mod l2cap;
