//! Commands that the vendor of the controller defines.

pub mod command;
