//! Advertising data: the length-prefixed, type-tagged structures that make up
//! the payload of an advertisement.

use crate::wire::{copy_bytes, le_bytes_u16, overlay, write_u16_le};
use vstd::prelude::*;
use vstd::string::StringSliceAdditionalSpecFns;

verus! {

/// Type code of a complete local name.
pub const TYPE_COMPLETE_LOCAL_NAME: u8 = 0x09;

/// Type code of service data that starts with a 16-bit UUID.
pub const TYPE_SERVICE_DATA_16_BIT_UUID: u8 = 0x16;

/// Type code of manufacturer-specific data.
pub const TYPE_MANUFACTURER_SPECIFIC_DATA: u8 = 0xff;

/// Greatest number of payload bytes that the one-byte length prefix, which
/// also counts the type byte, can announce.
pub const MAX_PAYLOAD_LENGTH: usize = 254;

/// One advertising data structure.
#[derive(Clone, Copy, Debug)]
pub enum Advertisement<'a> {
    /// The complete name of the device.
    CompleteLocalName(&'a str),
    /// Data that belongs to the service with the given 16-bit UUID: the UUID,
    /// then the data.
    ServiceData16BitUuid(u16, &'a [u8]),
    /// Data in a format of the manufacturer's own: the company identifier, then
    /// the data.
    ManufacturerSpecificData(u16, &'a [u8]),
}

impl<'a> Advertisement<'a> {
    /// The byte that tells which kind of structure this is.
    pub open spec fn type_code(&self) -> u8 {
        match *self {
            Advertisement::CompleteLocalName(_) => TYPE_COMPLETE_LOCAL_NAME,
            Advertisement::ServiceData16BitUuid(_, _) => TYPE_SERVICE_DATA_16_BIT_UUID,
            Advertisement::ManufacturerSpecificData(_, _) => TYPE_MANUFACTURER_SPECIFIC_DATA,
        }
    }

    /// The bytes that follow the type byte: the name in UTF-8, or the 16-bit
    /// identifier in little-endian order followed by the data.
    pub open spec fn payload(&self) -> Seq<u8> {
        match *self {
            Advertisement::CompleteLocalName(name) => name.spec_bytes(),
            Advertisement::ServiceData16BitUuid(uuid, data) => le_bytes_u16(uuid) + data@,
            Advertisement::ManufacturerSpecificData(company, data) => le_bytes_u16(company)
                + data@,
        }
    }

    /// The whole structure on the wire: a length byte that counts the type byte
    /// and the payload, the type byte, and the payload.
    pub open spec fn encoding(&self) -> Seq<u8> {
        seq![(1 + self.payload().len()) as u8, self.type_code()] + self.payload()
    }

    /// Number of bytes that the structure takes on the wire, or `None` where
    /// its payload is longer than a length byte can announce.
    pub fn encoded_len(&self) -> (r: Option<usize>)
        ensures
            match r {
                Some(n) => self.payload().len() <= MAX_PAYLOAD_LENGTH && n
                    == self.encoding().len() && n == 2 + self.payload().len(),
                None => self.payload().len() > MAX_PAYLOAD_LENGTH,
            },
    {
        let (head, tail): (usize, usize) = match *self {
            Advertisement::CompleteLocalName(name) => (0, name.as_bytes().len()),
            Advertisement::ServiceData16BitUuid(_, data) => (2, data.len()),
            Advertisement::ManufacturerSpecificData(_, data) => (2, data.len()),
        };
        if tail <= MAX_PAYLOAD_LENGTH - head {
            Some(2 + head + tail)
        } else {
            None
        }
    }

    /// Serialize the structure into the given buffer, from its first byte on,
    /// and return the number of bytes written. Bytes behind them are left
    /// alone.
    pub fn copy_into_slice(&self, bytes: &mut [u8]) -> (r: usize)
        requires
            self.payload().len() <= MAX_PAYLOAD_LENGTH,
            2 + self.payload().len() <= old(bytes)@.len(),
        ensures
            r == 2 + self.payload().len(),
            r == self.encoding().len(),
            final(bytes)@ == overlay(old(bytes)@, 0, self.encoding()),
    {
        match *self {
            Advertisement::CompleteLocalName(name) => {
                let data = name.as_bytes();
                bytes[0] = (1 + data.len()) as u8;
                bytes[1] = TYPE_COMPLETE_LOCAL_NAME;
                copy_bytes(bytes, 2, data);
                assert(bytes@ =~= overlay(old(bytes)@, 0, self.encoding()));
                2 + data.len()
            },
            Advertisement::ServiceData16BitUuid(uuid, data) => {
                bytes[0] = (3 + data.len()) as u8;
                bytes[1] = TYPE_SERVICE_DATA_16_BIT_UUID;
                write_u16_le(bytes, 2, uuid);
                copy_bytes(bytes, 4, data);
                assert(bytes@ =~= overlay(old(bytes)@, 0, self.encoding()));
                4 + data.len()
            },
            Advertisement::ManufacturerSpecificData(company, data) => {
                bytes[0] = (3 + data.len()) as u8;
                bytes[1] = TYPE_MANUFACTURER_SPECIFIC_DATA;
                write_u16_le(bytes, 2, company);
                copy_bytes(bytes, 4, data);
                assert(bytes@ =~= overlay(old(bytes)@, 0, self.encoding()));
                4 + data.len()
            },
        }
    }
}

} // verus!
