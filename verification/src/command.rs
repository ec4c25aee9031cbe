//! Command packets: an opcode, the length of the parameters, the parameters.

use crate::opcode::Opcode;
use crate::wire::{copy_bytes, le_bytes_u16, overlay, write_u16_le};
use vstd::prelude::*;

verus! {

/// Number of bytes in front of the parameters of a command packet.
pub const HEADER_LENGTH: usize = 3;

/// Greatest number of parameter bytes that a command packet can announce.
pub const MAX_PARAMETER_LENGTH: usize = 255;

/// A command packet on the wire: the opcode as a little-endian 16-bit value,
/// one byte with the number of parameter bytes, and the parameters.
pub open spec fn command_packet(opcode: Opcode, params: Seq<u8>) -> Seq<u8> {
    le_bytes_u16(opcode.0) + seq![params.len() as u8] + params
}

/// Writes the packet for command `opcode` with the serialized parameters
/// `params` into `packet`, from its first byte on, and returns the length of
/// the packet. Bytes behind it are left alone.
pub fn copy_command_into_slice(opcode: Opcode, params: &[u8], packet: &mut [u8]) -> (r: usize)
    requires
        params@.len() <= MAX_PARAMETER_LENGTH,
        HEADER_LENGTH + params@.len() <= old(packet)@.len(),
    ensures
        r == HEADER_LENGTH + params@.len(),
        r == command_packet(opcode, params@).len(),
        final(packet)@ == overlay(old(packet)@, 0, command_packet(opcode, params@)),
{
    write_u16_le(packet, 0, opcode.0);
    packet[2] = params.len() as u8;
    copy_bytes(packet, HEADER_LENGTH, params);
    assert(packet@ =~= overlay(old(packet)@, 0, command_packet(opcode, params@)));
    HEADER_LENGTH + params.len()
}

} // verus!
