//! Parameters of the L2CAP commands: connection parameter updates and
//! credit-based channels.

use crate::handle::ConnectionHandle;
use crate::types::connection_interval::{ConnectionInterval, ExpectedConnectionLength};
use crate::wire::{copy_bytes, le_bytes_u16, overlay, u16_from_le_bytes, write_u16_le};
use vstd::prelude::*;

verus! {

/// Number of entries in the channel index table of a confirm or reconfigure
/// command.
pub const CHANNEL_INDEX_LIST_LENGTH: usize = 246;

/// Parameters of an L2CAP connection parameter update request, which the
/// peripheral sends to the central device.
#[derive(Debug, Clone, Copy)]
pub struct ConnectionParameterUpdateRequest {
    /// Connection handle of the link which the connection parameter update
    /// request has to be sent.
    pub conn_handle: ConnectionHandle,
    /// Defines the range of the connection interval.
    pub conn_interval: ConnectionInterval,
}

impl ConnectionParameterUpdateRequest {
    /// Number of bytes of the parameters on the wire.
    pub const LENGTH: usize = 10;

    /// The parameters on the wire: the handle as a little-endian 16-bit value,
    /// then the connection interval.
    pub open spec fn encoding(&self) -> Seq<u8> {
        le_bytes_u16(self.conn_handle.0) + self.conn_interval.encoding()
    }

    /// Serialize the parameters into the given buffer, which they fill.
    pub fn copy_into_slice(&self, bytes: &mut [u8])
        requires
            old(bytes)@.len() == Self::LENGTH,
        ensures
            final(bytes)@ == self.encoding(),
    {
        write_u16_le(bytes, 0, self.conn_handle.0);
        self.conn_interval.copy_into_slice_at(bytes, 2);
        assert(bytes@ =~= self.encoding());
    }
}

/// Parameters of the answer to an L2CAP connection parameter update request
/// that the controller has reported.
#[derive(Debug, Clone, Copy)]
pub struct ConnectionParameterUpdateResponse {
    /// Connection handle received in the request.
    pub conn_handle: ConnectionHandle,
    /// Connection interval received in the request.
    pub conn_interval: ConnectionInterval,
    /// Expected length of connection event needed for this connection.
    pub expected_connection_length_range: ExpectedConnectionLength,
    /// Identifier received in the request.
    pub identifier: u8,
    /// True if the parameters from the request are acceptable.
    pub accepted: bool,
}

impl ConnectionParameterUpdateResponse {
    /// Number of bytes of the parameters on the wire.
    pub const LENGTH: usize = 16;

    /// The parameters on the wire: the handle as a little-endian 16-bit value,
    /// the connection interval, the expected connection length, the
    /// identifier, and one byte that is 1 if the request is accepted, else 0.
    pub open spec fn encoding(&self) -> Seq<u8> {
        le_bytes_u16(self.conn_handle.0) + self.conn_interval.encoding()
            + self.expected_connection_length_range.encoding() + seq![
            self.identifier,
            if self.accepted {
                1u8
            } else {
                0u8
            },
        ]
    }

    /// Serialize the parameters into the given buffer, which they fill.
    pub fn copy_into_slice(&self, bytes: &mut [u8])
        requires
            old(bytes)@.len() == Self::LENGTH,
        ensures
            final(bytes)@ == self.encoding(),
    {
        write_u16_le(bytes, 0, self.conn_handle.0);
        self.conn_interval.copy_into_slice_at(bytes, 2);
        self.expected_connection_length_range.copy_into_slice_at(bytes, 10);
        bytes[14] = self.identifier;
        bytes[15] = if self.accepted {
            1
        } else {
            0
        };
        assert(bytes@ =~= self.encoding());
    }
}

/// Parameters of a Credit-Based Connection Request on the specified
/// connection.
///
/// See Bluetooth spec. v.5.4 [Vol 3, Part A].
#[derive(Debug, Clone, Copy)]
pub struct L2CapCocConnect {
    /// handle of the connection where this event occured.
    pub conn_handle: ConnectionHandle,
    /// Simplified Protocol/Service Multiplexer
    ///
    /// Values:
    /// - 0x0000 .. 0x00FF
    pub spsm: u16,
    /// Maximum Transmission Unit
    ///
    /// Values:
    /// - 23 .. 65535
    pub mtu: u16,
    /// Maximum Payload Size (in octets)
    ///
    /// Values:
    /// - 23 .. 248
    pub mps: u16,
    /// Number of K-frames that can be received on the created channel(s) by
    /// the L2CAP layer entity sending this packet.
    ///
    /// Values:
    /// - 0 .. 65535
    pub initial_credits: u16,
    /// Number of channels to be created. If this parameter is
    /// set to 0, it requests the creation of one LE credit based connection-
    /// oriented channel. Otherwise, it requests the creation of one or more
    /// enhanced credit based connection-oriented channels.
    ///
    /// Values:
    /// - 0 .. 5
    pub channel_number: u8,
}

impl L2CapCocConnect {
    /// Number of bytes of the parameters on the wire.
    pub const LENGTH: usize = 11;

    /// The parameters on the wire: handle, SPSM, MTU, MPS and initial credits
    /// as little-endian 16-bit values, then the number of channels.
    pub open spec fn encoding(&self) -> Seq<u8> {
        le_bytes_u16(self.conn_handle.0) + le_bytes_u16(self.spsm) + le_bytes_u16(self.mtu)
            + le_bytes_u16(self.mps) + le_bytes_u16(self.initial_credits) + seq![
            self.channel_number,
        ]
    }

    /// Serialize the parameters into the given buffer, which they fill.
    pub fn copy_into_slice(&self, bytes: &mut [u8])
        requires
            old(bytes)@.len() == Self::LENGTH,
        ensures
            final(bytes)@ == self.encoding(),
    {
        write_u16_le(bytes, 0, self.conn_handle.0);
        write_u16_le(bytes, 2, self.spsm);
        write_u16_le(bytes, 4, self.mtu);
        write_u16_le(bytes, 6, self.mps);
        write_u16_le(bytes, 8, self.initial_credits);
        bytes[10] = self.channel_number;
        assert(bytes@ =~= self.encoding());
    }
}

/// Two connection requests with the same bytes on the wire have the same
/// fields.
pub proof fn lemma_coc_connect_encoding_injective(a: L2CapCocConnect, b: L2CapCocConnect)
    requires
        a.encoding() == b.encoding(),
    ensures
        a.conn_handle == b.conn_handle,
        a.spsm == b.spsm,
        a.mtu == b.mtu,
        a.mps == b.mps,
        a.initial_credits == b.initial_credits,
        a.channel_number == b.channel_number,
{
    lemma_coc_connect_fields(a);
    lemma_coc_connect_fields(b);
}

/// Each field of a connection request can be read back from its encoding.
pub proof fn lemma_coc_connect_fields(a: L2CapCocConnect)
    ensures
        a.encoding().len() == L2CapCocConnect::LENGTH,
        a.conn_handle.0 == u16_from_le_bytes(a.encoding()),
        a.spsm == u16_from_le_bytes(a.encoding().skip(2)),
        a.mtu == u16_from_le_bytes(a.encoding().skip(4)),
        a.mps == u16_from_le_bytes(a.encoding().skip(6)),
        a.initial_credits == u16_from_le_bytes(a.encoding().skip(8)),
        a.channel_number == a.encoding()[10],
{
    let e = a.encoding();
    assert(e[0] == le_bytes_u16(a.conn_handle.0)[0] && e[1] == le_bytes_u16(a.conn_handle.0)[1]);
    assert(e[2] == le_bytes_u16(a.spsm)[0] && e[3] == le_bytes_u16(a.spsm)[1]);
    assert(e[4] == le_bytes_u16(a.mtu)[0] && e[5] == le_bytes_u16(a.mtu)[1]);
    assert(e[6] == le_bytes_u16(a.mps)[0] && e[7] == le_bytes_u16(a.mps)[1]);
    assert(e[8] == le_bytes_u16(a.initial_credits)[0] && e[9] == le_bytes_u16(
        a.initial_credits,
    )[1]);
}

/// Parameters of a Credit-Based Connection Response.
///
/// See Bluetooth spec. v.5.4 [Vol 3, Part A].
#[derive(Debug, Clone, Copy)]
pub struct L2CapCocConnectConfirm {
    /// handle of the connection where this event occured.
    pub conn_handle: ConnectionHandle,
    /// Maximum Transmission Unit
    ///
    /// Values:
    /// - 23 .. 65535
    pub mtu: u16,
    /// Maximum Payload Size (in octets)
    ///
    /// Values:
    /// - 23 .. 248
    pub mps: u16,
    /// Number of K-frames that can be received on the created channel(s) by
    /// the L2CAP layer entity sending this packet.
    ///
    /// Values:
    /// - 0 .. 65535
    pub initial_credits: u16,
    /// This parameter indicates the outcome of the request. A value of 0x0000
    /// indicates success while a non zero value indicates the request is refused
    ///
    /// Values:
    /// - 0x0000 .. 0x000C
    pub result: u16,
    /// Number of channels to be created. If this parameter is
    /// set to 0, it requests the creation of one LE credit based connection-
    /// oriented channel. Otherwise, it requests the creation of one or more
    /// enhanced credit based connection-oriented channels.
    ///
    /// Values:
    /// - 0 .. 5
    pub channel_number: u8,
    /// List of channel indexes for which the primitives apply.
    pub channel_index_list: [u8; 246],
}

impl L2CapCocConnectConfirm {
    /// Least number of bytes that a buffer for the parameters holds.
    pub const MAX_LENGTH: usize = 258;

    /// The fixed fields on the wire: handle, MTU, MPS, initial credits and
    /// result as little-endian 16-bit values, then the number of channels.
    pub open spec fn header(&self) -> Seq<u8> {
        le_bytes_u16(self.conn_handle.0) + le_bytes_u16(self.mtu) + le_bytes_u16(self.mps)
            + le_bytes_u16(self.initial_credits) + le_bytes_u16(self.result) + seq![
            self.channel_number,
        ]
    }

    /// The parameters on the wire: the fixed fields, then the whole channel
    /// index table.
    pub open spec fn encoding(&self) -> Seq<u8> {
        self.header() + self.channel_index_list@
    }

    /// Number of bytes at the front of the encoding that are in use: the fixed
    /// fields and one table entry for each channel.
    pub open spec fn used_length(&self) -> nat {
        if self.channel_number <= CHANNEL_INDEX_LIST_LENGTH {
            (11 + self.channel_number) as nat
        } else {
            (11 + CHANNEL_INDEX_LIST_LENGTH) as nat
        }
    }

    /// Number of bytes to transmit: the fixed fields and one table entry for
    /// each channel, never more than the table holds.
    pub fn length(&self) -> (r: usize)
        ensures
            r == self.used_length(),
            11 <= r <= self.encoding().len(),
            r < Self::MAX_LENGTH,
    {
        let channels: usize = self.channel_number as usize;
        if channels <= CHANNEL_INDEX_LIST_LENGTH {
            11 + channels
        } else {
            11 + CHANNEL_INDEX_LIST_LENGTH
        }
    }

    /// Serialize the parameters into the given buffer, from its first byte on.
    /// Bytes behind the channel index table are left alone.
    pub fn copy_into_slice(&self, bytes: &mut [u8])
        requires
            old(bytes)@.len() >= Self::MAX_LENGTH,
        ensures
            final(bytes)@ == overlay(old(bytes)@, 0, self.encoding()),
            self.encoding().len() == 11 + CHANNEL_INDEX_LIST_LENGTH,
    {
        write_u16_le(bytes, 0, self.conn_handle.0);
        write_u16_le(bytes, 2, self.mtu);
        write_u16_le(bytes, 4, self.mps);
        write_u16_le(bytes, 6, self.initial_credits);
        write_u16_le(bytes, 8, self.result);
        bytes[10] = self.channel_number;
        copy_bytes(bytes, 11, self.channel_index_list.as_slice());
        assert(bytes@ =~= overlay(old(bytes)@, 0, self.encoding()));
    }
}

/// Parameters of a Credit-Based Reconfigure Request.
///
/// See Bluetooth spec. v.5.4 [Vol 3, Part A].
#[derive(Debug, Clone, Copy)]
pub struct L2CapCocReconfig {
    /// handle of the connection where this event occured.
    pub conn_handle: ConnectionHandle,
    /// Maximum Transmission Unit
    ///
    /// Values:
    /// - 23 .. 65535
    pub mtu: u16,
    /// Maximum Payload Size (in octets)
    ///
    /// Values:
    /// - 23 .. 248
    pub mps: u16,
    /// Number of channels to be created. If this parameter is
    /// set to 0, it requests the creation of one LE credit based connection-
    /// oriented channel. Otherwise, it requests the creation of one or more
    /// enhanced credit based connection-oriented channels.
    ///
    /// Values:
    /// - 0 .. 5
    pub channel_number: u8,
    /// List of channel indexes for which the primitives apply.
    pub channel_index_list: [u8; 246],
}

impl L2CapCocReconfig {
    /// Least number of bytes that a buffer for the parameters holds.
    pub const MAX_LENGTH: usize = 254;

    /// The fixed fields on the wire: handle, MTU and MPS as little-endian
    /// 16-bit values, then the number of channels.
    pub open spec fn header(&self) -> Seq<u8> {
        le_bytes_u16(self.conn_handle.0) + le_bytes_u16(self.mtu) + le_bytes_u16(self.mps)
            + seq![self.channel_number]
    }

    /// The parameters on the wire: the fixed fields, then the whole channel
    /// index table.
    pub open spec fn encoding(&self) -> Seq<u8> {
        self.header() + self.channel_index_list@
    }

    /// Number of bytes at the front of the encoding that are in use: the fixed
    /// fields and one table entry for each channel.
    pub open spec fn used_length(&self) -> nat {
        if self.channel_number <= CHANNEL_INDEX_LIST_LENGTH {
            (7 + self.channel_number) as nat
        } else {
            (7 + CHANNEL_INDEX_LIST_LENGTH) as nat
        }
    }

    /// Number of bytes to transmit: the fixed fields and one table entry for
    /// each channel, never more than the table holds.
    pub fn length(&self) -> (r: usize)
        ensures
            r == self.used_length(),
            7 <= r <= self.encoding().len(),
            r < Self::MAX_LENGTH,
    {
        let channels: usize = self.channel_number as usize;
        if channels <= CHANNEL_INDEX_LIST_LENGTH {
            7 + channels
        } else {
            7 + CHANNEL_INDEX_LIST_LENGTH
        }
    }

    /// Serialize the parameters into the given buffer, from its first byte on.
    /// Bytes behind the channel index table are left alone.
    pub fn copy_into_slice(&self, bytes: &mut [u8])
        requires
            old(bytes)@.len() >= Self::MAX_LENGTH,
        ensures
            final(bytes)@ == overlay(old(bytes)@, 0, self.encoding()),
            self.encoding().len() == 7 + CHANNEL_INDEX_LIST_LENGTH,
    {
        write_u16_le(bytes, 0, self.conn_handle.0);
        write_u16_le(bytes, 2, self.mtu);
        write_u16_le(bytes, 4, self.mps);
        bytes[6] = self.channel_number;
        copy_bytes(bytes, 7, self.channel_index_list.as_slice());
        assert(bytes@ =~= overlay(old(bytes)@, 0, self.encoding()));
    }
}

} // verus!
