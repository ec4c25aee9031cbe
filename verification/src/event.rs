//! Event packets: an event code, the length of the parameters, the parameters.

use crate::opcode::Opcode;
use crate::wire::{le_bytes_u16, read_u16_le, u16_from_le_bytes};
use vstd::prelude::*;

verus! {

/// Number of bytes in front of the parameters of an event packet.
pub const HEADER_LENGTH: usize = 2;

/// Event code of a Command Complete event.
pub const COMMAND_COMPLETE: u8 = 0x0e;

/// Event code of a Command Status event.
pub const COMMAND_STATUS: u8 = 0x0f;

/// Event code of an event that the vendor defines.
pub const VENDOR: u8 = 0xff;

/// An event as the controller reports it. Parameters that this layer does not
/// take apart are handed on as they came.
#[derive(Clone, Copy, Debug)]
pub enum Event<'a> {
    /// The controller has finished a command.
    CommandComplete {
        /// Number of command packets that the host may send now.
        num_hci_command_packets: u8,
        /// The command that has finished.
        opcode: Opcode,
        /// What the command returned, its status first.
        return_params: &'a [u8],
    },
    /// The controller has received a command and begun to carry it out.
    CommandStatus {
        /// Zero while the command is pending, else the reason it failed.
        status: u8,
        /// Number of command packets that the host may send now.
        num_hci_command_packets: u8,
        /// The command that the status is about.
        opcode: Opcode,
    },
    /// An event that the vendor defines.
    Vendor {
        /// Tells which of the vendor's events this is.
        code: u16,
        /// The parameters behind the code.
        params: &'a [u8],
    },
    /// An event with a code that this layer has no model for.
    Unrecognized {
        /// The event code.
        code: u8,
        /// The parameters of the event.
        params: &'a [u8],
    },
}

/// What an [`Event`] holds, with every run of bytes as a sequence.
pub enum EventContent {
    /// See [`Event::CommandComplete`].
    CommandComplete { num_hci_command_packets: u8, opcode: Opcode, return_params: Seq<u8> },
    /// See [`Event::CommandStatus`].
    CommandStatus { status: u8, num_hci_command_packets: u8, opcode: Opcode },
    /// See [`Event::Vendor`].
    Vendor { code: u16, params: Seq<u8> },
    /// See [`Event::Unrecognized`].
    Unrecognized { code: u8, params: Seq<u8> },
}

impl<'a> View for Event<'a> {
    type V = EventContent;

    open spec fn view(&self) -> EventContent {
        match *self {
            Event::CommandComplete { num_hci_command_packets, opcode, return_params } => {
                EventContent::CommandComplete {
                    num_hci_command_packets,
                    opcode,
                    return_params: return_params@,
                }
            },
            Event::CommandStatus { status, num_hci_command_packets, opcode } => {
                EventContent::CommandStatus { status, num_hci_command_packets, opcode }
            },
            Event::Vendor { code, params } => EventContent::Vendor { code, params: params@ },
            Event::Unrecognized { code, params } => EventContent::Unrecognized {
                code,
                params: params@,
            },
        }
    }
}

/// Why a packet is no event.
#[derive(Clone, Copy, Debug, PartialEq, Eq)]
pub enum EventError {
    /// The packet is shorter than the header of an event. Includes the length
    /// of the packet.
    MissingHeader(usize),
    /// The length byte does not give the number of bytes behind the header.
    /// Includes the number that the length byte announces and the number of
    /// bytes that are there.
    BadLength(usize, usize),
    /// The parameters do not have the length that the event with this code
    /// takes. Includes the event code and the number of parameter bytes.
    BadParameterLength(u8, usize),
}

/// The event that a packet holds, or the reason why it holds none.
pub open spec fn decode(packet: Seq<u8>) -> Result<EventContent, EventError> {
    if packet.len() < HEADER_LENGTH {
        Err(EventError::MissingHeader(packet.len() as usize))
    } else if packet[1] != packet.len() - HEADER_LENGTH {
        Err(EventError::BadLength(packet[1] as usize, (packet.len() - HEADER_LENGTH) as usize))
    } else {
        decode_parameters(packet[0], packet.skip(HEADER_LENGTH as int))
    }
}

/// The event with the given code and parameters, or the reason why there is
/// none. A code without a model gives an unrecognized event, never an error.
pub open spec fn decode_parameters(code: u8, params: Seq<u8>) -> Result<
    EventContent,
    EventError,
> {
    if code == COMMAND_COMPLETE {
        if params.len() < 3 {
            Err(EventError::BadParameterLength(code, params.len() as usize))
        } else {
            Ok(
                EventContent::CommandComplete {
                    num_hci_command_packets: params[0],
                    opcode: Opcode(u16_from_le_bytes(params.skip(1)) as u16),
                    return_params: params.skip(3),
                },
            )
        }
    } else if code == COMMAND_STATUS {
        if params.len() != 4 {
            Err(EventError::BadParameterLength(code, params.len() as usize))
        } else {
            Ok(
                EventContent::CommandStatus {
                    status: params[0],
                    num_hci_command_packets: params[1],
                    opcode: Opcode(u16_from_le_bytes(params.skip(2)) as u16),
                },
            )
        }
    } else if code == VENDOR {
        if params.len() < 2 {
            Err(EventError::BadParameterLength(code, params.len() as usize))
        } else {
            Ok(
                EventContent::Vendor {
                    code: u16_from_le_bytes(params) as u16,
                    params: params.skip(2),
                },
            )
        }
    } else {
        Ok(EventContent::Unrecognized { code, params })
    }
}

/// The event code that an event travels under.
pub open spec fn event_code(event: EventContent) -> u8 {
    match event {
        EventContent::CommandComplete { .. } => COMMAND_COMPLETE,
        EventContent::CommandStatus { .. } => COMMAND_STATUS,
        EventContent::Vendor { .. } => VENDOR,
        EventContent::Unrecognized { code, .. } => code,
    }
}

/// The parameter bytes of an event, 16-bit fields in little-endian order.
pub open spec fn event_parameters(event: EventContent) -> Seq<u8> {
    match event {
        EventContent::CommandComplete { num_hci_command_packets, opcode, return_params } => {
            seq![num_hci_command_packets] + le_bytes_u16(opcode.0) + return_params
        },
        EventContent::CommandStatus { status, num_hci_command_packets, opcode } => {
            seq![status, num_hci_command_packets] + le_bytes_u16(opcode.0)
        },
        EventContent::Vendor { code, params } => le_bytes_u16(code) + params,
        EventContent::Unrecognized { params, .. } => params,
    }
}

/// The packet that carries an event: its code, the number of its parameter
/// bytes, and the parameters.
pub open spec fn event_packet(event: EventContent) -> Seq<u8> {
    seq![event_code(event), event_parameters(event).len() as u8] + event_parameters(event)
}

/// Whether an event fits a packet: its parameters are not longer than the
/// length byte can say, and an unrecognized event does not carry the code of
/// a recognized one.
pub open spec fn fits_packet(event: EventContent) -> bool {
    &&& event_parameters(event).len() <= 255
    &&& event matches EventContent::Unrecognized { code, .. } ==> code != COMMAND_COMPLETE
        && code != COMMAND_STATUS && code != VENDOR
}

/// Decoding the packet that carries an event gives that event back.
pub proof fn lemma_event_round_trip(event: EventContent)
    requires
        fits_packet(event),
    ensures
        decode(event_packet(event)) == Ok::<EventContent, EventError>(event),
{
    let params = event_parameters(event);
    let packet = event_packet(event);
    assert(packet.skip(HEADER_LENGTH as int) =~= params);
    match event {
        EventContent::CommandComplete { num_hci_command_packets, opcode, return_params } => {
            assert(params.skip(3) =~= return_params);
            assert(params.skip(1)[0] == le_bytes_u16(opcode.0)[0]);
            assert(params.skip(1)[1] == le_bytes_u16(opcode.0)[1]);
        },
        EventContent::CommandStatus { status, num_hci_command_packets, opcode } => {
            assert(params.skip(2)[0] == le_bytes_u16(opcode.0)[0]);
            assert(params.skip(2)[1] == le_bytes_u16(opcode.0)[1]);
        },
        EventContent::Vendor { code, params: rest } => {
            assert(params.skip(2) =~= rest);
            assert(params[0] == le_bytes_u16(code)[0]);
            assert(params[1] == le_bytes_u16(code)[1]);
        },
        EventContent::Unrecognized { .. } => {},
    }
}

impl<'a> Event<'a> {
    /// Reads the event that `packet` holds: the event code, the length byte,
    /// and as many parameter bytes as the length byte says.
    ///
    /// # Errors
    ///
    /// - [MissingHeader](EventError::MissingHeader) if the packet has fewer
    ///   than two bytes.
    /// - [BadLength](EventError::BadLength) if the length byte is not the
    ///   number of bytes behind it.
    /// - [BadParameterLength](EventError::BadParameterLength) if a Command
    ///   Complete event has fewer than three parameter bytes, a Command Status
    ///   event other than four, or a vendor event fewer than two.
    pub fn new(packet: &'a [u8]) -> (r: Result<Event<'a>, EventError>)
        ensures
            match r {
                Ok(event) => decode(packet@) == Ok::<EventContent, EventError>(event@),
                Err(e) => decode(packet@) == Err::<EventContent, EventError>(e),
            },
    {
        let len: usize = packet.len();
        if len < HEADER_LENGTH {
            return Err(EventError::MissingHeader(len));
        }
        let announced: usize = packet[1] as usize;
        let n: usize = len - HEADER_LENGTH;
        if announced != n {
            return Err(EventError::BadLength(announced, n));
        }
        let code: u8 = packet[0];
        proof {
            let params = packet@.skip(HEADER_LENGTH as int);
            assert(n >= 3 ==> params.skip(1) =~= packet@.skip(3));
            assert(n >= 3 ==> params.skip(3) =~= packet@.subrange(5, len as int));
            assert(n >= 2 ==> params.skip(2) =~= packet@.subrange(4, len as int));
            assert(params =~= packet@.subrange(2, len as int));
        }
        if code == COMMAND_COMPLETE {
            if n < 3 {
                return Err(EventError::BadParameterLength(code, n));
            }
            Ok(
                Event::CommandComplete {
                    num_hci_command_packets: packet[2],
                    opcode: Opcode(read_u16_le(packet, 3)),
                    return_params: &packet[5..len],
                },
            )
        } else if code == COMMAND_STATUS {
            if n != 4 {
                return Err(EventError::BadParameterLength(code, n));
            }
            Ok(
                Event::CommandStatus {
                    status: packet[2],
                    num_hci_command_packets: packet[3],
                    opcode: Opcode(read_u16_le(packet, 4)),
                },
            )
        } else if code == VENDOR {
            if n < 2 {
                return Err(EventError::BadParameterLength(code, n));
            }
            Ok(
                Event::Vendor {
                    code: read_u16_le(packet, 2),
                    params: &packet[4..len],
                },
            )
        } else {
            Ok(Event::Unrecognized { code, params: &packet[2..len] })
        }
    }
}

} // verus!
