//! Types for extended advertising: interval ranges, advertising sets and the
//! small enumerations that go with them.

use crate::handle::AdvertisingHandle;
use crate::time::{duration_nanos, lemma_ticks_monotonic, ticks};
use crate::wire::{
    le_bytes_u16, le_bytes_u32, lemma_overlay_append, overlay, write_u16_le, write_u32_le,
};
use core::time::Duration;
use vstd::prelude::*;

pub use crate::types::flags::{AdvertisingEvent, AdvertisingMode};

verus! {

/// Shortest extended advertising interval, 20 ms, in nanoseconds.
pub const MIN_INTERVAL_NANOS: u128 = 20_000_000;

/// Longest extended advertising interval, 10.485759375 s, in nanoseconds.
pub const MAX_INTERVAL_NANOS: u128 = 10_485_759_375;

/// Potential errors that can occur when specifying an
/// [`ExtendedAdvertisingInterval`].
#[derive(Copy, Clone, Debug, PartialEq)]
pub enum ExtendedAdvertisingIntervalError {
    /// The minimum value was too short. Includes the invalid value.
    TooShort(Duration),
    /// The maximum value was too long. Includes the invalid value.
    TooLong(Duration),
    /// The minimum value was greater than the maximum value. Includes the
    /// provided minimum and maximum, respectively.
    Inverted(Duration, Duration),
}

/// The error that the pair `(min, max)` is rejected with, if it is rejected.
/// The minimum is looked at first, then the maximum, then their order.
pub open spec fn range_error(min: Duration, max: Duration) -> Option<
    ExtendedAdvertisingIntervalError,
> {
    if duration_nanos(min) < MIN_INTERVAL_NANOS {
        Some(ExtendedAdvertisingIntervalError::TooShort(min))
    } else if duration_nanos(max) > MAX_INTERVAL_NANOS {
        Some(ExtendedAdvertisingIntervalError::TooLong(max))
    } else if duration_nanos(min) > duration_nanos(max) {
        Some(ExtendedAdvertisingIntervalError::Inverted(min, max))
    } else {
        None
    }
}

/// Controller ticks of a duration, as the 32-bit field that carries them.
pub open spec fn ticks_u32(d: Duration) -> u32 {
    ticks(duration_nanos(d) as nat) as u32
}

/// The eight bytes of an interval range on the wire: the ticks of the minimum,
/// then the ticks of the maximum, each as a little-endian 32-bit value.
pub open spec fn interval_encoding(min: Duration, max: Duration) -> Seq<u8> {
    le_bytes_u32(ticks_u32(min)) + le_bytes_u32(ticks_u32(max))
}

/// Define an extended advertising interval range.
///
/// The advertising interval min shall be less than or equal to the advertising
/// interval max. The two should not be the same value, so that the controller
/// can pick the best interval given its other activities, though equal values
/// are accepted.
#[derive(Clone, Copy, Debug)]
pub struct ExtendedAdvertisingInterval {
    /// The first field is the min, the second is the max
    interval: (Duration, Duration),
}

impl ExtendedAdvertisingInterval {
    /// Number of bytes that [`copy_into_slice`](Self::copy_into_slice) writes.
    pub const LENGTH: usize = 8;

    #[verifier::type_invariant]
    spec fn in_range(&self) -> bool {
        range_error(self.interval.0, self.interval.1) is None
    }

    /// The lower end of the range, as it was given.
    pub closed spec fn min(&self) -> Duration {
        self.interval.0
    }

    /// The upper end of the range, as it was given.
    pub closed spec fn max(&self) -> Duration {
        self.interval.1
    }

    /// Creates an advertising interval with the provided minimum and maximum
    /// values, which are stored as they are.
    ///
    /// # Errors
    ///
    /// - [TooShort](ExtendedAdvertisingIntervalError::TooShort) if the minimum
    ///   is below 20 ms.
    /// - [TooLong](ExtendedAdvertisingIntervalError::TooLong) if the maximum is
    ///   above 10.485759375 s.
    /// - [Inverted](ExtendedAdvertisingIntervalError::Inverted) if the minimum is
    ///   greater than the maximum.
    pub fn with_range(min: Duration, max: Duration) -> (r: Result<
        Self,
        ExtendedAdvertisingIntervalError,
    >)
        ensures
            match range_error(min, max) {
                Some(e) => r == Err::<Self, ExtendedAdvertisingIntervalError>(e),
                None => r is Ok && r->Ok_0.min() == min && r->Ok_0.max() == max,
            },
    {
        if min.as_nanos() < MIN_INTERVAL_NANOS {
            return Err(ExtendedAdvertisingIntervalError::TooShort(min));
        }
        if max.as_nanos() > MAX_INTERVAL_NANOS {
            return Err(ExtendedAdvertisingIntervalError::TooLong(max));
        }
        if min.as_nanos() > max.as_nanos() {
            return Err(ExtendedAdvertisingIntervalError::Inverted(min, max));
        }
        Ok(Self { interval: (min, max) })
    }

    /// Converts a duration to controller ticks: T = 0.625 ms * N, so
    /// N = T / 625 us, and one second holds 1600 ticks.
    pub fn duration_as_u32(d: Duration) -> (r: u32)
        requires
            ticks(duration_nanos(d) as nat) <= u32::MAX,
        ensures
            r == ticks(duration_nanos(d) as nat),
    {
        let secs: u64 = d.as_secs();
        let micros: u32 = d.subsec_micros();
        assert(1600 * secs <= u32::MAX);
        1600 * (secs as u32) + micros / 625
    }

    /// Serialize the interval into the given buffer.
    ///
    /// Serializes the minimum of the interval (4 bytes), then the maximum of the
    /// interval (4 bytes). Bytes behind the first eight are left alone.
    pub fn copy_into_slice(&self, bytes: &mut [u8])
        requires
            old(bytes)@.len() >= Self::LENGTH,
        ensures
            final(bytes)@ == overlay(old(bytes)@, 0, interval_encoding(self.min(), self.max())),
    {
        proof {
            use_type_invariant(self);
            lemma_valid_range_ticks(self.interval.0, self.interval.1);
            lemma_overlay_append(
                old(bytes)@,
                0,
                le_bytes_u32(ticks_u32(self.interval.0)),
                le_bytes_u32(ticks_u32(self.interval.1)),
            );
        }
        write_u32_le(bytes, 0, Self::duration_as_u32(self.interval.0));
        write_u32_le(bytes, 4, Self::duration_as_u32(self.interval.1));
    }
}

/// Every pair with 20 ms <= min <= max <= 10.485759375 s is accepted, its tick
/// counts lie between 32 and 16777, and its encoding is the ticks of the
/// minimum followed by the ticks of the maximum, each as four little-endian
/// bytes.
pub proof fn lemma_valid_range_ticks(min: Duration, max: Duration)
    requires
        MIN_INTERVAL_NANOS <= duration_nanos(min) <= duration_nanos(max) <= MAX_INTERVAL_NANOS,
    ensures
        range_error(min, max) is None,
        32 <= ticks(duration_nanos(min) as nat) <= ticks(duration_nanos(max) as nat) <= 16777,
        ticks_u32(min) == ticks(duration_nanos(min) as nat),
        ticks_u32(max) == ticks(duration_nanos(max) as nat),
        interval_encoding(min, max).len() == 8,
        interval_encoding(min, max).subrange(0, 4) == le_bytes_u32(ticks_u32(min)),
        interval_encoding(min, max).subrange(4, 8) == le_bytes_u32(ticks_u32(max)),
{
    lemma_ticks_monotonic(duration_nanos(min) as nat, duration_nanos(max) as nat);
    lemma_ticks_monotonic(MIN_INTERVAL_NANOS as nat, duration_nanos(min) as nat);
    lemma_ticks_monotonic(duration_nanos(max) as nat, MAX_INTERVAL_NANOS as nat);
    assert(ticks(MIN_INTERVAL_NANOS as nat) == 32);
    assert(ticks(MAX_INTERVAL_NANOS as nat) == 16777);
    assert(interval_encoding(min, max).subrange(0, 4) =~= le_bytes_u32(ticks_u32(min)));
    assert(interval_encoding(min, max).subrange(4, 8) =~= le_bytes_u32(ticks_u32(max)));
}

/// Which error a rejected pair gets: a minimum below 20 ms is reported first,
/// whatever the maximum; then a maximum above 10.485759375 s; then a minimum
/// above the maximum.
pub proof fn lemma_range_error_cases(min: Duration, max: Duration)
    ensures
        duration_nanos(min) < MIN_INTERVAL_NANOS ==> range_error(min, max) == Some(
            ExtendedAdvertisingIntervalError::TooShort(min),
        ),
        duration_nanos(min) >= MIN_INTERVAL_NANOS && duration_nanos(max) > MAX_INTERVAL_NANOS
            ==> range_error(min, max) == Some(ExtendedAdvertisingIntervalError::TooLong(max)),
        duration_nanos(min) >= MIN_INTERVAL_NANOS && duration_nanos(max) <= MAX_INTERVAL_NANOS
            && duration_nanos(min) > duration_nanos(max) ==> range_error(min, max) == Some(
            ExtendedAdvertisingIntervalError::Inverted(min, max),
        ),
        range_error(min, max) is None <==> MIN_INTERVAL_NANOS <= duration_nanos(min)
            <= duration_nanos(max) <= MAX_INTERVAL_NANOS,
{
}

/// Advertising PHY
#[derive(Clone, Copy, Debug, PartialEq, Eq, Structural)]
pub enum AdvertisingPhy {
    /// Advertisement PHY is LE 1M
    Le1M,
    /// Advertisement PHY is LE 2M
    Le2M,
}

impl AdvertisingPhy {
    /// The value that stands for this PHY on the wire.
    pub open spec fn wire_value(self) -> u8 {
        match self {
            AdvertisingPhy::Le1M => 0x01,
            AdvertisingPhy::Le2M => 0x02,
        }
    }

    /// The value that stands for this PHY on the wire.
    pub fn as_u8(self) -> (r: u8)
        ensures
            r == self.wire_value(),
    {
        match self {
            AdvertisingPhy::Le1M => 0x01,
            AdvertisingPhy::Le2M => 0x02,
        }
    }
}

/// Advertising set
#[derive(Clone, Copy, Debug, PartialEq, Eq, Structural)]
pub struct AdvSet {
    /// Used to identify an advertising set
    pub handle: AdvertisingHandle,
    /// Duration of advertising set.
    ///
    /// Values:
    /// - 0x0000 (0 ms) : No advertising duration.
    /// - 0x0001 (10 ms)  ... 0xFFFF (655350 ms) : Advertising duration
    pub duration: u16,
    /// Maximum number of advertising events.
    ///
    /// Values:
    /// - 0x00: No maximum number of advertising events
    /// - 0x01 .. 0xFF: Maximum number of extended advertising events the
    ///   Controller shall attempt to send prior to terminating the extended
    ///   advertising
    pub max_extended_adv_events: u8,
}

impl AdvSet {
    /// Number of bytes that [`copy_into_slice`](Self::copy_into_slice) writes.
    pub const LENGTH: usize = 4;

    /// The four bytes of the set on the wire: the handle, the duration as a
    /// little-endian 16-bit value, and the maximum number of events.
    pub open spec fn encoding(&self) -> Seq<u8> {
        seq![self.handle.0] + le_bytes_u16(self.duration) + seq![self.max_extended_adv_events]
    }

    /// Serialize the set into the first four bytes of the given buffer. Bytes
    /// behind them are left alone.
    pub fn copy_into_slice(&self, bytes: &mut [u8])
        requires
            old(bytes)@.len() >= Self::LENGTH,
        ensures
            final(bytes)@ == overlay(old(bytes)@, 0, self.encoding()),
            self.encoding().len() == Self::LENGTH,
    {
        bytes[0] = self.handle.0;
        write_u16_le(bytes, 1, self.duration);
        bytes[3] = self.max_extended_adv_events;
        assert(bytes@ =~= overlay(old(bytes)@, 0, self.encoding()));
    }
}

/// Two advertising sets with the same four bytes on the wire are the same set.
pub proof fn lemma_adv_set_encoding_injective(a: AdvSet, b: AdvSet)
    requires
        a.encoding() == b.encoding(),
    ensures
        a == b,
{
    assert(a.encoding()[1] == le_bytes_u16(a.duration)[0]);
    assert(a.encoding()[2] == le_bytes_u16(a.duration)[1]);
    assert(b.encoding()[1] == le_bytes_u16(b.duration)[0]);
    assert(b.encoding()[2] == le_bytes_u16(b.duration)[1]);
    assert(a.encoding()[0] == a.handle.0 && b.encoding()[0] == b.handle.0);
    assert(a.encoding()[3] == a.max_extended_adv_events);
    assert(b.encoding()[3] == b.max_extended_adv_events);
}

/// Advertising Operation
#[derive(Clone, Copy, Debug, PartialEq, Eq, Structural)]
pub enum AdvertisingOperation {
    /// Intermediate fragment of fragmented extended advertising data
    IntermediateFragment,
    /// First fragment of fragmented extended advertising data
    FirstFragment,
    /// Last fragment of fragmented extended advertising data
    LastFragment,
    /// Complete extended advertising data
    CompleteData,
    /// Unchanged data (just update the advertising DID)
    UnchangedData,
}

impl AdvertisingOperation {
    /// The value that stands for this operation on the wire.
    pub open spec fn wire_value(self) -> u8 {
        match self {
            AdvertisingOperation::IntermediateFragment => 0x00,
            AdvertisingOperation::FirstFragment => 0x01,
            AdvertisingOperation::LastFragment => 0x02,
            AdvertisingOperation::CompleteData => 0x03,
            AdvertisingOperation::UnchangedData => 0x04,
        }
    }

    /// The value that stands for this operation on the wire.
    pub fn as_u8(self) -> (r: u8)
        ensures
            r == self.wire_value(),
    {
        match self {
            AdvertisingOperation::IntermediateFragment => 0x00,
            AdvertisingOperation::FirstFragment => 0x01,
            AdvertisingOperation::LastFragment => 0x02,
            AdvertisingOperation::CompleteData => 0x03,
            AdvertisingOperation::UnchangedData => 0x04,
        }
    }
}

} // verus!
