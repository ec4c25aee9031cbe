//! Connection timing parameters: the connection interval range with latency
//! and supervision timeout, and the expected length of a connection event.

use crate::time::duration_nanos;
use crate::wire::{le_bytes_u16, overlay, write_u16_le};
use core::time::Duration;
use vstd::prelude::*;

verus! {

/// Shortest connection interval, 7.5 ms, in nanoseconds.
pub const INTERVAL_MIN_NANOS: u128 = 7_500_000;

/// Longest connection interval, 4 s, in nanoseconds.
pub const INTERVAL_MAX_NANOS: u128 = 4_000_000_000;

/// Greatest number of connection events that a peripheral may skip.
pub const LATENCY_MAX: u16 = 499;

/// Shortest supervision timeout, 100 ms, in nanoseconds.
pub const TIMEOUT_MIN_NANOS: u128 = 100_000_000;

/// Longest supervision timeout, 32 s, in nanoseconds.
pub const TIMEOUT_MAX_NANOS: u128 = 32_000_000_000;

/// Longest expected connection event, 65535 ticks of 0.625 ms, in nanoseconds.
pub const LENGTH_MAX_NANOS: u128 = 40_959_375_000;

/// Whole units of 1.25 ms in a span of `nanos` nanoseconds.
pub open spec fn interval_units(nanos: nat) -> nat {
    nanos / 1_250_000
}

/// Whole units of 10 ms in a span of `nanos` nanoseconds.
pub open spec fn timeout_units(nanos: nat) -> nat {
    nanos / 10_000_000
}

/// Whole units of 0.625 ms in a span of `nanos` nanoseconds.
pub open spec fn length_units(nanos: nat) -> nat {
    nanos / 625_000
}

/// Potential errors that can occur when specifying a [`ConnectionInterval`].
#[derive(Copy, Clone, Debug, PartialEq)]
pub enum ConnectionIntervalError {
    /// The minimum interval is below 7.5 ms. Includes the invalid value.
    IntervalTooShort(Duration),
    /// The maximum interval is above 4 s. Includes the invalid value.
    IntervalTooLong(Duration),
    /// The minimum interval is greater than the maximum. Includes the provided
    /// minimum and maximum, respectively.
    IntervalInverted(Duration, Duration),
    /// The connection latency is above 499 events. Includes the invalid value.
    BadConnectionLatency(u16),
    /// The supervision timeout is below 100 ms. Includes the invalid value.
    SupervisionTimeoutTooShort(Duration),
    /// The supervision timeout is above 32 s. Includes the invalid value.
    SupervisionTimeoutTooLong(Duration),
    /// The supervision timeout is not greater than twice the longest time
    /// between two connection events that the peripheral answers, which is
    /// the maximum interval times one more than the latency. Includes the
    /// provided timeout.
    SupervisionTimeoutWithinLatency(Duration),
}

/// The error that the given connection parameters are rejected with, if they
/// are rejected. The interval is looked at first, then the latency, then the
/// supervision timeout.
pub open spec fn connection_interval_error(
    min: Duration,
    max: Duration,
    conn_latency: u16,
    supervision_timeout: Duration,
) -> Option<ConnectionIntervalError> {
    if duration_nanos(min) < INTERVAL_MIN_NANOS {
        Some(ConnectionIntervalError::IntervalTooShort(min))
    } else if duration_nanos(max) > INTERVAL_MAX_NANOS {
        Some(ConnectionIntervalError::IntervalTooLong(max))
    } else if duration_nanos(min) > duration_nanos(max) {
        Some(ConnectionIntervalError::IntervalInverted(min, max))
    } else if conn_latency > LATENCY_MAX {
        Some(ConnectionIntervalError::BadConnectionLatency(conn_latency))
    } else if duration_nanos(supervision_timeout) < TIMEOUT_MIN_NANOS {
        Some(ConnectionIntervalError::SupervisionTimeoutTooShort(supervision_timeout))
    } else if duration_nanos(supervision_timeout) > TIMEOUT_MAX_NANOS {
        Some(ConnectionIntervalError::SupervisionTimeoutTooLong(supervision_timeout))
    } else if duration_nanos(supervision_timeout) <= 2 * (1 + conn_latency) * duration_nanos(max) {
        Some(ConnectionIntervalError::SupervisionTimeoutWithinLatency(supervision_timeout))
    } else {
        None
    }
}

/// Timing of a connection: the range that the connection interval is to be
/// chosen from, the number of connection events that the peripheral may skip,
/// and the time without a packet after which the connection counts as lost.
#[derive(Clone, Copy, Debug)]
pub struct ConnectionInterval {
    interval: (Duration, Duration),
    conn_latency: u16,
    supervision_timeout: Duration,
}

impl ConnectionInterval {
    /// Number of bytes that [`copy_into_slice`](Self::copy_into_slice) writes.
    pub const LENGTH: usize = 8;

    #[verifier::type_invariant]
    spec fn valid(&self) -> bool {
        connection_interval_error(
            self.interval.0,
            self.interval.1,
            self.conn_latency,
            self.supervision_timeout,
        ) is None
    }

    /// The lower end of the interval range, as it was given.
    pub closed spec fn min(&self) -> Duration {
        self.interval.0
    }

    /// The upper end of the interval range, as it was given.
    pub closed spec fn max(&self) -> Duration {
        self.interval.1
    }

    /// Number of connection events that the peripheral may skip.
    pub closed spec fn latency(&self) -> u16 {
        self.conn_latency
    }

    /// The supervision timeout, as it was given.
    pub closed spec fn timeout(&self) -> Duration {
        self.supervision_timeout
    }

    /// The eight bytes of the parameters on the wire, each field a
    /// little-endian 16-bit value: the minimum and the maximum interval in
    /// units of 1.25 ms, the latency, the supervision timeout in units of 10 ms.
    pub open spec fn encoding(&self) -> Seq<u8> {
        le_bytes_u16(interval_units(duration_nanos(self.min()) as nat) as u16) + le_bytes_u16(
            interval_units(duration_nanos(self.max()) as nat) as u16,
        ) + le_bytes_u16(self.latency()) + le_bytes_u16(
            timeout_units(duration_nanos(self.timeout()) as nat) as u16,
        )
    }

    /// Creates the connection parameters from the given values, which are
    /// stored as they are.
    ///
    /// # Errors
    ///
    /// - [IntervalTooShort](ConnectionIntervalError::IntervalTooShort) if the
    ///   minimum is below 7.5 ms.
    /// - [IntervalTooLong](ConnectionIntervalError::IntervalTooLong) if the
    ///   maximum is above 4 s.
    /// - [IntervalInverted](ConnectionIntervalError::IntervalInverted) if the
    ///   minimum is greater than the maximum.
    /// - [BadConnectionLatency](ConnectionIntervalError::BadConnectionLatency)
    ///   if the latency is above 499.
    /// - [SupervisionTimeoutTooShort](ConnectionIntervalError::SupervisionTimeoutTooShort)
    ///   if the timeout is below 100 ms.
    /// - [SupervisionTimeoutTooLong](ConnectionIntervalError::SupervisionTimeoutTooLong)
    ///   if the timeout is above 32 s.
    /// - [SupervisionTimeoutWithinLatency](ConnectionIntervalError::SupervisionTimeoutWithinLatency)
    ///   if the timeout is not greater than
    ///   `2 * (1 + conn_latency) * max`.
    pub fn new(
        min: Duration,
        max: Duration,
        conn_latency: u16,
        supervision_timeout: Duration,
    ) -> (r: Result<Self, ConnectionIntervalError>)
        ensures
            match connection_interval_error(min, max, conn_latency, supervision_timeout) {
                Some(e) => r == Err::<Self, ConnectionIntervalError>(e),
                None => r is Ok && r->Ok_0.min() == min && r->Ok_0.max() == max
                    && r->Ok_0.latency() == conn_latency && r->Ok_0.timeout()
                    == supervision_timeout,
            },
    {
        if min.as_nanos() < INTERVAL_MIN_NANOS {
            return Err(ConnectionIntervalError::IntervalTooShort(min));
        }
        let max_nanos: u128 = max.as_nanos();
        if max_nanos > INTERVAL_MAX_NANOS {
            return Err(ConnectionIntervalError::IntervalTooLong(max));
        }
        if min.as_nanos() > max_nanos {
            return Err(ConnectionIntervalError::IntervalInverted(min, max));
        }
        if conn_latency > LATENCY_MAX {
            return Err(ConnectionIntervalError::BadConnectionLatency(conn_latency));
        }
        let timeout_nanos: u128 = supervision_timeout.as_nanos();
        if timeout_nanos < TIMEOUT_MIN_NANOS {
            return Err(ConnectionIntervalError::SupervisionTimeoutTooShort(supervision_timeout));
        }
        if timeout_nanos > TIMEOUT_MAX_NANOS {
            return Err(ConnectionIntervalError::SupervisionTimeoutTooLong(supervision_timeout));
        }
        let events: u128 = 2 * (1 + conn_latency as u128);
        assert(events * max_nanos <= 1000 * 4_000_000_000) by (nonlinear_arith)
            requires
                events <= 1000,
                max_nanos <= 4_000_000_000,
        ;
        assert(events * max_nanos == 2 * (1 + conn_latency) * max_nanos) by (nonlinear_arith)
            requires
                events == 2 * (1 + conn_latency),
        ;
        if timeout_nanos <= events * max_nanos {
            return Err(
                ConnectionIntervalError::SupervisionTimeoutWithinLatency(supervision_timeout),
            );
        }
        Ok(ConnectionInterval { interval: (min, max), conn_latency, supervision_timeout })
    }

    /// The range of the connection interval: the minimum, then the maximum.
    pub fn interval(&self) -> (r: (Duration, Duration))
        ensures
            r == (self.min(), self.max()),
    {
        self.interval
    }

    /// Number of connection events that the peripheral may skip.
    pub fn conn_latency(&self) -> (r: u16)
        ensures
            r == self.latency(),
            r <= LATENCY_MAX,
    {
        proof {
            use_type_invariant(self);
        }
        self.conn_latency
    }

    /// The time without a packet after which the connection counts as lost.
    pub fn supervision_timeout(&self) -> (r: Duration)
        ensures
            r == self.timeout(),
    {
        self.supervision_timeout
    }

    /// Converts a connection interval to units of 1.25 ms: 800 to the second.
    fn interval_as_u16(d: Duration) -> (r: u16)
        requires
            duration_nanos(d) <= INTERVAL_MAX_NANOS,
        ensures
            r == interval_units(duration_nanos(d) as nat),
    {
        let secs: u64 = d.as_secs();
        let micros: u32 = d.subsec_micros();
        (800 * (secs as u32) + micros / 1250) as u16
    }

    /// Converts a supervision timeout to units of 10 ms: 100 to the second.
    fn timeout_as_u16(d: Duration) -> (r: u16)
        requires
            duration_nanos(d) <= TIMEOUT_MAX_NANOS,
        ensures
            r == timeout_units(duration_nanos(d) as nat),
    {
        let secs: u64 = d.as_secs();
        let micros: u32 = d.subsec_micros();
        (100 * (secs as u32) + micros / 10_000) as u16
    }

    /// Serialize the parameters into the eight bytes of the given buffer that
    /// start at index `at`. The other bytes are left alone.
    pub fn copy_into_slice_at(&self, bytes: &mut [u8], at: usize)
        requires
            at + Self::LENGTH <= old(bytes)@.len(),
        ensures
            final(bytes)@ == overlay(old(bytes)@, at as int, self.encoding()),
            self.encoding().len() == Self::LENGTH,
    {
        proof {
            use_type_invariant(self);
        }
        let total: usize = bytes.len();
        assert(at + Self::LENGTH <= total);
        write_u16_le(bytes, at, Self::interval_as_u16(self.interval.0));
        write_u16_le(bytes, at + 2, Self::interval_as_u16(self.interval.1));
        write_u16_le(bytes, at + 4, self.conn_latency);
        write_u16_le(bytes, at + 6, Self::timeout_as_u16(self.supervision_timeout));
        assert(bytes@ =~= overlay(old(bytes)@, at as int, self.encoding()));
    }

    /// Serialize the parameters into the first eight bytes of the given buffer.
    /// Bytes behind them are left alone.
    pub fn copy_into_slice(&self, bytes: &mut [u8])
        requires
            old(bytes)@.len() >= Self::LENGTH,
        ensures
            final(bytes)@ == overlay(old(bytes)@, 0, self.encoding()),
            self.encoding().len() == Self::LENGTH,
    {
        self.copy_into_slice_at(bytes, 0)
    }
}

/// Potential errors that can occur when specifying an
/// [`ExpectedConnectionLength`].
#[derive(Copy, Clone, Debug, PartialEq)]
pub enum ExpectedConnectionLengthError {
    /// The maximum is above 40.959375 s, the longest that 16 bits of 0.625 ms
    /// can hold. Includes the invalid value.
    TooLong(Duration),
    /// The minimum is greater than the maximum. Includes the provided minimum
    /// and maximum, respectively.
    Inverted(Duration, Duration),
}

/// The error that the pair `(min, max)` is rejected with, if it is rejected.
pub open spec fn expected_length_error(min: Duration, max: Duration) -> Option<
    ExpectedConnectionLengthError,
> {
    if duration_nanos(max) > LENGTH_MAX_NANOS {
        Some(ExpectedConnectionLengthError::TooLong(max))
    } else if duration_nanos(min) > duration_nanos(max) {
        Some(ExpectedConnectionLengthError::Inverted(min, max))
    } else {
        None
    }
}

/// The range that the length of a connection event is expected to lie in.
#[derive(Clone, Copy, Debug)]
pub struct ExpectedConnectionLength {
    range: (Duration, Duration),
}

impl ExpectedConnectionLength {
    /// Number of bytes that [`copy_into_slice`](Self::copy_into_slice) writes.
    pub const LENGTH: usize = 4;

    #[verifier::type_invariant]
    spec fn valid(&self) -> bool {
        expected_length_error(self.range.0, self.range.1) is None
    }

    /// The lower end of the range, as it was given.
    pub closed spec fn min(&self) -> Duration {
        self.range.0
    }

    /// The upper end of the range, as it was given.
    pub closed spec fn max(&self) -> Duration {
        self.range.1
    }

    /// The four bytes of the range on the wire: the minimum and the maximum in
    /// units of 0.625 ms, each a little-endian 16-bit value.
    pub open spec fn encoding(&self) -> Seq<u8> {
        le_bytes_u16(length_units(duration_nanos(self.min()) as nat) as u16) + le_bytes_u16(
            length_units(duration_nanos(self.max()) as nat) as u16,
        )
    }

    /// Creates the range from the given values, which are stored as they are.
    ///
    /// # Errors
    ///
    /// - [TooLong](ExpectedConnectionLengthError::TooLong) if the maximum is
    ///   above 40.959375 s.
    /// - [Inverted](ExpectedConnectionLengthError::Inverted) if the minimum is
    ///   greater than the maximum.
    pub fn new(min: Duration, max: Duration) -> (r: Result<Self, ExpectedConnectionLengthError>)
        ensures
            match expected_length_error(min, max) {
                Some(e) => r == Err::<Self, ExpectedConnectionLengthError>(e),
                None => r is Ok && r->Ok_0.min() == min && r->Ok_0.max() == max,
            },
    {
        if max.as_nanos() > LENGTH_MAX_NANOS {
            return Err(ExpectedConnectionLengthError::TooLong(max));
        }
        if min.as_nanos() > max.as_nanos() {
            return Err(ExpectedConnectionLengthError::Inverted(min, max));
        }
        Ok(ExpectedConnectionLength { range: (min, max) })
    }

    /// Converts the length of a connection event to units of 0.625 ms: 1600 to
    /// the second.
    fn duration_as_u16(d: Duration) -> (r: u16)
        requires
            duration_nanos(d) <= LENGTH_MAX_NANOS,
        ensures
            r == length_units(duration_nanos(d) as nat),
    {
        let secs: u64 = d.as_secs();
        let micros: u32 = d.subsec_micros();
        (1600 * (secs as u32) + micros / 625) as u16
    }

    /// Serialize the range into the four bytes of the given buffer that start
    /// at index `at`. The other bytes are left alone.
    pub fn copy_into_slice_at(&self, bytes: &mut [u8], at: usize)
        requires
            at + Self::LENGTH <= old(bytes)@.len(),
        ensures
            final(bytes)@ == overlay(old(bytes)@, at as int, self.encoding()),
            self.encoding().len() == Self::LENGTH,
    {
        proof {
            use_type_invariant(self);
        }
        let total: usize = bytes.len();
        assert(at + Self::LENGTH <= total);
        write_u16_le(bytes, at, Self::duration_as_u16(self.range.0));
        write_u16_le(bytes, at + 2, Self::duration_as_u16(self.range.1));
        assert(bytes@ =~= overlay(old(bytes)@, at as int, self.encoding()));
    }

    /// Serialize the range into the first four bytes of the given buffer.
    /// Bytes behind them are left alone.
    pub fn copy_into_slice(&self, bytes: &mut [u8])
        requires
            old(bytes)@.len() >= Self::LENGTH,
        ensures
            final(bytes)@ == overlay(old(bytes)@, 0, self.encoding()),
            self.encoding().len() == Self::LENGTH,
    {
        self.copy_into_slice_at(bytes, 0)
    }
}

} // verus!
