//! Bit-flag sets for extended advertising.

use vstd::prelude::*;

verus! {

/// Extended advertising modes: a set of independent flags packed into one byte.
/// Only defined flags are ever set.
#[derive(Clone, Copy, Debug, PartialEq, Eq, Hash)]
pub struct AdvertisingMode {
    bits: u8,
}

impl AdvertisingMode {
    /// Every bit that stands for a defined flag.
    pub const ALL_BITS: u8 = 0x01;

    #[verifier::type_invariant]
    spec fn only_defined_bits(&self) -> bool {
        self.bits & !Self::ALL_BITS == 0
    }

    /// The flags of the set as raw bits.
    pub closed spec fn view(&self) -> u8 {
        self.bits
    }

    /// Use specific random address
    pub fn specific() -> (r: Self)
        ensures
            r@ == 0x01,
    {
        assert(0x01u8 & !0x01u8 == 0) by (bit_vector);
        AdvertisingMode { bits: 0x01 }
    }

    /// The set without any flag.
    pub fn empty() -> (r: Self)
        ensures
            r@ == 0,
    {
        assert(0u8 & !0x01u8 == 0) by (bit_vector);
        AdvertisingMode { bits: 0 }
    }

    /// The set of all defined flags.
    pub fn all() -> (r: Self)
        ensures
            r@ == Self::ALL_BITS,
    {
        assert(0x01u8 & !0x01u8 == 0) by (bit_vector);
        AdvertisingMode { bits: Self::ALL_BITS }
    }

    /// The flags of the set as raw bits, none of them undefined.
    pub fn bits(&self) -> (r: u8)
        ensures
            r == self@,
            r & !Self::ALL_BITS == 0,
    {
        proof {
            use_type_invariant(self);
        }
        self.bits
    }

    /// The set with exactly the given bits, unless one of them stands for no
    /// defined flag.
    pub fn from_bits(bits: u8) -> (r: Option<Self>)
        ensures
            bits & !Self::ALL_BITS == 0 ==> r is Some && r->Some_0@ == bits,
            bits & !Self::ALL_BITS != 0 ==> r is None,
    {
        if bits & !Self::ALL_BITS == 0 {
            Some(AdvertisingMode { bits })
        } else {
            None
        }
    }

    /// The set with the given bits, without those that stand for no defined
    /// flag.
    pub fn from_bits_truncate(bits: u8) -> (r: Self)
        ensures
            r@ == bits & Self::ALL_BITS,
    {
        assert((bits & 0x01u8) & !0x01u8 == 0) by (bit_vector);
        AdvertisingMode { bits: bits & Self::ALL_BITS }
    }

    /// Whether no flag is set.
    pub fn is_empty(&self) -> (r: bool)
        ensures
            r == (self@ == 0),
    {
        self.bits == 0
    }

    /// Whether every defined flag is set.
    pub fn is_all(&self) -> (r: bool)
        ensures
            r == (self@ == Self::ALL_BITS),
    {
        self.bits == Self::ALL_BITS
    }

    /// Whether every flag of `other` is set in `self`.
    pub fn contains(&self, other: Self) -> (r: bool)
        ensures
            r == (self@ & other@ == other@),
    {
        self.bits & other.bits == other.bits
    }

    /// Whether some flag of `other` is set in `self`.
    pub fn intersects(&self, other: Self) -> (r: bool)
        ensures
            r == (self@ & other@ != 0),
    {
        self.bits & other.bits != 0
    }

    /// The flags that are set in `self` or in `other`.
    pub fn union(self, other: Self) -> (r: Self)
        ensures
            r@ == self@ | other@,
    {
        let (a, b): (u8, u8) = (self.bits(), other.bits());
        assert((a | b) & !0x01u8 == 0) by (bit_vector)
            requires
                a & !0x01u8 == 0,
                b & !0x01u8 == 0,
        ;
        AdvertisingMode { bits: a | b }
    }

    /// The flags that are set in both `self` and `other`.
    pub fn intersection(self, other: Self) -> (r: Self)
        ensures
            r@ == self@ & other@,
    {
        let (a, b): (u8, u8) = (self.bits(), other.bits());
        assert((a & b) & !0x01u8 == 0) by (bit_vector)
            requires
                a & !0x01u8 == 0,
        ;
        AdvertisingMode { bits: a & b }
    }

    /// The flags that are set in `self` and not in `other`.
    pub fn difference(self, other: Self) -> (r: Self)
        ensures
            r@ == self@ & !other@,
    {
        let (a, b): (u8, u8) = (self.bits(), other.bits());
        assert((a & !b) & !0x01u8 == 0) by (bit_vector)
            requires
                a & !0x01u8 == 0,
        ;
        AdvertisingMode { bits: a & !b }
    }

    /// Sets every flag of `other` in `self`.
    pub fn insert(&mut self, other: Self)
        ensures
            final(self)@ == old(self)@ | other@,
    {
        *self = self.union(other);
    }

    /// Clears every flag of `other` in `self`.
    pub fn remove(&mut self, other: Self)
        ensures
            final(self)@ == old(self)@ & !other@,
    {
        *self = self.difference(other);
    }
}

/// Advertising event types: a set of independent flags packed into 16 bits.
/// Only defined flags are ever set.
#[derive(Clone, Copy, Debug, PartialEq, Eq, Hash)]
pub struct AdvertisingEvent {
    bits: u16,
}

impl AdvertisingEvent {
    /// Every bit that stands for a defined flag.
    pub const ALL_BITS: u16 = 0x007f;

    #[verifier::type_invariant]
    spec fn only_defined_bits(&self) -> bool {
        self.bits & !Self::ALL_BITS == 0
    }

    /// The flags of the set as raw bits.
    pub closed spec fn view(&self) -> u16 {
        self.bits
    }

    /// Connectable advertising
    pub fn connectable() -> (r: Self)
        ensures
            r@ == 0x0001,
    {
        assert(0x0001u16 & !0x007fu16 == 0) by (bit_vector);
        AdvertisingEvent { bits: 0x0001 }
    }

    /// Scannable advertising
    pub fn scannable() -> (r: Self)
        ensures
            r@ == 0x0002,
    {
        assert(0x0002u16 & !0x007fu16 == 0) by (bit_vector);
        AdvertisingEvent { bits: 0x0002 }
    }

    /// Directed advertising
    pub fn directed() -> (r: Self)
        ensures
            r@ == 0x0004,
    {
        assert(0x0004u16 & !0x007fu16 == 0) by (bit_vector);
        AdvertisingEvent { bits: 0x0004 }
    }

    /// High duty cycle directed connectable advertising
    pub fn high_duty_directed() -> (r: Self)
        ensures
            r@ == 0x0008,
    {
        assert(0x0008u16 & !0x007fu16 == 0) by (bit_vector);
        AdvertisingEvent { bits: 0x0008 }
    }

    /// Use legacy advertising PDUs
    pub fn legacy() -> (r: Self)
        ensures
            r@ == 0x0010,
    {
        assert(0x0010u16 & !0x007fu16 == 0) by (bit_vector);
        AdvertisingEvent { bits: 0x0010 }
    }

    /// Anonymous advertising
    pub fn anonymous() -> (r: Self)
        ensures
            r@ == 0x0020,
    {
        assert(0x0020u16 & !0x007fu16 == 0) by (bit_vector);
        AdvertisingEvent { bits: 0x0020 }
    }

    /// Include Tx power in at least one advertising PDU
    pub fn include_tx_power() -> (r: Self)
        ensures
            r@ == 0x0040,
    {
        assert(0x0040u16 & !0x007fu16 == 0) by (bit_vector);
        AdvertisingEvent { bits: 0x0040 }
    }

    /// The set without any flag.
    pub fn empty() -> (r: Self)
        ensures
            r@ == 0,
    {
        assert(0u16 & !0x007fu16 == 0) by (bit_vector);
        AdvertisingEvent { bits: 0 }
    }

    /// The set of all defined flags.
    pub fn all() -> (r: Self)
        ensures
            r@ == Self::ALL_BITS,
    {
        assert(0x007fu16 & !0x007fu16 == 0) by (bit_vector);
        AdvertisingEvent { bits: Self::ALL_BITS }
    }

    /// The flags of the set as raw bits, none of them undefined.
    pub fn bits(&self) -> (r: u16)
        ensures
            r == self@,
            r & !Self::ALL_BITS == 0,
    {
        proof {
            use_type_invariant(self);
        }
        self.bits
    }

    /// The set with exactly the given bits, unless one of them stands for no
    /// defined flag.
    pub fn from_bits(bits: u16) -> (r: Option<Self>)
        ensures
            bits & !Self::ALL_BITS == 0 ==> r is Some && r->Some_0@ == bits,
            bits & !Self::ALL_BITS != 0 ==> r is None,
    {
        if bits & !Self::ALL_BITS == 0 {
            Some(AdvertisingEvent { bits })
        } else {
            None
        }
    }

    /// The set with the given bits, without those that stand for no defined
    /// flag.
    pub fn from_bits_truncate(bits: u16) -> (r: Self)
        ensures
            r@ == bits & Self::ALL_BITS,
    {
        assert((bits & 0x007fu16) & !0x007fu16 == 0) by (bit_vector);
        AdvertisingEvent { bits: bits & Self::ALL_BITS }
    }

    /// Whether no flag is set.
    pub fn is_empty(&self) -> (r: bool)
        ensures
            r == (self@ == 0),
    {
        self.bits == 0
    }

    /// Whether every defined flag is set.
    pub fn is_all(&self) -> (r: bool)
        ensures
            r == (self@ == Self::ALL_BITS),
    {
        self.bits == Self::ALL_BITS
    }

    /// Whether every flag of `other` is set in `self`.
    pub fn contains(&self, other: Self) -> (r: bool)
        ensures
            r == (self@ & other@ == other@),
    {
        self.bits & other.bits == other.bits
    }

    /// Whether some flag of `other` is set in `self`.
    pub fn intersects(&self, other: Self) -> (r: bool)
        ensures
            r == (self@ & other@ != 0),
    {
        self.bits & other.bits != 0
    }

    /// The flags that are set in `self` or in `other`.
    pub fn union(self, other: Self) -> (r: Self)
        ensures
            r@ == self@ | other@,
    {
        let (a, b): (u16, u16) = (self.bits(), other.bits());
        assert((a | b) & !0x007fu16 == 0) by (bit_vector)
            requires
                a & !0x007fu16 == 0,
                b & !0x007fu16 == 0,
        ;
        AdvertisingEvent { bits: a | b }
    }

    /// The flags that are set in both `self` and `other`.
    pub fn intersection(self, other: Self) -> (r: Self)
        ensures
            r@ == self@ & other@,
    {
        let (a, b): (u16, u16) = (self.bits(), other.bits());
        assert((a & b) & !0x007fu16 == 0) by (bit_vector)
            requires
                a & !0x007fu16 == 0,
        ;
        AdvertisingEvent { bits: a & b }
    }

    /// The flags that are set in `self` and not in `other`.
    pub fn difference(self, other: Self) -> (r: Self)
        ensures
            r@ == self@ & !other@,
    {
        let (a, b): (u16, u16) = (self.bits(), other.bits());
        assert((a & !b) & !0x007fu16 == 0) by (bit_vector)
            requires
                a & !0x007fu16 == 0,
        ;
        AdvertisingEvent { bits: a & !b }
    }

    /// Sets every flag of `other` in `self`.
    pub fn insert(&mut self, other: Self)
        ensures
            final(self)@ == old(self)@ | other@,
    {
        *self = self.union(other);
    }

    /// Clears every flag of `other` in `self`.
    pub fn remove(&mut self, other: Self)
        ensures
            final(self)@ == old(self)@ & !other@,
    {
        *self = self.difference(other);
    }
}

} // verus!
