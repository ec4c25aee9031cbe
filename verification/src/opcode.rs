//! Opcodes: the 16-bit names of commands.

use vstd::prelude::*;

verus! {

/// Names a command: a group field in the upper 6 bits and a command field in
/// the lower 10 bits.
#[derive(Clone, Copy, Debug, PartialEq, Eq, Structural)]
pub struct Opcode(pub u16);

impl Opcode {
    /// The opcode of command `ocf` in group `ogf`. Bits of either field that
    /// its place has no room for are dropped.
    pub fn new(ogf: u16, ocf: u16) -> (r: Opcode)
        ensures
            r.0 == ((ogf & 0x3f) << 10) | (ocf & 0x03ff),
            ogf < 64 ==> r.spec_ogf() == ogf,
            ocf < 1024 ==> r.spec_ocf() == ocf,
    {
        assert(ogf < 64 ==> (((ogf & 0x3f) << 10) | (ocf & 0x03ff)) >> 10 == ogf) by (bit_vector);
        assert(ocf < 1024 ==> (((ogf & 0x3f) << 10) | (ocf & 0x03ff)) & 0x03ff == ocf)
            by (bit_vector);
        Opcode(((ogf & 0x3f) << 10) | (ocf & 0x03ff))
    }

    /// The group field of the opcode.
    pub open spec fn spec_ogf(&self) -> u16 {
        self.0 >> 10
    }

    /// The command field of the opcode.
    pub open spec fn spec_ocf(&self) -> u16 {
        self.0 & 0x03ff
    }

    /// The group field of the opcode.
    #[verifier::when_used_as_spec(spec_ogf)]
    pub fn ogf(&self) -> (r: u16)
        ensures
            r == self.spec_ogf(),
            r < 64,
    {
        let v: u16 = self.0;
        assert(v >> 10 < 64) by (bit_vector);
        v >> 10
    }

    /// The command field of the opcode.
    #[verifier::when_used_as_spec(spec_ocf)]
    pub fn ocf(&self) -> (r: u16)
        ensures
            r == self.spec_ocf(),
            r < 1024,
    {
        let v: u16 = self.0;
        assert(v & 0x03ff < 1024) by (bit_vector);
        v & 0x03ff
    }
}

/// Putting the two fields of an opcode together again gives the opcode.
pub proof fn lemma_opcode_fields_round_trip(op: Opcode)
    ensures
        ((op.spec_ogf() & 0x3f) << 10) | (op.spec_ocf() & 0x03ff) == op.0,
{
    let v = op.0;
    assert((((v >> 10) & 0x3f) << 10) | ((v & 0x03ff) & 0x03ff) == v) by (bit_vector);
}

} // verus!
