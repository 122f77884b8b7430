//! Field values of the system registers that the firmware programs.

use vstd::prelude::*;

verus! {

/// Fields of the saved program status register (`SPSR_ELx`).
pub struct Spsr;

impl Spsr {
    /// Debug exceptions masked.
    pub const D: u64 = 0x200;
    /// SError interrupts masked.
    pub const A: u64 = 0x100;
    /// IRQ interrupts masked.
    pub const I: u64 = 0x80;
    /// FIQ interrupts masked.
    pub const F: u64 = 0x40;
    /// Return to AArch64 EL1 using `SP_EL0`.
    pub const M_AARCH64_EL1T: u64 = 0b0100;
    /// Return to AArch64 EL1 using `SP_EL1`.
    pub const M_AARCH64_EL1H: u64 = 0b0101;
    /// Return to AArch64 EL2 using `SP_EL2`.
    pub const M_AARCH64_EL2H: u64 = 0b1001;
}

/// A value of the `MPIDR_EL1` register.
#[derive(Clone, Copy, Debug, Eq, PartialEq, Structural)]
pub struct MpidrEl1(pub u64);

impl MpidrEl1 {
    /// The MT bit: the lowest affinity level holds threads of a multithreaded core.
    pub const MT: u64 = 0x100_0000;
    /// The number of bits of an affinity field.
    pub const AFFINITY_BITS: u64 = 8;

    /// Affinity field `level` (0 to 3) of the register value.
    pub open spec fn spec_aff(self, level: int) -> nat {
        if level == 0 {
            self.0 as nat % 0x100
        } else if level == 1 {
            (self.0 as nat / 0x100) % 0x100
        } else if level == 2 {
            (self.0 as nat / 0x1_0000) % 0x100
        } else {
            (self.0 as nat / 0x1_0000_0000) % 0x100
        }
    }

    /// Whether the MT bit is set.
    pub open spec fn spec_mt(self) -> bool {
        (self.0 as nat / 0x100_0000) % 2 == 1
    }

    /// Returns whether the MT bit is set.
    pub fn mt(self) -> (mt: bool)
        ensures
            mt == self.spec_mt(),
    {
        let v = self.0;
        assert((v & 0x100_0000 != 0) == ((v / 0x100_0000) % 2 == 1)) by (bit_vector);
        self.0 & Self::MT != 0
    }

    /// Returns affinity field 0.
    pub fn aff0(self) -> (aff: u8)
        ensures
            aff == self.spec_aff(0),
    {
        let v = self.0;
        assert((v as u8) == v % 0x100) by (bit_vector);
        self.0 as u8
    }

    /// Returns affinity field 1.
    pub fn aff1(self) -> (aff: u8)
        ensures
            aff == self.spec_aff(1),
    {
        let v = self.0;
        assert(((v >> 8) as u8) == (v / 0x100) % 0x100) by (bit_vector);
        (self.0 >> 8) as u8
    }

    /// Returns affinity field 2.
    pub fn aff2(self) -> (aff: u8)
        ensures
            aff == self.spec_aff(2),
    {
        let v = self.0;
        assert(((v >> 16) as u8) == (v / 0x1_0000) % 0x100) by (bit_vector);
        (self.0 >> 16) as u8
    }

    /// Returns affinity field 3.
    pub fn aff3(self) -> (aff: u8)
        ensures
            aff == self.spec_aff(3),
    {
        let v = self.0;
        assert(((v >> 32) as u8) == (v / 0x1_0000_0000) % 0x100) by (bit_vector);
        (self.0 >> 32) as u8
    }
}

} // verus!
