//! Types and helpers related to the SMC Calling Convention.

use vstd::prelude::*;

verus! {

/// Bit 31 of a function ID: set for fast calls, clear for yielding calls.
pub const FAST_CALL: u32 = 0x8000_0000;

/// Bit 30 of a function ID: set for the SMC64/HVC64 calling convention.
pub const SMC64: u32 = 0x4000_0000;

/// Bits [29:24] of a function ID: the Owning Entity Number.
pub const OEN_MASK: u32 = 0x3f00_0000;

/// Position of the Owning Entity Number within a function ID.
pub const OEN_SHIFT: u32 = 24;

/// Bits [23:17] of a fast call function ID, which must be zero.
pub const FAST_CALL_MBZ_MASK: u32 = 0x00fe_0000;

/// Bit 16 of a function ID: the SVE live state hint.
pub const SVE_HINT: u32 = 0x0001_0000;

/// The call completed successfully.
pub const SUCCESS: i32 = 0;

/// The call is not supported by the implementation.
pub const NOT_SUPPORTED: i32 = -1;

/// One of the call parameters has a non-supported value.
pub const INVALID_PARAMETER: i32 = -3;

/// The number of registers that an SMC call may return values in.
pub const MAX_RETURN_VALUES: usize = 18;

/// The type of an SMCCC call: whether it is a fast call or yielding call, and which calling
/// convention it uses.
#[derive(Copy, Clone, Debug, Eq, PartialEq, Structural)]
pub enum SmcccCallType {
    /// An SMC32/HVC32 fast call.
    Fast32,
    /// An SMC64/HVC64 fast call.
    Fast64,
    /// A yielding call.
    Yielding,
}

/// Owning Entity Numbers, from bits [29:24] of a function ID.
pub struct OwningEntityNumber;

impl OwningEntityNumber {
    /// Arm Architecture Service calls.
    pub const ARM_ARCHITECTURE: u8 = 0;
    /// CPU Service calls.
    pub const CPU: u8 = 1;
    /// SiP Service calls.
    pub const SIP: u8 = 2;
    /// OEM Service calls.
    pub const OEM: u8 = 3;
    /// Standard Secure Service calls (PSCI, FF-A, RMM and others).
    pub const STANDARD_SECURE: u8 = 4;
    /// Standard Hypervisor Service calls.
    pub const STANDARD_HYPERVISOR: u8 = 5;
    /// Vendor Specific Hypervisor Service calls.
    pub const VENDOR_SPECIFIC_HYPERVISOR: u8 = 6;
}

/// An SMCCC function ID.
#[derive(Copy, Clone, Debug, Eq, PartialEq, Structural)]
pub struct FunctionId(pub u32);

impl FunctionId {
    /// The Owning Entity Number: bits [29:24].
    pub open spec fn spec_oen(self) -> nat {
        (self.0 as nat / 0x100_0000) % 64
    }

    /// Whether this is a fast call (bit 31).
    pub open spec fn spec_is_fast(self) -> bool {
        self.0 >= 0x8000_0000
    }

    /// Whether this uses the 64-bit calling convention (bit 30).
    pub open spec fn spec_is_smc64(self) -> bool {
        (self.0 as nat / 0x4000_0000) % 2 == 1
    }

    /// The call type that bits 31 and 30 encode.
    pub open spec fn spec_call_type(self) -> SmcccCallType {
        if !self.spec_is_fast() {
            SmcccCallType::Yielding
        } else if self.spec_is_smc64() {
            SmcccCallType::Fast64
        } else {
            SmcccCallType::Fast32
        }
    }

    /// The function number: bits [15:0].
    pub open spec fn spec_number(self) -> nat {
        self.0 as nat % 0x1_0000
    }

    /// A fast call is valid when its bits [23:17] are zero; every yielding call is valid.
    pub open spec fn spec_valid(self) -> bool {
        self.spec_is_fast() ==> (self.0 as nat / 0x2_0000) % 128 == 0
    }

    /// Returns the Owning Entity Number of the function ID.
    pub fn oen(self) -> (oen: u8)
        ensures
            oen == self.spec_oen(),
    {
        let v = self.0;
        assert(((v & OEN_MASK) >> OEN_SHIFT) == (v / 0x100_0000) % 64) by (bit_vector);
        ((self.0 & OEN_MASK) >> OEN_SHIFT) as u8
    }

    /// Returns what type of call this is.
    pub fn call_type(self) -> (call_type: SmcccCallType)
        ensures
            call_type == self.spec_call_type(),
    {
        let v = self.0;
        assert((v & FAST_CALL != 0) == (v >= 0x8000_0000)) by (bit_vector);
        assert((v & SMC64 != 0) == ((v / 0x4000_0000) % 2 == 1)) by (bit_vector);
        if self.0 & FAST_CALL != 0 {
            if self.0 & SMC64 != 0 {
                SmcccCallType::Fast64
            } else {
                SmcccCallType::Fast32
            }
        } else {
            SmcccCallType::Yielding
        }
    }

    /// Returns the function number: bits [15:0] of the function ID.
    pub fn number(self) -> (number: u16)
        ensures
            number == self.spec_number(),
    {
        let v = self.0;
        assert((v & 0xffff) == v % 0x1_0000) by (bit_vector);
        (self.0 & 0xffff) as u16
    }

    /// Returns whether the function ID is well formed: fast calls must have bits [23:17] clear.
    pub fn valid(self) -> (valid: bool)
        ensures
            valid == self.spec_valid(),
    {
        let v = self.0;
        assert((v & FAST_CALL != 0) == (v >= 0x8000_0000)) by (bit_vector);
        assert((v & FAST_CALL_MBZ_MASK == 0) == ((v / 0x2_0000) % 128 == 0)) by (bit_vector);
        self.0 & FAST_CALL == 0 || self.0 & FAST_CALL_MBZ_MASK == 0
    }

    /// Clears the SVE live state hint (bit 16), which callers may set on any call.
    pub fn clear_sve_hint(&mut self)
        ensures
            final(self).0 as nat == if (old(self).0 as nat / 0x1_0000) % 2 == 1 {
                old(self).0 - 0x1_0000
            } else {
                old(self).0 as int
            },
    {
        let v = self.0;
        assert((v & !SVE_HINT) == if (v / 0x1_0000) % 2 == 1 { (v - 0x1_0000) as u32 } else { v })
            by (bit_vector);
        self.0 = self.0 & !SVE_HINT;
    }
}

/// A value which can be returned from an SMC call by writing to the caller's registers.
#[derive(Debug, Eq, PartialEq)]
pub struct SmcReturn {
    /// The number of elements from `values` that are actually used for this return.
    used: usize,
    values: [u64; 18],
}

impl View for SmcReturn {
    type V = Seq<u64>;

    /// The values returned, in register order from `x0`.
    closed spec fn view(&self) -> Seq<u64> {
        self.values@.subrange(0, self.used as int)
    }
}

/// `s` followed by zeros up to the number of return registers.
pub open spec fn zero_padded(s: Seq<u64>) -> Seq<u64> {
    s + Seq::new((MAX_RETURN_VALUES - s.len()) as nat, |i: int| 0u64)
}

/// Return registers that are all zero.
fn zero_registers() -> (registers: [u64; 18])
    ensures
        forall|j: int| 0 <= j < MAX_RETURN_VALUES ==> registers@[j] == 0,
{
    let registers: [u64; 18] = [0, 0, 0, 0, 0, 0, 0, 0, 0, 0, 0, 0, 0, 0, 0, 0, 0, 0];
    assert(forall|j: int| 0 <= j < MAX_RETURN_VALUES ==> registers@[j] == 0);
    registers
}

/// The return whose used values are `s` and whose unused slots are zero.
pub closed spec fn smc_return_of(s: Seq<u64>) -> SmcReturn {
    SmcReturn {
        used: s.len() as usize,
        values: choose|a: [u64; 18]| a@ == zero_padded(s),
    }
}

impl SmcReturn {
    #[verifier::type_invariant]
    spec fn well_formed(self) -> bool {
        &&& self.used <= MAX_RETURN_VALUES
        &&& forall|j: int| self.used <= j < MAX_RETURN_VALUES ==> self.values@[j] == 0
    }

    /// A return whose slots past `values` are zero is the canonical return of `values`.
    proof fn lemma_canonical(self, s: Seq<u64>)
        requires
            s.len() <= MAX_RETURN_VALUES,
            self.used == s.len(),
            self.values@ =~= zero_padded(s),
        ensures
            self == smc_return_of(s),
            self@ == s,
    {
        broadcast use vstd::array::group_array_axioms;
        let a = choose|a: [u64; 18]| a@ == zero_padded(s);
        assert(a@ == zero_padded(s));
        assert(a@ =~= self.values@);
        assert(a == self.values);
        assert(self@ =~= s);
    }

    /// The return holding the given values, which must fit in the return registers.
    pub fn from_slice(values: &[u64]) -> (ret: SmcReturn)
        requires
            values@.len() <= MAX_RETURN_VALUES,
        ensures
            ret@ == values@,
            ret == smc_return_of(values@),
    {
        let mut all = zero_registers();
        let mut i: usize = 0;
        while i < values.len()
            invariant
                i <= values@.len() <= MAX_RETURN_VALUES,
                forall|j: int| 0 <= j < i ==> all@[j] == values@[j],
                forall|j: int| i <= j < MAX_RETURN_VALUES ==> all@[j] == 0,
            decreases values@.len() - i,
        {
            all[i] = values[i];
            i = i + 1;
        }
        let ret = SmcReturn { used: values.len(), values: all };
        proof {
            ret.lemma_canonical(values@);
        }
        ret
    }

    /// Returns a slice containing the used values.
    pub fn values(&self) -> (values: &[u64])
        ensures
            values@ == self@,
            values@.len() <= MAX_RETURN_VALUES,
    {
        proof {
            use_type_invariant(self);
        }
        &self.values[0..self.used]
    }
}

impl Clone for SmcReturn {
    fn clone(&self) -> (ret: Self)
        ensures
            ret == *self,
    {
        proof {
            use_type_invariant(self);
        }
        SmcReturn { used: self.used, values: self.values }
    }
}

impl Default for SmcReturn {
    /// An empty return, which writes no registers.
    fn default() -> (ret: Self)
        ensures
            ret@ == Seq::<u64>::empty(),
    {
        let none: [u64; 0] = [];
        let ret = SmcReturn::from_slice(none.as_slice());
        assert(none@ =~= Seq::<u64>::empty());
        ret
    }
}

impl From<u64> for SmcReturn {
    fn from(value: u64) -> (ret: Self)
        ensures
            ret@ == seq![value],
    {
        let one = [value];
        let ret = SmcReturn::from_slice(one.as_slice());
        assert(one@ =~= seq![value]);
        ret
    }
}

impl vstd::std_specs::convert::FromSpecImpl<u64> for SmcReturn {
    open spec fn obeys_from_spec() -> bool {
        true
    }

    open spec fn from_spec(v: u64) -> Self {
        smc_return_of(seq![v])
    }
}

impl From<i64> for SmcReturn {
    fn from(value: i64) -> (ret: Self)
        ensures
            ret@ == seq![value as u64],
    {
        let one = [value as u64];
        let ret = SmcReturn::from_slice(one.as_slice());
        assert(one@ =~= seq![value as u64]);
        ret
    }
}

impl vstd::std_specs::convert::FromSpecImpl<i64> for SmcReturn {
    open spec fn obeys_from_spec() -> bool {
        true
    }

    open spec fn from_spec(v: i64) -> Self {
        smc_return_of(seq![v as u64])
    }
}

impl From<u32> for SmcReturn {
    fn from(value: u32) -> (ret: Self)
        ensures
            ret@ == seq![value as u64],
    {
        let one = [value as u64];
        let ret = SmcReturn::from_slice(one.as_slice());
        assert(one@ =~= seq![value as u64]);
        ret
    }
}

impl vstd::std_specs::convert::FromSpecImpl<u32> for SmcReturn {
    open spec fn obeys_from_spec() -> bool {
        true
    }

    open spec fn from_spec(v: u32) -> Self {
        smc_return_of(seq![v as u64])
    }
}

impl From<i32> for SmcReturn {
    /// A negative value is sign-extended to 64 bits, as SMCCC error codes are.
    fn from(value: i32) -> (ret: Self)
        ensures
            ret@ == seq![value as u64],
    {
        let one = [value as u64];
        let ret = SmcReturn::from_slice(one.as_slice());
        assert(one@ =~= seq![value as u64]);
        ret
    }
}

impl vstd::std_specs::convert::FromSpecImpl<i32> for SmcReturn {
    open spec fn obeys_from_spec() -> bool {
        true
    }

    open spec fn from_spec(v: i32) -> Self {
        smc_return_of(seq![v as u64])
    }
}

impl From<[u64; 3]> for SmcReturn {
    fn from(values: [u64; 3]) -> (ret: Self)
        ensures
            ret@ == values@,
    {
        SmcReturn::from_slice(values.as_slice())
    }
}

impl vstd::std_specs::convert::FromSpecImpl<[u64; 3]> for SmcReturn {
    open spec fn obeys_from_spec() -> bool {
        true
    }

    open spec fn from_spec(v: [u64; 3]) -> Self {
        smc_return_of(v@)
    }
}

impl From<[u64; 5]> for SmcReturn {
    fn from(values: [u64; 5]) -> (ret: Self)
        ensures
            ret@ == values@,
    {
        SmcReturn::from_slice(values.as_slice())
    }
}

impl vstd::std_specs::convert::FromSpecImpl<[u64; 5]> for SmcReturn {
    open spec fn obeys_from_spec() -> bool {
        true
    }

    open spec fn from_spec(v: [u64; 5]) -> Self {
        smc_return_of(v@)
    }
}

impl From<[u64; 8]> for SmcReturn {
    fn from(values: [u64; 8]) -> (ret: Self)
        ensures
            ret@ == values@,
    {
        SmcReturn::from_slice(values.as_slice())
    }
}

impl vstd::std_specs::convert::FromSpecImpl<[u64; 8]> for SmcReturn {
    open spec fn obeys_from_spec() -> bool {
        true
    }

    open spec fn from_spec(v: [u64; 8]) -> Self {
        smc_return_of(v@)
    }
}

} // verus!
