//! Granule Protection Table: configuration encodings and address resolution.

use vstd::prelude::*;

pub mod table;

pub use self::table::GPIAccessType;
use self::table::{spec_table_address, Level0Descriptor};

verus! {

/// A physical address.
pub type PA = usize;

/// Errors returned when manipulating the [`GranuleProtection`] object.
#[derive(Debug, Clone, Copy, PartialEq, Eq, Structural)]
pub enum Error {
    /// No existing GPT found.
    GptNotInitialized,
    /// Existing GPT Config is invalid.
    InvalidConfiguration,
    /// L0 buffer must be aligned on its size.
    MisalignedL0Buffer,
}

impl Error {
    /// The message describing the error.
    pub fn message(&self) -> (message: &'static str)
        ensures
            message@ == self.spec_message()@,
    {
        match self {
            Error::GptNotInitialized => "No existing GPT found",
            Error::InvalidConfiguration => "Existing GPT Config is invalid",
            Error::MisalignedL0Buffer => "L0 buffer must be aligned on its size",
        }
    }

    /// The message describing the error.
    pub open spec fn spec_message(&self) -> &'static str {
        match self {
            Error::GptNotInitialized => "No existing GPT found",
            Error::InvalidConfiguration => "Existing GPT Config is invalid",
            Error::MisalignedL0Buffer => "L0 buffer must be aligned on its size",
        }
    }
}

/// A raw value that names no variant of the enum it was converted to.
#[derive(Debug, Clone, Copy, PartialEq, Eq, Structural)]
pub struct InvalidEncoding(pub u64);

/// `2^n` for the bit widths used by the table formats.
pub open spec fn pow2(n: nat) -> nat {
    vstd::arithmetic::power2::pow2(n)
}

/// Protected Physical Address Size.
///
/// The size of the memory region protected by GPTBR_EL3, in terms of the number of
/// least-significant address bits.
#[derive(Debug, Clone, Copy, PartialEq, Eq, PartialOrd, Ord, Structural)]
pub enum ProtectedPhysicalAddressSize {
    /// Protected addresses space is 4GB.
    GB4,
    /// Protected addresses space is 64GB.
    GB64,
    /// Protected addresses space is 1TB.
    TB1,
    /// Protected addresses space is 4TB.
    TB4,
    /// Protected addresses space is 16TB.
    TB16,
    /// Protected addresses space is 256TB.
    TB256,
    /// Protected addresses space is 4PB.
    PB4,
}

impl ProtectedPhysicalAddressSize {
    /// The larger of two sizes, in the order in which they are declared (that of the derived
    /// `Ord`, and of their `PPS` encodings), covers the wider address space.
    pub proof fn lemma_width_increasing(p: Self, q: Self)
        requires
            p.spec_encoding() < q.spec_encoding(),
        ensures
            p.spec_width() < q.spec_width(),
    {
    }

    /// The address width this size stands for.
    pub open spec fn spec_width(&self) -> nat {
        match self {
            Self::GB4 => 32,
            Self::GB64 => 36,
            Self::TB1 => 40,
            Self::TB4 => 42,
            Self::TB16 => 44,
            Self::TB256 => 48,
            Self::PB4 => 52,
        }
    }

    /// The value of the `PPS` field that encodes this size.
    pub open spec fn spec_encoding(&self) -> u8 {
        match self {
            Self::GB4 => 0b000,
            Self::GB64 => 0b001,
            Self::TB1 => 0b010,
            Self::TB4 => 0b011,
            Self::TB16 => 0b100,
            Self::TB256 => 0b101,
            Self::PB4 => 0b110,
        }
    }

    /// The size that the `PPS` field value `value` encodes, if any.
    pub open spec fn spec_decode(value: u8) -> Option<Self> {
        if value == 0b000 {
            Some(Self::GB4)
        } else if value == 0b001 {
            Some(Self::GB64)
        } else if value == 0b010 {
            Some(Self::TB1)
        } else if value == 0b011 {
            Some(Self::TB4)
        } else if value == 0b100 {
            Some(Self::TB16)
        } else if value == 0b101 {
            Some(Self::TB256)
        } else if value == 0b110 {
            Some(Self::PB4)
        } else {
            None
        }
    }

    /// Returns the corresponding address width.
    pub fn width(&self) -> (width: usize)
        ensures
            width == self.spec_width(),
    {
        match self {
            Self::GB4 => 32,
            Self::GB64 => 36,
            Self::TB1 => 40,
            Self::TB4 => 42,
            Self::TB16 => 44,
            Self::TB256 => 48,
            Self::PB4 => 52,
        }
    }
}

impl From<ProtectedPhysicalAddressSize> for u8 {
    fn from(value: ProtectedPhysicalAddressSize) -> (encoding: u8)
        ensures
            encoding == value.spec_encoding(),
    {
        match value {
            ProtectedPhysicalAddressSize::GB4 => 0b000,
            ProtectedPhysicalAddressSize::GB64 => 0b001,
            ProtectedPhysicalAddressSize::TB1 => 0b010,
            ProtectedPhysicalAddressSize::TB4 => 0b011,
            ProtectedPhysicalAddressSize::TB16 => 0b100,
            ProtectedPhysicalAddressSize::TB256 => 0b101,
            ProtectedPhysicalAddressSize::PB4 => 0b110,
        }
    }
}

impl vstd::std_specs::convert::FromSpecImpl<ProtectedPhysicalAddressSize> for u8 {
    open spec fn obeys_from_spec() -> bool {
        true
    }

    open spec fn from_spec(v: ProtectedPhysicalAddressSize) -> u8 {
        v.spec_encoding()
    }
}

impl TryFrom<u8> for ProtectedPhysicalAddressSize {
    type Error = InvalidEncoding;

    fn try_from(value: u8) -> (size: Result<Self, InvalidEncoding>)
        ensures
            size == match Self::spec_decode(value) {
                Some(s) => Ok(s),
                None => Err(InvalidEncoding(value as u64)),
            },
    {
        match value {
            0b000 => Ok(Self::GB4),
            0b001 => Ok(Self::GB64),
            0b010 => Ok(Self::TB1),
            0b011 => Ok(Self::TB4),
            0b100 => Ok(Self::TB16),
            0b101 => Ok(Self::TB256),
            0b110 => Ok(Self::PB4),
            _ => Err(InvalidEncoding(value as u64)),
        }
    }
}

impl vstd::std_specs::convert::TryFromSpecImpl<u8> for ProtectedPhysicalAddressSize {
    open spec fn obeys_try_from_spec() -> bool {
        true
    }

    open spec fn try_from_spec(v: u8) -> Result<Self, InvalidEncoding> {
        match Self::spec_decode(v) {
            Some(s) => Ok(s),
            None => Err(InvalidEncoding(v as u64)),
        }
    }
}

/// Number of least-significant address bits protected by each entry in the level 0 GPT.
#[derive(Debug, Clone, Copy, PartialEq, Eq, PartialOrd, Ord, Structural)]
pub enum Level0GptSize {
    /// L0 entries cover 1GB.
    GB1,
    /// L0 entries cover 16GB.
    GB16,
    /// L0 entries cover 64GB.
    GB64,
    /// L0 entries cover 512GB.
    GB512,
}

impl Level0GptSize {
    /// The larger of two sizes, in the order in which they are declared (that of the derived
    /// `Ord`), covers more addresses per level 0 entry.
    pub proof fn lemma_width_increasing(p: Self, q: Self)
        requires
            p.spec_encoding() < q.spec_encoding(),
        ensures
            p.spec_width() < q.spec_width(),
    {
    }

    /// The address width this size stands for.
    pub open spec fn spec_width(&self) -> nat {
        match self {
            Self::GB1 => 30,
            Self::GB16 => 34,
            Self::GB64 => 36,
            Self::GB512 => 39,
        }
    }

    /// The value of the `L0GPTSZ` field that encodes this size.
    pub open spec fn spec_encoding(&self) -> u8 {
        match self {
            Self::GB1 => 0b0000,
            Self::GB16 => 0b0100,
            Self::GB64 => 0b0110,
            Self::GB512 => 0b1001,
        }
    }

    /// The size that the `L0GPTSZ` field value `value` encodes, if any.
    pub open spec fn spec_decode(value: u8) -> Option<Self> {
        if value == 0b0000 {
            Some(Self::GB1)
        } else if value == 0b0100 {
            Some(Self::GB16)
        } else if value == 0b0110 {
            Some(Self::GB64)
        } else if value == 0b1001 {
            Some(Self::GB512)
        } else {
            None
        }
    }

    /// Returns the corresponding address width.
    pub fn width(&self) -> (width: usize)
        ensures
            width == self.spec_width(),
    {
        match self {
            Self::GB1 => 30,
            Self::GB16 => 34,
            Self::GB64 => 36,
            Self::GB512 => 39,
        }
    }
}

impl From<Level0GptSize> for u8 {
    fn from(value: Level0GptSize) -> (encoding: u8)
        ensures
            encoding == value.spec_encoding(),
    {
        match value {
            Level0GptSize::GB1 => 0b0000,
            Level0GptSize::GB16 => 0b0100,
            Level0GptSize::GB64 => 0b0110,
            Level0GptSize::GB512 => 0b1001,
        }
    }
}

impl vstd::std_specs::convert::FromSpecImpl<Level0GptSize> for u8 {
    open spec fn obeys_from_spec() -> bool {
        true
    }

    open spec fn from_spec(v: Level0GptSize) -> u8 {
        v.spec_encoding()
    }
}

impl TryFrom<u8> for Level0GptSize {
    type Error = InvalidEncoding;

    fn try_from(value: u8) -> (size: Result<Self, InvalidEncoding>)
        ensures
            size == match Self::spec_decode(value) {
                Some(s) => Ok(s),
                None => Err(InvalidEncoding(value as u64)),
            },
    {
        match value {
            0b0000 => Ok(Self::GB1),
            0b0100 => Ok(Self::GB16),
            0b0110 => Ok(Self::GB64),
            0b1001 => Ok(Self::GB512),
            _ => Err(InvalidEncoding(value as u64)),
        }
    }
}

impl vstd::std_specs::convert::TryFromSpecImpl<u8> for Level0GptSize {
    open spec fn obeys_try_from_spec() -> bool {
        true
    }

    open spec fn try_from_spec(v: u8) -> Result<Self, InvalidEncoding> {
        match Self::spec_decode(v) {
            Some(s) => Ok(s),
            None => Err(InvalidEncoding(v as u64)),
        }
    }
}

/// Physical Granule size.
#[derive(Debug, Clone, Copy, PartialEq, Eq, PartialOrd, Ord, Structural)]
pub enum PhysicalGranuleSize {
    /// Physical granules cover 4KB.
    KB4,
    /// Physical granules cover 64KB.
    KB64,
    /// Physical granules cover 16KB.
    KB16,
}

impl PhysicalGranuleSize {
    /// The address width this size stands for.
    pub open spec fn spec_width(&self) -> nat {
        match self {
            Self::KB4 => 12,
            Self::KB16 => 14,
            Self::KB64 => 16,
        }
    }

    /// The value of the `PGS` field that encodes this size.
    pub open spec fn spec_encoding(&self) -> u8 {
        match self {
            Self::KB4 => 0b00,
            Self::KB64 => 0b01,
            Self::KB16 => 0b10,
        }
    }

    /// The size that the `PGS` field value `value` encodes, if any.
    pub open spec fn spec_decode(value: u8) -> Option<Self> {
        if value == 0b00 {
            Some(Self::KB4)
        } else if value == 0b01 {
            Some(Self::KB64)
        } else if value == 0b10 {
            Some(Self::KB16)
        } else {
            None
        }
    }

    /// Returns the corresponding address width.
    pub fn width(&self) -> (width: usize)
        ensures
            width == self.spec_width(),
    {
        match self {
            Self::KB4 => 12,
            Self::KB16 => 14,
            Self::KB64 => 16,
        }
    }
}

impl From<PhysicalGranuleSize> for u8 {
    fn from(value: PhysicalGranuleSize) -> (encoding: u8)
        ensures
            encoding == value.spec_encoding(),
    {
        match value {
            PhysicalGranuleSize::KB4 => 0b00,
            PhysicalGranuleSize::KB64 => 0b01,
            PhysicalGranuleSize::KB16 => 0b10,
        }
    }
}

impl vstd::std_specs::convert::FromSpecImpl<PhysicalGranuleSize> for u8 {
    open spec fn obeys_from_spec() -> bool {
        true
    }

    open spec fn from_spec(v: PhysicalGranuleSize) -> u8 {
        v.spec_encoding()
    }
}

impl TryFrom<u8> for PhysicalGranuleSize {
    type Error = InvalidEncoding;

    fn try_from(value: u8) -> (size: Result<Self, InvalidEncoding>)
        ensures
            size == match Self::spec_decode(value) {
                Some(s) => Ok(s),
                None => Err(InvalidEncoding(value as u64)),
            },
    {
        match value {
            0b00 => Ok(Self::KB4),
            0b01 => Ok(Self::KB64),
            0b10 => Ok(Self::KB16),
            _ => Err(InvalidEncoding(value as u64)),
        }
    }
}

impl vstd::std_specs::convert::TryFromSpecImpl<u8> for PhysicalGranuleSize {
    open spec fn obeys_try_from_spec() -> bool {
        true
    }

    open spec fn try_from_spec(v: u8) -> Result<Self, InvalidEncoding> {
        match Self::spec_decode(v) {
            Some(s) => Ok(s),
            None => Err(InvalidEncoding(v as u64)),
        }
    }
}

/// Every size configuration field value decodes back to the size that encodes it.
pub proof fn lemma_size_encodings_round_trip(
    pps: ProtectedPhysicalAddressSize,
    l0gptsz: Level0GptSize,
    pgs: PhysicalGranuleSize,
)
    ensures
        ProtectedPhysicalAddressSize::spec_decode(pps.spec_encoding()) == Some(pps),
        Level0GptSize::spec_decode(l0gptsz.spec_encoding()) == Some(l0gptsz),
        PhysicalGranuleSize::spec_decode(pgs.spec_encoding()) == Some(pgs),
{
}

/// Size configuration of the [`GranuleProtection`] object.
#[derive(Debug, Clone, Copy, PartialEq, Eq, Structural)]
pub struct GranuleProtectionConfig {
    /// Protected Physical Address Size used by this [`GranuleProtection`].
    pub pps: ProtectedPhysicalAddressSize,
    /// Level 0 entry size used by this [`GranuleProtection`].
    pub l0gptsz: Level0GptSize,
    /// Physical Granule Size used by this [`GranuleProtection`].
    pub pgs: PhysicalGranuleSize,
}

impl GranuleProtectionConfig {
    /// The index of the L0 entry covering `pa`: the protected bits of `pa` divided by the size
    /// covered by one L0 entry.
    pub open spec fn spec_l0_index(&self, pa: PA) -> nat {
        (pa as nat % pow2(self.pps.spec_width())) / pow2(self.l0gptsz.spec_width())
    }

    /// The index of the L1 entry covering `pa` within its L1 table: one L1 entry describes 16
    /// granules.
    pub open spec fn spec_l1_index(&self, pa: PA) -> nat {
        (pa as nat % pow2(self.l0gptsz.spec_width())) / pow2(self.pgs.spec_width() + 4)
    }

    /// The number of entries of an L1 table.
    pub open spec fn spec_l1_entry_count(&self) -> nat {
        pow2((self.l0gptsz.spec_width() - (self.pgs.spec_width() + 4)) as nat)
    }

    /// Retrieve the index of the L0 entry referencing the given PA.
    pub fn l0_resolve(&self, pa: PA) -> (index: usize)
        ensures
            index == self.spec_l0_index(pa),
    {
        let pps_width = self.pps.width() as u64;
        let l0_width = self.l0gptsz.width() as u64;
        let wide = pa as u64;
        proof {
            lemma_mask_shift(wide, pps_width, l0_width);
            lemma_index_bound(wide as nat, pps_width as nat, l0_width as nat);
            vstd::bits::lemma_u64_pow2_no_overflow(pps_width as nat);
            vstd::bits::lemma_u64_shl_is_mul(1, pps_width);
        }
        ((wide & ((1u64 << pps_width) - 1)) >> l0_width) as usize
    }

    /// Retrieve the index of the L1 entry referencing the given PA.
    pub fn l1_resolve(&self, pa: PA) -> (index: usize)
        ensures
            index == self.spec_l1_index(pa),
    {
        let l0_width = self.l0gptsz.width() as u64;
        let pgs_width = self.pgs.width() as u64;
        let wide = pa as u64;
        proof {
            lemma_mask_shift(wide, l0_width, (pgs_width + 4) as u64);
            lemma_index_bound(wide as nat, l0_width as nat, (pgs_width + 4) as nat);
            vstd::bits::lemma_u64_pow2_no_overflow(l0_width as nat);
            vstd::bits::lemma_u64_shl_is_mul(1, l0_width);
        }
        ((wide & ((1u64 << l0_width) - 1)) >> (pgs_width + 4)) as usize
    }

    /// The number of entries in each L1 table of a GPT with this configuration.
    pub fn l1_entry_count(&self) -> (count: usize)
        ensures
            count == self.spec_l1_entry_count(),
    {
        let shift = self.l0gptsz.width() - (self.pgs.width() + 4);
        proof {
            vstd::bits::lemma_usize_pow2_no_overflow(shift as nat);
            vstd::bits::lemma_usize_shl_is_mul(1, shift);
        }
        1usize << shift
    }
}

/// `q` is the quotient of `x` by the positive `d`: `q * d <= x < (q + 1) * d`.
proof fn lemma_quotient_bounds(x: int, d: int)
    requires
        x >= 0,
        d > 0,
    ensures
        (x / d) * d <= x < (x / d + 1) * d,
{
    vstd::arithmetic::div_mod::lemma_fundamental_div_mod(x, d);
    assert((x / d) * d == d * (x / d)) by (nonlinear_arith);
    assert((x / d + 1) * d == d * (x / d) + d) by (nonlinear_arith);
}

impl GranuleProtectionConfig {
    /// The L0 entry that `pa` resolves to covers `pa`: L0 entry `i` covers the protected
    /// addresses from `i` times the L0 entry size on, up to the next entry's.
    pub proof fn lemma_l0_entry_covers(&self, pa: PA)
        ensures
            self.spec_l0_index(pa) * pow2(self.l0gptsz.spec_width()) <= pa as nat % pow2(
                self.pps.spec_width(),
            ),
            pa as nat % pow2(self.pps.spec_width()) < (self.spec_l0_index(pa) + 1) * pow2(
                self.l0gptsz.spec_width(),
            ),
    {
        vstd::arithmetic::power2::lemma_pow2_pos(self.pps.spec_width());
        vstd::arithmetic::power2::lemma_pow2_pos(self.l0gptsz.spec_width());
        lemma_quotient_bounds(
            (pa as nat % pow2(self.pps.spec_width())) as int,
            pow2(self.l0gptsz.spec_width()) as int,
        );
    }

    /// The L1 entry that `pa` resolves to covers `pa`: within the region of its L0 entry, L1
    /// entry `i` covers the 16 granules from `16 * i` on, up to the next entry's; the entries of
    /// an L1 table cover the whole region of an L0 entry, so every index is below the entry
    /// count.
    pub proof fn lemma_l1_entry_covers(&self, pa: PA)
        ensures
            self.spec_l1_index(pa) * (16 * pow2(self.pgs.spec_width())) <= pa as nat % pow2(
                self.l0gptsz.spec_width(),
            ),
            pa as nat % pow2(self.l0gptsz.spec_width()) < (self.spec_l1_index(pa) + 1) * (16 * pow2(
                self.pgs.spec_width(),
            )),
            self.spec_l1_entry_count() * (16 * pow2(self.pgs.spec_width())) == pow2(
                self.l0gptsz.spec_width(),
            ),
            self.spec_l1_index(pa) < self.spec_l1_entry_count(),
    {
        let g = self.pgs.spec_width();
        let w = self.l0gptsz.spec_width();
        vstd::arithmetic::power2::lemma2_to64();
        vstd::arithmetic::power2::lemma_pow2_adds(g, 4);
        vstd::arithmetic::power2::lemma_pow2_pos(g);
        vstd::arithmetic::power2::lemma_pow2_pos(w);
        let d = pow2(g + 4);
        assert(d == 16 * pow2(g)) by (nonlinear_arith)
            requires
                d == pow2(g) * pow2(4),
                pow2(4) == 16,
        ;
        let x = pa as nat % pow2(w);
        lemma_quotient_bounds(x as int, d as int);
        vstd::arithmetic::power2::lemma_pow2_adds((w - (g + 4)) as nat, g + 4);
        let count = self.spec_l1_entry_count();
        assert(count * d == pow2(w));
        let q = self.spec_l1_index(pa);
        assert(x < pow2(w)) by {
            vstd::arithmetic::div_mod::lemma_mod_bound(pa as int, pow2(w) as int);
        }
        assert(q < count) by (nonlinear_arith)
            requires
                q * d <= x,
                x < count * d,
                d > 0,
        ;
    }
}

/// Masking the low `width` bits and shifting right by `shift` computes
/// `(v mod 2^width) / 2^shift`.
proof fn lemma_mask_shift(v: u64, width: u64, shift: u64)
    requires
        0 < width < 64,
        shift < 64,
    ensures
        (v & (((1u64 << width) - 1) as u64)) >> shift == (v as nat % pow2(width as nat)) / pow2(
            shift as nat,
        ),
{
    vstd::bits::lemma_u64_pow2_no_overflow(width as nat);
    vstd::bits::lemma_u64_shl_is_mul(1, width);
    vstd::bits::lemma_u64_low_bits_mask_is_mod(v, width as nat);
    let m = v & (((1u64 << width) - 1) as u64);
    vstd::bits::lemma_u64_shr_is_div(m, shift);
}

/// The bits of `x` below bit `w`, shifted right by `s >= w - 31` bits, fit in 31 bits.
proof fn lemma_index_bound(x: nat, w: nat, s: nat)
    requires
        w <= s + 31,
    ensures
        (x % pow2(w)) / pow2(s) < 0x8000_0000,
{
    vstd::arithmetic::power2::lemma_pow2_pos(w);
    vstd::arithmetic::power2::lemma_pow2_pos(s);
    vstd::arithmetic::power2::lemma2_to64();
    let m = x % pow2(w);
    assert(m < pow2(w));
    if w <= s {
        if w < s {
            vstd::arithmetic::power2::lemma_pow2_strictly_increases(w, s);
        }
        vstd::arithmetic::div_mod::lemma_basic_div(m as int, pow2(s) as int);
    } else {
        let q = pow2((w - s) as nat);
        let d = pow2(s);
        vstd::arithmetic::power2::lemma_pow2_adds((w - s) as nat, s);
        assert(d * q == q * d) by (nonlinear_arith);
        vstd::arithmetic::div_mod::lemma_multiply_divide_lt(m as int, d as int, q as int);
        if w - s < 31 {
            vstd::arithmetic::power2::lemma_pow2_strictly_increases((w - s) as nat, 31);
        }
    }
}

/// A level 0 table: the entries of the GPT's first level.
pub struct Level0Table<'a>(pub &'a mut [Level0Descriptor]);

impl<'a> Level0Table<'a> {
    /// Returns where the level 1 table for `pa` lies: its address and its number of entries, if
    /// the level 0 entry for `pa` is a table descriptor. The level 0 entry must be in the table.
    pub fn get_l1(&self, pa: PA, config: &GranuleProtectionConfig) -> (l1: Option<(usize, usize)>)
        requires
            config.spec_l0_index(pa) < self.0@.len(),
        ensures
            l1 is Some <==> old(self.0)@[config.spec_l0_index(pa) as int].spec_is_table(),
            l1 matches Some((address, count)) ==> {
                &&& address as int == spec_table_address(old(self.0)@[config.spec_l0_index(pa) as int].0) as usize
                &&& count == config.spec_l1_entry_count()
            },
    {
        let l0_idx = config.l0_resolve(pa);
        match self.0[l0_idx].as_table() {
            Some(table) => Some((table.address(), config.l1_entry_count())),
            None => None,
        }
    }
}

/// Handle to manipulate the Granule Protection Table and related registers.
pub struct GranuleProtection<'a> {
    /// The level 0 table of the GPT.
    pub level0: Level0Table<'a>,
    /// The size configuration of the GPT.
    pub config: GranuleProtectionConfig,
}

} // verus!
