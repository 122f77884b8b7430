//! Descriptor formats of the level 0 and level 1 Granule Protection Tables.

use vstd::prelude::*;

use super::{InvalidEncoding, pow2};

verus! {

/// The 4-bit field number `idx` (bits `[4 * idx + 3 : 4 * idx]`) of a descriptor value.
pub open spec fn nibble(v: u64, idx: int) -> u64 {
    (v >> ((4 * idx) as u64)) & 0xf
}

/// The kind of a descriptor that ends a table walk.
#[derive(Debug, Clone, Copy, PartialEq, Eq, Structural)]
pub enum LeafDescriptorType {
    /// A level 0 block descriptor.
    Block,
    /// A level 1 granule descriptor.
    Granule,
    /// A level 1 contiguous descriptor.
    Contig,
}

/// Access control restriction that can be applied to a memory region in the GPT.
#[derive(Debug, Clone, Copy, PartialEq, Eq, Structural)]
pub enum GPIAccessType {
    /// No accesses permitted.
    NoAccess,
    /// Accesses permitted to Secure PA space only.
    Secure,
    /// Accesses permitted to Non-secure PA space only.
    NonSecure,
    /// Accesses permitted to Root PA space only.
    Root,
    /// Accesses permitted to Realm PA space only.
    Realm,
    /// All accesses permitted.
    Any,
}

impl GPIAccessType {
    /// Mask of a GPI field.
    pub const MASK: u64 = 0xf;

    /// The 4-bit GPI value that encodes this access type.
    pub open spec fn spec_encoding(self) -> u64 {
        match self {
            GPIAccessType::NoAccess => 0b0000,
            GPIAccessType::Secure => 0b1000,
            GPIAccessType::NonSecure => 0b1001,
            GPIAccessType::Root => 0b1010,
            GPIAccessType::Realm => 0b1011,
            GPIAccessType::Any => 0b1111,
        }
    }

    /// The access type that the GPI value `value` encodes, if any.
    pub open spec fn spec_decode(value: u64) -> Option<GPIAccessType> {
        if value == 0b0000 {
            Some(GPIAccessType::NoAccess)
        } else if value == 0b1000 {
            Some(GPIAccessType::Secure)
        } else if value == 0b1001 {
            Some(GPIAccessType::NonSecure)
        } else if value == 0b1010 {
            Some(GPIAccessType::Root)
        } else if value == 0b1011 {
            Some(GPIAccessType::Realm)
        } else if value == 0b1111 {
            Some(GPIAccessType::Any)
        } else {
            None
        }
    }

    /// Returns the 4-bit GPI value that encodes this access type.
    pub fn encoding(self) -> (value: u64)
        ensures
            value == self.spec_encoding(),
    {
        match self {
            GPIAccessType::NoAccess => 0b0000,
            GPIAccessType::Secure => 0b1000,
            GPIAccessType::NonSecure => 0b1001,
            GPIAccessType::Root => 0b1010,
            GPIAccessType::Realm => 0b1011,
            GPIAccessType::Any => 0b1111,
        }
    }

    /// Returns the access type that the GPI value `value` encodes, or `None` if it is not a
    /// valid GPI value.
    pub fn decode(value: u64) -> (gpi: Option<GPIAccessType>)
        ensures
            gpi == Self::spec_decode(value),
    {
        match value {
            0b0000 => Some(GPIAccessType::NoAccess),
            0b1000 => Some(GPIAccessType::Secure),
            0b1001 => Some(GPIAccessType::NonSecure),
            0b1010 => Some(GPIAccessType::Root),
            0b1011 => Some(GPIAccessType::Realm),
            0b1111 => Some(GPIAccessType::Any),
            _ => None,
        }
    }
}

impl From<GPIAccessType> for u64 {
    fn from(value: GPIAccessType) -> (encoding: u64)
        ensures
            encoding == value.spec_encoding(),
    {
        value.encoding()
    }
}

impl vstd::std_specs::convert::FromSpecImpl<GPIAccessType> for u64 {
    open spec fn obeys_from_spec() -> bool {
        true
    }

    open spec fn from_spec(v: GPIAccessType) -> u64 {
        v.spec_encoding()
    }
}

impl TryFrom<u64> for GPIAccessType {
    type Error = InvalidEncoding;

    fn try_from(value: u64) -> (gpi: Result<Self, InvalidEncoding>)
        ensures
            gpi == match Self::spec_decode(value) {
                Some(g) => Ok(g),
                None => Err(InvalidEncoding(value)),
            },
    {
        match Self::decode(value) {
            Some(g) => Ok(g),
            None => Err(InvalidEncoding(value)),
        }
    }
}

impl vstd::std_specs::convert::TryFromSpecImpl<u64> for GPIAccessType {
    open spec fn obeys_try_from_spec() -> bool {
        true
    }

    open spec fn try_from_spec(v: u64) -> Result<Self, InvalidEncoding> {
        match Self::spec_decode(v) {
            Some(g) => Ok(g),
            None => Err(InvalidEncoding(v)),
        }
    }
}

/// Decoding inverts encoding, and only the encoding of an access type decodes to it.
pub proof fn lemma_gpi_encoding_round_trip(gpi: GPIAccessType, value: u64)
    ensures
        GPIAccessType::spec_decode(gpi.spec_encoding()) == Some(gpi),
        gpi.spec_encoding() <= 0xf,
        GPIAccessType::spec_decode(value) == Some(gpi) ==> value == gpi.spec_encoding(),
{
}

/// Possible sizes of a Contiguous Descriptor.
#[derive(Debug, Clone, Copy, PartialEq, Eq, Structural)]
pub enum ContigSize {
    /// Descriptor covers 2MB of memory.
    MB2,
    /// Descriptor covers 32MB of memory.
    MB32,
    /// Descriptor covers 512MB of memory.
    MB512,
}

impl ContigSize {
    /// Mask of the size field of a contiguous descriptor.
    pub const MASK: u64 = 0x3;

    /// All the sizes, from smallest to largest.
    pub const VALUES: [ContigSize; 3] = [ContigSize::MB2, ContigSize::MB32, ContigSize::MB512];

    /// The 2-bit size field value that encodes this size.
    pub open spec fn spec_encoding(self) -> u64 {
        match self {
            ContigSize::MB2 => 0b01,
            ContigSize::MB32 => 0b10,
            ContigSize::MB512 => 0b11,
        }
    }

    /// The size that the size field value `value` encodes, if any.
    pub open spec fn spec_decode(value: u64) -> Option<ContigSize> {
        if value == 0b01 {
            Some(ContigSize::MB2)
        } else if value == 0b10 {
            Some(ContigSize::MB32)
        } else if value == 0b11 {
            Some(ContigSize::MB512)
        } else {
            None
        }
    }

    /// The bit shift of this size's alignment.
    pub open spec fn spec_shift(self) -> nat {
        match self {
            ContigSize::MB2 => 21,
            ContigSize::MB32 => 25,
            ContigSize::MB512 => 29,
        }
    }

    /// The size with alignment shift `shift`, if any.
    pub open spec fn spec_from_shift(shift: nat) -> Option<ContigSize> {
        if shift == 21 {
            Some(ContigSize::MB2)
        } else if shift == 25 {
            Some(ContigSize::MB32)
        } else if shift == 29 {
            Some(ContigSize::MB512)
        } else {
            None
        }
    }

    /// Returns the bit shifts of all the sizes, from smallest to largest.
    pub fn allowed_shifts() -> (shifts: [usize; 3])
        ensures
            shifts@ == seq![
                ContigSize::MB2.spec_shift() as usize,
                ContigSize::MB32.spec_shift() as usize,
                ContigSize::MB512.spec_shift() as usize,
            ],
    {
        let shifts = [
            ContigSize::MB2.shift(),
            ContigSize::MB32.shift(),
            ContigSize::MB512.shift(),
        ];
        assert(shifts@ =~= seq![21usize, 25usize, 29usize]);
        shifts
    }

    /// Returns the bitshift corresponding to this size's alignment.
    pub fn shift(&self) -> (shift: usize)
        ensures
            shift == self.spec_shift(),
    {
        match self {
            ContigSize::MB2 => 21,
            ContigSize::MB32 => 25,
            ContigSize::MB512 => 29,
        }
    }

    /// Returns the [`ContigSize`] corresponding to the given alignment.
    pub fn from_shift(shift: usize) -> (size: Option<ContigSize>)
        ensures
            size == Self::spec_from_shift(shift as nat),
    {
        match shift {
            21 => Some(ContigSize::MB2),
            25 => Some(ContigSize::MB32),
            29 => Some(ContigSize::MB512),
            _ => None,
        }
    }

    /// The size in bytes.
    pub fn size(&self) -> (size: usize)
        ensures
            size == pow2(self.spec_shift()),
    {
        let shift = self.shift();
        proof {
            vstd::bits::lemma_u32_pow2_no_overflow(shift as nat);
            vstd::bits::lemma_u32_shl_is_mul(1, shift as u32);
        }
        (1u32 << (shift as u32)) as usize
    }

    /// Returns the 2-bit size field value that encodes this size.
    pub fn encoding(self) -> (value: u64)
        ensures
            value == self.spec_encoding(),
    {
        match self {
            ContigSize::MB2 => 0b01,
            ContigSize::MB32 => 0b10,
            ContigSize::MB512 => 0b11,
        }
    }

    /// Returns the size that the size field value `value` encodes, or `None`.
    pub fn decode(value: u64) -> (size: Option<ContigSize>)
        ensures
            size == Self::spec_decode(value),
    {
        match value {
            0b01 => Some(ContigSize::MB2),
            0b10 => Some(ContigSize::MB32),
            0b11 => Some(ContigSize::MB512),
            _ => None,
        }
    }
}

impl From<ContigSize> for u64 {
    fn from(value: ContigSize) -> (encoding: u64)
        ensures
            encoding == value.spec_encoding(),
    {
        value.encoding()
    }
}

impl vstd::std_specs::convert::FromSpecImpl<ContigSize> for u64 {
    open spec fn obeys_from_spec() -> bool {
        true
    }

    open spec fn from_spec(v: ContigSize) -> u64 {
        v.spec_encoding()
    }
}

impl TryFrom<u64> for ContigSize {
    type Error = InvalidEncoding;

    fn try_from(value: u64) -> (size: Result<Self, InvalidEncoding>)
        ensures
            size == match Self::spec_decode(value) {
                Some(s) => Ok(s),
                None => Err(InvalidEncoding(value)),
            },
    {
        match Self::decode(value) {
            Some(s) => Ok(s),
            None => Err(InvalidEncoding(value)),
        }
    }
}

impl vstd::std_specs::convert::TryFromSpecImpl<u64> for ContigSize {
    open spec fn obeys_try_from_spec() -> bool {
        true
    }

    open spec fn try_from_spec(v: u64) -> Result<Self, InvalidEncoding> {
        match Self::spec_decode(v) {
            Some(s) => Ok(s),
            None => Err(InvalidEncoding(v)),
        }
    }
}

/// The alignment shift of every contiguous size maps back to that size, and encoding the size
/// field and decoding it again gives the size back.
pub proof fn lemma_contig_size_round_trip(size: ContigSize)
    ensures
        ContigSize::spec_from_shift(size.spec_shift()) == Some(size),
        ContigSize::spec_decode(size.spec_encoding()) == Some(size),
        size.spec_encoding() <= 3,
{
}

/// A level 0 GPT descriptor.
#[derive(Debug, Clone, Copy, PartialEq, Eq, Structural)]
pub struct Level0Descriptor(pub u64);

impl Level0Descriptor {
    /// Mask of the descriptor type field.
    pub const TAG_MASK: u64 = 0xf;
    /// Type field value of a block descriptor.
    pub const BLOCK_TAG: u64 = 0b0001;
    /// Type field value of a table descriptor.
    pub const TABLE_TAG: u64 = 0b0011;
    /// The address of a table descriptor is held below this bit.
    pub const TABLE_ADDR_LEN: usize = 52;
    /// The address of a table descriptor is aligned to `2^TABLE_ADDR_ALIGN` bytes.
    pub const TABLE_ADDR_ALIGN: usize = 12;
    /// Mask of the address of a table descriptor: bits [51:12].
    pub const TABLE_ADDR_MASK: u64 = 0x000f_ffff_ffff_f000;

    /// Whether the descriptor is a table descriptor.
    pub open spec fn spec_is_table(self) -> bool {
        self.0 % 16 == 3
    }

    /// Whether the descriptor is a block descriptor.
    pub open spec fn spec_is_block(self) -> bool {
        self.0 % 16 == 1
    }

    /// The value of the block descriptor with access type `gpi`.
    pub open spec fn spec_block(gpi: GPIAccessType) -> u64 {
        (1 + 16 * gpi.spec_encoding()) as u64
    }

    /// Tries to create a view of this Level 0 Descriptor as a Table Descriptor.
    ///
    /// Returns a [`TableDescriptorRef`] referencing `self`, or [`None`] if self does not contain
    /// a Table Descriptor.
    pub fn as_table<'a>(&'a self) -> (table: Option<TableDescriptorRef<'a>>)
        ensures
            table is Some <==> self.spec_is_table(),
            table is Some ==> *(table->0).0 == *self,
    {
        let v = self.0;
        assert((v & 0xf) == v % 16) by (bit_vector);
        if (self.0 & Self::TAG_MASK) == Self::TABLE_TAG {
            Some(TableDescriptorRef(self))
        } else {
            None
        }
    }

    /// Tries to create a view of this Level 0 Descriptor as a Block Descriptor.
    ///
    /// Returns a [`BlockDescriptorRef`] referencing `self`, or [`None`] if self does not contain
    /// a Block Descriptor.
    pub fn as_block<'a>(&'a self) -> (block: Option<BlockDescriptorRef<'a>>)
        ensures
            block is Some <==> self.spec_is_block(),
            block is Some ==> *(block->0).0 == *self,
    {
        let v = self.0;
        assert((v & 0xf) == v % 16) by (bit_vector);
        if self.0 & Self::TAG_MASK == Self::BLOCK_TAG {
            Some(BlockDescriptorRef(self))
        } else {
            None
        }
    }

    /// Creates a Block Descriptor with the given [`GPIAccessType`].
    pub fn block(gpi: GPIAccessType) -> (descriptor: Self)
        ensures
            descriptor.0 == Self::spec_block(gpi),
    {
        let g = gpi.encoding();
        assert(g <= 15 ==> (Self::BLOCK_TAG | (g & GPIAccessType::MASK) << 4) == 1 + 16 * g)
            by (bit_vector);
        Self(Self::BLOCK_TAG | (g & GPIAccessType::MASK) << 4)
    }
}

/// A block descriptor is a block descriptor, not a table descriptor, and holds its access type.
pub proof fn lemma_block_round_trip(gpi: GPIAccessType)
    ensures
        Level0Descriptor(Level0Descriptor::spec_block(gpi)).spec_is_block(),
        !Level0Descriptor(Level0Descriptor::spec_block(gpi)).spec_is_table(),
        GPIAccessType::spec_decode(nibble(Level0Descriptor::spec_block(gpi), 1)) == Some(gpi),
{
    let g = gpi.spec_encoding();
    let v = Level0Descriptor::spec_block(gpi);
    assert(g <= 15 ==> ((((1 + 16 * g) as u64) >> 4u64) & 0xf) == g) by (bit_vector);
    assert(v >> ((4 * 1int) as u64) == v >> 4u64);
}

/// View of a [`Level0Descriptor`] as a Table Descriptor.
pub struct TableDescriptorRef<'a>(pub &'a Level0Descriptor);

/// The next-level table address that the table descriptor value `v` holds: bits [51:12].
pub open spec fn spec_table_address(v: u64) -> nat {
    (v as nat % 0x10_0000_0000_0000) / 0x1000 * 0x1000
}

impl<'a> TableDescriptorRef<'a> {
    /// Returns the address of the level 1 table referenced by this descriptor.
    pub fn address(&self) -> (address: usize)
        ensures
            address as int == spec_table_address(self.0.0) as usize,
            spec_table_address(self.0.0) <= usize::MAX ==> address == spec_table_address(self.0.0),
    {
        let v = self.0.0;
        assert((v & 0x000f_ffff_ffff_f000) == (v % 0x10_0000_0000_0000) / 0x1000 * 0x1000)
            by (bit_vector);
        (self.0.0 & Level0Descriptor::TABLE_ADDR_MASK) as usize
    }
}

/// View of a [`Level0Descriptor`] as a Block Descriptor.
pub struct BlockDescriptorRef<'a>(pub &'a Level0Descriptor);

impl<'a> BlockDescriptorRef<'a> {
    /// Return the [`GPIAccessType`] of this descriptor, which must hold a valid GPI.
    pub fn gpi(&self) -> (gpi: GPIAccessType)
        requires
            GPIAccessType::spec_decode(nibble(self.0.0, 1)) is Some,
        ensures
            Some(gpi) == GPIAccessType::spec_decode(nibble(self.0.0, 1)),
    {
        let v = self.0.0;
        assert(v >> ((4 * 1int) as u64) == v >> 4u64);
        match GPIAccessType::decode((self.0.0 >> 4) & 0xf) {
            Some(gpi) => gpi,
            None => {
                assert(false);
                GPIAccessType::NoAccess
            },
        }
    }
}

/// A level 1 GPT descriptor.
#[derive(Debug, Clone, Copy, PartialEq, Eq, Structural)]
pub struct Level1Descriptor(pub u64);

/// Whether the level 1 descriptor value `v` is a granule descriptor: its first GPI field holds a
/// valid GPI.
pub open spec fn spec_is_granule(v: u64) -> bool {
    GPIAccessType::spec_decode(nibble(v, 0)) is Some
}

/// Whether every GPI field of the granule descriptor value `v` is either misprogrammed or
/// [`GPIAccessType::NoAccess`].
pub open spec fn spec_granules_empty(v: u64) -> bool {
    forall|i: int|
        0 <= i < 16 ==> match #[trigger] GPIAccessType::spec_decode(nibble(v, i)) {
            None => true,
            Some(g) => g == GPIAccessType::NoAccess,
        }
}

/// Whether every GPI field of the granule descriptor value `v` is [`GPIAccessType::Any`].
pub open spec fn spec_granules_all(v: u64) -> bool {
    forall|i: int|
        0 <= i < 16 ==> #[trigger] GPIAccessType::spec_decode(nibble(v, i)) == Some(
            GPIAccessType::Any,
        )
}

impl Level1Descriptor {
    /// Mask of the descriptor type field.
    pub const TAG_MASK: u64 = 0xf;
    /// Type field value of a contiguous descriptor.
    pub const CONTIG_TAG: u64 = 0b0001;

    /// Whether the descriptor is a contiguous descriptor.
    pub open spec fn spec_is_contig(self) -> bool {
        self.0 % 16 == 1
    }

    /// The value of the contiguous descriptor of the given size and access type.
    pub open spec fn spec_contig(size: ContigSize, gpi: GPIAccessType) -> u64 {
        (1 + 16 * gpi.spec_encoding() + 256 * size.spec_encoding()) as u64
    }

    /// Tries to create a view of this Level 1 Descriptor as a Contig Descriptor.
    ///
    /// Returns a [`ContiguousDescriptorRef`] referencing `self`, or [`None`] if self does not
    /// contain a Contig Descriptor.
    pub fn as_contig<'a>(&'a self) -> (contig: Option<ContiguousDescriptorRef<'a>>)
        ensures
            contig is Some <==> self.spec_is_contig(),
            contig is Some ==> *(contig->0).0 == *self,
    {
        let v = self.0;
        assert((v & 0xf) == v % 16) by (bit_vector);
        if self.0 & Self::TAG_MASK == Self::CONTIG_TAG {
            Some(ContiguousDescriptorRef(self))
        } else {
            None
        }
    }

    /// Creates a Contiguous Descriptor from the given size and gpi.
    pub fn contig(size: ContigSize, gpi: GPIAccessType) -> (descriptor: Self)
        ensures
            descriptor.0 == Self::spec_contig(size, gpi),
    {
        let size: u64 = size.into();
        let gpi: u64 = gpi.into();
        assert(size <= 3 && gpi <= 15 ==> (Self::CONTIG_TAG | (size & ContigSize::MASK) << 8 | (gpi
            & GPIAccessType::MASK) << 4) == 1 + 16 * gpi + 256 * size) by (bit_vector);
        Self(Self::CONTIG_TAG | (size & ContigSize::MASK) << 8 | (gpi & GPIAccessType::MASK) << 4)
    }

    /// Tries to create a view of this Level 1 Descriptor as a Granule Descriptor.
    ///
    /// Returns a [`GranuleDescriptorRef`] referencing `self`, or [`None`] if self does not
    /// contain a Granule Descriptor.
    pub fn as_granule<'a>(&'a self) -> (granule: Option<GranuleDescriptorRef<'a>>)
        ensures
            granule is Some <==> spec_is_granule(self.0),
            granule is Some ==> *(granule->0).0 == *self,
    {
        let v = self.0;
        assert(v >> ((4 * 0int) as u64) == v >> 0u64);
        assert(v >> 0u64 == v) by (bit_vector);
        if GPIAccessType::decode(self.0 & GPIAccessType::MASK).is_some() {
            Some(GranuleDescriptorRef(self))
        } else {
            None
        }
    }

    /// Tries to create a view of this Level 1 Descriptor as a Granule Descriptor.
    ///
    /// Returns a [`GranuleDescriptorRefMut`] mutably referencing `self`, or [`None`] if self
    /// does not contain a Granule Descriptor.
    pub fn as_granule_mut<'a>(&'a mut self) -> (granule: Option<GranuleDescriptorRefMut<'a>>)
        ensures
            granule is Some <==> spec_is_granule(old(self).0),
            granule is Some ==> *(granule->0).0 == *old(self),
            granule is Some ==> *final(self) == *final((granule->0).0),
            granule is None ==> *final(self) == *old(self),
    {
        let v = self.0;
        assert(v >> ((4 * 0int) as u64) == v >> 0u64);
        assert(v >> 0u64 == v) by (bit_vector);
        if GPIAccessType::decode(self.0 & GPIAccessType::MASK).is_some() {
            Some(GranuleDescriptorRefMut(self))
        } else {
            None
        }
    }

    /// Creates a Granule Descriptor from the given [`GPIAccessType`]s.
    pub fn granule(gpis: &[GPIAccessType; 16]) -> (descriptor: Self)
        ensures
            forall|i: int| 0 <= i < 16 ==> #[trigger] nibble(descriptor.0, i) == gpis@[i].spec_encoding(),
            descriptor.0 == spec_from_nibbles(Seq::new(16, |i: int| gpis@[i].spec_encoding())),
    {
        let mut s = Self(0);
        let mut i: usize = 0;
        while i < 16
            invariant
                0 <= i <= 16,
                forall|j: int| 0 <= j < i ==> #[trigger] nibble(s.0, j) == gpis@[j].spec_encoding(),
            decreases 16 - i,
        {
            let gpi = gpis[i];
            let mut granule = GranuleDescriptorRefMut(&mut s);
            granule.set_gpi(i, gpi);
            i = i + 1;
        }
        proof {
            lemma_from_nibbles(s.0);
            assert(Seq::new(16, |j: int| nibble(s.0, j)) =~= Seq::new(
                16,
                |j: int| gpis@[j].spec_encoding(),
            ));
        }
        s
    }
}

/// The 64-bit value whose nibble `i`, from the least significant, is `n[i]`, for the sixteen
/// 4-bit values `n`.
pub open spec fn spec_from_nibbles(n: Seq<u64>) -> u64 {
    n[0] | n[1] << 4u64 | n[2] << 8u64 | n[3] << 12u64 | n[4] << 16u64 | n[5] << 20u64 | n[6] << 24u64 | n[7] << 28u64 | n[8] << 32u64 | n[9] << 36u64 | n[10] << 40u64 | n[11] << 44u64 | n[12] << 48u64 | n[13] << 52u64 | n[14] << 56u64 | n[15] << 60u64
}

/// A value is the value of its sixteen nibbles.
proof fn lemma_from_nibbles(v: u64)
    ensures
        v == spec_from_nibbles(Seq::new(16, |i: int| nibble(v, i))),
{
    let n = Seq::new(16, |i: int| nibble(v, i));
    assert(n[0] == (v >> 0u64) & 0xf);
    assert(n[1] == (v >> 4u64) & 0xf);
    assert(n[2] == (v >> 8u64) & 0xf);
    assert(n[3] == (v >> 12u64) & 0xf);
    assert(n[4] == (v >> 16u64) & 0xf);
    assert(n[5] == (v >> 20u64) & 0xf);
    assert(n[6] == (v >> 24u64) & 0xf);
    assert(n[7] == (v >> 28u64) & 0xf);
    assert(n[8] == (v >> 32u64) & 0xf);
    assert(n[9] == (v >> 36u64) & 0xf);
    assert(n[10] == (v >> 40u64) & 0xf);
    assert(n[11] == (v >> 44u64) & 0xf);
    assert(n[12] == (v >> 48u64) & 0xf);
    assert(n[13] == (v >> 52u64) & 0xf);
    assert(n[14] == (v >> 56u64) & 0xf);
    assert(n[15] == (v >> 60u64) & 0xf);
    assert(v == ((v >> 0u64) & 0xf) | ((v >> 4u64) & 0xf) << 4u64 | ((v >> 8u64) & 0xf) << 8u64 | ((v >> 12u64) & 0xf) << 12u64
        | ((v >> 16u64) & 0xf) << 16u64 | ((v >> 20u64) & 0xf) << 20u64 | ((v >> 24u64) & 0xf) << 24u64
        | ((v >> 28u64) & 0xf) << 28u64 | ((v >> 32u64) & 0xf) << 32u64 | ((v >> 36u64) & 0xf) << 36u64
        | ((v >> 40u64) & 0xf) << 40u64 | ((v >> 44u64) & 0xf) << 44u64 | ((v >> 48u64) & 0xf) << 48u64
        | ((v >> 52u64) & 0xf) << 52u64 | ((v >> 56u64) & 0xf) << 56u64 | ((v >> 60u64) & 0xf) << 60u64)
        by (bit_vector);
    assert(v == spec_from_nibbles(n));
}

/// A contiguous descriptor is not a granule descriptor, and holds its size and access type.
pub proof fn lemma_contig_round_trip(size: ContigSize, gpi: GPIAccessType)
    ensures
        Level1Descriptor(Level1Descriptor::spec_contig(size, gpi)).spec_is_contig(),
        !spec_is_granule(Level1Descriptor::spec_contig(size, gpi)),
        ContigSize::spec_decode((Level1Descriptor::spec_contig(size, gpi) >> 8u64) & 0x3) == Some(
            size,
        ),
        GPIAccessType::spec_decode(nibble(Level1Descriptor::spec_contig(size, gpi), 1)) == Some(
            gpi,
        ),
{
    let g = gpi.spec_encoding();
    let z = size.spec_encoding();
    let v = Level1Descriptor::spec_contig(size, gpi);
    assert(g <= 15 && z <= 3 ==> ((((1 + 16 * g + 256 * z) as u64) >> 8u64) & 0x3) == z)
        by (bit_vector);
    assert(g <= 15 && z <= 3 ==> ((((1 + 16 * g + 256 * z) as u64) >> 4u64) & 0xf) == g)
        by (bit_vector);
    assert(g <= 15 && z <= 3 ==> ((((1 + 16 * g + 256 * z) as u64) >> 0u64) & 0xf) == 1)
        by (bit_vector);
    assert(v >> ((4 * 1int) as u64) == v >> 4u64);
    assert(v >> ((4 * 0int) as u64) == v >> 0u64);
}

/// A contiguous descriptor is never a granule descriptor, as its type field is no valid GPI.
pub proof fn lemma_contig_is_not_granule(descriptor: Level1Descriptor)
    requires
        descriptor.spec_is_contig(),
    ensures
        !spec_is_granule(descriptor.0),
{
    let v = descriptor.0;
    assert((v >> 0u64) & 0xf == v % 16) by (bit_vector);
    assert(v >> ((4 * 0int) as u64) == v >> 0u64);
}

/// The granule descriptor built from 16 access types holds each of them, and so is a granule
/// descriptor.
pub proof fn lemma_granule_round_trip(v: u64, gpis: Seq<GPIAccessType>)
    requires
        gpis.len() == 16,
        forall|i: int| 0 <= i < 16 ==> #[trigger] nibble(v, i) == gpis[i].spec_encoding(),
    ensures
        spec_is_granule(v),
        forall|i: int|
            0 <= i < 16 ==> #[trigger] GPIAccessType::spec_decode(nibble(v, i)) == Some(gpis[i]),
{
    assert(nibble(v, 0) == gpis[0].spec_encoding());
}

/// View of a [`Level1Descriptor`] as a Contiguous Descriptor.
pub struct ContiguousDescriptorRef<'a>(pub &'a Level1Descriptor);

impl ContiguousDescriptorRef<'_> {
    /// Return the [`ContigSize`] of this descriptor, which must hold a valid size.
    pub fn size(&self) -> (size: ContigSize)
        requires
            ContigSize::spec_decode((self.0.0 >> 8u64) & 0x3) is Some,
        ensures
            Some(size) == ContigSize::spec_decode((self.0.0 >> 8u64) & 0x3),
    {
        match ContigSize::decode((self.0.0 >> 8) & ContigSize::MASK) {
            Some(size) => size,
            None => {
                assert(false);
                ContigSize::MB2
            },
        }
    }

    /// Return the [`GPIAccessType`] of this descriptor, which must hold a valid GPI.
    pub fn gpi(&self) -> (gpi: GPIAccessType)
        requires
            GPIAccessType::spec_decode(nibble(self.0.0, 1)) is Some,
        ensures
            Some(gpi) == GPIAccessType::spec_decode(nibble(self.0.0, 1)),
    {
        let v = self.0.0;
        assert(v >> ((4 * 1int) as u64) == v >> 4u64);
        match GPIAccessType::decode((self.0.0 >> 4) & GPIAccessType::MASK) {
            Some(gpi) => gpi,
            None => {
                assert(false);
                GPIAccessType::NoAccess
            },
        }
    }
}

/// View of a [`Level1Descriptor`] as a Granule Descriptor.
pub struct GranuleDescriptorRef<'a>(pub &'a Level1Descriptor);

impl<'a> GranuleDescriptorRef<'a> {
    /// Returns the [`GPIAccessType`] corresponding to the granule at index `idx`, or `None` if it
    /// is misprogrammed.
    pub fn gpi(&self, idx: usize) -> (gpi: Option<GPIAccessType>)
        requires
            idx < 16,
        ensures
            gpi == GPIAccessType::spec_decode(nibble(self.0.0, idx as int)),
    {
        let start = (idx * 4) as u64;
        assert(((4 * idx) as int) as u64 == start);
        GPIAccessType::decode((self.0.0 >> start) & 0xF)
    }

    /// Whether all Granules are mapped with [`GPIAccessType::NoAccess`].
    pub fn is_empty(&self) -> (empty: bool)
        ensures
            empty == spec_granules_empty(self.0.0),
    {
        let mut idx: usize = 0;
        while idx < 16
            invariant
                0 <= idx <= 16,
                forall|i: int|
                    0 <= i < idx ==> match #[trigger] GPIAccessType::spec_decode(
                        nibble(self.0.0, i),
                    ) {
                        None => true,
                        Some(g) => g == GPIAccessType::NoAccess,
                    },
            decreases 16 - idx,
        {
            match self.gpi(idx) {
                Some(v) => {
                    if v != GPIAccessType::NoAccess {
                        return false;
                    }
                },
                None => {},
            }
            idx = idx + 1;
        }
        true
    }

    /// Whether all Granules are mapped with [`GPIAccessType::Any`].
    pub fn is_all(&self) -> (all: bool)
        ensures
            all == spec_granules_all(self.0.0),
    {
        let mut idx: usize = 0;
        while idx < 16
            invariant
                0 <= idx <= 16,
                forall|i: int|
                    0 <= i < idx ==> #[trigger] GPIAccessType::spec_decode(nibble(self.0.0, i))
                        == Some(GPIAccessType::Any),
            decreases 16 - idx,
        {
            match self.gpi(idx) {
                Some(v) => {
                    if v != GPIAccessType::Any {
                        return false;
                    }
                },
                None => {
                    return false;
                },
            }
            idx = idx + 1;
        }
        true
    }
}

/// Mutable view of a [`Level1Descriptor`] as a Granule Descriptor.
pub struct GranuleDescriptorRefMut<'a>(pub &'a mut Level1Descriptor);

/// Replacing GPI field `idx` with `value` changes that field to `value` and keeps every other
/// field.
proof fn lemma_replace_nibble(old: u64, idx: u64, value: u64, j: u64)
    requires
        idx < 16,
        j < 16,
        value <= 15,
    ensures
        ((((old & !(0xFu64 << (idx * 4))) | ((value & 0xF) << (idx * 4))) >> (j * 4)) & 0xf) == if j
            == idx {
            value
        } else {
            (old >> (j * 4)) & 0xf
        },
{
    assert(((((old & !(0xFu64 << (idx * 4))) | ((value & 0xF) << (idx * 4))) >> (j * 4)) & 0xf)
        == if j == idx {
        value
    } else {
        (old >> (j * 4)) & 0xf
    }) by (bit_vector)
        requires
            idx < 16,
            j < 16,
            value <= 15,
    ;
}

impl GranuleDescriptorRefMut<'_> {
    /// Updates the [`GPIAccessType`] for the granule at index `idx`, and returns `true`.
    pub fn set_gpi(&mut self, idx: usize, value: GPIAccessType) -> (updated: bool)
        requires
            idx < 16,
        ensures
            updated,
            forall|j: int|
                0 <= j < 16 ==> #[trigger] nibble(final(self).0.0, j) == if j == idx {
                    value.spec_encoding()
                } else {
                    nibble(old(self).0.0, j)
                },
            *final(final(self).0) == *final(old(self).0),
    {
        let start = (idx * 4) as u64;
        let value: u64 = value.into();
        let old_value = self.0.0;
        let new_value = (old_value & !(0xF << start)) | ((value & 0xF) << start);
        assert forall|j: int| 0 <= j < 16 implies #[trigger] nibble(new_value, j) == if j == idx {
            value
        } else {
            nibble(old_value, j)
        } by {
            lemma_replace_nibble(old_value, idx as u64, value, j as u64);
            assert(((4 * j) as u64) == (j as u64) * 4);
        }
        self.0.0 = new_value;
        true
    }
}

/// A level 1 table: the entries of one table of the GPT's second level.
pub type Level1Table = [Level1Descriptor];

} // verus!
