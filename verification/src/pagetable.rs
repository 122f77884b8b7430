//! The MMU configuration of the EL3 translation regime: memory attribute encodings, translation
//! control and the root of the page table.

use vstd::prelude::*;

use core::ops::Range;

verus! {

/// Index in the Memory Attribute Indirection Register of normal write-back memory.
pub const MAIR_IWBRWA_OWBRWA_NTR_INDEX: u64 = 0;
/// Index in the Memory Attribute Indirection Register of device memory.
pub const MAIR_DEVICE_INDEX: u64 = 1;
/// Index in the Memory Attribute Indirection Register of non-cacheable memory.
pub const MAIR_NON_CACHEABLE_INDEX: u64 = 2;

/// Device-nGnRE memory.
pub const MAIR_DEV_NGNRE: u64 = 0x4;
/// Normal memory, non-cacheable.
pub const MAIR_NORM_NC: u64 = 0x4;
/// Normal memory, write-back non-transient, read-write-allocate.
pub const MAIR_NORM_WB_NTR_RWA: u64 = 0xf;
/// Bit shift of the outer memory attributes of normal memory.
pub const MAIR_NORM_OUTER_SHIFT: u64 = 4;

/// The MAIR attribute of device memory.
pub const MAIR_DEVICE: u64 = MAIR_DEV_NGNRE;
/// The MAIR attribute of normal write-back memory, inner and outer.
pub const MAIR_IWBRWA_OWBRWA_NTR: u64 = 0xff;
/// The MAIR attribute of normal non-cacheable memory, inner and outer.
pub const MAIR_NON_CACHEABLE: u64 = 0x44;

/// The values that the MMU of EL3 is enabled with.
#[derive(Clone, Copy, Debug, Eq, PartialEq, Structural)]
pub struct MmuCfgParams {
    /// The Memory Attribute Indirection Register.
    pub mair: u64,
    /// The Translation Control Register.
    pub tcr: u64,
    /// The Translation Table Base Register 0: the root of the page table.
    pub ttbr0: usize,
}

/// Returns the MMU configuration for the page table whose root is at `root_address`: device,
/// write-back and non-cacheable memory at their MAIR indices, a 48-bit physical address size and
/// a 512 GiB (2^39 bytes) address space.
pub fn setup_mmu_cfg(root_address: usize) -> (params: MmuCfgParams)
    ensures
        params.mair == MAIR_DEVICE * 0x100 + MAIR_IWBRWA_OWBRWA_NTR + MAIR_NON_CACHEABLE * 0x1_0000,
        params.tcr == 0b101 * 0x1_0000 + (64 - 39),
        params.ttbr0 == root_address,
{
    assert(MAIR_NORM_WB_NTR_RWA | (MAIR_NORM_WB_NTR_RWA << MAIR_NORM_OUTER_SHIFT) == MAIR_IWBRWA_OWBRWA_NTR)
        by (bit_vector);
    assert(MAIR_NORM_NC | (MAIR_NORM_NC << MAIR_NORM_OUTER_SHIFT) == MAIR_NON_CACHEABLE) by (bit_vector);
    let mair = MAIR_DEVICE << (MAIR_DEVICE_INDEX * 8) | MAIR_IWBRWA_OWBRWA_NTR << (
    MAIR_IWBRWA_OWBRWA_NTR_INDEX * 8) | MAIR_NON_CACHEABLE << (MAIR_NON_CACHEABLE_INDEX * 8);
    assert(mair == 0x4u64 * 0x100 + 0xff + 0x44 * 0x1_0000) by (bit_vector)
        requires
            mair == (0x4u64 << 8u64) | (0xffu64 << 0u64) | (0x44u64 << 16u64),
    ;
    // 48 bit physical address size (256 TiB), and a size offset of 2**39 bytes (512 GiB).
    let tcr: u64 = 0b101 << 16 | (64 - 39);
    assert(tcr == 0b101u64 * 0x1_0000 + 25) by (bit_vector)
        requires
            tcr == (0b101u64 << 16u64) | 25,
    ;
    MmuCfgParams { mair, tcr, ttbr0: root_address }
}

/// How a region of memory is mapped.
#[derive(Clone, Copy, Debug, Eq, PartialEq, Structural)]
pub enum MemoryType {
    /// Regular read-write memory, normal write-back cacheable.
    Memory,
    /// Code: regular memory, read-only.
    Code,
    /// Read-only data: regular memory, read-only and never executable.
    RoData,
}

/// Returns the regions that BL31 maps for itself, in the order in which they are mapped: its
/// whole image from `bl31_base` to `bl31_end` as regular memory, then its code as code and its
/// read-only data as read-only data, which the later mappings override within the image.
pub fn bl31_regions(
    bl31_base: usize,
    bl31_end: usize,
    code: Range<usize>,
    ro_data: Range<usize>,
) -> (regions: Vec<(Range<usize>, MemoryType)>)
    ensures
        regions@ == seq![
            (bl31_base..bl31_end, MemoryType::Memory),
            (code, MemoryType::Code),
            (ro_data, MemoryType::RoData),
        ],
{
    let mut regions = Vec::new();
    regions.push((bl31_base..bl31_end, MemoryType::Memory));
    regions.push((code, MemoryType::Code));
    regions.push((ro_data, MemoryType::RoData));
    proof {
        assert(regions@ =~= seq![
            (bl31_base..bl31_end, MemoryType::Memory),
            (code, MemoryType::Code),
            (ro_data, MemoryType::RoData),
        ]);
    }
    regions
}

} // verus!
