//! Build-time descriptions of the supported platforms, and selection of one by name.

use vstd::prelude::*;

use crate::text::bytes_equal;
use vstd::string::StringSliceAdditionalSpecFns;

verus! {

/// Build description of the Arm Fixed Virtual Platform.
pub struct FvpBuilder;

impl FvpBuilder {
    /// The platform's name.
    pub const PLAT_NAME: &'static str = "fvp";
    /// The base address of BL2, which follows BL31.
    pub const BL2_BASE: u64 = 0x0406_0000;
    /// The base address of BL31.
    pub const BL31_BASE: u64 = 0x0400_3000;
    /// The size of the BL31 image: up to BL2.
    pub const BL31_SIZE: u64 = 0x0005_d000;

    /// The base address of BL31.
    pub fn bl31_base(&self) -> (base: u64)
        ensures
            base == Self::BL31_BASE,
    {
        Self::BL31_BASE
    }

    /// The size available to BL31, from its base up to BL2.
    pub fn bl31_size(&self) -> (size: u64)
        ensures
            size == Self::BL2_BASE - Self::BL31_BASE,
    {
        Self::BL31_SIZE
    }
}

/// Build description of the QEMU virt machine.
pub struct QemuBuilder;

impl QemuBuilder {
    /// The platform's name.
    pub const PLAT_NAME: &'static str = "qemu";
}

/// The platforms that can be built.
#[derive(Debug, Clone, Copy, PartialEq, Eq, Structural)]
pub enum PlatformKind {
    Fvp,
    Qemu,
}

/// The bytes of the name "fvp".
pub open spec fn fvp_name() -> Seq<u8> {
    seq![0x66u8, 0x76, 0x70]
}

/// The bytes of the name "qemu".
pub open spec fn qemu_name() -> Seq<u8> {
    seq![0x71u8, 0x65, 0x6d, 0x75]
}

/// Returns the platform with the given name, or `None` if no supported platform has it.
pub fn select_platform(platform: &str) -> (kind: Option<PlatformKind>)
    ensures
        kind == if platform.spec_bytes() == fvp_name() {
            Some(PlatformKind::Fvp)
        } else if platform.spec_bytes() == qemu_name() {
            Some(PlatformKind::Qemu)
        } else {
            None
        },
{
    let name = platform.as_bytes();
    let fvp: [u8; 3] = [0x66, 0x76, 0x70];
    let qemu: [u8; 4] = [0x71, 0x65, 0x6d, 0x75];
    assert(fvp@ =~= fvp_name());
    assert(qemu@ =~= qemu_name());
    if bytes_equal(name, fvp.as_slice()) {
        Some(PlatformKind::Fvp)
    } else if bytes_equal(name, qemu.as_slice()) {
        Some(PlatformKind::Qemu)
    } else {
        None
    }
}

} // verus!
