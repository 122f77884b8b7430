//! Platform descriptions: topology, MPIDR validation and core numbering, entry points and the
//! platform-specific power states.

use vstd::prelude::*;

pub mod fvp;
pub mod qemu;
pub mod test;

verus! {

/// The low half of the pointer authentication key made from the return address, the frame
/// address and the physical count.
pub open spec fn spec_apkey_low(return_addr: u64, frame_addr: u64, cntpct: u64) -> u64 {
    (return_addr << 13u64) ^ frame_addr ^ cntpct
}

/// The high half of the pointer authentication key made from the return address, the frame
/// address and the physical count.
pub open spec fn spec_apkey_high(return_addr: u64, frame_addr: u64, cntpct: u64) -> u64 {
    (frame_addr << 15u64) ^ return_addr ^ cntpct
}

/// Returns the pointer authentication key of the platforms, mixed from the return address, the
/// frame address and the physical count of the boot code.
pub fn init_apkey(return_addr: u64, frame_addr: u64, cntpct: u64) -> (key: u128)
    ensures
        key == spec_apkey_high(return_addr, frame_addr, cntpct) as u128 * 0x1_0000_0000_0000_0000
            + spec_apkey_low(return_addr, frame_addr, cntpct) as u128,
{
    let key_lo = (return_addr << 13u64) ^ frame_addr ^ cntpct;
    let key_hi = (frame_addr << 15u64) ^ return_addr ^ cntpct;
    let key = ((key_hi as u128) << 64u128) | (key_lo as u128);
    assert(key == key_hi as u128 * 0x1_0000_0000_0000_0000 + key_lo as u128) by (bit_vector)
        requires
            key == ((key_hi as u128) << 64u128) | (key_lo as u128),
    ;
    key
}

} // verus!
