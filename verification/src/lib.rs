//! Verified core of a BL31 runtime firmware for AArch64: the SMC calling convention, the
//! dispatch of architectural and standard-secure service calls, CPU context set-up, the PSCI
//! power-state rules, platform power-state encodings and the Granule Protection Table descriptor
//! formats.

pub mod smccc;
pub mod gpt;
pub mod context;
pub mod services;
pub mod platform;
pub mod sysregs;
pub mod fvp_bl31;
pub mod qemu_bl31;
pub mod builders;
pub mod exceptions;
pub mod gicv3;
pub mod logger;
pub mod pagetable;
pub mod semihosting;
pub mod text;
pub mod stf;
