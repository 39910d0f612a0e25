//! Early bring-up of a kernel on a 64-bit ARM core: the register state that
//! takes the boot core from EL2 to EL1, the generic timer, and a lock for a
//! core that runs alone.

pub mod bsp;
pub mod cpu;
pub mod synchronization;
pub mod time;
