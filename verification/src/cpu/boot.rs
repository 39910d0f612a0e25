//! The hand-over of the boot core from EL2 to EL1.
//!
//! The core leaves reset in EL2. The kernel runs in EL1, and gets there by an
//! exception return that was never preceded by an exception: EL2 writes the
//! registers that such a return reads, and then returns. This module works
//! out what those registers must hold. Writing them and taking the return is
//! left to the caller, who runs in EL2 and does not come back.

use aarch64_cpu::registers::{CNTHCTL_EL2, HCR_EL2, SPSR_EL2};
use vstd::prelude::*;

verus! {

/// What the EL2 registers hold at the moment of the exception return.
#[derive(Clone, Copy, Debug, PartialEq, Eq, Structural)]
pub struct El1EntryState {
    /// CNTHCTL_EL2: which accesses of EL1 to the physical timer trap to EL2.
    pub cnthctl_el2: u64,
    /// CNTVOFF_EL2: what the virtual counter lags behind the physical one.
    pub cntvoff_el2: u64,
    /// HCR_EL2: the hypervisor's configuration of the levels below it.
    pub hcr_el2: u64,
    /// SPSR_EL2: the processor state that the return restores.
    pub spsr_el2: u64,
    /// ELR_EL2: the address that the return jumps to.
    pub elr_el2: u64,
    /// SP_EL1: the stack pointer that EL1 starts with.
    pub sp_el1: u64,
}

/// The field of `width_mask` bits that starts at bit `offset` of `reg`.
pub open spec fn field(reg: u64, offset: u64, width_mask: u64) -> u64 {
    (reg >> offset) & width_mask
}

/// The register state that lands the core in EL1, at `kernel_init_addr`, on
/// the stack that ends at `stack_end_exclusive_addr`.
pub open spec fn el1_entry_state(stack_end_exclusive_addr: u64, kernel_init_addr: u64)
    -> El1EntryState {
    El1EntryState {
        // EL1PCTEN, bit 0, and EL1PCEN, bit 1: EL1 reads the counter and
        // drives the timer without a trap.
        cnthctl_el2: 0x3,
        // The virtual counter shows what the physical one shows.
        cntvoff_el2: 0,
        // RW, bit 31: EL1 executes AArch64.
        hcr_el2: 0x8000_0000,
        // D, A, I and F, bits 9 to 6: every kind of interrupt is masked.
        // M, bits 3 to 0: 0b0101 is EL1 with its own stack pointer.
        spsr_el2: 0x3c5,
        elr_el2: kernel_init_addr,
        sp_el1: stack_end_exclusive_addr,
    }
}

// The field values below are constants of `aarch64_cpu`, made by the
// register macros of `tock_registers`: the value of a field, shifted to the
// field's place in the register.

/// The bits of `CNTHCTL_EL2::EL1PCEN::SET`, which `aarch64_cpu` declares, as
/// `u64::from` of `tock_registers` hands them out: the field is one bit at
/// offset 1, and `SET` is that bit.
#[verifier::external_body]
fn cnthctl_el1pcen_set() -> (bits: u64)
    ensures
        bits == 0x2,
{
    u64::from(CNTHCTL_EL2::EL1PCEN::SET)
}

/// The bits of `CNTHCTL_EL2::EL1PCTEN::SET`, which `aarch64_cpu` declares, as
/// `u64::from` of `tock_registers` hands them out: the field is one bit at
/// offset 0, and `SET` is that bit.
#[verifier::external_body]
fn cnthctl_el1pcten_set() -> (bits: u64)
    ensures
        bits == 0x1,
{
    u64::from(CNTHCTL_EL2::EL1PCTEN::SET)
}

/// The bits of `HCR_EL2::RW::EL1IsAarch64`, which `aarch64_cpu` declares, as
/// `u64::from` of `tock_registers` hands them out: the value 1 in the
/// one-bit field at offset 31.
#[verifier::external_body]
fn hcr_rw_el1_is_aarch64() -> (bits: u64)
    ensures
        bits == 0x8000_0000,
{
    u64::from(HCR_EL2::RW::EL1IsAarch64)
}

/// The bits of `SPSR_EL2::D::Masked`, which `aarch64_cpu` declares, as
/// `u64::from` of `tock_registers` hands them out: the value 1 in the one-bit
/// field at offset 9.
#[verifier::external_body]
fn spsr_d_masked() -> (bits: u64)
    ensures
        bits == 0x200,
{
    u64::from(SPSR_EL2::D::Masked)
}

/// The bits of `SPSR_EL2::A::Masked`, which `aarch64_cpu` declares, as
/// `u64::from` of `tock_registers` hands them out: the value 1 in the one-bit
/// field at offset 8.
#[verifier::external_body]
fn spsr_a_masked() -> (bits: u64)
    ensures
        bits == 0x100,
{
    u64::from(SPSR_EL2::A::Masked)
}

/// The bits of `SPSR_EL2::I::Masked`, which `aarch64_cpu` declares, as
/// `u64::from` of `tock_registers` hands them out: the value 1 in the one-bit
/// field at offset 7.
#[verifier::external_body]
fn spsr_i_masked() -> (bits: u64)
    ensures
        bits == 0x80,
{
    u64::from(SPSR_EL2::I::Masked)
}

/// The bits of `SPSR_EL2::F::Masked`, which `aarch64_cpu` declares, as
/// `u64::from` of `tock_registers` hands them out: the value 1 in the one-bit
/// field at offset 6.
#[verifier::external_body]
fn spsr_f_masked() -> (bits: u64)
    ensures
        bits == 0x40,
{
    u64::from(SPSR_EL2::F::Masked)
}

/// The bits of `SPSR_EL2::M::EL1h`, which `aarch64_cpu` declares, as
/// `u64::from` of `tock_registers` hands them out: the value 0b0101 in the
/// four-bit field at offset 0.
#[verifier::external_body]
fn spsr_m_el1h() -> (bits: u64)
    ensures
        bits == 0x5,
{
    u64::from(SPSR_EL2::M::EL1h)
}

/// Works out the registers for the return from EL2 to EL1.
///
/// A register that is written from field values holds their union and zero
/// in every other bit.
pub fn prepare_el2_to_el1_transition(
    phys_boot_core_stack_end_exclusive_addr: u64,
    kernel_init_addr: u64,
) -> (state: El1EntryState)
    ensures
        state == el1_entry_state(phys_boot_core_stack_end_exclusive_addr, kernel_init_addr),
{
    // Enable timer counter registers for EL1
    let cnthctl_el2: u64 = cnthctl_el1pcen_set() | cnthctl_el1pcten_set();

    // No offset for reading the counters
    let cntvoff_el2: u64 = 0;

    // Set EL1 execution state to AArch64
    let hcr_el2: u64 = hcr_rw_el1_is_aarch64();

    // Set up a simulated exception return
    let spsr_el2: u64 = spsr_d_masked() | spsr_a_masked() | spsr_i_masked() | spsr_f_masked()
        | spsr_m_el1h();

    assert(0x2u64 | 0x1u64 == 0x3u64) by (bit_vector);
    assert(0x200u64 | 0x100u64 | 0x80u64 | 0x40u64 | 0x5u64 == 0x3c5u64) by (bit_vector);

    El1EntryState {
        cnthctl_el2,
        cntvoff_el2,
        hcr_el2,
        spsr_el2,
        // Let the link register point to the kernel's entry
        elr_el2: kernel_init_addr,
        // The stack pointer that EL1 uses once the return has been taken
        sp_el1: phys_boot_core_stack_end_exclusive_addr,
    }
}

/// The entry state read field by field: the timer and the counter are open
/// to EL1, the counters agree, EL1 is 64-bit, the four interrupt masks are
/// set, and the return goes to EL1 on its own stack pointer.
pub proof fn lemma_el1_entry_state_fields(stack_end_exclusive_addr: u64, kernel_init_addr: u64)
    ensures
        ({
            let state = el1_entry_state(stack_end_exclusive_addr, kernel_init_addr);
            &&& field(state.cnthctl_el2, 0, 0x1) == 1
            &&& field(state.cnthctl_el2, 1, 0x1) == 1
            &&& state.cntvoff_el2 == 0
            &&& field(state.hcr_el2, 31, 0x1) == 1
            &&& field(state.spsr_el2, 9, 0x1) == 1
            &&& field(state.spsr_el2, 8, 0x1) == 1
            &&& field(state.spsr_el2, 7, 0x1) == 1
            &&& field(state.spsr_el2, 6, 0x1) == 1
            &&& field(state.spsr_el2, 0, 0xf) == 0b0101
            &&& state.elr_el2 == kernel_init_addr
            &&& state.sp_el1 == stack_end_exclusive_addr
        }),
{
    assert((0x3u64 >> 0u64) & 0x1u64 == 1u64) by (bit_vector);
    assert((0x3u64 >> 1u64) & 0x1u64 == 1u64) by (bit_vector);
    assert((0x8000_0000u64 >> 31u64) & 0x1u64 == 1u64) by (bit_vector);
    assert((0x3c5u64 >> 9u64) & 0x1u64 == 1u64) by (bit_vector);
    assert((0x3c5u64 >> 8u64) & 0x1u64 == 1u64) by (bit_vector);
    assert((0x3c5u64 >> 7u64) & 0x1u64 == 1u64) by (bit_vector);
    assert((0x3c5u64 >> 6u64) & 0x1u64 == 1u64) by (bit_vector);
    assert((0x3c5u64 >> 0u64) & 0xfu64 == 0b0101u64) by (bit_vector);
}

} // verus!
