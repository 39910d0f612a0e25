use early_kernel::bsp::board_name;
use early_kernel::cpu::boot::{prepare_el2_to_el1_transition, El1EntryState};

#[test]
fn board_is_named() {
    assert_eq!(board_name(), "Raspberry Pi 3");
}

#[test]
fn entry_state_holds_the_register_values() {
    let state = prepare_el2_to_el1_transition(0x8_0000, 0x8_1234);
    assert_eq!(
        state,
        El1EntryState {
            cnthctl_el2: 0b11,
            cntvoff_el2: 0,
            hcr_el2: 1 << 31,
            spsr_el2: (1 << 9) | (1 << 8) | (1 << 7) | (1 << 6) | 0b0101,
            elr_el2: 0x8_1234,
            sp_el1: 0x8_0000,
        }
    );
}
