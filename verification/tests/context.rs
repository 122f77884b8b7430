use rf_a::context::{initialise_contexts, CpuState, EntryPointInfo, World};

#[test]
fn initialise_contexts_passes_boot_arguments() {
    let mut state = CpuState::empty();
    state.context_mut(World::NonSecure).gpregs.registers[0] = 0xdead;
    state.context_mut(World::NonSecure).gpregs.registers[9] = 0xbeef;
    let non_secure = EntryPointInfo { pc: 0x8800_0000, spsr: 0x3c9, args: [1, 2, 3, 4, 5, 6, 7, 8] };
    let secure = EntryPointInfo { pc: 0x0400_0000, spsr: 0x3c5, args: [9, 0, 0, 0, 0, 0, 0, 10] };
    initialise_contexts(&mut state, &non_secure, &secure);

    let context = state.context(World::NonSecure);
    assert_eq!(&context.gpregs.registers[0..8], &non_secure.args);
    assert_eq!(context.gpregs.registers[9], 0xbeef);
    assert_eq!(context.el3_state.elr_el3, 0x8800_0000);
    assert_eq!(context.el3_state.spsr_el3, 0x3c9);
    assert_eq!(context.el3_state.scr_el3, 0x40631);

    let context = state.context(World::Secure);
    assert_eq!(&context.gpregs.registers[0..8], &secure.args);
    assert_eq!(context.el3_state.elr_el3, 0x0400_0000);
    assert_eq!(context.el3_state.scr_el3, 0x40630);

    let context = state.context(World::Realm);
    assert_eq!(context.gpregs.registers[0], 0);
    assert_eq!(context.el3_state.scr_el3, 0);
}
