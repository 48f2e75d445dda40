use early_alloc::guest::{
    classify_trap, decode_csr_insn, exit_advances_pc, exit_is_handled, handle_sbi, handle_sbi_base, hgatp_for_root, modify_field,
    prepare_guest_entry, vmexit_handler, BaseFunction, CsrInsn, ExitAction, GuestRegs, SbiAction,
    SbiMessage, TrapCause, VmExit, A0, A1, SBI_ERR_NOT_SUPPORTED, VM_ENTRY,
};

/// `csrr a1, mhartid`
const CSRR_A1_MHARTID: u32 = 0xf14025f3;

fn regs_at(sepc: usize) -> GuestRegs {
    let mut g = GuestRegs::new();
    g.sepc = sepc;
    g
}

#[test]
fn base_functions_are_answered() {
    let cases = [
        (BaseFunction::GetSepcificationVersion, 0x0200_0000),
        (BaseFunction::GetImplementationID, 0),
        (BaseFunction::GetImplementationVersion, 1),
        (BaseFunction::ProbeSbiExtension(0x10), 0),
        (BaseFunction::GetMachineVendorID, 0),
        (BaseFunction::GetMachineArchitectureID, 0),
        (BaseFunction::GetMachineImplementationID, 0),
    ];
    for (f, val) in cases {
        let mut g = regs_at(0);
        g.set_reg(A0, 77);
        g.set_reg(A1, 77);
        handle_sbi_base(&mut g, f);
        assert_eq!(g.reg(A0), 0);
        assert_eq!(g.reg(A1), val);
    }
}

#[test]
fn sbi_reset_shuts_down() {
    let mut g = regs_at(0x100);
    g.set_reg(A0, 0x6688);
    g.set_reg(A1, 0x1234);
    assert_eq!(handle_sbi(&mut g, SbiMessage::Reset), SbiAction::Shutdown);
    assert_eq!(g.reg(A0), 0x6688);
}

#[test]
fn sbi_putchar_prints() {
    let mut g = regs_at(0);
    assert_eq!(handle_sbi(&mut g, SbiMessage::PutChar(0x141)), SbiAction::PutChar(0x41));
}

#[test]
fn sbi_set_timer_succeeds() {
    let mut g = regs_at(0);
    g.set_reg(A0, 5);
    assert_eq!(handle_sbi(&mut g, SbiMessage::SetTimer), SbiAction::Continue);
    assert_eq!(g.reg(A0), 0);
}

#[test]
fn sbi_unsupported_is_refused() {
    let mut g = regs_at(0);
    assert_eq!(handle_sbi(&mut g, SbiMessage::Unsupported), SbiAction::Continue);
    assert_eq!(g.reg(A0), SBI_ERR_NOT_SUPPORTED as usize);
}

#[test]
fn env_call_advances_past_ecall() {
    let mut g = regs_at(0x8020_0000);
    let r = vmexit_handler(&mut g, VmExit::EnvCall(Some(SbiMessage::PutChar(b'h' as usize))));
    assert_eq!(r, ExitAction::PutChar(b'h'));
    assert_eq!(g.sepc, 0x8020_0004);
    let r = vmexit_handler(&mut g, VmExit::EnvCall(Some(SbiMessage::Base(BaseFunction::GetImplementationVersion))));
    assert_eq!(r, ExitAction::Continue);
    assert_eq!(g.sepc, 0x8020_0008);
    assert_eq!(g.reg(A1), 1);
}

#[test]
fn env_call_reset_with_expected_registers_shuts_down() {
    let mut g = regs_at(0x8020_000c);
    g.set_reg(A0, 0x6688);
    g.set_reg(A1, 0x1234);
    assert_eq!(vmexit_handler(&mut g, VmExit::EnvCall(Some(SbiMessage::Reset))), ExitAction::Shutdown);
    assert_eq!(g.sepc, 0x8020_000c);
}

#[test]
fn mhartid_read_is_emulated() {
    let mut g = regs_at(0x8020_0000);
    assert_eq!(vmexit_handler(&mut g, VmExit::IllegalInstruction(CSRR_A1_MHARTID)), ExitAction::Continue);
    assert_eq!(g.reg(A1), 0x1234);
    assert_eq!(g.sepc, 0x8020_0004);
}

#[test]
fn mhartid_read_into_zero_register_is_dropped() {
    // csrr zero, mhartid
    let insn = 0xf1402073;
    let mut g = regs_at(0);
    assert_eq!(vmexit_handler(&mut g, VmExit::IllegalInstruction(insn)), ExitAction::Continue);
    assert_eq!(g.reg(0), 0);
    assert_eq!(g.sepc, 4);
}

#[test]
fn csr_fields_are_decoded() {
    assert_eq!(decode_csr_insn(CSRR_A1_MHARTID), CsrInsn { rd: 11, csr: 0xf14, funct3: 2 });
}

#[test]
fn guest_page_faults_map_the_page() {
    let mut g = regs_at(0);
    assert_eq!(vmexit_handler(&mut g, VmExit::LoadGuestPageFault(0x40)), ExitAction::MapPageAndPoke(0));
    assert_eq!(vmexit_handler(&mut g, VmExit::StoreGuestPageFault(0x8020_1abc)), ExitAction::MapPage(0x8020_1000));
    assert_eq!(g.sepc, 0);
}

#[test]
fn trap_causes_are_classified() {
    let top = 1usize << (usize::BITS - 1);
    assert_eq!(classify_trap(10), TrapCause::VirtualSupervisorEnvCall);
    assert_eq!(classify_trap(2), TrapCause::IllegalInstruction);
    assert_eq!(classify_trap(21), TrapCause::LoadGuestPageFault);
    assert_eq!(classify_trap(23), TrapCause::StoreGuestPageFault);
    assert_eq!(classify_trap(13), TrapCause::Other);
    assert_eq!(classify_trap(top | 10), TrapCause::Other);
}

#[test]
fn guest_entry_context() {
    let e = prepare_guest_entry(0x2_0000_0000, 0x2);
    assert_eq!(e.hstatus, 0x2_0000_0180);
    assert_eq!(e.sstatus, 0x102);
    assert_eq!(e.sepc, VM_ENTRY);
    // Bits outside the sstatus fields are dropped.
    let e = prepare_guest_entry(0x180, 0x1);
    assert_eq!(e.hstatus, 0x180);
    assert_eq!(e.sstatus, 0x100);
}

#[test]
fn field_modification() {
    assert_eq!(modify_field(0xff, 0x3, 2, 0x1), 0xf7);
    assert_eq!(modify_field(0, 1, 7, 1), 0x80);
    assert_eq!(modify_field(0x80, 1, 7, 0), 0);
}

#[test]
fn hgatp_value() {
    assert_eq!(hgatp_for_root(0x8000_1000), 0x8000_0000_0008_0001);
    assert_eq!(hgatp_for_root(0), 0x8000_0000_0000_0000);
}

#[test]
fn guest_program_runs_to_shutdown() {
    // The guest reads mhartid into a1, loads a0 from guest address 0x40,
    // and resets.
    let mut g = regs_at(VM_ENTRY);
    assert_eq!(vmexit_handler(&mut g, VmExit::IllegalInstruction(CSRR_A1_MHARTID)), ExitAction::Continue);
    assert_eq!(g.reg(A1), 0x1234);
    assert_eq!(g.sepc, VM_ENTRY + 4);
    assert_eq!(vmexit_handler(&mut g, VmExit::LoadGuestPageFault(0x40)), ExitAction::MapPageAndPoke(0));
    assert_eq!(g.sepc, VM_ENTRY + 4);
    // The load is retried and reads the value written into the page.
    g.set_reg(A0, 0x6688);
    assert_eq!(vmexit_handler(&mut g, VmExit::EnvCall(Some(SbiMessage::Reset))), ExitAction::Shutdown);
}


#[test]
fn exits_that_move_past_the_instruction() {
    assert!(exit_advances_pc(&VmExit::EnvCall(Some(SbiMessage::SetTimer))));
    assert!(!exit_advances_pc(&VmExit::EnvCall(Some(SbiMessage::Reset))));
    assert!(!exit_advances_pc(&VmExit::EnvCall(None)));
    assert!(exit_advances_pc(&VmExit::IllegalInstruction(CSRR_A1_MHARTID)));
    assert!(!exit_advances_pc(&VmExit::IllegalInstruction(0xf11025f3)));
    assert!(!exit_advances_pc(&VmExit::LoadGuestPageFault(0x40)));
}

#[test]
fn page_fault_near_top_of_pc_range_is_handled() {
    let mut g = regs_at(usize::MAX);
    assert_eq!(vmexit_handler(&mut g, VmExit::StoreGuestPageFault(0x1000)), ExitAction::MapPage(0x1000));
}

#[test]
fn exits_that_stop_the_machine() {
    let mut g = regs_at(0x10);
    assert!(!exit_is_handled(&g, &VmExit::EnvCall(None)));
    assert!(!exit_is_handled(&g, &VmExit::Other));
    // csrr a1, mvendorid (0xf11)
    assert!(!exit_is_handled(&g, &VmExit::IllegalInstruction(0xf11025f3)));
    // A reset without the expected registers.
    assert!(!exit_is_handled(&g, &VmExit::EnvCall(Some(SbiMessage::Reset))));
    g.set_reg(A0, 0x6688);
    assert!(!exit_is_handled(&g, &VmExit::EnvCall(Some(SbiMessage::Reset))));
    g.set_reg(A1, 0x1234);
    assert!(exit_is_handled(&g, &VmExit::EnvCall(Some(SbiMessage::Reset))));
    assert!(exit_is_handled(&g, &VmExit::IllegalInstruction(CSRR_A1_MHARTID)));
    assert!(exit_is_handled(&g, &VmExit::EnvCall(Some(SbiMessage::SetTimer))));
    assert!(exit_is_handled(&g, &VmExit::LoadGuestPageFault(0x40)));
    assert!(exit_is_handled(&g, &VmExit::StoreGuestPageFault(0x40)));
}
