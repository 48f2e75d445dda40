//! The decisions of a minimal RISC-V hypervisor: how the guest is entered,
//! and what is done on each exit from it.
//!
//! Running the guest, reading its memory and CSRs, mapping pages and
//! printing happen around these functions; they decide, from the exit and
//! the guest's registers, the next register state and what to do next.

use vstd::prelude::*;
use crate::loader::split_page;
use crate::align::align_down_spec;
use riscv::register::scause::{Scause, Trap};
use riscv::register::sstatus::{Sstatus, SPP};

verus! {

/// Guest physical address where the guest image is placed and entered.
pub const VM_ENTRY: usize = 0x8020_0000;

/// CSR number of `mhartid`.
pub const MHARTID: usize = 0xF14;

/// The `mhartid` value the guest is shown.
pub const GUEST_HART_ID: usize = 0x1234;

/// The value placed at [`GUEST_POKE_OFFSET`] of a page mapped on a guest load
/// fault.
pub const GUEST_POKE_VALUE: u64 = 0x6688;

/// Offset in the faulting page where [`GUEST_POKE_VALUE`] is written.
pub const GUEST_POKE_OFFSET: usize = 0x40;

/// SBI error code for an unsupported call.
pub const SBI_ERR_NOT_SUPPORTED: isize = -2;

/// SBI specification version reported to the guest (2.0).
pub const SBI_SPEC_VERSION: usize = 0x0200_0000;

/// Index of `a0` in the register file.
pub const A0: usize = 10;

/// Index of `a1` in the register file.
pub const A1: usize = 11;

/// Functions of the SBI base extension.
#[derive(Debug, Clone, Copy, PartialEq, Eq, Structural)]
pub enum BaseFunction {
    GetSepcificationVersion,
    GetImplementationID,
    GetImplementationVersion,
    ProbeSbiExtension(usize),
    GetMachineVendorID,
    GetMachineArchitectureID,
    GetMachineImplementationID,
}

/// An SBI call made by the guest, as far as the hypervisor tells them apart.
#[derive(Debug, Clone, Copy, PartialEq, Eq, Structural)]
pub enum SbiMessage {
    /// System reset: the guest is done.
    Reset,
    /// Console output of one character.
    PutChar(usize),
    /// Timer programming.
    SetTimer,
    /// A base extension function.
    Base(BaseFunction),
    /// Any other call.
    Unsupported,
}

/// The guest's general purpose registers and its resume address.
pub struct GuestRegs {
    pub gprs: Vec<usize>,
    pub sepc: usize,
}

impl GuestRegs {
    /// There are 32 general purpose registers.
    pub open spec fn wf(&self) -> bool {
        self.gprs@.len() == 32
    }

    /// The register file after writing `val` to register `index`: `x0` is
    /// hardwired to zero and ignores writes.
    pub open spec fn written(gprs: Seq<usize>, index: int, val: usize) -> Seq<usize> {
        if index == 0 {
            gprs
        } else {
            gprs.update(index, val)
        }
    }

    /// All registers zero, resuming at address zero.
    pub fn new() -> (r: Self)
        ensures
            r.wf(),
            r.sepc == 0,
            forall|i: int| 0 <= i < 32 ==> r.gprs@[i] == 0,
    {
        let mut gprs: Vec<usize> = Vec::new();
        let mut i: usize = 0;
        while i < 32
            invariant
                i <= 32,
                gprs@.len() == i,
                forall|j: int| 0 <= j < i ==> gprs@[j] == 0,
            decreases 32 - i,
        {
            gprs.push(0);
            i = i + 1;
        }
        GuestRegs { gprs, sepc: 0 }
    }

    /// The value of register `index`.
    pub fn reg(&self, index: usize) -> (r: usize)
        requires
            self.wf(),
            index < 32,
        ensures
            r == self.gprs@[index as int],
    {
        self.gprs[index]
    }

    /// Writes register `index`; writes to `x0` are dropped.
    pub fn set_reg(&mut self, index: usize, val: usize)
        requires
            old(self).wf(),
            index < 32,
        ensures
            final(self).wf(),
            final(self).gprs@ == Self::written(old(self).gprs@, index as int, val),
            final(self).sepc == old(self).sepc,
    {
        if index == 0 {
            return;
        }
        self.gprs.set(index, val);
    }
}

/// The `(error, value)` pair a base extension function answers.
pub open spec fn sbi_base_reply(f: BaseFunction) -> (usize, usize) {
    match f {
        BaseFunction::GetSepcificationVersion => (0, SBI_SPEC_VERSION),
        BaseFunction::GetImplementationID => (0, 0),
        BaseFunction::GetImplementationVersion => (0, 1),
        BaseFunction::ProbeSbiExtension(_) => (0, 0),
        BaseFunction::GetMachineVendorID => (0, 0),
        BaseFunction::GetMachineArchitectureID => (0, 0),
        BaseFunction::GetMachineImplementationID => (0, 0),
    }
}

/// Answers a base extension call: the error goes to `a0`, the value to `a1`.
pub fn handle_sbi_base(ctx: &mut GuestRegs, f: BaseFunction)
    requires
        old(ctx).wf(),
    ensures
        final(ctx).wf(),
        final(ctx).gprs@ == old(ctx).gprs@.update(A0 as int, sbi_base_reply(f).0).update(
            A1 as int,
            sbi_base_reply(f).1,
        ),
        final(ctx).sepc == old(ctx).sepc,
{
    let (err, val): (usize, usize) = match f {
        BaseFunction::GetSepcificationVersion => (0, SBI_SPEC_VERSION),
        BaseFunction::GetImplementationID => (0, 0),
        BaseFunction::GetImplementationVersion => (0, 1),
        BaseFunction::ProbeSbiExtension(_) => (0, 0),
        BaseFunction::GetMachineVendorID => (0, 0),
        BaseFunction::GetMachineArchitectureID => (0, 0),
        BaseFunction::GetMachineImplementationID => (0, 0),
    };
    ctx.set_reg(A0, err);
    ctx.set_reg(A1, val);
}

/// What the hypervisor does after an SBI call.
#[derive(Debug, Clone, Copy, PartialEq, Eq, Structural)]
pub enum SbiAction {
    /// The guest has shut down.
    Shutdown,
    /// Print this byte, then resume the guest.
    PutChar(u8),
    /// Resume the guest.
    Continue,
}

/// The register values a guest must leave in `a0` and `a1` when it resets.
pub open spec fn reset_regs_expected(gprs: Seq<usize>) -> bool {
    gprs[A0 as int] == GUEST_POKE_VALUE && gprs[A1 as int] == GUEST_HART_ID
}

/// What an SBI call is answered with, and the register file after it.
pub open spec fn sbi_outcome(gprs: Seq<usize>, msg: SbiMessage) -> (SbiAction, Seq<usize>) {
    match msg {
        SbiMessage::Reset => (SbiAction::Shutdown, gprs),
        SbiMessage::PutChar(c) => (SbiAction::PutChar(c as u8), gprs),
        SbiMessage::SetTimer => (SbiAction::Continue, gprs.update(A0 as int, 0)),
        SbiMessage::Base(f) => (
            SbiAction::Continue,
            gprs.update(A0 as int, sbi_base_reply(f).0).update(A1 as int, sbi_base_reply(f).1),
        ),
        SbiMessage::Unsupported => (
            SbiAction::Continue,
            gprs.update(A0 as int, SBI_ERR_NOT_SUPPORTED as usize),
        ),
    }
}

/// Answers an SBI call of the guest. A reset ends the guest (it must have
/// left the expected values in `a0` and `a1`); a character is printed; a
/// timer request succeeds; base functions are answered; anything else is
/// refused with `SBI_ERR_NOT_SUPPORTED`.
pub fn handle_sbi(ctx: &mut GuestRegs, msg: SbiMessage) -> (r: SbiAction)
    requires
        old(ctx).wf(),
        msg is Reset ==> reset_regs_expected(old(ctx).gprs@),
    ensures
        final(ctx).wf(),
        final(ctx).sepc == old(ctx).sepc,
        (r, final(ctx).gprs@) == sbi_outcome(old(ctx).gprs@, msg),
        (r is Shutdown) <==> (msg is Reset),
{
    match msg {
        SbiMessage::Reset => SbiAction::Shutdown,
        SbiMessage::PutChar(c) => SbiAction::PutChar(c as u8),
        SbiMessage::SetTimer => {
            ctx.set_reg(A0, 0);
            SbiAction::Continue
        },
        SbiMessage::Base(f) => {
            handle_sbi_base(ctx, f);
            SbiAction::Continue
        },
        SbiMessage::Unsupported => {
            ctx.set_reg(A0, SBI_ERR_NOT_SUPPORTED as usize);
            SbiAction::Continue
        },
    }
}

/// The trap causes the hypervisor handles, and all others.
#[derive(Debug, Clone, Copy, PartialEq, Eq, Structural)]
pub enum TrapCause {
    VirtualSupervisorEnvCall,
    IllegalInstruction,
    LoadGuestPageFault,
    StoreGuestPageFault,
    Other,
}

/// The interrupt flag of an `scause` value: its top bit.
pub open spec fn scause_is_interrupt(bits: usize) -> bool {
    bits & (1usize << ((usize::BITS - 1) as usize)) != 0
}

/// The exception or interrupt code of an `scause` value: all but its top bit.
pub open spec fn scause_code(bits: usize) -> usize {
    bits & !(1usize << ((usize::BITS - 1) as usize))
}

/// `riscv::register::scause::Scause::cause`, on the register value `bits`.
///
/// In its source the interrupt flag is the top bit of the register and the
/// code is the bits below it; the result is `(interrupt, code)`.
#[verifier::external_body]
fn scause_cause(bits: usize) -> (r: (bool, usize))
    ensures
        r.0 == scause_is_interrupt(bits),
        r.1 == scause_code(bits),
{
    match Scause::from_bits(bits).cause() {
        Trap::Interrupt(code) => (true, code),
        Trap::Exception(code) => (false, code),
    }
}

/// The cause an `scause` value reports. Exception codes: 2 illegal
/// instruction, 10 environment call from VS-mode, 21 load guest-page fault,
/// 23 store guest-page fault.
pub open spec fn trap_cause_of(bits: usize) -> TrapCause {
    if scause_is_interrupt(bits) {
        TrapCause::Other
    } else if scause_code(bits) == 10 {
        TrapCause::VirtualSupervisorEnvCall
    } else if scause_code(bits) == 2 {
        TrapCause::IllegalInstruction
    } else if scause_code(bits) == 21 {
        TrapCause::LoadGuestPageFault
    } else if scause_code(bits) == 23 {
        TrapCause::StoreGuestPageFault
    } else {
        TrapCause::Other
    }
}

/// Classifies the trap that `scause` reports.
pub fn classify_trap(scause: usize) -> (r: TrapCause)
    ensures
        r == trap_cause_of(scause),
{
    let (interrupt, code) = scause_cause(scause);
    if interrupt {
        TrapCause::Other
    } else if code == 10 {
        TrapCause::VirtualSupervisorEnvCall
    } else if code == 2 {
        TrapCause::IllegalInstruction
    } else if code == 21 {
        TrapCause::LoadGuestPageFault
    } else if code == 23 {
        TrapCause::StoreGuestPageFault
    } else {
        TrapCause::Other
    }
}

/// The fields of a CSR instruction that the hypervisor looks at.
#[derive(Debug, Clone, Copy, PartialEq, Eq, Structural)]
pub struct CsrInsn {
    pub rd: u32,
    pub csr: usize,
    pub funct3: u32,
}

/// Decodes `rd` (bits 7..12), `funct3` (bits 12..15) and the CSR number
/// (bits 20..32) of an instruction.
pub fn decode_csr_insn(insn: u32) -> (r: CsrInsn)
    ensures
        r.rd == (insn >> 7u32) & 0x1F,
        r.csr == (insn >> 20u32) as usize,
        r.funct3 == (insn >> 12u32) & 0x7,
        r.rd < 32,
        r.funct3 < 8,
{
    let rd = (insn >> 7) & 0x1F;
    let csr = (insn >> 20) as usize;
    let funct3 = (insn >> 12) & 0x7;
    assert(rd < 32) by (bit_vector)
        requires
            rd == (insn >> 7u32) & 0x1F,
    ;
    assert(funct3 < 8) by (bit_vector)
        requires
            funct3 == (insn >> 12u32) & 0x7,
    ;
    CsrInsn { rd, csr, funct3 }
}

/// A guest exit together with what the hypervisor read to handle it.
pub enum VmExit {
    /// An environment call; the SBI message read from the guest's `a`
    /// registers, if they hold one.
    EnvCall(Option<SbiMessage>),
    /// An illegal instruction, with the instruction word at `sepc`.
    IllegalInstruction(u32),
    /// A load guest-page fault at the guest address in `stval`.
    LoadGuestPageFault(usize),
    /// A store guest-page fault at the guest address in `stval`.
    StoreGuestPageFault(usize),
    /// Any other trap.
    Other,
}

/// What the hypervisor does after handling an exit.
#[derive(Debug, Clone, Copy, PartialEq, Eq, Structural)]
pub enum ExitAction {
    /// The guest has shut down normally.
    Shutdown,
    /// Resume the guest.
    Continue,
    /// Print this byte, then resume the guest.
    PutChar(u8),
    /// Map a readable, writable page at this guest address, then resume.
    MapPage(usize),
    /// Map a readable, writable page at this guest address, write
    /// [`GUEST_POKE_VALUE`] at [`GUEST_POKE_OFFSET`] in it, then resume.
    MapPageAndPoke(usize),
}

/// The instruction reads `mhartid` into `rd` (`funct3` of `csrrs`).
pub open spec fn is_mhartid_read(d: CsrInsn) -> bool {
    d.funct3 == 2 && d.csr == MHARTID
}

/// Handling `exit` moves the guest past the trapping instruction: an SBI
/// call other than a reset that is answered, or an emulated read of
/// `mhartid`.
pub open spec fn advances_pc(exit: VmExit) -> bool {
    match exit {
        VmExit::EnvCall(Some(msg)) => !(msg is Reset),
        VmExit::IllegalInstruction(insn) => is_mhartid_read(decode_csr_insn_spec(insn)),
        _ => false,
    }
}

/// Whether handling `exit` moves the guest past the trapping instruction.
pub fn exit_advances_pc(exit: &VmExit) -> (r: bool)
    ensures
        r == advances_pc(*exit),
{
    match exit {
        VmExit::EnvCall(Some(msg)) => !matches!(msg, SbiMessage::Reset),
        VmExit::IllegalInstruction(insn) => {
            let d = decode_csr_insn(*insn);
            d.funct3 == 2 && d.csr == MHARTID
        },
        _ => false,
    }
}

/// The hypervisor handles `exit` with the guest's registers `gprs`: an SBI
/// call with a valid message (a reset only with the expected values in `a0`
/// and `a1`), a read of `mhartid`, or a guest-page fault. On every other
/// exit it stops the machine.
pub open spec fn exit_handled(exit: VmExit, gprs: Seq<usize>) -> bool {
    match exit {
        VmExit::EnvCall(None) => false,
        VmExit::EnvCall(Some(msg)) => msg is Reset ==> reset_regs_expected(gprs),
        VmExit::IllegalInstruction(insn) => is_mhartid_read(decode_csr_insn_spec(insn)),
        VmExit::LoadGuestPageFault(_) => true,
        VmExit::StoreGuestPageFault(_) => true,
        VmExit::Other => false,
    }
}

/// Whether [`vmexit_handler`] handles `exit` with the registers `ctx`.
pub fn exit_is_handled(ctx: &GuestRegs, exit: &VmExit) -> (r: bool)
    requires
        ctx.wf(),
    ensures
        r == exit_handled(*exit, ctx.gprs@),
{
    match exit {
        VmExit::EnvCall(None) => false,
        VmExit::EnvCall(Some(SbiMessage::Reset)) => {
            ctx.reg(A0) == GUEST_POKE_VALUE as usize && ctx.reg(A1) == GUEST_HART_ID
        },
        VmExit::EnvCall(Some(_)) => true,
        VmExit::IllegalInstruction(insn) => {
            let d = decode_csr_insn(*insn);
            d.funct3 == 2 && d.csr == MHARTID
        },
        VmExit::LoadGuestPageFault(_) => true,
        VmExit::StoreGuestPageFault(_) => true,
        VmExit::Other => false,
    }
}

/// Handles one exit of the guest: answers SBI calls and advances past them
/// unless the guest shut down; emulates reads of `mhartid` with
/// [`GUEST_HART_ID`] and advances past them; and asks for the faulting page
/// to be mapped on guest-page faults. Exits it does not handle (see
/// [`exit_handled`]) stop the machine and are left out.
pub fn vmexit_handler(ctx: &mut GuestRegs, exit: VmExit) -> (r: ExitAction)
    requires
        old(ctx).wf(),
        exit_handled(exit, old(ctx).gprs@),
        advances_pc(exit) ==> old(ctx).sepc + 4 <= usize::MAX,
    ensures
        final(ctx).wf(),
        match exit {
            VmExit::EnvCall(None) => false,
            VmExit::EnvCall(Some(msg)) => {
                if msg is Reset {
                    r == ExitAction::Shutdown && final(ctx).gprs@ == old(ctx).gprs@
                        && final(ctx).sepc == old(ctx).sepc
                } else {
                    &&& final(ctx).sepc == old(ctx).sepc + 4
                    &&& final(ctx).gprs@ == sbi_outcome(old(ctx).gprs@, msg).1
                    &&& msg matches SbiMessage::PutChar(c) ==> r == ExitAction::PutChar(c as u8)
                    &&& !(msg is PutChar) ==> r == ExitAction::Continue
                }
            },
            VmExit::IllegalInstruction(insn) => {
                let d = decode_csr_insn_spec(insn);
                &&& r == ExitAction::Continue
                &&& final(ctx).gprs@ == GuestRegs::written(old(ctx).gprs@, d.rd as int, GUEST_HART_ID)
                &&& final(ctx).sepc == old(ctx).sepc + 4
            },
            VmExit::LoadGuestPageFault(addr) => r == ExitAction::MapPageAndPoke(
                align_down_spec(addr as int, 4096) as usize,
            ) && final(ctx).gprs@ == old(ctx).gprs@ && final(ctx).sepc == old(ctx).sepc,
            VmExit::StoreGuestPageFault(addr) => r == ExitAction::MapPage(
                align_down_spec(addr as int, 4096) as usize,
            ) && final(ctx).gprs@ == old(ctx).gprs@ && final(ctx).sepc == old(ctx).sepc,
            VmExit::Other => false,
        },
        exit matches VmExit::IllegalInstruction(insn) ==> final(ctx).gprs@ == GuestRegs::written(
            old(ctx).gprs@,
            ((insn >> 7u32) & 0x1F) as int,
            0x1234,
        ),
        exit matches VmExit::LoadGuestPageFault(addr) ==> (r matches ExitAction::MapPageAndPoke(p)
            && p as int % 4096 == 0 && p <= addr < p + 4096),
        exit matches VmExit::StoreGuestPageFault(addr) ==> (r matches ExitAction::MapPage(p) && p as int
            % 4096 == 0 && p <= addr < p + 4096),
{
    match exit {
        VmExit::EnvCall(sbi_msg) => {
            let msg = sbi_msg.unwrap();
            match handle_sbi(ctx, msg) {
                SbiAction::Shutdown => ExitAction::Shutdown,
                SbiAction::PutChar(c) => {
                    ctx.sepc = ctx.sepc + 4;
                    ExitAction::PutChar(c)
                },
                SbiAction::Continue => {
                    ctx.sepc = ctx.sepc + 4;
                    ExitAction::Continue
                },
            }
        },
        VmExit::IllegalInstruction(insn) => {
            let d = decode_csr_insn(insn);
            ctx.set_reg(d.rd as usize, GUEST_HART_ID);
            ctx.sepc = ctx.sepc + 4;
            ExitAction::Continue
        },
        VmExit::LoadGuestPageFault(addr) => {
            let (page, _) = split_page(addr);
            ExitAction::MapPageAndPoke(page)
        },
        VmExit::StoreGuestPageFault(addr) => {
            let (page, _) = split_page(addr);
            ExitAction::MapPage(page)
        },
        VmExit::Other => {
            proof {
                assert(false);
            }
            ExitAction::Continue
        },
    }
}

/// The fields [`decode_csr_insn`] extracts.
pub open spec fn decode_csr_insn_spec(insn: u32) -> CsrInsn {
    CsrInsn { rd: (insn >> 7u32) & 0x1F, csr: (insn >> 20u32) as usize, funct3: (insn >> 12u32) & 0x7 }
}

/// `value` with the field of `mask` at `shift` replaced by `field`, as a
/// `tock_registers` field value applies it: the field is cleared, then
/// `field & mask` is placed at `shift`.
pub open spec fn field_modified(value: usize, mask: usize, shift: usize, field: usize) -> usize {
    (value & !(mask << shift)) | ((field & mask) << shift)
}

/// Replaces a bit field of a register value, as
/// `tock_registers::LocalRegisterCopy::modify` with
/// `FieldValue::new(mask, shift, field)` does.
pub fn modify_field(value: usize, mask: usize, shift: usize, field: usize) -> (r: usize)
    requires
        shift < usize::BITS,
    ensures
        r == field_modified(value, mask, shift, field),
{
    (value & !(mask << shift)) | ((field & mask) << shift)
}

/// `hstatus.SPV`: the hart was in virtualization mode before the trap.
pub const HSTATUS_SPV_SHIFT: usize = 7;

/// `hstatus.SPVP`: supervisor accesses from HS-mode use VS-mode privilege.
pub const HSTATUS_SPVP_SHIFT: usize = 8;

/// The bits of `sstatus` that exist, as the `riscv` crate masks them.
pub open spec fn sstatus_mask() -> int {
    if usize::BITS == 32 {
        0x800d_e762
    } else {
        0x8000_0003_000d_e762
    }
}

/// `riscv::register::sstatus::Sstatus::set_spp(SPP::Supervisor)` on the
/// register value `bits`.
///
/// In its source `Sstatus` keeps only the bits of its mask, and `set_spp`
/// sets bit 8; the contract states the resulting value.
#[verifier::external_body]
fn sstatus_with_spp_supervisor(bits: usize) -> (r: usize)
    ensures
        r == (bits | 0x100usize) & (sstatus_mask() as usize),
{
    let mut sstatus = Sstatus::from_bits(bits);
    sstatus.set_spp(SPP::Supervisor);
    sstatus.bits()
}

/// The CSR values the guest is entered with.
#[derive(Debug, Clone, Copy, PartialEq, Eq, Structural)]
pub struct GuestEntry {
    pub hstatus: usize,
    pub sstatus: usize,
    pub sepc: usize,
}

/// Prepares the guest's entry: `hstatus` with `SPV` set, so that `sret`
/// enters the guest, and `SPVP` set, so that the hypervisor can reach guest
/// memory; `sstatus` with `SPP` set to supervisor; and the guest resumes at
/// [`VM_ENTRY`].
pub fn prepare_guest_entry(hstatus: usize, sstatus: usize) -> (r: GuestEntry)
    ensures
        r.hstatus == field_modified(
            field_modified(hstatus, 1, HSTATUS_SPV_SHIFT, 1),
            1,
            HSTATUS_SPVP_SHIFT,
            1,
        ),
        r.hstatus == hstatus | 0x180usize,
        r.sstatus == (sstatus | 0x100usize) & (sstatus_mask() as usize),
        r.sepc == VM_ENTRY,
        r.sepc == 0x8020_0000,
{
    let h1 = modify_field(hstatus, 1, HSTATUS_SPV_SHIFT, 1);
    let h2 = modify_field(h1, 1, HSTATUS_SPVP_SHIFT, 1);
    assert(h2 == hstatus | 0x180usize) by (bit_vector)
        requires
            h1 == (hstatus & !(1usize << 7usize)) | ((1usize & 1usize) << 7usize),
            h2 == (h1 & !(1usize << 8usize)) | ((1usize & 1usize) << 8usize),
    ;
    GuestEntry { hstatus: h2, sstatus: sstatus_with_spp_supervisor(sstatus), sepc: VM_ENTRY }
}

/// The `hgatp` value that selects Sv39x4 translation (mode 8) with the root
/// page table at physical address `root`: the mode in bits 60..64, the
/// root's page number below.
pub fn hgatp_for_root(root: u64) -> (r: u64)
    ensures
        r == (8u64 << 60u64) | (root >> 12u64),
        root < (1u64 << 56u64) ==> r >> 60u64 == 8 && r & 0xFFF_FFFF_FFFFu64 == root / 4096,
{
    let r = (8u64 << 60) | (root >> 12);
    assert(root < (1u64 << 56u64) ==> r >> 60u64 == 8 && r & 0xFFF_FFFF_FFFFu64 == root / 4096) by (bit_vector)
        requires
            r == (8u64 << 60u64) | (root >> 12u64),
    ;
    r
}

/// Which guest exits are handled: every SBI call with a message other than a
/// reset, whatever the registers; a reset exactly when `a0` (x10) holds
/// `0x6688` and `a1` (x11) holds `0x1234`; an illegal instruction exactly
/// when it is `csrrs` (`funct3` 2) on CSR `0xF14` (`mhartid`); every
/// guest-page fault. An SBI call without a message and any other trap are
/// not handled.
pub proof fn law_exits_handled(exit: VmExit, gprs: Seq<usize>)
    ensures
        exit matches VmExit::EnvCall(Some(msg)) && !(msg is Reset) ==> exit_handled(exit, gprs),
        exit matches VmExit::EnvCall(Some(msg)) && msg is Reset ==> (exit_handled(exit, gprs) <==> (
        gprs[10] == 0x6688 && gprs[11] == 0x1234)),
        exit matches VmExit::EnvCall(None) ==> !exit_handled(exit, gprs),
        exit is Other ==> !exit_handled(exit, gprs),
        exit is LoadGuestPageFault ==> exit_handled(exit, gprs),
        exit is StoreGuestPageFault ==> exit_handled(exit, gprs),
        exit matches VmExit::IllegalInstruction(insn) ==> (exit_handled(exit, gprs) <==> ((insn
            >> 12u32) & 7 == 2 && (insn >> 20u32) == 0xF14)),
{
}

/// How the guest's SBI calls are answered, with the error code in `a0`
/// (x10) and the value in `a1` (x11): a reset ends the guest; a character
/// is printed (its low byte); a timer request succeeds with `a0` = 0; a
/// base extension function succeeds with `a0` = 0 and its value in `a1`
/// (the specification version `0x0200_0000`, implementation version 1,
/// otherwise 0); anything else is refused with `a0` = -2 (not supported).
/// No other register changes.
pub proof fn law_sbi_answers(gprs: Seq<usize>, msg: SbiMessage)
    requires
        gprs.len() == 32,
    ensures
        ({
            let (act, after) = sbi_outcome(gprs, msg);
            &&& after.len() == 32
            &&& msg is Reset ==> act == SbiAction::Shutdown && after == gprs
            &&& msg matches SbiMessage::PutChar(c) ==> act == SbiAction::PutChar(c as u8) && after
                == gprs
            &&& msg is SetTimer ==> act == SbiAction::Continue && after == gprs.update(10, 0)
            &&& msg is Unsupported ==> act == SbiAction::Continue && after == gprs.update(
                10,
                (-2isize) as usize,
            )
            &&& msg matches SbiMessage::Base(f) ==> {
                &&& act == SbiAction::Continue
                &&& after[10] == 0
                &&& after[11] == (if f is GetSepcificationVersion {
                    0x0200_0000usize
                } else if f is GetImplementationVersion {
                    1usize
                } else {
                    0usize
                })
                &&& forall|i: int| 0 <= i < 32 && i != 10 && i != 11 ==> after[i] == gprs[i]
            }
        }),
        forall|f: BaseFunction|
            #[trigger] sbi_base_reply(f) == (0usize, if f is GetSepcificationVersion {
                0x0200_0000usize
            } else if f is GetImplementationVersion {
                1usize
            } else {
                0usize
            }),
{
}

/// Writing a register changes exactly that register, except that `x0`
/// stays as it is.
pub proof fn law_register_writes(gprs: Seq<usize>, index: int, val: usize)
    requires
        gprs.len() == 32,
        0 <= index < 32,
    ensures
        GuestRegs::written(gprs, index, val).len() == 32,
        index == 0 ==> GuestRegs::written(gprs, index, val) == gprs,
        index != 0 ==> GuestRegs::written(gprs, index, val)[index] == val,
        forall|i: int|
            0 <= i < 32 && i != index ==> #[trigger] GuestRegs::written(gprs, index, val)[i] == gprs[i],
{
}

/// How `scause` is read: with the top bit set it reports an interrupt,
/// which the hypervisor does not handle; otherwise the code below it is an
/// exception: 2 an illegal instruction, 10 an environment call from
/// VS-mode, 21 a load guest-page fault, 23 a store guest-page fault, and
/// anything else is not handled.
pub proof fn law_trap_causes(bits: usize)
    ensures
        bits & (1usize << ((usize::BITS - 1) as usize)) != 0 ==> trap_cause_of(bits) == TrapCause::Other,
        bits & (1usize << ((usize::BITS - 1) as usize)) == 0 ==> {
            let code = bits & !(1usize << ((usize::BITS - 1) as usize));
            &&& code == 2 ==> trap_cause_of(bits) == TrapCause::IllegalInstruction
            &&& code == 10 ==> trap_cause_of(bits) == TrapCause::VirtualSupervisorEnvCall
            &&& code == 21 ==> trap_cause_of(bits) == TrapCause::LoadGuestPageFault
            &&& code == 23 ==> trap_cause_of(bits) == TrapCause::StoreGuestPageFault
            &&& code != 2 && code != 10 && code != 21 && code != 23 ==> trap_cause_of(bits)
                == TrapCause::Other
        },
{
}

} // verus!
