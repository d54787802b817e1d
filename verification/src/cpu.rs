//! The hart: architectural state, CSR write hooks, trap entry and
//! return, asynchronous interrupt delivery, and the execution loop.
use vstd::prelude::*;

use crate::csr::CSRHook;
use crate::csr::CSRName;
use crate::csr::CSROpResult;
use crate::csr::CSRs;
use crate::csr::MCauseCode;
use crate::csr::SSTATUS_VIEW_MASK;
use crate::csr::S_INTR_VIEW_MASK;
use crate::csr::spec_csr_mask;
use crate::csr::spec_masked_write;
use crate::mem::Memory;
use crate::mstatus::MSTATUS_WMASK;
use crate::mstatus::MStatus;
use crate::mstatus::RISCV64Privilege;
use crate::paddr::PAddr;
use crate::reg::Registers;
use crate::satp::SATPMode;
use crate::satp::Satp;
use crate::vaddr::MMU;
use crate::vaddr::VAddr;

verus! {

/// The architectural state of the hart, owned in one place: registers,
/// CSRs, the MMU (which owns physical memory and the devices), the
/// privilege level, and the loop bookkeeping.
pub struct RISCV64CpuState {
    pub regs: Registers,
    pub csrs: CSRs,
    pub pc: VAddr,
    /// A pending control transfer, applied at the end of the step.
    pub dyn_pc: Option<VAddr>,
    pub memory: MMU,
    pub privilege: RISCV64Privilege,
    /// Advisory call-return shadow stack.
    pub backtrace: Vec<u64>,
    /// The hart has decided to stop (test exit, unset trap vector).
    pub stopping: bool,
    /// A `wfi` is pending: the hart stalls until an interrupt arrives.
    pub wfi: bool,
    /// The pending word as last examined.
    pub prev_interrupt_bits: u64,
    /// Re-evaluate interrupt delivery even if the pending word is stale.
    pub interrupt_cond_dirty: bool,
}

impl RISCV64CpuState {
    pub open spec fn wf(self) -> bool {
        &&& self.regs.wf()
        &&& self.csrs.wf()
        &&& self.memory.wf()
    }

    /// A fresh hart: everything at reset, the PC at the reset vector.
    pub fn new(memory: Memory, reset_vector: &PAddr) -> (r: RISCV64CpuState)
        requires
            memory.wf(),
        ensures
            r.wf(),
            r.pc.0 == reset_vector.0,
            r.privilege == RISCV64Privilege::M,
            !r.stopping,
            !r.wfi,
            r.regs@[0] == 0,
            forall|i: int| 0 <= i < 33 ==> r.regs@[i] == 0,
            forall|i: u64| i < 4096 ==> r.csrs.spec_read(i) == crate::csr::spec_csr_reset(i),
            r.csrs.time == 0,
            r.csrs.cycles == 0,
            r.dyn_pc is None,
            r.backtrace@.len() == 0,
            r.memory.mem == memory,
            r.memory.translation_ctrl == crate::vaddr::TranslationCtrl::spec_reset(),
            forall|i: int| 0 <= i < 2048 ==> (#[trigger] r.memory.tlb@[i]).pte == 0,
    {
        let mmu = MMU::new(memory);
        RISCV64CpuState {
            regs: Registers::new(),
            csrs: CSRs::new(),
            pc: VAddr::new(reset_vector.0),
            dyn_pc: Option::None,
            memory: mmu,
            privilege: RISCV64Privilege::M,
            backtrace: Vec::new(),
            stopping: false,
            wfi: false,
            prev_interrupt_bits: 0,
            interrupt_cond_dirty: true,
        }
    }

    /// The hart's current privilege level.
    pub fn current_priv(&self) -> (r: RISCV64Privilege)
        ensures
            r == self.privilege,
    {
        self.privilege
    }

    /// Change the privilege level; the MMU sees the new level at once,
    /// and interrupt delivery is re-evaluated.
    pub fn set_priv(&mut self, privilege: RISCV64Privilege)
        requires
            old(self).wf(),
        ensures
            final(self).wf(),
            final(self).privilege == privilege,
            final(self).memory.translation_ctrl == (crate::vaddr::TranslationCtrl {
                privilege,
                ..old(self).memory.translation_ctrl
            }),
            final(self).memory.mem == old(self).memory.mem,
            final(self).memory.tlb == old(self).memory.tlb,
            final(self).csrs == old(self).csrs,
            final(self).regs == old(self).regs,
            final(self).pc == old(self).pc,
            final(self).dyn_pc == old(self).dyn_pc,
            final(self).stopping == old(self).stopping,
            final(self).wfi == old(self).wfi,
            final(self).backtrace == old(self).backtrace,
            final(self).prev_interrupt_bits == old(self).prev_interrupt_bits,
            old(self).interrupt_cond_dirty ==> final(self).interrupt_cond_dirty,
    {
        if !privilege.same_as(self.privilege) {
            self.interrupt_cond_dirty = true;
        }
        self.privilege = privilege;
        self.memory.set_privilege(privilege);
    }

    /// Ask for interrupt delivery to be re-evaluated on the next poll.
    pub fn set_interrupt_cond_dirty(&mut self)
        ensures
            *final(self) == (RISCV64CpuState { interrupt_cond_dirty: true, ..*old(self) }),
    {
        self.interrupt_cond_dirty = true;
    }

    /// The recorded call sites, most recent first, one per line.
    pub fn get_backtrace_string(&self) -> String {
        let mut res = String::new();
        let mut i: usize = 0;
        while i < self.backtrace.len()
            invariant
                i <= self.backtrace@.len(),
            decreases self.backtrace@.len() - i,
        {
            let addr = self.backtrace[self.backtrace.len() - 1 - i];
            let line = format_backtrace_line(i, addr.wrapping_sub(4));
            res.append(line.as_str());
            i = i + 1;
        }
        res
    }
}

impl RISCV64Privilege {
    /// Equality usable from executable code.
    pub fn same_as(self, other: RISCV64Privilege) -> (r: bool)
        ensures
            r == (self == other),
    {
        self == other
    }
}

/// Relies on the `format!` macro of std: renders one backtrace line.
#[verifier::external_body]
fn format_backtrace_line(i: usize, addr: u64) -> (r: String) {
    format!("#{}: {:#x}\n", i, addr)
}

/// A masked write under the full mask stores the value unchanged.
pub proof fn lemma_full_mask_write()
    by (bit_vector)
    ensures
        forall|o: u64, v: u64| #[trigger] ((v & !0u64) | (o & !(!0u64))) == v,
{
}

/// Getting `(v & MSTATUS_WMASK) | (b & !MSTATUS_WMASK)`: every field this
/// core reads lies inside the write mask, so the merged image reads the
/// fields of `v`.
pub proof fn lemma_wmask_getters(v: u64, b: u64)
    by (bit_vector)
    ensures
        ({
            let w = (v & 0b11111100001100110101010u64) | (b & !0b11111100001100110101010u64);
            &&& (w >> 1) & 1 == (v >> 1) & 1
            &&& (w >> 3) & 1 == (v >> 3) & 1
            &&& (w >> 5) & 1 == (v >> 5) & 1
            &&& (w >> 7) & 1 == (v >> 7) & 1
            &&& (w >> 8) & 1 == (v >> 8) & 1
            &&& (w >> 11) & 3 == (v >> 11) & 3
            &&& (w >> 17) & 1 == (v >> 17) & 1
            &&& (w >> 18) & 1 == (v >> 18) & 1
            &&& (w >> 19) & 1 == (v >> 19) & 1
        }),
{
}

/// What a write hook does to the hart, as a relation; see `call_hook`.
pub open spec fn spec_hook_post(res: CSROpResult, pre: RISCV64CpuState, post: RISCV64CpuState) -> bool {
    &&& (post.regs == pre.regs)
    &&& (post.pc == pre.pc)
    &&& (post.dyn_pc == pre.dyn_pc)
    &&& (post.privilege == pre.privilege)
    &&& (post.stopping == pre.stopping)
    &&& (post.wfi == pre.wfi)
    &&& (post.memory.mem == pre.memory.mem)
    &&& (post.memory.tlb == pre.memory.tlb)
    &&& (post.csrs.time == pre.csrs.time)
    &&& (post.csrs.cycles == pre.csrs.cycles)
    &&& (post.backtrace == pre.backtrace)
    &&& (post.prev_interrupt_bits == pre.prev_interrupt_bits)
    &&& (post.interrupt_cond_dirty == pre.interrupt_cond_dirty)
    &&& (res.hook is None ==> post.csrs@ == pre.csrs@ && post.memory.translation_ctrl == pre.memory.translation_ctrl)
    &&& (res.hook == Some(CSRHook::SatpHook) ==> (if SATPMode::spec_from_repr(
        Satp(res.new).spec_mode(),
    ) is Some {
        post.csrs@ == pre.csrs@ && post.memory.translation_ctrl
            == (crate::vaddr::TranslationCtrl {
            is_bare: Satp(res.new).spec_mode() == 0,
            sv39: crate::vaddr::SV39 { lvl1_base: Satp(res.new).spec_ppn() << 12 },
            ..pre.memory.translation_ctrl
        })
    } else {
        // An unsupported mode is written back as the old value (WARL).
        post.csrs@ == pre.csrs@.update(0x180, res.old) && post.memory.translation_ctrl
            == pre.memory.translation_ctrl
    }))
    &&& (res.hook == Some(CSRHook::MStatusHook) ==> post.csrs@ == pre.csrs@.update(0x100, res.new & SSTATUS_VIEW_MASK) && post.memory.translation_ctrl == crate::vaddr::spec_priv_refresh(
                pre.memory.translation_ctrl,
                MStatus(res.new),
            ))
    &&& (res.hook == Some(CSRHook::SStatusHook) ==> ({
                let merged = res.new | (pre.csrs.spec_read(0x300) & !SSTATUS_VIEW_MASK);
                post.csrs@ == pre.csrs@.update(0x300, merged).update(
                    0x100,
                    merged & SSTATUS_VIEW_MASK,
                ) && post.memory.translation_ctrl == crate::vaddr::spec_priv_refresh(
                    pre.memory.translation_ctrl,
                    MStatus(merged),
                )
            }))
    &&& (res.hook == Some(CSRHook::MieHook) ==> post.csrs@ == pre.csrs@.update(
                0x104,
                res.new & S_INTR_VIEW_MASK,
            ) && post.memory.translation_ctrl == pre.memory.translation_ctrl)
    &&& (res.hook == Some(CSRHook::SieHook) ==> post.csrs@ == pre.csrs@.update(
                0x304,
                res.new | (pre.csrs.spec_read(0x304) & !S_INTR_VIEW_MASK),
            ) && post.memory.translation_ctrl == pre.memory.translation_ctrl)
    &&& (res.hook == Some(CSRHook::MipHook) ==> post.csrs@ == pre.csrs@.update(
                0x144,
                res.new & S_INTR_VIEW_MASK,
            ) && post.memory.translation_ctrl == pre.memory.translation_ctrl)
    &&& (res.hook == Some(CSRHook::SipHook) ==> post.csrs@ == pre.csrs@.update(
                0x344,
                res.new | (pre.csrs.spec_read(0x344) & !S_INTR_VIEW_MASK),
            ) && post.memory.translation_ctrl == pre.memory.translation_ctrl)
}

impl CSROpResult {
    /// Run this write's side-effect hook: keep the S-mode views and the
    /// M-mode registers in step, and refresh the MMU's cached control
    /// bits on `satp` and `mstatus` changes.
    pub fn call_hook(&self, state: &mut RISCV64CpuState)
        requires
            old(state).wf(),
        ensures
            final(state).wf(),
            spec_hook_post(*self, *old(state), *final(state)),
    {
        match self.hook {
            Option::None => {
            },
            Option::Some(h) => match h {
                CSRHook::SatpHook => {
                    let satp = Satp(self.new);
                    if SATPMode::from_repr(satp.mode()).is_some() {
                        state.memory.update_translation_ctrl(&satp);
                    } else {
                        // satp is WARL: an unsupported mode leaves the
                        // register holding its previous value.
                        state.csrs.set_fast(CSRName::satp, self.old);
                    }
                },
                CSRHook::MStatusHook => {
                    state.csrs.set_fast(CSRName::sstatus, self.new & SSTATUS_VIEW_MASK);
                    let mst = MStatus(self.new);
                    state.memory.update_priv(&mst);
                },
                CSRHook::SStatusHook => {
                    let old_mstatus = state.csrs.get(CSRName::mstatus);
                    let merged = self.new | (old_mstatus & !SSTATUS_VIEW_MASK);
                    state.csrs.set_fast(CSRName::mstatus, merged);
                    state.csrs.set_fast(CSRName::sstatus, merged & SSTATUS_VIEW_MASK);
                    let mst = MStatus(merged);
                    state.memory.update_priv(&mst);
                },
                CSRHook::MieHook => {
                    state.csrs.set_fast(CSRName::sie, self.new & S_INTR_VIEW_MASK);
                },
                CSRHook::SieHook => {
                    let old_mie = state.csrs.get(CSRName::mie);
                    state.csrs.set_fast(CSRName::mie, self.new | (old_mie & !S_INTR_VIEW_MASK));
                },
                CSRHook::MipHook => {
                    state.csrs.set_fast(CSRName::sip, self.new & S_INTR_VIEW_MASK);
                },
                CSRHook::SipHook => {
                    let old_mip = state.csrs.get(CSRName::mip);
                    state.csrs.set_fast(CSRName::mip, self.new | (old_mip & !S_INTR_VIEW_MASK));
                },
            },
        }
    }
}

} // verus!

verus! {

/// What taking a trap from `prev` into `next` does to the CSR file, the
/// privilege and the pending control transfer: `xepc` records the PC of
/// the trapping instruction, `xcause` the cause, `xPIE` takes `xIE`,
/// `xIE` clears, `xPP` records `prev`, and execution continues at
/// `xtvec`.
pub open spec fn spec_trap_csrs_post(
    pre: RISCV64CpuState,
    post: RISCV64CpuState,
    cause: MCauseCode,
    prev: RISCV64Privilege,
    next: RISCV64Privilege,
    tval: Option<u64>,
) -> bool {
    let pre_mst = pre.csrs.spec_read(0x300);
    let new_mst = spec_masked_write(
        pre_mst,
        MStatus(pre_mst).spec_after_trap(prev, next),
        MSTATUS_WMASK,
    );
    let epc: u64 = if next == RISCV64Privilege::M {
        0x341
    } else {
        0x141
    };
    let cause_csr: u64 = if next == RISCV64Privilege::M {
        0x342
    } else {
        0x142
    };
    let tval_csr: u64 = if next == RISCV64Privilege::M {
        0x343
    } else {
        0x143
    };
    let tvec: u64 = if next == RISCV64Privilege::M {
        0x305
    } else {
        0x105
    };
    &&& post.csrs.spec_read(0x300) == new_mst
    &&& post.csrs.spec_read(0x100) == new_mst & SSTATUS_VIEW_MASK
    &&& (next == RISCV64Privilege::M ==> MStatus(new_mst).spec_MPIE() == MStatus(
        pre_mst,
    ).spec_MIE() && !MStatus(new_mst).spec_MIE() && MStatus(new_mst).spec_MPP()
        == prev.spec_encode())
    &&& (next != RISCV64Privilege::M ==> MStatus(new_mst).spec_SPIE() == MStatus(
        pre_mst,
    ).spec_SIE() && !MStatus(new_mst).spec_SIE() && MStatus(new_mst).spec_SPP() == (prev
        == RISCV64Privilege::S))
    &&& post.csrs.spec_read(epc) == pre.pc.0
    &&& post.csrs.spec_read(cause_csr) == cause.spec_code()
    &&& (tval matches Option::Some(v) ==> post.csrs.spec_read(tval_csr) == v)
    &&& (tval is None ==> post.csrs.spec_read(tval_csr) == pre.csrs.spec_read(tval_csr))
    &&& post.dyn_pc == Option::Some(VAddr(pre.csrs.spec_read(tvec)))
    &&& post.privilege == next
    &&& post.memory.mem == pre.memory.mem
    &&& post.memory.tlb == pre.memory.tlb
    &&& post.regs == pre.regs
    &&& post.pc == pre.pc
    &&& post.stopping == pre.stopping
    &&& post.backtrace == pre.backtrace
    &&& (forall|i: u64|
        i < 4096 && i != 0x300 && i != 0x100 && i != epc && i != cause_csr && i != tval_csr
            ==> post.csrs.spec_read(i) == #[trigger] pre.csrs.spec_read(i))
}

impl RISCV64CpuState {
    /// Record a trap in the CSRs and move to the handler: the status
    /// update of a trap from `prev` into `next`, `xepc`/`xcause`/`xtval`,
    /// and the jump to `xtvec`.
    pub fn trap_update_csrs(
        &mut self,
        cause: MCauseCode,
        prev: RISCV64Privilege,
        next: RISCV64Privilege,
        mtval_val: Option<u64>,
    )
        requires
            old(self).wf(),
            next != RISCV64Privilege::M ==> prev != RISCV64Privilege::M,
        ensures
            final(self).wf(),
            spec_trap_csrs_post(*old(self), *final(self), cause, prev, next, mtval_val),
            final(self).wfi == old(self).wfi,
            final(self).prev_interrupt_bits == old(self).prev_interrupt_bits,
            old(self).interrupt_cond_dirty ==> final(self).interrupt_cond_dirty,
    {
        proof {
            lemma_wmask_getters(
                MStatus(old(self).csrs.spec_read(0x300)).spec_after_trap(prev, next),
                old(self).csrs.spec_read(0x300),
            );
            lemma_full_mask_write();
        }
        let mut mst = MStatus(self.csrs.get(CSRName::mstatus));
        mst.update_when_trap(prev, next);
        match self.csrs.set_n(CSRName::mstatus, mst.0) {
            Result::Ok(res) => res.call_hook(self),
            Result::Err(()) => {
            },
        }
        if next.same_as(RISCV64Privilege::M) {
            let pcv = self.pc.value();
            match self.csrs.set_n(CSRName::mepc, pcv) {
                Result::Ok(res) => res.call_hook(self),
                Result::Err(()) => {
                },
            }
            match self.csrs.set_n(CSRName::mcause, cause.code()) {
                Result::Ok(res) => res.call_hook(self),
                Result::Err(()) => {
                },
            }
            let tvec = self.csrs.get(CSRName::mtvec);
            self.dyn_pc = Option::Some(VAddr::new(tvec));
            match mtval_val {
                Option::Some(v) => {
                    match self.csrs.set_n(CSRName::mtval, v) {
                        Result::Ok(res) => res.call_hook(self),
                        Result::Err(()) => {
                        },
                    }
                },
                Option::None => {
                },
            }
        } else {
            let pcv = self.pc.value();
            match self.csrs.set_n(CSRName::sepc, pcv) {
                Result::Ok(res) => res.call_hook(self),
                Result::Err(()) => {
                },
            }
            match self.csrs.set_n(CSRName::scause, cause.code()) {
                Result::Ok(res) => res.call_hook(self),
                Result::Err(()) => {
                },
            }
            let tvec = self.csrs.get(CSRName::stvec);
            self.dyn_pc = Option::Some(VAddr::new(tvec));
            match mtval_val {
                Option::Some(v) => {
                    match self.csrs.set_n(CSRName::stval, v) {
                        Result::Ok(res) => res.call_hook(self),
                        Result::Err(()) => {
                        },
                    }
                },
                Option::None => {
                },
            }
        }
        self.set_priv(next);
    }
}

/// Whether an exception trap taken below M is delegated to S-mode by
/// `medeleg`.
pub open spec fn spec_trap_delegated(pre: RISCV64CpuState, cause: MCauseCode) -> bool {
    &&& pre.privilege != RISCV64Privilege::M
    &&& cause.spec_code() < 64
    &&& (pre.csrs.spec_read(0x302) >> cause.spec_code()) & 1 == 1
}

/// Whether this trap is the riscv-test exit convention: an environment
/// call with register a7 holding 93.
pub open spec fn spec_trap_is_test_exit(pre: RISCV64CpuState, cause: MCauseCode) -> bool {
    &&& (cause == MCauseCode::ECallM || cause == MCauseCode::ECallS || cause == MCauseCode::ECallU)
    &&& pre.regs@[17] == 93
}

/// Everything `trap` does: a test-exit environment call stops the hart;
/// any other trap is taken to M, or to S when delegated, per
/// `spec_trap_csrs_post`; an unset handler vector also stops the hart.
pub open spec fn spec_trap_post(
    pre: RISCV64CpuState,
    post: RISCV64CpuState,
    cause: MCauseCode,
    tval: Option<u64>,
) -> bool {
    if spec_trap_is_test_exit(pre, cause) {
        post == (RISCV64CpuState { stopping: true, ..pre })
    } else {
        let next = if spec_trap_delegated(pre, cause) {
            RISCV64Privilege::S
        } else {
            RISCV64Privilege::M
        };
        &&& spec_trap_csrs_post(
            pre,
            RISCV64CpuState { stopping: pre.stopping, ..post },
            cause,
            pre.privilege,
            next,
            tval,
        )
        &&& post.stopping == (pre.stopping || pre.csrs.spec_read(0x305) == 0)
    }
}

impl RISCV64CpuState {
    /// Take a synchronous trap: route it by `medeleg`, record it in the
    /// CSRs and jump to the handler. A riscv-test exit environment call
    /// (a7 = 93) stops the hart instead, as does a trap with no M-mode
    /// handler installed.
    pub fn trap(&mut self, cause: MCauseCode, mtval_val: Option<u64>)
        requires
            old(self).wf(),
            cause.spec_code() < 64,
        ensures
            final(self).wf(),
            spec_trap_post(*old(self), *final(self), cause, mtval_val),
            final(self).wfi == old(self).wfi,
    {
        let is_ecall = match cause {
            MCauseCode::ECallM => true,
            MCauseCode::ECallS => true,
            MCauseCode::ECallU => true,
            _ => false,
        };
        if is_ecall && self.regs.read(17) == 93 {
            self.stopping = true;
            return ;
        }
        let code = cause.code();
        let medeleg_val = self.csrs.get(CSRName::medeleg);
        let is_deleg = !self.privilege.same_as(RISCV64Privilege::M) && ((medeleg_val >> code) & 1
            == 1);
        let prev = self.privilege;
        let next = if is_deleg {
            RISCV64Privilege::S
        } else {
            RISCV64Privilege::M
        };
        self.trap_update_csrs(cause, prev, next, mtval_val);
        if self.csrs.get(CSRName::mtvec) == 0 {
            self.stopping = true;
        }
    }
}

} // verus!

verus! {

/// Everything `xret` does: restore the interrupt enable from `xPIE`,
/// set `xPIE`, drop `xPP` to U, move to the privilege `xPP` held, clear
/// MPRV when leaving M, and continue at `xepc`. An `xret` executed below
/// its required privilege is an illegal instruction.
pub open spec fn spec_ret_post(
    pre: RISCV64CpuState,
    post: RISCV64CpuState,
    ret_inst: RISCV64Privilege,
) -> bool {
    let legal = (ret_inst == RISCV64Privilege::M && pre.privilege == RISCV64Privilege::M) || (
    ret_inst == RISCV64Privilege::S && pre.privilege != RISCV64Privilege::U);
    if !legal {
        spec_trap_post(pre, post, MCauseCode::IllegalInst, Option::None)
    } else {
        let pre_mst = pre.csrs.spec_read(0x300);
        let to = MStatus(pre_mst).spec_ret_target(ret_inst);
        let new_mst = spec_masked_write(
            pre_mst,
            MStatus(pre_mst).spec_after_ret(ret_inst),
            MSTATUS_WMASK,
        );
        let epc: u64 = if ret_inst == RISCV64Privilege::M {
            0x341
        } else {
            0x141
        };
        &&& post.csrs.spec_read(0x300) == new_mst
        &&& post.csrs.spec_read(0x100) == new_mst & SSTATUS_VIEW_MASK
        &&& (ret_inst == RISCV64Privilege::M ==> MStatus(new_mst).spec_MIE() == MStatus(
            pre_mst,
        ).spec_MPIE() && MStatus(new_mst).spec_MPIE() && MStatus(new_mst).spec_MPP() == 0)
        &&& (ret_inst == RISCV64Privilege::S ==> MStatus(new_mst).spec_SIE() == MStatus(
            pre_mst,
        ).spec_SPIE() && MStatus(new_mst).spec_SPIE() && !MStatus(new_mst).spec_SPP())
        &&& (to != RISCV64Privilege::M ==> !MStatus(new_mst).spec_MPRV())
        &&& post.privilege == to
        &&& post.dyn_pc == Option::Some(VAddr(pre.csrs.spec_read(epc)))
        &&& post.regs == pre.regs
        &&& post.pc == pre.pc
        &&& post.memory.mem == pre.memory.mem
        &&& post.memory.tlb == pre.memory.tlb
        &&& post.stopping == pre.stopping
        &&& post.backtrace == pre.backtrace
        &&& (forall|i: u64|
            i < 4096 && i != 0x300 && i != 0x100 ==> post.csrs.spec_read(i)
                == #[trigger] pre.csrs.spec_read(i))
    }
}

impl RISCV64CpuState {
    /// Return from a trap handler: `mret` or `sret`.
    pub fn ret(&mut self, ret_inst: RISCV64Privilege)
        requires
            old(self).wf(),
            ret_inst != RISCV64Privilege::U,
        ensures
            final(self).wf(),
            spec_ret_post(*old(self), *final(self), ret_inst),
    {
        let legal = (ret_inst.same_as(RISCV64Privilege::M) && self.privilege.same_as(
            RISCV64Privilege::M,
        )) || (ret_inst.same_as(RISCV64Privilege::S) && !self.privilege.same_as(
            RISCV64Privilege::U,
        ));
        if !legal {
            self.trap(MCauseCode::IllegalInst, Option::None);
            return ;
        }
        proof {
            lemma_wmask_getters(
                MStatus(old(self).csrs.spec_read(0x300)).spec_after_ret(ret_inst),
                old(self).csrs.spec_read(0x300),
            );
            lemma_full_mask_write();
        }
        let mut mst = MStatus(self.csrs.get(CSRName::mstatus));
        let to = mst.update_when_ret(ret_inst);
        match self.csrs.set_n(CSRName::mstatus, mst.0) {
            Result::Ok(res) => res.call_hook(self),
            Result::Err(()) => {
            },
        }
        let xepc = if ret_inst.same_as(RISCV64Privilege::M) {
            self.csrs.get(CSRName::mepc)
        } else {
            self.csrs.get(CSRName::sepc)
        };
        self.dyn_pc = Option::Some(VAddr::new(xepc));
        self.set_priv(to);
    }
}

/// Whether the interrupt poll examines the pending word at all: it is
/// nonzero, and either it changed or a re-evaluation was requested.
pub open spec fn spec_intr_polled(pre: RISCV64CpuState) -> bool {
    let bits = pre.memory.mem.devices.intr;
    bits != 0 && !(bits == pre.prev_interrupt_bits && !pre.interrupt_cond_dirty)
}

/// Which interrupt the hart takes, if any. Eligibility is judged per
/// cause: a cause delegated by `mideleg`, pending and enabled in `sie`,
/// is taken to S when the hart runs in U, or in S with SIE set (or
/// during `wfi`), and never in M; a cause not delegated, pending and
/// enabled in `mie`, is taken to M, which in M-mode itself needs MIE set
/// (or `wfi`). Timer causes outrank external ones, S delivery outranks
/// M; only the four sources of this platform are recognised.
pub open spec fn spec_intr_take(pre: RISCV64CpuState) -> Option<
    (MCauseCode, RISCV64Privilege),
> {
    let bits = pre.memory.mem.devices.intr;
    let mst = MStatus(pre.csrs.spec_read(0x300));
    let s_cand = bits & pre.csrs.spec_read(0x303) & pre.csrs.spec_read(0x104);
    let m_cand = bits & !pre.csrs.spec_read(0x303) & pre.csrs.spec_read(0x304);
    let s_ok = pre.privilege == RISCV64Privilege::U || (pre.privilege == RISCV64Privilege::S && (
    mst.spec_SIE() || pre.wfi));
    let m_ok = pre.privilege != RISCV64Privilege::M || mst.spec_MIE() || pre.wfi;
    if s_ok && s_cand & 0x20 != 0 {
        Option::Some((MCauseCode::STimerInt, RISCV64Privilege::S))
    } else if s_ok && s_cand & 0x200 != 0 {
        Option::Some((MCauseCode::SExtInt, RISCV64Privilege::S))
    } else if m_ok && m_cand & 0x80 != 0 {
        Option::Some((MCauseCode::MTimerInt, RISCV64Privilege::M))
    } else if m_ok && m_cand & 0x800 != 0 {
        Option::Some((MCauseCode::MExtInt, RISCV64Privilege::M))
    } else {
        Option::None
    }
}

/// What one interrupt poll does: nothing when the pending word is zero
/// or already examined; bookkeeping only when nothing is eligible; an
/// asynchronous trap (per `spec_trap_csrs_post`, waking `wfi`) when
/// `spec_intr_take` picks a cause.
pub open spec fn spec_interrupt_poll_post(pre: RISCV64CpuState, post: RISCV64CpuState) -> bool {
    &&& (!spec_intr_polled(pre) ==> post == pre)
    &&& ((spec_intr_polled(pre) && spec_intr_take(pre) is None) ==> post == (RISCV64CpuState {
        prev_interrupt_bits: pre.memory.mem.devices.intr,
        interrupt_cond_dirty: false,
        ..pre
    }))
    &&& ((spec_intr_polled(pre) && spec_intr_take(pre) is Some) ==> ({
        let take = spec_intr_take(pre)->Some_0;
        &&& spec_trap_csrs_post(pre, post, take.0, pre.privilege, take.1, Option::None)
        &&& !post.wfi
        &&& post.prev_interrupt_bits == pre.memory.mem.devices.intr
        &&& post.interrupt_cond_dirty
    }))
}

impl RISCV64CpuState {
    /// Poll the pending word once, at an instruction boundary, and take
    /// an eligible interrupt as an asynchronous trap.
    pub fn handle_interrupt(&mut self)
        requires
            old(self).wf(),
        ensures
            final(self).wf(),
            spec_interrupt_poll_post(*old(self), *final(self)),
    {
        let bits = self.memory.mem.devices.intr;
        if bits == 0 {
            return ;
        }
        if bits == self.prev_interrupt_bits && !self.interrupt_cond_dirty {
            return ;
        }
        self.interrupt_cond_dirty = false;
        self.prev_interrupt_bits = bits;

        let prev_priv = self.privilege;
        let mst = MStatus(self.csrs.get(CSRName::mstatus));
        let s_cand = bits & self.csrs.get(CSRName::mideleg) & self.csrs.get(CSRName::sie);
        let m_cand = bits & !self.csrs.get(CSRName::mideleg) & self.csrs.get(CSRName::mie);
        let s_ok = prev_priv.same_as(RISCV64Privilege::U) || (prev_priv.same_as(
            RISCV64Privilege::S,
        ) && (mst.SIE() || self.wfi));
        let m_ok = !prev_priv.same_as(RISCV64Privilege::M) || mst.MIE() || self.wfi;
        let cause: MCauseCode;
        let next: RISCV64Privilege;
        if s_ok && s_cand & 0x20 != 0 {
            cause = MCauseCode::STimerInt;
            next = RISCV64Privilege::S;
        } else if s_ok && s_cand & 0x200 != 0 {
            cause = MCauseCode::SExtInt;
            next = RISCV64Privilege::S;
        } else if m_ok && m_cand & 0x80 != 0 {
            cause = MCauseCode::MTimerInt;
            next = RISCV64Privilege::M;
        } else if m_ok && m_cand & 0x800 != 0 {
            cause = MCauseCode::MExtInt;
            next = RISCV64Privilege::M;
        } else {
            // Nothing both pending and enabled: leave the word pending.
            return ;
        }
        self.set_interrupt_cond_dirty();
        self.wfi = false;
        self.trap_update_csrs(cause, prev_priv, next, Option::None);
    }
}

} // verus!

verus! {

impl Satp {
    /// The `satp` write hook: recompute the MMU's translation mode and
    /// root. An unsupported mode leaves the control unchanged.
    pub fn write_hook(csr: &u64, state: &mut RISCV64CpuState)
        requires
            old(state).wf(),
        ensures
            final(state).wf(),
            *final(state) == (RISCV64CpuState { memory: final(state).memory, ..*old(state) }),
            final(state).memory.mem == old(state).memory.mem,
            final(state).memory.tlb == old(state).memory.tlb,
            final(state).memory.translation_ctrl == (if SATPMode::spec_from_repr(
                Satp(*csr).spec_mode(),
            ) is Some {
                crate::vaddr::TranslationCtrl {
                    is_bare: Satp(*csr).spec_mode() == 0,
                    sv39: crate::vaddr::SV39 { lvl1_base: Satp(*csr).spec_ppn() << 12 },
                    ..old(state).memory.translation_ctrl
                }
            } else {
                old(state).memory.translation_ctrl
            }),
    {
        let satp = Satp(*csr);
        if SATPMode::from_repr(satp.mode()).is_some() {
            state.memory.update_translation_ctrl(&satp);
        }
    }
}

/// The destination slot a decoded `rd` writes (x0 redirected).
pub open spec fn spec_rd_slot(rd: u64) -> int {
    if rd == 0 {
        32int
    } else {
        rd as int
    }
}

impl RISCV64CpuState {
    /// The value of source register `i` of a well-formed decode.
    pub open spec fn spec_reg(self, i: u64) -> u64 {
        self.regs@[i as int]
    }

    /// Execute a 64-bit register-register operation.
    pub fn exec_alu_r(&mut self, op: crate::inst::AluOp, d: crate::inst::Decode)
        requires
            old(self).wf(),
            d.wf(),
        ensures
            final(self).wf(),
            *final(self) == (RISCV64CpuState { regs: final(self).regs, ..*old(self) }),
            final(self).regs@ == old(self).regs@.update(
                spec_rd_slot(d.rd),
                crate::inst::spec_alu64(op, old(self).spec_reg(d.rs1), old(self).spec_reg(d.rs2)),
            ),
            final(self).regs@[0] == 0,
    {
        let a = self.regs.read(d.rs1);
        let b = self.regs.read(d.rs2);
        let v = crate::inst::alu64(op, a, b);
        self.regs.write(d.rd, v);
    }

    /// Execute a 64-bit register-immediate operation.
    pub fn exec_alu_i(&mut self, op: crate::inst::AluOp, d: crate::inst::Decode)
        requires
            old(self).wf(),
            d.wf(),
        ensures
            final(self).wf(),
            *final(self) == (RISCV64CpuState { regs: final(self).regs, ..*old(self) }),
            final(self).regs@ == old(self).regs@.update(
                spec_rd_slot(d.rd),
                crate::inst::spec_alu64(op, old(self).spec_reg(d.rs1), d.imm),
            ),
            final(self).regs@[0] == 0,
    {
        let a = self.regs.read(d.rs1);
        let v = crate::inst::alu64(op, a, d.imm);
        self.regs.write(d.rd, v);
    }

    /// Execute a 32-bit (`W`-form) register-register operation.
    pub fn exec_alu_rw(&mut self, op: crate::inst::AluOp, d: crate::inst::Decode)
        requires
            old(self).wf(),
            d.wf(),
        ensures
            final(self).wf(),
            *final(self) == (RISCV64CpuState { regs: final(self).regs, ..*old(self) }),
            final(self).regs@ == old(self).regs@.update(
                spec_rd_slot(d.rd),
                crate::inst::spec_alu32(op, old(self).spec_reg(d.rs1), old(self).spec_reg(d.rs2)),
            ),
            final(self).regs@[0] == 0,
    {
        let a = self.regs.read(d.rs1);
        let b = self.regs.read(d.rs2);
        let v = crate::inst::alu32(op, a, b);
        self.regs.write(d.rd, v);
    }

    /// Execute a 32-bit (`W`-form) register-immediate operation.
    pub fn exec_alu_iw(&mut self, op: crate::inst::AluOp, d: crate::inst::Decode)
        requires
            old(self).wf(),
            d.wf(),
        ensures
            final(self).wf(),
            *final(self) == (RISCV64CpuState { regs: final(self).regs, ..*old(self) }),
            final(self).regs@ == old(self).regs@.update(
                spec_rd_slot(d.rd),
                crate::inst::spec_alu32(op, old(self).spec_reg(d.rs1), d.imm),
            ),
            final(self).regs@[0] == 0,
    {
        let a = self.regs.read(d.rs1);
        let v = crate::inst::alu32(op, a, d.imm);
        self.regs.write(d.rd, v);
    }

    /// Whether a branch comparison holds.
    pub open spec fn spec_branch_taken(cond: crate::inst::BranchCond, a: u64, b: u64) -> bool {
        match cond {
            crate::inst::BranchCond::Eq => a == b,
            crate::inst::BranchCond::Ne => a != b,
            crate::inst::BranchCond::Ge => !crate::inst::spec_slt64(a, b),
            crate::inst::BranchCond::Geu => a >= b,
            crate::inst::BranchCond::Lt => crate::inst::spec_slt64(a, b),
            crate::inst::BranchCond::Ltu => a < b,
        }
    }

    /// Execute a conditional branch: taken, it schedules `pc + imm`.
    pub fn exec_branch(&mut self, cond: crate::inst::BranchCond, d: crate::inst::Decode)
        requires
            old(self).wf(),
            d.wf(),
        ensures
            final(self).wf(),
            *final(self) == (RISCV64CpuState { dyn_pc: final(self).dyn_pc, ..*old(self) }),
            final(self).dyn_pc == if RISCV64CpuState::spec_branch_taken(
                cond,
                old(self).spec_reg(d.rs1),
                old(self).spec_reg(d.rs2),
            ) {
                Option::Some(VAddr(crate::wrap_add64(old(self).pc.0, d.imm)))
            } else {
                old(self).dyn_pc
            },
    {
        let a = self.regs.read(d.rs1);
        let b = self.regs.read(d.rs2);
        let taken = match cond {
            crate::inst::BranchCond::Eq => a == b,
            crate::inst::BranchCond::Ne => a != b,
            crate::inst::BranchCond::Ge => !crate::inst::slt64(a, b),
            crate::inst::BranchCond::Geu => a >= b,
            crate::inst::BranchCond::Lt => crate::inst::slt64(a, b),
            crate::inst::BranchCond::Ltu => a < b,
        };
        if taken {
            self.dyn_pc = Option::Some(VAddr::new(self.pc.value().wrapping_add(d.imm)));
        }
    }

    /// Execute `lui`: the immediate, already shifted, lands in rd.
    pub fn exec_lui(&mut self, d: crate::inst::Decode)
        requires
            old(self).wf(),
            d.wf(),
        ensures
            final(self).wf(),
            *final(self) == (RISCV64CpuState { regs: final(self).regs, ..*old(self) }),
            final(self).regs@ == old(self).regs@.update(spec_rd_slot(d.rd), d.imm),
    {
        self.regs.write(d.rd, d.imm);
    }

    /// Execute `auipc`: `pc + imm` lands in rd.
    pub fn exec_auipc(&mut self, d: crate::inst::Decode)
        requires
            old(self).wf(),
            d.wf(),
        ensures
            final(self).wf(),
            *final(self) == (RISCV64CpuState { regs: final(self).regs, ..*old(self) }),
            final(self).regs@ == old(self).regs@.update(
                spec_rd_slot(d.rd),
                crate::wrap_add64(old(self).pc.0, d.imm),
            ),
    {
        let v = self.pc.value().wrapping_add(d.imm);
        self.regs.write(d.rd, v);
    }

    /// Execute `jal`: link `pc + 4`, jump to `pc + imm`; calls through
    /// `ra` push the return address on the shadow stack.
    pub fn exec_jal(&mut self, d: crate::inst::Decode)
        requires
            old(self).wf(),
            d.wf(),
        ensures
            final(self).wf(),
            final(self).regs@ == old(self).regs@.update(
                spec_rd_slot(d.rd),
                crate::wrap_add64(old(self).pc.0, 4),
            ),
            final(self).dyn_pc == Option::Some(VAddr(crate::wrap_add64(old(self).pc.0, d.imm))),
            final(self).backtrace@ == if d.rd == 1 {
                old(self).backtrace@.push(crate::wrap_add64(old(self).pc.0, 4))
            } else {
                old(self).backtrace@
            },
            *final(self) == (RISCV64CpuState {
                regs: final(self).regs,
                dyn_pc: final(self).dyn_pc,
                backtrace: final(self).backtrace,
                ..*old(self)
            }),
    {
        let link = self.pc.value().wrapping_add(4);
        self.regs.write(d.rd, link);
        self.dyn_pc = Option::Some(VAddr::new(self.pc.value().wrapping_add(d.imm)));
        if d.rd == 1 {
            self.backtrace.push(link);
        }
    }

    /// Execute `jalr`: jump to `(rs1 + imm) & !1`, link `pc + 4`;
    /// returns through `ra` pop the shadow stack, calls through `ra`
    /// push it.
    pub fn exec_jalr(&mut self, d: crate::inst::Decode)
        requires
            old(self).wf(),
            d.wf(),
        ensures
            final(self).wf(),
            final(self).dyn_pc == Option::Some(
                VAddr(crate::wrap_add64(old(self).spec_reg(d.rs1), d.imm) & !1u64),
            ),
            final(self).regs@ == old(self).regs@.update(
                spec_rd_slot(d.rd),
                crate::wrap_add64(old(self).pc.0, 4),
            ),
            *final(self) == (RISCV64CpuState {
                regs: final(self).regs,
                dyn_pc: final(self).dyn_pc,
                backtrace: final(self).backtrace,
                ..*old(self)
            }),
    {
        let target = self.regs.read(d.rs1).wrapping_add(d.imm) & !1u64;
        self.dyn_pc = Option::Some(VAddr::new(target));
        let link = self.pc.value().wrapping_add(4);
        self.regs.write(d.rd, link);
        if d.rs1 == 1 && d.rd == 32 {
            if self.backtrace.len() > 0 {
                self.backtrace.pop();
            }
        }
        if d.rd == 1 {
            self.backtrace.push(link);
        }
    }
}

} // verus!

verus! {

impl RISCV64CpuState {
    /// Execute a load: `rd` takes the memory value at `rs1 + imm`,
    /// sign- or zero-extended; a failed access traps with the faulting
    /// address as `tval`.
    pub fn exec_load(
        &mut self,
        size: crate::mem::MemOperationSize,
        signed: bool,
        d: crate::inst::Decode,
    )
        requires
            old(self).wf(),
            d.wf(),
            signed ==> size != crate::mem::MemOperationSize::QWORD,
        ensures
            final(self).wf(),
            final(self).regs@[0] == 0,
            final(self).pc == old(self).pc,
            spec_load_step(*old(self), *final(self), size, signed, d),
    {
        proof {
            reveal(spec_load_step);
        }
        let addr = self.regs.read(d.rs1).wrapping_add(d.imm);
        let res = self.memory.read(&VAddr::new(addr), size);
        let ghost mr = res;
        let ghost midm = self.memory;
        proof {
            assert(crate::vaddr::spec_mmu_read_post(
                old(self).memory,
                midm,
                crate::wrap_add64(old(self).spec_reg(d.rs1), d.imm),
                size.spec_bytes(),
                mr,
            ));
        }
        match res {
            Result::Ok(v) => {
                let val = if signed {
                    crate::sign_extend64(v, (8 * size.bytes()) as usize)
                } else {
                    v
                };
                self.regs.write(d.rd, val);
            },
            Result::Err(c) => {
                proof {
                    assert(c.spec_code() < 64);
                }
                self.trap(c, Option::Some(addr));
            },
        }
    }

    /// Execute a store: the low bytes of `rs2` go to `rs1 + imm`; the
    /// store-conditional form also clears `rd` on its unconditional
    /// success. A failed access traps with the address as `tval`.
    pub fn exec_store(
        &mut self,
        size: crate::mem::MemOperationSize,
        clear_rd: bool,
        d: crate::inst::Decode,
    )
        requires
            old(self).wf(),
            d.wf(),
        ensures
            final(self).wf(),
            final(self).regs@[0] == 0,
            final(self).pc == old(self).pc,
            spec_store_step(*old(self), *final(self), size, clear_rd, d),
    {
        proof {
            reveal(spec_store_step);
        }
        let addr = self.regs.read(d.rs1).wrapping_add(d.imm);
        let data = self.regs.read(d.rs2);
        let res = self.memory.write(&VAddr::new(addr), data, size);
        let ghost wr = res;
        let ghost midm = self.memory;
        proof {
            assert(crate::vaddr::spec_mmu_write_post(
                old(self).memory,
                midm,
                crate::wrap_add64(old(self).spec_reg(d.rs1), d.imm),
                old(self).spec_reg(d.rs2),
                size.spec_bytes(),
                wr,
            ));
        }
        match res {
            Result::Ok(()) => {
                if clear_rd {
                    self.regs.write(d.rd, 0);
                }
            },
            Result::Err(c) => {
                proof {
                    assert(c.spec_code() < 64);
                }
                self.trap(c, Option::Some(addr));
            },
        }
    }

    /// The value an AMO writes back: `op` combined over the old memory
    /// word and rs2 (`swap` ignores the old word); the `.w` forms
    /// truncate rs2 to 32 bits first.
    pub open spec fn spec_amo_result(
        op: crate::inst::AmoOp,
        size: crate::mem::MemOperationSize,
        t: u64,
        rs2v: u64,
    ) -> u64 {
        let src2 = if size == crate::mem::MemOperationSize::DWORD {
            rs2v & 0xffffffffu64
        } else {
            rs2v
        };
        match op {
            crate::inst::AmoOp::Swap => src2,
            crate::inst::AmoOp::Add => crate::wrap_add64(t, src2),
            crate::inst::AmoOp::Or => t | src2,
            crate::inst::AmoOp::And => t & src2,
        }
    }

    /// Execute an atomic memory operation: read the word at `rs1`,
    /// write back `op(word, rs2)`, give `rd` the old word (the `.w`
    /// forms sign-extend it). A misaligned address traps before any
    /// memory access; a failed access traps with the address as `tval`.
    pub fn exec_amo(
        &mut self,
        op: crate::inst::AmoOp,
        size: crate::mem::MemOperationSize,
        d: crate::inst::Decode,
    )
        requires
            old(self).wf(),
            d.wf(),
            size == crate::mem::MemOperationSize::DWORD || size
                == crate::mem::MemOperationSize::QWORD,
        ensures
            final(self).wf(),
            final(self).regs@[0] == 0,
            final(self).pc == old(self).pc,
            spec_amo_step(*old(self), *final(self), op, size, d),
    {
        proof {
            reveal(spec_amo_step);
        }
        let addr = self.regs.read(d.rs1);
        let n = size.bytes();
        if addr % n != 0 {
            self.trap(MCauseCode::StoreAMOMisaligned, Option::Some(addr));
            return ;
        }
        let res = self.memory.read(&VAddr::new(addr), size);
        let ghost mr = res;
        let ghost midm = self.memory;
        proof {
            assert(crate::vaddr::spec_mmu_read_post(
                old(self).memory,
                midm,
                old(self).spec_reg(d.rs1),
                size.spec_bytes(),
                mr,
            ));
        }
        match res {
            Result::Err(c) => {
                proof {
                    assert(c.spec_code() < 64);
                }
                self.trap(c, Option::Some(addr));
            },
            Result::Ok(t) => {
                let src2 = if n == 4 {
                    self.regs.read(d.rs2) & 0xffffffff
                } else {
                    self.regs.read(d.rs2)
                };
                let newval = match op {
                    crate::inst::AmoOp::Swap => src2,
                    crate::inst::AmoOp::Add => t.wrapping_add(src2),
                    crate::inst::AmoOp::Or => t | src2,
                    crate::inst::AmoOp::And => t & src2,
                };
                let wres = self.memory.write(&VAddr::new(addr), newval, size);
                let ghost wr = wres;
                let ghost midm2 = self.memory;
                proof {
                    assert(newval == RISCV64CpuState::spec_amo_result(
                        op,
                        size,
                        t,
                        old(self).spec_reg(d.rs2),
                    ));
                    assert(crate::vaddr::spec_mmu_write_post(
                        midm,
                        midm2,
                        old(self).spec_reg(d.rs1),
                        RISCV64CpuState::spec_amo_result(op, size, t, old(self).spec_reg(d.rs2)),
                        size.spec_bytes(),
                        wr,
                    ));
                }
                match wres {
                    Result::Err(_) => {
                        self.trap(MCauseCode::StoreAMOAccessFault, Option::Some(addr));
                    },
                    Result::Ok(()) => {
                        let rdval = if n == 4 {
                            crate::inst::sign_ext_32to64(t)
                        } else {
                            t
                        };
                        self.regs.write(d.rd, rdval);
                    },
                }
            },
        }
    }
}

} // verus!

verus! {

impl RISCV64CpuState {
    /// Execute a Zicsr access. The privilege field of the CSR number is
    /// checked first; an unknown CSR, a read of an unimplemented one, or
    /// a write to a read-only one raises IllegalInstruction with the raw
    /// instruction as `tval`. Otherwise `rd` receives the old value, the
    /// masked write applies, and the write hook runs.
    pub fn exec_csr(&mut self, op: crate::inst::CsrOp, imm_form: bool, d: crate::inst::Decode)
        requires
            old(self).wf(),
            d.wf(),
            d.imm < 4096,
        ensures
            final(self).wf(),
            final(self).regs@[0] == 0,
            final(self).pc == old(self).pc,
            spec_csr_step(*old(self), *final(self), op, imm_form, d),
    {
        proof {
            reveal(spec_csr_step);
        }
        if !CSRs::check_privilege(d.imm, self.privilege) {
            self.trap(MCauseCode::IllegalInst, Option::Some(d.inst));
            return ;
        }
        let src: u64 = if imm_form {
            d.rs1
        } else {
            self.regs.read(d.rs1)
        };
        let rs1_is_x0: bool = if imm_form {
            false
        } else {
            d.rs1 == 0
        };
        let res = match op {
            crate::inst::CsrOp::Rw => self.csrs.set(d.imm, src, rs1_is_x0),
            crate::inst::CsrOp::Rs => self.csrs.or(d.imm, src, rs1_is_x0),
            crate::inst::CsrOp::Rc => self.csrs.clear_bits(d.imm, src, rs1_is_x0),
        };
        let ghost resg = res;
        let ghost mid = *self;
        proof {
            assert(spec_csr_access(*old(self), mid, op, imm_form, d, resg));
        }
        match res {
            Result::Err(()) => {
                self.trap(MCauseCode::IllegalInst, Option::Some(d.inst));
            },
            Result::Ok(opres) => {
                opres.call_hook(self);
                self.regs.write(d.rd, opres.old);
            },
        }
    }
}

/// One Zicsr register access against the CSR file alone (before the
/// hook): the source is rs1's value, or the rs1 field itself in the
/// immediate forms; `csrrs`/`csrrc` with rs1 = x0 skip the write.
pub open spec fn spec_csr_access(
    pre: RISCV64CpuState,
    post: RISCV64CpuState,
    op: crate::inst::CsrOp,
    imm_form: bool,
    d: crate::inst::Decode,
    res: Result<crate::csr::CSROpResult, ()>,
) -> bool {
    let src: u64 = if imm_form {
        d.rs1
    } else {
        pre.regs@[d.rs1 as int]
    };
    let rs1_is_x0: bool = if imm_form {
        false
    } else {
        d.rs1 == 0
    };
    &&& post == (RISCV64CpuState { csrs: post.csrs, ..pre })
    &&& post.csrs.time == pre.csrs.time
    &&& post.csrs.cycles == pre.csrs.cycles
    &&& match res {
        Result::Err(()) => post.csrs@ == pre.csrs@,
        Result::Ok(opres) => {
            &&& opres.old == pre.csrs.spec_read(d.imm)
            &&& opres.hook == crate::csr::spec_csr_hook(d.imm)
            &&& opres.new == match op {
                crate::inst::CsrOp::Rw => spec_masked_write(opres.old, src, spec_csr_mask(d.imm)),
                crate::inst::CsrOp::Rs => opres.old | (src & spec_csr_mask(d.imm)),
                crate::inst::CsrOp::Rc => opres.old & !(src & spec_csr_mask(d.imm)),
            }
            &&& (crate::csr::spec_is_counter(d.imm) ==> post.csrs@ == pre.csrs@)
            &&& (!crate::csr::spec_is_counter(d.imm) ==> post.csrs@ == pre.csrs@.update(
                d.imm as int,
                opres.new,
            ))
        },
    }
}


/// What a load does to the hart: translate-and-read at `rs1 + imm`,
/// extend into `rd`, or trap with the access address as `tval`.
#[verifier::opaque]
pub open spec fn spec_load_step(
    pre: RISCV64CpuState,
    post: RISCV64CpuState,
    size: crate::mem::MemOperationSize,
    signed: bool,
    d: crate::inst::Decode,
) -> bool {
    exists|mr: Result<u64, MCauseCode>, midm: crate::vaddr::MMU|
        {
            &&& #[trigger] crate::vaddr::spec_mmu_read_post(
                pre.memory,
                midm,
                crate::wrap_add64(pre.spec_reg(d.rs1), d.imm),
                size.spec_bytes(),
                mr,
            )
            &&& match mr {
                Result::Ok(v) => {
                    &&& post.memory == midm
                    &&& post == (RISCV64CpuState {
                        regs: post.regs,
                        memory: post.memory,
                        ..pre
                    })
                    &&& post.regs@ == pre.regs@.update(
                        spec_rd_slot(d.rd),
                        if signed {
                            crate::spec_sign_extend64(v, (8 * size.spec_bytes()) as u64)
                        } else {
                            v
                        },
                    )
                },
                Result::Err(c) => spec_trap_post(
                    RISCV64CpuState { memory: midm, ..pre },
                    post,
                    c,
                    Option::Some(crate::wrap_add64(pre.spec_reg(d.rs1), d.imm)),
                ),
            }
        }
}

/// What a store does to the hart: translate-and-write `rs2` at
/// `rs1 + imm` (the store-conditional form also clears `rd`), or trap
/// with the access address as `tval`.
#[verifier::opaque]
pub open spec fn spec_store_step(
    pre: RISCV64CpuState,
    post: RISCV64CpuState,
    size: crate::mem::MemOperationSize,
    clear_rd: bool,
    d: crate::inst::Decode,
) -> bool {
    exists|wr: Result<(), MCauseCode>, midm: crate::vaddr::MMU|
        {
            &&& #[trigger] crate::vaddr::spec_mmu_write_post(
                pre.memory,
                midm,
                crate::wrap_add64(pre.spec_reg(d.rs1), d.imm),
                pre.spec_reg(d.rs2),
                size.spec_bytes(),
                wr,
            )
            &&& match wr {
                Result::Ok(()) => {
                    &&& post.memory == midm
                    &&& post == (RISCV64CpuState {
                        regs: post.regs,
                        memory: post.memory,
                        ..pre
                    })
                    &&& post.regs@ == if clear_rd {
                        pre.regs@.update(spec_rd_slot(d.rd), 0u64)
                    } else {
                        pre.regs@
                    }
                },
                Result::Err(c) => spec_trap_post(
                    RISCV64CpuState { memory: midm, ..pre },
                    post,
                    c,
                    Option::Some(crate::wrap_add64(pre.spec_reg(d.rs1), d.imm)),
                ),
            }
        }
}

/// What an atomic memory operation does to the hart: a misaligned
/// address traps before any memory access; otherwise the word at `rs1`
/// is read, `op(word, rs2)` is written back, and `rd` takes the old
/// word.
#[verifier::opaque]
pub open spec fn spec_amo_step(
    pre: RISCV64CpuState,
    post: RISCV64CpuState,
    op: crate::inst::AmoOp,
    size: crate::mem::MemOperationSize,
    d: crate::inst::Decode,
) -> bool {
    &&& (pre.spec_reg(d.rs1) % size.spec_bytes() != 0 ==> spec_trap_post(
        pre,
        post,
        MCauseCode::StoreAMOMisaligned,
        Option::Some(pre.spec_reg(d.rs1)),
    ))
    &&& (pre.spec_reg(d.rs1) % size.spec_bytes() == 0 ==> exists|
        mr: Result<u64, MCauseCode>,
        midm: crate::vaddr::MMU,
    |
        {
            &&& #[trigger] crate::vaddr::spec_mmu_read_post(
                pre.memory,
                midm,
                pre.spec_reg(d.rs1),
                size.spec_bytes(),
                mr,
            )
            &&& match mr {
                Result::Err(c) => spec_trap_post(
                    RISCV64CpuState { memory: midm, ..pre },
                    post,
                    c,
                    Option::Some(pre.spec_reg(d.rs1)),
                ),
                Result::Ok(t) => exists|wr: Result<(), MCauseCode>, midm2: crate::vaddr::MMU|
                    {
                        &&& #[trigger] crate::vaddr::spec_mmu_write_post(
                            midm,
                            midm2,
                            pre.spec_reg(d.rs1),
                            RISCV64CpuState::spec_amo_result(op, size, t, pre.spec_reg(d.rs2)),
                            size.spec_bytes(),
                            wr,
                        )
                        &&& match wr {
                            Result::Ok(()) => {
                                &&& post.memory == midm2
                                &&& post == (RISCV64CpuState {
                                    regs: post.regs,
                                    memory: post.memory,
                                    ..pre
                                })
                                &&& post.regs@ == pre.regs@.update(
                                    spec_rd_slot(d.rd),
                                    if size == crate::mem::MemOperationSize::DWORD {
                                        crate::inst::spec_sext32(t)
                                    } else {
                                        t
                                    },
                                )
                            },
                            Result::Err(_) => spec_trap_post(
                                RISCV64CpuState { memory: midm2, ..pre },
                                post,
                                MCauseCode::StoreAMOAccessFault,
                                Option::Some(pre.spec_reg(d.rs1)),
                            ),
                        }
                    },
            }
        })
}

/// What a Zicsr access does to the hart: an access the privilege field
/// refuses, or one the CSR file refuses, traps as IllegalInstruction
/// with the raw instruction as `tval`; otherwise the masked write
/// applies, the write hook runs and `rd` takes the old value.
#[verifier::opaque]
pub open spec fn spec_csr_step(
    pre: RISCV64CpuState,
    post: RISCV64CpuState,
    op: crate::inst::CsrOp,
    imm_form: bool,
    d: crate::inst::Decode,
) -> bool {
    &&& (!CSRs::spec_check_privilege(d.imm, pre.privilege) ==> spec_trap_post(
        pre,
        post,
        MCauseCode::IllegalInst,
        Option::Some(d.inst),
    ))
    &&& (CSRs::spec_check_privilege(d.imm, pre.privilege) ==> exists|
        res: Result<crate::csr::CSROpResult, ()>,
        mid: RISCV64CpuState,
    |
        {
            &&& #[trigger] spec_csr_access(pre, mid, op, imm_form, d, res)
            &&& match res {
                Result::Err(()) => spec_trap_post(
                    mid,
                    post,
                    MCauseCode::IllegalInst,
                    Option::Some(d.inst),
                ),
                Result::Ok(opres) => {
                    &&& spec_hook_post(opres, mid, RISCV64CpuState { regs: mid.regs, ..post })
                    &&& post.regs@ == mid.regs@.update(spec_rd_slot(d.rd), opres.old)
                },
            }
        })
}

/// Everything one instruction does to the hart, by semantic class: the
/// register file, memory, CSRs, privilege and the pending control
/// transfer after executing `op` with operands `d` (the PC itself moves
/// in the step function, not here).
pub open spec fn spec_exec_post(
    op: crate::inst::InstOp,
    d: crate::inst::Decode,
    pre: RISCV64CpuState,
    post: RISCV64CpuState,
) -> bool {
    match op {
        crate::inst::InstOp::Load { size, signed } => spec_load_step(
            pre,
            post,
            size,
            if size == crate::mem::MemOperationSize::QWORD {
                false
            } else {
                signed
            },
            d,
        ),
        crate::inst::InstOp::Store { size, clear_rd } => spec_store_step(
            pre,
            post,
            size,
            clear_rd,
            d,
        ),
        crate::inst::InstOp::Lui => post == (RISCV64CpuState { regs: post.regs, ..pre })
            && post.regs@ == pre.regs@.update(spec_rd_slot(d.rd), d.imm),
        crate::inst::InstOp::Auipc => post == (RISCV64CpuState { regs: post.regs, ..pre })
            && post.regs@ == pre.regs@.update(
            spec_rd_slot(d.rd),
            crate::wrap_add64(pre.pc.0, d.imm),
        ),
        crate::inst::InstOp::AluR { op } => post == (RISCV64CpuState { regs: post.regs, ..pre })
            && post.regs@ == pre.regs@.update(
            spec_rd_slot(d.rd),
            crate::inst::spec_alu64(op, pre.spec_reg(d.rs1), pre.spec_reg(d.rs2)),
        ),
        crate::inst::InstOp::AluI { op } => post == (RISCV64CpuState { regs: post.regs, ..pre })
            && post.regs@ == pre.regs@.update(
            spec_rd_slot(d.rd),
            crate::inst::spec_alu64(op, pre.spec_reg(d.rs1), d.imm),
        ),
        crate::inst::InstOp::AluRW { op } => post == (RISCV64CpuState { regs: post.regs, ..pre })
            && post.regs@ == pre.regs@.update(
            spec_rd_slot(d.rd),
            crate::inst::spec_alu32(op, pre.spec_reg(d.rs1), pre.spec_reg(d.rs2)),
        ),
        crate::inst::InstOp::AluIW { op } => post == (RISCV64CpuState { regs: post.regs, ..pre })
            && post.regs@ == pre.regs@.update(
            spec_rd_slot(d.rd),
            crate::inst::spec_alu32(op, pre.spec_reg(d.rs1), d.imm),
        ),
        crate::inst::InstOp::Branch { cond } => post == (RISCV64CpuState {
            dyn_pc: post.dyn_pc,
            ..pre
        }) && post.dyn_pc == (if RISCV64CpuState::spec_branch_taken(
            cond,
            pre.spec_reg(d.rs1),
            pre.spec_reg(d.rs2),
        ) {
            Option::Some(VAddr(crate::wrap_add64(pre.pc.0, d.imm)))
        } else {
            pre.dyn_pc
        }),
        crate::inst::InstOp::Jal => {
            &&& post.regs@ == pre.regs@.update(spec_rd_slot(d.rd), crate::wrap_add64(pre.pc.0, 4))
            &&& post.dyn_pc == Option::Some(VAddr(crate::wrap_add64(pre.pc.0, d.imm)))
            &&& post.backtrace@ == (if d.rd == 1 {
                pre.backtrace@.push(crate::wrap_add64(pre.pc.0, 4))
            } else {
                pre.backtrace@
            })
            &&& post == (RISCV64CpuState {
                regs: post.regs,
                dyn_pc: post.dyn_pc,
                backtrace: post.backtrace,
                ..pre
            })
        },
        crate::inst::InstOp::Jalr => {
            &&& post.dyn_pc == Option::Some(
                VAddr(crate::wrap_add64(pre.spec_reg(d.rs1), d.imm) & !1u64),
            )
            &&& post.regs@ == pre.regs@.update(spec_rd_slot(d.rd), crate::wrap_add64(pre.pc.0, 4))
            &&& post == (RISCV64CpuState {
                regs: post.regs,
                dyn_pc: post.dyn_pc,
                backtrace: post.backtrace,
                ..pre
            })
        },
        crate::inst::InstOp::Csr { op, imm_form } => spec_csr_step(pre, post, op, imm_form, d),
        crate::inst::InstOp::Amo { op, size } => spec_amo_step(
            pre,
            post,
            op,
            if size == crate::mem::MemOperationSize::QWORD {
                crate::mem::MemOperationSize::QWORD
            } else {
                crate::mem::MemOperationSize::DWORD
            },
            d,
        ),
        crate::inst::InstOp::Ecall => spec_trap_post(
            pre,
            post,
            match pre.privilege {
                RISCV64Privilege::M => MCauseCode::ECallM,
                RISCV64Privilege::S => MCauseCode::ECallS,
                RISCV64Privilege::U => MCauseCode::ECallU,
            },
            Option::None,
        ),
        crate::inst::InstOp::Ebreak => spec_trap_post(
            pre,
            post,
            MCauseCode::Breakpoint,
            Option::None,
        ),
        crate::inst::InstOp::Sret => spec_ret_post(pre, post, RISCV64Privilege::S),
        crate::inst::InstOp::Mret => spec_ret_post(pre, post, RISCV64Privilege::M),
        crate::inst::InstOp::Fence => post == pre,
        crate::inst::InstOp::FenceI => post == pre,
        crate::inst::InstOp::SfenceVma => {
            &&& post == (RISCV64CpuState { memory: post.memory, ..pre })
            &&& post.memory.mem == pre.memory.mem
            &&& post.memory.translation_ctrl == pre.memory.translation_ctrl
            &&& (forall|i: int| 0 <= i < 2048 ==> (#[trigger] post.memory.tlb@[i]).pte == 0)
        },
        crate::inst::InstOp::Wfi => post == (RISCV64CpuState {
            wfi: true,
            interrupt_cond_dirty: true,
            ..pre
        }),
    }
}

/// What the dispatcher guarantees of one executed pattern: a CSR operand
/// outside the 12-bit space is an illegal instruction; everything else
/// follows the class semantics of `spec_exec_post`.
pub open spec fn spec_dispatch_exec_post(
    pat: crate::inst::Pattern,
    d: crate::inst::Decode,
    pre: RISCV64CpuState,
    post: RISCV64CpuState,
) -> bool {
    if (pat.op matches crate::inst::InstOp::Csr { op: _, imm_form: _ }) && d.imm >= 4096 {
        spec_trap_post(pre, post, MCauseCode::IllegalInst, Option::Some(d.inst))
    } else {
        spec_exec_post(pat.op, d, pre, post)
    }
}

impl RISCV64CpuState {
    /// Execute one decoded instruction: dispatch on its semantic class;
    /// the class semantics are `spec_exec_post`.
    #[verifier::rlimit(100)]
    #[verifier::spinoff_prover]
    pub fn exec_op(&mut self, op: crate::inst::InstOp, d: crate::inst::Decode)
        requires
            old(self).wf(),
            d.wf(),
            d.imm < 4096 || !(op matches crate::inst::InstOp::Csr { op: _, imm_form: _ }),
        ensures
            final(self).wf(),
            final(self).regs@[0] == 0,
            final(self).pc == old(self).pc,
            spec_exec_post(op, d, *old(self), *final(self)),
    {
        proof {
            assert(old(self).regs@[0] == 0);
        }
        match op {
            crate::inst::InstOp::Load { size, signed } => {
                let ok_signed = match size {
                    crate::mem::MemOperationSize::QWORD => false,
                    _ => signed,
                };
                self.exec_load(size, ok_signed, d);
            },
            crate::inst::InstOp::Store { size, clear_rd } => {
                self.exec_store(size, clear_rd, d);
            },
            crate::inst::InstOp::Lui => {
                self.exec_lui(d);
            },
            crate::inst::InstOp::Auipc => {
                self.exec_auipc(d);
            },
            crate::inst::InstOp::AluR { op } => {
                self.exec_alu_r(op, d);
            },
            crate::inst::InstOp::AluI { op } => {
                self.exec_alu_i(op, d);
            },
            crate::inst::InstOp::AluRW { op } => {
                self.exec_alu_rw(op, d);
            },
            crate::inst::InstOp::AluIW { op } => {
                self.exec_alu_iw(op, d);
            },
            crate::inst::InstOp::Branch { cond } => {
                self.exec_branch(cond, d);
            },
            crate::inst::InstOp::Jal => {
                self.exec_jal(d);
            },
            crate::inst::InstOp::Jalr => {
                self.exec_jalr(d);
            },
            crate::inst::InstOp::Csr { op: csr_op, imm_form } => {
                self.exec_csr(csr_op, imm_form, d);
            },
            crate::inst::InstOp::Amo { op: amo_op, size } => {
                let ok_size = match size {
                    crate::mem::MemOperationSize::QWORD => crate::mem::MemOperationSize::QWORD,
                    _ => crate::mem::MemOperationSize::DWORD,
                };
                self.exec_amo(amo_op, ok_size, d);
            },
            crate::inst::InstOp::Ecall => {
                let cause = match self.privilege {
                    RISCV64Privilege::M => MCauseCode::ECallM,
                    RISCV64Privilege::S => MCauseCode::ECallS,
                    RISCV64Privilege::U => MCauseCode::ECallU,
                };
                self.trap(cause, Option::None);
            },
            crate::inst::InstOp::Ebreak => {
                self.trap(MCauseCode::Breakpoint, Option::None);
            },
            crate::inst::InstOp::Sret => {
                self.ret(RISCV64Privilege::S);
            },
            crate::inst::InstOp::Mret => {
                self.ret(RISCV64Privilege::M);
            },
            crate::inst::InstOp::Fence => {
            },
            crate::inst::InstOp::FenceI => {
            },
            crate::inst::InstOp::SfenceVma => {
                self.memory.sfence_vma();
            },
            crate::inst::InstOp::Wfi => {
                self.wfi = true;
                self.set_interrupt_cond_dirty();
            },
        }
    }
}

} // verus!

verus! {

impl crate::inst::Pattern {
    /// Run this pattern's semantics on the decoded operands; what it
    /// does, class by class, is `spec_exec_post`.
    pub fn exec(&self, decode: &crate::inst::Decode, state: &mut RISCV64CpuState)
        requires
            old(state).wf(),
            decode.wf(),
            decode.imm < 4096 || !(self.op matches crate::inst::InstOp::Csr { op: _, imm_form: _ }),
        ensures
            final(state).wf(),
            final(state).regs@[0] == 0,
            final(state).pc == old(state).pc,
            spec_exec_post(self.op, *decode, *old(state), *final(state)),
    {
        state.exec_op(self.op, *decode);
    }
}

/// The hart and its fetch-side machinery: the decoded-instruction cache
/// and the dispatch table.
pub struct RISCV64 {
    pub state: RISCV64CpuState,
    pub ibuf: crate::ibuf::SetAssociativeIBuf,
    pub patterns: Vec<crate::inst::Pattern>,
    /// Stop the loop when a breakpoint trap has been taken.
    pub stop_at_ebreak: bool,
    /// Host-side stop request.
    pub stopped: bool,
}

impl RISCV64 {
    /// Well-formed hart state and caches, and the dispatch table is the
    /// architectural one, row for row.
    pub open spec fn wf(self) -> bool {
        &&& self.state.wf()
        &&& self.ibuf.wf()
        &&& self.patterns@.len() == 87
        &&& forall|i: int|
            0 <= i < 87 ==> #[trigger] self.patterns@[i] == crate::inst::spec_pattern_at(i)
    }

    /// A hart over `memory`, with the PC at the reset vector: the
    /// registers zero, the CSR file at reset, the caches empty.
    pub fn new(memory: Memory, reset_vector: &PAddr, ignore_isa_breakpoint: bool) -> (r: RISCV64)
        requires
            memory.wf(),
        ensures
            r.wf(),
            r.state.pc.0 == reset_vector.0,
            r.state.privilege == RISCV64Privilege::M,
            !r.stopped,
            r.stop_at_ebreak == !ignore_isa_breakpoint,
            !r.state.stopping,
            !r.state.wfi,
            forall|i: int| 0 <= i < 33 ==> r.state.regs@[i] == 0,
            forall|i: u64| i < 4096 ==> r.state.csrs.spec_read(i) == crate::csr::spec_csr_reset(i),
            r.state.csrs.time == 0,
            r.state.csrs.cycles == 0,
            r.state.dyn_pc is None,
            r.state.memory.mem == memory,
            r.state.memory.translation_ctrl == crate::vaddr::TranslationCtrl::spec_reset(),
            forall|i: int| 0 <= i < 2048 ==> (#[trigger] r.state.memory.tlb@[i]).pte == 0,
            forall|i: int| 0 <= i < crate::ibuf::IBUF_ROWS ==> !(#[trigger] r.ibuf.entries@[i]).valid,
    {
        RISCV64 {
            state: RISCV64CpuState::new(memory, reset_vector),
            ibuf: crate::ibuf::SetAssociativeIBuf::new(),
            patterns: crate::inst::patterns(),
            stop_at_ebreak: !ignore_isa_breakpoint,
            stopped: false,
        }
    }

    /// The current program counter.
    pub fn isa_get_pc(&self) -> (r: u64)
        ensures
            r == self.state.pc.0,
    {
        self.state.pc.value()
    }

    /// The guest's exit code: the low byte of a0.
    pub fn isa_get_exit_code(&self) -> (r: u8)
        requires
            self.wf(),
        ensures
            r == self.state.regs@[10] & 0xff,
    {
        let a0 = self.state.regs.read(10);
        proof {
            let v = a0;
            assert(v & 0xff < 256) by (bit_vector);
        }
        (a0 & 0xff) as u8
    }

    /// The shadow-stack walk-back.
    pub fn isa_get_backtrace(&self) -> String {
        self.state.get_backtrace_string()
    }

    /// Read guest memory at a virtual address, as the debugger would.
    pub fn read_vaddr(&mut self, addr: &VAddr, len: crate::mem::MemOperationSize) -> (r: Result<
        u64,
        MCauseCode,
    >)
        requires
            old(self).wf(),
        ensures
            final(self).wf(),
            crate::vaddr::spec_mmu_read_post(
                old(self).state.memory,
                final(self).state.memory,
                addr.0,
                len.spec_bytes(),
                r,
            ),
            *final(self) == (RISCV64 {
                state: RISCV64CpuState { memory: final(self).state.memory, ..old(self).state },
                ..*old(self)
            }),
    {
        self.state.memory.read(addr, len)
    }

    /// Ask the hart to stop at the next instruction boundary.
    pub fn stop(&mut self)
        ensures
            *final(self) == (RISCV64 { stopped: true, ..*old(self) }),
    {
        self.stopped = true;
    }

    /// Execute one instruction: fetch (through the decoded-instruction
    /// cache), dispatch, apply the next PC, then poll the interrupt
    /// input once. Returns false when the hart halts: a stop request, a
    /// riscv-test exit, an unrecognised encoding, the canonical
    /// jump-to-self dead loop, or (when enabled) a breakpoint trap.
    #[verifier::rlimit(100)]
    #[verifier::spinoff_prover]
    pub fn isa_exec_once(&mut self) -> (r: bool)
        requires
            old(self).wf(),
        ensures
            final(self).wf(),
            final(self).state.regs@[0] == 0,
            spec_step_post(*old(self), *final(self), r),
    {
        if self.state.stopping || self.stopped {
            return false;
        }
        proof {
            assert(self.state.regs@[0] == 0);
        }
        let pc = self.state.pc;
        let fetched = self.state.memory.ifetch(&pc, crate::mem::MemOperationSize::DWORD);
        let ghost midm = self.state.memory;
        let ghost frg: Result<(u64, u64), MCauseCode> = match fetched {
            Result::Ok((x, p)) => Result::Ok((x, p.0)),
            Result::Err(e) => Result::Err(e),
        };
        proof {
            assert(crate::vaddr::spec_mmu_fetch_post(
                old(self).state.memory,
                midm,
                old(self).state.pc.0,
                4,
                frg,
            ));
            assert(self.state == (RISCV64CpuState { memory: midm, ..old(self).state }));
        }
        match fetched {
            Result::Err(err) => {
                let code_ok = match err {
                    MCauseCode::InstAccessFault => true,
                    MCauseCode::InstPageFault => true,
                    _ => false,
                };
                if code_ok {
                    self.state.trap(err, Option::Some(pc.value()));
                    let ghost s0 = self.state;
                    proof {
                        assert(spec_trap_post(
                            RISCV64CpuState { memory: midm, ..old(self).state },
                            s0,
                            err,
                            Option::Some(old(self).state.pc.0),
                        ));
                    }
                    let rr = self.step_tail();
                    return rr;
                }
                let rr = self.step_tail();
                rr
            },
            Result::Ok((inst, pc_paddr)) => {
                if inst == 0xff1ff06f && pc_paddr.0 == 0x80000050 {
                    // The riscv-test write-to-host failure idiom.
                    return false;
                }
                let hit = self.ibuf.get(pc_paddr.0, inst);
                match hit {
                    Option::Some((pidx, dec)) => {
                        let pat = self.patterns[pidx];
                        pat.exec_checked(&dec, &mut self.state);
                        let ghost s0 = self.state;
                        proof {
                            assert(spec_dispatch_exec_post(
                                old(self).patterns@[
                                    old(self).ibuf.entries@[
                                        crate::ibuf::SetAssociativeIBuf::spec_entry_idx(pc_paddr.0)
                                    ].pat_idx as int
                                ],
                                old(self).ibuf.entries@[
                                    crate::ibuf::SetAssociativeIBuf::spec_entry_idx(pc_paddr.0)
                                ].decode,
                                RISCV64CpuState { memory: midm, ..old(self).state },
                                s0,
                            ));
                        }
                        let rr = self.step_tail();
                        rr
                    },
                    Option::None => {
                        if inst == 0x0000006f {
                            // A jump-to-self dead loop: halt with failure.
                            self.state.regs.write(10, 1);
                            return false;
                        }
                        match self.find_pattern(inst) {
                            Option::None => {
                                // Unrecognised encoding: halt with failure.
                                self.state.regs.write(10, 1);
                                false
                            },
                            Option::Some(fidx) => {
                                let pat = self.patterns[fidx];
                                let dec = pat.decode(&inst);
                                self.ibuf.set(pc_paddr.0, inst, fidx, dec);
                                pat.exec_checked(&dec, &mut self.state);
                                let ghost s0 = self.state;
                                proof {
                                    assert(spec_dispatch_exec_post(
                                        old(self).patterns@[fidx as int],
                                        crate::inst::spec_decode(
                                            old(self).patterns@[fidx as int].inst_type,
                                            inst,
                                        ),
                                        RISCV64CpuState { memory: midm, ..old(self).state },
                                        s0,
                                    ));
                                }
                                let rr = self.step_tail();
                                rr
                            },
                        }
                    },
                }
            },
        }
    }

    /// The back half of one step: apply the pending control transfer,
    /// count the retired instruction, honour the breakpoint stop, poll
    /// the interrupt input once and apply its control transfer.
    fn step_tail(&mut self) -> (r: bool)
        requires
            old(self).wf(),
        ensures
            final(self).wf(),
            final(self).state.regs@[0] == 0,
            final(self).ibuf == old(self).ibuf,
            final(self).patterns == old(self).patterns,
            final(self).stop_at_ebreak == old(self).stop_at_ebreak,
            final(self).stopped == old(self).stopped,
            spec_step_tail(old(self).stop_at_ebreak, old(self).state, final(self).state, r),
    {
        match self.state.dyn_pc {
            Option::Some(npc) => {
                self.state.pc = npc;
                self.state.dyn_pc = Option::None;
            },
            Option::None => {
                self.state.pc.inc(crate::mem::MemOperationSize::DWORD);
            },
        }
        proof {
            assert(self.state == spec_apply_next_pc(old(self).state));
        }
        self.state.csrs.bump_cycles();
        let ghost s2 = self.state;
        proof {
            assert(s2 == spec_bump_cycles(spec_apply_next_pc(old(self).state)));
        }
        if self.stop_at_ebreak && self.state.csrs.get(CSRName::mcause) == 3 {
            return false;
        }
        self.state.handle_interrupt();
        let ghost s3 = self.state;
        proof {
            assert(spec_interrupt_poll_post(
                spec_bump_cycles(spec_apply_next_pc(old(self).state)),
                s3,
            ));
        }
        match self.state.dyn_pc {
            Option::Some(npc) => {
                self.state.pc = npc;
                self.state.dyn_pc = Option::None;
            },
            Option::None => {
            },
        }
        proof {
            assert(self.state == spec_apply_intr_pc(s3));
        }
        true
    }

    /// Whether the hart is stalled in `wfi` with nothing pending.
    pub fn is_waiting(&self) -> (r: bool)
        ensures
            r == self.state.wfi,
    {
        self.state.wfi
    }
}

impl crate::inst::Pattern {
    /// Run the semantics after establishing what they assume of the
    /// operands; a CSR number is always in range by construction.
    fn exec_checked(&self, decode: &crate::inst::Decode, state: &mut RISCV64CpuState)
        requires
            old(state).wf(),
            decode.wf(),
        ensures
            final(state).wf(),
            final(state).regs@[0] == 0,
            final(state).pc == old(state).pc,
            spec_dispatch_exec_post(*self, *decode, *old(state), *final(state)),
    {
        let is_csr = match self.op {
            crate::inst::InstOp::Csr { op: _, imm_form: _ } => true,
            _ => false,
        };
        if is_csr && decode.imm >= 4096 {
            // A CSR number above the 12-bit space: treat the encoding as
            // illegal, as the dispatcher would for an unknown CSR.
            state.trap(MCauseCode::IllegalInst, Option::Some(decode.inst));
            return ;
        }
        self.exec(decode, state);
    }
}

/// What the engine reports about the hart.
#[derive(Clone, Copy, PartialEq, Eq, Structural, Debug)]
pub enum EmuState {
    RUNNING,
    STOP,
    END,
    ABORT,
    QUIT,
}

/// Record an engine state change. The plain core keeps no monitor state,
/// so there is nothing to store; the hook exists for the host around it.
pub fn set_emu_state(state: EmuState, pc: VAddr) -> (r: (EmuState, u64))
    ensures
        r.0 == state,
        r.1 == pc.0,
{
    (state, pc.0)
}

/// Run the hart for at most `max_steps` instructions and report how many
/// steps were attempted. Every step follows `spec_step_post`; returning
/// early means the hart halted on its last step.
pub fn engine_start(cpu: &mut RISCV64, max_steps: u64) -> (steps: u64)
    requires
        old(cpu).wf(),
    ensures
        final(cpu).wf(),
        steps <= max_steps,
        exists|trace: Seq<RISCV64>, rs: Seq<bool>|
            #![trigger trace.len(), rs.len()]
            {
                &&& trace.len() == steps + 1
                &&& rs.len() == steps
                &&& trace[0] == *old(cpu)
                &&& trace[steps as int] == *final(cpu)
                &&& (forall|k: int|
                    0 <= k < steps ==> #[trigger] spec_step_post(trace[k], trace[k + 1], rs[k]))
                &&& (forall|k: int| 0 <= k < steps - 1 ==> rs[k])
                &&& (steps < max_steps ==> steps > 0 && !rs[steps - 1])
            },
{
    let ghost mut trace: Seq<RISCV64> = seq![*old(cpu)];
    let ghost mut rs: Seq<bool> = Seq::empty();
    let mut i: u64 = 0;
    while i < max_steps
        invariant
            cpu.wf(),
            i <= max_steps,
            trace.len() == i + 1,
            rs.len() == i,
            trace[0] == *old(cpu),
            trace[i as int] == *cpu,
            forall|k: int| 0 <= k < i ==> #[trigger] spec_step_post(trace[k], trace[k + 1], rs[k]),
            forall|k: int| 0 <= k < i ==> rs[k],
        decreases max_steps - i,
    {
        let cont = cpu.isa_exec_once();
        proof {
            trace = trace.push(*cpu);
            rs = rs.push(cont);
        }
        i = i + 1;
        if !cont {
            proof {
                assert(trace.len() == i + 1 && rs.len() == i && trace[0] == *old(cpu) && trace[
                    i as int
                ] == *cpu && (forall|k: int|
                    0 <= k < i ==> #[trigger] spec_step_post(trace[k], trace[k + 1], rs[k])) && (
                forall|k: int| 0 <= k < i - 1 ==> rs[k]) && !rs[i - 1]);
            }
            return i;
        }
    }
    proof {
        assert(trace.len() == i + 1 && rs.len() == i && trace[0] == *old(cpu) && trace[i as int]
            == *cpu && (forall|k: int|
            0 <= k < i ==> #[trigger] spec_step_post(trace[k], trace[k + 1], rs[k])) && (forall|
            k: int,
        | 0 <= k < i - 1 ==> rs[k]));
    }
    i
}

} // verus!

verus! {

impl RISCV64 {
    /// Scan the dispatch table for the first pattern recognising `inst`.
    pub fn find_pattern(&self, inst: u64) -> (r: Option<usize>)
        requires
            self.wf(),
        ensures
            r == match crate::inst::spec_first_match(self.patterns@, inst) {
                Option::Some(i) => Option::<usize>::Some(i as usize),
                Option::None => Option::<usize>::None,
            },
            r matches Option::Some(i) ==> i < 87 && crate::inst::spec_first_match(
                self.patterns@,
                inst,
            ) == Option::Some(i as int),
    {
        proof {
            assert(self.patterns@.skip(0) =~= self.patterns@);
        }
        let mut i: usize = 0;
        while i < self.patterns.len()
            invariant
                self.patterns@.len() == 87,
                i <= 87,
                crate::inst::spec_first_match(self.patterns@, inst) == match crate::inst::spec_first_match(
                    self.patterns@.skip(i as int),
                    inst,
                ) {
                    Option::Some(j) => Option::Some(j + i),
                    Option::None => Option::<int>::None,
                },
            decreases self.patterns@.len() - i,
        {
            proof {
                assert(self.patterns@.skip(i as int).drop_first() =~= self.patterns@.skip(i + 1));
            }
            if self.patterns[i].match_inst(&inst) {
                proof {
                    assert(self.patterns@.skip(i as int)[0] == self.patterns@[i as int]);
                }
                return Option::Some(i);
            }
            i = i + 1;
        }
        proof {
            assert(self.patterns@.skip(87) =~= Seq::<crate::inst::Pattern>::empty());
        }
        Option::None
    }
}

/// The hart after the executed instruction's control transfer: a pending
/// `dyn_pc` is applied, otherwise the PC advances by four.
pub open spec fn spec_apply_next_pc(s: RISCV64CpuState) -> RISCV64CpuState {
    match s.dyn_pc {
        Option::Some(p) => RISCV64CpuState { pc: p, dyn_pc: Option::None, ..s },
        Option::None => RISCV64CpuState {
            pc: VAddr(crate::wrap_add64(s.pc.0, 4)),
            ..s
        },
    }
}

/// The hart after an interrupt's control transfer: a pending `dyn_pc`
/// (set by the trap entry) is applied; nothing else moves.
pub open spec fn spec_apply_intr_pc(s: RISCV64CpuState) -> RISCV64CpuState {
    match s.dyn_pc {
        Option::Some(p) => RISCV64CpuState { pc: p, dyn_pc: Option::None, ..s },
        Option::None => s,
    }
}

/// The hart with one more retired instruction counted.
pub open spec fn spec_bump_cycles(s: RISCV64CpuState) -> RISCV64CpuState {
    RISCV64CpuState {
        csrs: crate::csr::CSRs {
            cycles: crate::wrap_add64(s.csrs.cycles, 1),
            ..s.csrs
        },
        ..s
    }
}

/// The back half of one step, after the instruction has executed with
/// post-state `s0`: the next PC is applied, the retired instruction is
/// counted, a breakpoint trap stops the loop when asked, and otherwise
/// the interrupt input is polled once (its own control transfer applied
/// at once).
pub open spec fn spec_step_tail(
    stop_at_ebreak: bool,
    s0: RISCV64CpuState,
    post: RISCV64CpuState,
    r: bool,
) -> bool {
    let s2 = spec_bump_cycles(spec_apply_next_pc(s0));
    if stop_at_ebreak && s2.csrs.spec_read(0x342) == 3 {
        !r && post == s2
    } else {
        exists|s3: RISCV64CpuState|
            {
                &&& #[trigger] spec_interrupt_poll_post(s2, s3)
                &&& post == spec_apply_intr_pc(s3)
                &&& r
            }
    }
}

/// Everything one call of `isa_exec_once` does. A stopped hart does
/// nothing; otherwise the instruction is fetched (through the MMU, per
/// `spec_mmu_fetch_post`), a fetch fault is taken as a trap with the PC
/// as `tval`, the halt idioms (the riscv-test write-to-host loop, the
/// jump-to-self dead loop, an unrecognised encoding) stop the loop, and
/// a recognised instruction executes per `spec_dispatch_exec_post`
/// (through the decoded-instruction cache, filling it on a miss),
/// followed by the step tail.
pub open spec fn spec_step_post(pre: RISCV64, post: RISCV64, r: bool) -> bool {
    &&& post.patterns == pre.patterns
    &&& post.stop_at_ebreak == pre.stop_at_ebreak
    &&& post.stopped == pre.stopped
    &&& if pre.state.stopping || pre.stopped {
        !r && post == pre
    } else {
        exists|fr: Result<(u64, u64), MCauseCode>, midm: crate::vaddr::MMU|
            {
                &&& #[trigger] crate::vaddr::spec_mmu_fetch_post(
                    pre.state.memory,
                    midm,
                    pre.state.pc.0,
                    4,
                    fr,
                )
                &&& spec_step_rest(pre, post, r, fr, midm)
            }
    }
}

/// The step after the fetch resolved to `fr` with MMU state `midm`.
pub open spec fn spec_step_rest(
    pre: RISCV64,
    post: RISCV64,
    r: bool,
    fr: Result<(u64, u64), MCauseCode>,
    midm: crate::vaddr::MMU,
) -> bool {
    let fetched = RISCV64CpuState { memory: midm, ..pre.state };
    match fr {
        Result::Err(c) => {
            if c == MCauseCode::InstAccessFault || c == MCauseCode::InstPageFault {
                &&& post.ibuf == pre.ibuf
                &&& exists|s0: RISCV64CpuState|
                    {
                        &&& #[trigger] spec_trap_post(
                            fetched,
                            s0,
                            c,
                            Option::Some(pre.state.pc.0),
                        )
                        &&& spec_step_tail(pre.stop_at_ebreak, s0, post.state, r)
                    }
            } else {
                post.ibuf == pre.ibuf && spec_step_tail(pre.stop_at_ebreak, fetched, post.state, r)
            }
        },
        Result::Ok(ip) => {
            let inst = ip.0;
            let pa = ip.1;
            let idx = crate::ibuf::SetAssociativeIBuf::spec_entry_idx(pa);
            let row = pre.ibuf.entries@[idx];
            if inst == 0xff1ff06fu64 && pa == 0x80000050 {
                !r && post.ibuf == pre.ibuf && post.state == fetched
            } else if row.valid && row.pc == pa && row.inst == inst {
                &&& post.ibuf == pre.ibuf
                &&& exists|s0: RISCV64CpuState|
                    {
                        &&& #[trigger] spec_dispatch_exec_post(
                            pre.patterns@[row.pat_idx as int],
                            row.decode,
                            fetched,
                            s0,
                        )
                        &&& spec_step_tail(pre.stop_at_ebreak, s0, post.state, r)
                    }
            } else if inst == 0x0000006fu64 {
                &&& !r
                &&& post.ibuf == pre.ibuf
                &&& post.state == (RISCV64CpuState { regs: post.state.regs, ..fetched })
                &&& post.state.regs@ == fetched.regs@.update(10int, 1u64)
            } else {
                match crate::inst::spec_first_match(pre.patterns@, inst) {
                    Option::None => {
                        &&& !r
                        &&& post.ibuf == pre.ibuf
                        &&& post.state == (RISCV64CpuState { regs: post.state.regs, ..fetched })
                        &&& post.state.regs@ == fetched.regs@.update(10int, 1u64)
                    },
                    Option::Some(pi) => {
                        let pat = pre.patterns@[pi];
                        let dec = crate::inst::spec_decode(pat.inst_type, inst);
                        &&& post.ibuf.entries@ == pre.ibuf.entries@.update(
                            idx,
                            crate::ibuf::IBufEntry {
                                valid: true,
                                pc: pa,
                                inst,
                                pat_idx: pi as usize,
                                decode: dec,
                            },
                        )
                        &&& exists|s0: RISCV64CpuState|
                            {
                                &&& #[trigger] spec_dispatch_exec_post(pat, dec, fetched, s0)
                                &&& spec_step_tail(pre.stop_at_ebreak, s0, post.state, r)
                            }
                    },
                }
            }
        },
    }
}

} // verus!
