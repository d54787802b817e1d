//! The CSR file: per-register write masks and access levels, masked
//! writes, privilege checks, and the S-mode views of M-mode registers.
//!
//! Masks and access levels are a static table, given as functions of the
//! CSR number; only the register values are stored. `time`, `cycle` and
//! `mcycle` read live counters held beside the table.
use vstd::prelude::*;

use crate::mstatus::MSTATUS_WMASK;
use crate::mstatus::RISCV64Privilege;
use crate::satp::SATP_WMASK;

verus! {

/// The bits of `mstatus` that `sstatus` exposes.
pub const SSTATUS_VIEW_MASK: u64 =
    0b1000000000000000000000000000001100000001100011011110011101100010;

/// The bits of `mie`/`mip` that `sie`/`sip` expose.
pub const S_INTR_VIEW_MASK: u64 = 0b10001000100010;

/// Write mask of `mie` and `mip`.
pub const MIE_WMASK: u64 = 0b10101010101010;

/// Write mask of `medeleg`: all but the machine-only causes.
pub const MEDELEG_WMASK: u64 = !0b10000100000000000u64;

/// How a CSR may be accessed. Reads of `NotSupported` and writes of
/// `ROnly` registers raise IllegalInstruction.
#[derive(Clone, Copy, PartialEq, Eq, Structural, Debug)]
pub enum CSRAccessLevel {
    NotSupported,
    ROnly,
    RW,
}

/// Static description of one CSR: its write mask and access level.
#[derive(Clone, Copy, PartialEq, Eq, Structural, Debug)]
pub struct CSRInfo {
    pub write_mask: u64,
    pub access_level: CSRAccessLevel,
}

impl CSRInfo {
    pub fn new(write_mask: u64, access_level: CSRAccessLevel) -> (r: CSRInfo)
        ensures
            r.write_mask == write_mask,
            r.access_level == access_level,
    {
        CSRInfo { write_mask, access_level }
    }
}

/// Trap and interrupt cause codes. Interrupt causes carry the MSB set.
#[derive(Clone, Copy, PartialEq, Eq, Structural, Debug)]
pub enum MCauseCode {
    NoCause,
    InstAccessFault,
    IllegalInst,
    Breakpoint,
    LoadAccessFault,
    StoreAMOMisaligned,
    StoreAMOAccessFault,
    ECallU,
    ECallS,
    ECallM,
    InstPageFault,
    LoadPageFault,
    StoreAMOPageFault,
    DeadLoop,
    STimerInt,
    MTimerInt,
    SExtInt,
    MExtInt,
}

impl MCauseCode {
    /// The architectural cause encoding.
    pub open spec fn spec_code(self) -> u64 {
        match self {
            MCauseCode::NoCause => 0,
            MCauseCode::InstAccessFault => 1,
            MCauseCode::IllegalInst => 2,
            MCauseCode::Breakpoint => 3,
            MCauseCode::LoadAccessFault => 5,
            MCauseCode::StoreAMOMisaligned => 6,
            MCauseCode::StoreAMOAccessFault => 7,
            MCauseCode::ECallU => 8,
            MCauseCode::ECallS => 9,
            MCauseCode::ECallM => 11,
            MCauseCode::InstPageFault => 12,
            MCauseCode::LoadPageFault => 13,
            MCauseCode::StoreAMOPageFault => 15,
            MCauseCode::DeadLoop => 128,
            MCauseCode::STimerInt => 0x8000000000000005,
            MCauseCode::MTimerInt => 0x8000000000000007,
            MCauseCode::SExtInt => 0x8000000000000009,
            MCauseCode::MExtInt => 0x800000000000000b,
        }
    }

    /// The architectural cause encoding.
    #[verifier::when_used_as_spec(spec_code)]
    pub fn code(self) -> (r: u64)
        ensures
            r == self.spec_code(),
    {
        match self {
            MCauseCode::NoCause => 0,
            MCauseCode::InstAccessFault => 1,
            MCauseCode::IllegalInst => 2,
            MCauseCode::Breakpoint => 3,
            MCauseCode::LoadAccessFault => 5,
            MCauseCode::StoreAMOMisaligned => 6,
            MCauseCode::StoreAMOAccessFault => 7,
            MCauseCode::ECallU => 8,
            MCauseCode::ECallS => 9,
            MCauseCode::ECallM => 11,
            MCauseCode::InstPageFault => 12,
            MCauseCode::LoadPageFault => 13,
            MCauseCode::StoreAMOPageFault => 15,
            MCauseCode::DeadLoop => 128,
            MCauseCode::STimerInt => 0x8000000000000005,
            MCauseCode::MTimerInt => 0x8000000000000007,
            MCauseCode::SExtInt => 0x8000000000000009,
            MCauseCode::MExtInt => 0x800000000000000b,
        }
    }
}

/// Bits of the shared interrupt-pending word, by interrupt source.
#[derive(Clone, Copy, PartialEq, Eq, Structural, Debug)]
pub enum InterruptMask {
    STimerInt,
    MTimerInt,
    SExtInt,
    MExtInt,
}

impl InterruptMask {
    /// The pending-word bit for this source.
    pub open spec fn spec_bit(self) -> u64 {
        match self {
            InterruptMask::STimerInt => 1u64 << 5,
            InterruptMask::MTimerInt => 1u64 << 7,
            InterruptMask::SExtInt => 1u64 << 9,
            InterruptMask::MExtInt => 1u64 << 11,
        }
    }

    /// The pending-word bit for this source.
    #[verifier::when_used_as_spec(spec_bit)]
    pub fn bit(self) -> (r: u64)
        ensures
            r == self.spec_bit(),
    {
        match self {
            InterruptMask::STimerInt => 1u64 << 5,
            InterruptMask::MTimerInt => 1u64 << 7,
            InterruptMask::SExtInt => 1u64 << 9,
            InterruptMask::MExtInt => 1u64 << 11,
        }
    }
}

/// The CSRs this core implements, by name.
#[allow(non_camel_case_types)]
#[derive(Clone, Copy, PartialEq, Eq, Structural, Debug)]
pub enum CSRName {
    sstatus,
    sie,
    stvec,
    scounteren,
    sscratch,
    sepc,
    scause,
    stval,
    sip,
    satp,
    mcycle,
    mstatus,
    misa,
    medeleg,
    mideleg,
    mie,
    mtvec,
    mcounteren,
    menvcfg,
    mscratch,
    mepc,
    mcause,
    mtval,
    mip,
    pmpcfg0,
    pmpaddr0,
    cycle,
    time,
    mvendorid,
    marchid,
    mimpid,
    mhartid,
}

impl CSRName {
    /// The 12-bit CSR number.
    pub open spec fn spec_addr(self) -> u64 {
        match self {
            CSRName::sstatus => 0x100,
            CSRName::sie => 0x104,
            CSRName::stvec => 0x105,
            CSRName::scounteren => 0x106,
            CSRName::sscratch => 0x140,
            CSRName::sepc => 0x141,
            CSRName::scause => 0x142,
            CSRName::stval => 0x143,
            CSRName::sip => 0x144,
            CSRName::satp => 0x180,
            CSRName::mcycle => 0xB00,
            CSRName::mstatus => 0x300,
            CSRName::misa => 0x301,
            CSRName::medeleg => 0x302,
            CSRName::mideleg => 0x303,
            CSRName::mie => 0x304,
            CSRName::mtvec => 0x305,
            CSRName::mcounteren => 0x306,
            CSRName::menvcfg => 0x30a,
            CSRName::mscratch => 0x340,
            CSRName::mepc => 0x341,
            CSRName::mcause => 0x342,
            CSRName::mtval => 0x343,
            CSRName::mip => 0x344,
            CSRName::pmpcfg0 => 0x3A0,
            CSRName::pmpaddr0 => 0x3B0,
            CSRName::cycle => 0xc00,
            CSRName::time => 0xc01,
            CSRName::mvendorid => 0xF11,
            CSRName::marchid => 0xF12,
            CSRName::mimpid => 0xF13,
            CSRName::mhartid => 0xF14,
        }
    }

    /// The 12-bit CSR number.
    #[verifier::when_used_as_spec(spec_addr)]
    pub fn addr(self) -> (r: u64)
        ensures
            r == self.spec_addr(),
            r < 4096,
    {
        match self {
            CSRName::sstatus => 0x100,
            CSRName::sie => 0x104,
            CSRName::stvec => 0x105,
            CSRName::scounteren => 0x106,
            CSRName::sscratch => 0x140,
            CSRName::sepc => 0x141,
            CSRName::scause => 0x142,
            CSRName::stval => 0x143,
            CSRName::sip => 0x144,
            CSRName::satp => 0x180,
            CSRName::mcycle => 0xB00,
            CSRName::mstatus => 0x300,
            CSRName::misa => 0x301,
            CSRName::medeleg => 0x302,
            CSRName::mideleg => 0x303,
            CSRName::mie => 0x304,
            CSRName::mtvec => 0x305,
            CSRName::mcounteren => 0x306,
            CSRName::menvcfg => 0x30a,
            CSRName::mscratch => 0x340,
            CSRName::mepc => 0x341,
            CSRName::mcause => 0x342,
            CSRName::mtval => 0x343,
            CSRName::mip => 0x344,
            CSRName::pmpcfg0 => 0x3A0,
            CSRName::pmpaddr0 => 0x3B0,
            CSRName::cycle => 0xc00,
            CSRName::time => 0xc01,
            CSRName::mvendorid => 0xF11,
            CSRName::marchid => 0xF12,
            CSRName::mimpid => 0xF13,
            CSRName::mhartid => 0xF14,
        }
    }
}

/// CSR numbers that are recognised but not implemented; any access raises
/// IllegalInstruction.
#[allow(non_camel_case_types)]
#[derive(Clone, Copy, PartialEq, Eq, Structural, Debug)]
pub enum CSRNameNotImpl {
    mcountinhibit,
    scountovf,
    mtopi,
    tselect,
    tcontrol,
}

impl CSRNameNotImpl {
    /// The 12-bit CSR number.
    pub fn addr(self) -> (r: u64)
        ensures
            r < 4096,
    {
        match self {
            CSRNameNotImpl::mcountinhibit => 0x320,
            CSRNameNotImpl::scountovf => 0xda0,
            CSRNameNotImpl::mtopi => 0xfb0,
            CSRNameNotImpl::tselect => 0x7a0,
            CSRNameNotImpl::tcontrol => 0x7a5,
        }
    }
}

/// Write hooks: side effects that follow a write of certain CSRs.
#[derive(Clone, Copy, PartialEq, Eq, Structural, Debug)]
pub enum CSRHook {
    SatpHook,
    MStatusHook,
    SStatusHook,
    MieHook,
    SieHook,
    MipHook,
    SipHook,
}

/// The access level of CSR number `idx`.
pub open spec fn spec_csr_level(idx: u64) -> CSRAccessLevel {
    if idx == 0x100 || idx == 0x104 || idx == 0x105 || idx == 0x106 || idx == 0x140 || idx == 0x141
        || idx == 0x142 || idx == 0x143 || idx == 0x144 || idx == 0x180 || idx == 0x300 || idx
        == 0x301 || idx == 0x302 || idx == 0x303 || idx == 0x304 || idx == 0x305 || idx == 0x306
        || idx == 0x30a || idx == 0x340 || idx == 0x341 || idx == 0x342 || idx == 0x343 || idx
        == 0x344 || idx == 0x3A0 || idx == 0x3B0 {
        CSRAccessLevel::RW
    } else if idx == 0xB00 || idx == 0xc00 || idx == 0xc01 || idx == 0xF11 || idx == 0xF12 || idx
        == 0xF13 || idx == 0xF14 || (0xb03 <= idx && idx < 0xb20) {
        CSRAccessLevel::ROnly
    } else {
        CSRAccessLevel::NotSupported
    }
}

/// The access level of CSR number `idx`.
#[verifier::when_used_as_spec(spec_csr_level)]
pub fn csr_level(idx: u64) -> (r: CSRAccessLevel)
    ensures
        r == spec_csr_level(idx),
{
    if idx == 0x100 || idx == 0x104 || idx == 0x105 || idx == 0x106 || idx == 0x140 || idx == 0x141
        || idx == 0x142 || idx == 0x143 || idx == 0x144 || idx == 0x180 || idx == 0x300 || idx
        == 0x301 || idx == 0x302 || idx == 0x303 || idx == 0x304 || idx == 0x305 || idx == 0x306
        || idx == 0x30a || idx == 0x340 || idx == 0x341 || idx == 0x342 || idx == 0x343 || idx
        == 0x344 || idx == 0x3A0 || idx == 0x3B0 {
        CSRAccessLevel::RW
    } else if idx == 0xB00 || idx == 0xc00 || idx == 0xc01 || idx == 0xF11 || idx == 0xF12 || idx
        == 0xF13 || idx == 0xF14 || (0xb03 <= idx && idx < 0xb20) {
        CSRAccessLevel::ROnly
    } else {
        CSRAccessLevel::NotSupported
    }
}

/// The write mask of CSR number `idx`: a write changes only these bits.
pub open spec fn spec_csr_mask(idx: u64) -> u64 {
    if idx == 0x100 {
        SSTATUS_VIEW_MASK & MSTATUS_WMASK
    } else if idx == 0x104 || idx == 0x144 {
        S_INTR_VIEW_MASK & MIE_WMASK
    } else if idx == 0x304 || idx == 0x344 {
        MIE_WMASK
    } else if idx == 0x300 {
        MSTATUS_WMASK
    } else if idx == 0x180 {
        SATP_WMASK
    } else if idx == 0x302 {
        MEDELEG_WMASK
    } else if idx == 0x30a {
        1
    } else if idx == 0x105 || idx == 0x140 || idx == 0x141 || idx == 0x142 || idx == 0x143 || idx
        == 0x303 || idx == 0x305 || idx == 0x340 || idx == 0x341 || idx == 0x342 || idx == 0x343 {
        !0u64
    } else {
        0
    }
}

/// The write mask of CSR number `idx`.
#[verifier::when_used_as_spec(spec_csr_mask)]
pub fn csr_mask(idx: u64) -> (r: u64)
    ensures
        r == spec_csr_mask(idx),
{
    if idx == 0x100 {
        SSTATUS_VIEW_MASK & MSTATUS_WMASK
    } else if idx == 0x104 || idx == 0x144 {
        S_INTR_VIEW_MASK & MIE_WMASK
    } else if idx == 0x304 || idx == 0x344 {
        MIE_WMASK
    } else if idx == 0x300 {
        MSTATUS_WMASK
    } else if idx == 0x180 {
        SATP_WMASK
    } else if idx == 0x302 {
        MEDELEG_WMASK
    } else if idx == 0x30a {
        1
    } else if idx == 0x105 || idx == 0x140 || idx == 0x141 || idx == 0x142 || idx == 0x143 || idx
        == 0x303 || idx == 0x305 || idx == 0x340 || idx == 0x341 || idx == 0x342 || idx == 0x343 {
        !0u64
    } else {
        0
    }
}

/// The static description of CSR number `idx`.
pub fn csr_info(idx: u64) -> (r: CSRInfo)
    ensures
        r.write_mask == spec_csr_mask(idx),
        r.access_level == spec_csr_level(idx),
{
    CSRInfo::new(csr_mask(idx), csr_level(idx))
}

/// The write hook of CSR number `idx`, if it has one.
pub open spec fn spec_csr_hook(idx: u64) -> Option<CSRHook> {
    if idx == 0x180 {
        Some(CSRHook::SatpHook)
    } else if idx == 0x300 {
        Some(CSRHook::MStatusHook)
    } else if idx == 0x100 {
        Some(CSRHook::SStatusHook)
    } else if idx == 0x304 {
        Some(CSRHook::MieHook)
    } else if idx == 0x104 {
        Some(CSRHook::SieHook)
    } else if idx == 0x344 {
        Some(CSRHook::MipHook)
    } else if idx == 0x144 {
        Some(CSRHook::SipHook)
    } else {
        None
    }
}

/// The write hook of CSR number `idx`, if it has one.
#[verifier::when_used_as_spec(spec_csr_hook)]
pub fn csr_hook(idx: u64) -> (r: Option<CSRHook>)
    ensures
        r == spec_csr_hook(idx),
{
    if idx == 0x180 {
        Some(CSRHook::SatpHook)
    } else if idx == 0x300 {
        Some(CSRHook::MStatusHook)
    } else if idx == 0x100 {
        Some(CSRHook::SStatusHook)
    } else if idx == 0x304 {
        Some(CSRHook::MieHook)
    } else if idx == 0x104 {
        Some(CSRHook::SieHook)
    } else if idx == 0x344 {
        Some(CSRHook::MipHook)
    } else if idx == 0x144 {
        Some(CSRHook::SipHook)
    } else {
        None
    }
}

/// The reset value of CSR number `idx`.
pub open spec fn spec_csr_reset(idx: u64) -> u64 {
    if idx == 0x300 {
        0xa00001800u64
    } else if idx == 0x100 {
        0xa00001800u64 & SSTATUS_VIEW_MASK
    } else if idx == 0x301 {
        (0b10u64 << 62) | 0b101000001000100000001u64
    } else {
        0
    }
}

/// `time`, `cycle` or `mcycle`: these read live counters.
pub open spec fn spec_is_counter(idx: u64) -> bool {
    idx == 0xc01 || idx == 0xc00 || idx == 0xB00
}

/// `time`, `cycle` or `mcycle`.
#[verifier::when_used_as_spec(spec_is_counter)]
pub fn is_counter(idx: u64) -> (r: bool)
    ensures
        r == spec_is_counter(idx),
{
    idx == 0xc01 || idx == 0xc00 || idx == 0xB00
}

/// The new register value of a masked CSR write.
pub open spec fn spec_masked_write(old_val: u64, val: u64, mask: u64) -> u64 {
    (val & mask) | (old_val & !mask)
}

/// The outcome of a successful CSR access: the value read, the value now
/// stored, and the write hook to run.
pub struct CSROpResult {
    pub old: u64,
    pub new: u64,
    pub hook: Option<CSRHook>,
}

impl CSROpResult {
    pub fn new(old_val: u64, new_val: u64, hook: Option<CSRHook>) -> (r: CSROpResult)
        ensures
            r.old == old_val,
            r.new == new_val,
            r.hook == hook,
    {
        CSROpResult { old: old_val, new: new_val, hook }
    }
}

/// The CSR file: stored register values plus the live counters.
pub struct CSRs {
    /// The stored register values, one slot per 12-bit CSR number.
    pub vals: Vec<u64>,
    /// Microsecond wall time, as last published to the hart.
    pub time: u64,
    /// Retired-instruction counter.
    pub cycles: u64,
}

impl CSRs {
    /// The stored register values by CSR number.
    pub closed spec fn view(self) -> Seq<u64> {
        self.vals@
    }

    /// One slot for every 12-bit CSR number.
    pub open spec fn wf(self) -> bool {
        self@.len() == 4096
    }

    /// What a read of CSR `idx` returns: the live counter for `time`,
    /// `cycle` and `mcycle`, the stored value otherwise.
    pub open spec fn spec_read(self, idx: u64) -> u64 {
        if idx == 0xc01 {
            self.time
        } else if idx == 0xc00 || idx == 0xB00 {
            self.cycles
        } else {
            self@[idx as int]
        }
    }

    /// A fresh file with every implemented CSR at its reset value.
    pub fn new() -> (r: CSRs)
        ensures
            r.wf(),
            r.time == 0,
            r.cycles == 0,
            forall|i: u64| i < 4096 ==> r.spec_read(i) == spec_csr_reset(i),
    {
        let mut vals: Vec<u64> = Vec::new();
        let mut i: usize = 0;
        while i < 4096
            invariant
                vals@.len() == i,
                i <= 4096,
                forall|k: int| 0 <= k < i ==> vals@[k] == 0,
            decreases 4096 - i,
        {
            vals.push(0);
            i = i + 1;
        }
        vals.set(0x300, 0xa00001800);
        vals.set(0x100, 0xa00001800u64 & SSTATUS_VIEW_MASK);
        vals.set(0x301, (0b10u64 << 62) | 0b101000001000100000001u64);
        CSRs { vals, time: 0, cycles: 0 }
    }

    /// Whether CSR number `idx` is implemented at all.
    pub fn check_idx(&self, idx: u64) -> (r: bool)
        ensures
            r == (spec_csr_level(idx) != CSRAccessLevel::NotSupported),
    {
        match csr_level(idx) {
            CSRAccessLevel::NotSupported => false,
            _ => true,
        }
    }

    /// Read the CSR named `name`.
    pub fn get(&self, name: CSRName) -> (r: u64)
        requires
            self.wf(),
        ensures
            r == self.spec_read(name.spec_addr()),
    {
        self.get_by_addr(name.addr())
    }

    /// Read the CSR numbered `idx`.
    pub fn get_by_addr(&self, idx: u64) -> (r: u64)
        requires
            self.wf(),
            idx < 4096,
        ensures
            r == self.spec_read(idx),
    {
        if idx == 0xc01 {
            self.time
        } else if idx == 0xc00 || idx == 0xB00 {
            self.cycles
        } else {
            self.vals[idx as usize]
        }
    }

    /// Store `val` directly, bypassing mask and level. Used by the write
    /// hooks to keep the S-mode views in step.
    pub fn set_fast(&mut self, name: CSRName, val: u64)
        requires
            old(self).wf(),
            !spec_is_counter(name.spec_addr()),
        ensures
            final(self).wf(),
            final(self)@ == old(self)@.update(name.spec_addr() as int, val),
            final(self).time == old(self).time,
            final(self).cycles == old(self).cycles,
    {
        let idx = name.addr();
        self.vals.set(idx as usize, val);
    }

    /// Store 0 directly, bypassing mask and level.
    pub fn set_zero_fast(&mut self, name: CSRName)
        requires
            old(self).wf(),
            !spec_is_counter(name.spec_addr()),
        ensures
            final(self).wf(),
            final(self)@ == old(self)@.update(name.spec_addr() as int, 0u64),
            final(self).time == old(self).time,
            final(self).cycles == old(self).cycles,
    {
        let idx = name.addr();
        self.vals.set(idx as usize, 0);
    }

    /// A masked write of the CSR named `name`. Fails (IllegalInstruction
    /// at the caller) unless the register is read-write; on success no bit
    /// outside the write mask changes.
    pub fn set_n(&mut self, name: CSRName, val: u64) -> (r: Result<CSROpResult, ()>)
        requires
            old(self).wf(),
        ensures
            final(self).wf(),
            final(self).time == old(self).time,
            final(self).cycles == old(self).cycles,
            ({
                let idx = name.spec_addr();
                match r {
                    Ok(res) => {
                        &&& spec_csr_level(idx) == CSRAccessLevel::RW
                        &&& res.old == old(self).spec_read(idx)
                        &&& res.new == spec_masked_write(res.old, val, spec_csr_mask(idx))
                        &&& res.hook == spec_csr_hook(idx)
                        &&& final(self)@ == old(self)@.update(idx as int, res.new)
                    },
                    Err(()) => {
                        &&& spec_csr_level(idx) != CSRAccessLevel::RW
                        &&& final(self)@ == old(self)@
                    },
                }
            }),
    {
        self.write_masked(name.addr(), val)
    }

    /// A masked write of the CSR numbered `idx` (`csrrw` and `csrrwi`).
    pub fn set(&mut self, idx: u64, val: u64, _rs1_is_x0: bool) -> (r: Result<CSROpResult, ()>)
        requires
            old(self).wf(),
            idx < 4096,
        ensures
            final(self).wf(),
            final(self).time == old(self).time,
            final(self).cycles == old(self).cycles,
            match r {
                Ok(res) => {
                    &&& spec_csr_level(idx) == CSRAccessLevel::RW
                    &&& res.old == old(self).spec_read(idx)
                    &&& res.new == spec_masked_write(res.old, val, spec_csr_mask(idx))
                    &&& res.hook == spec_csr_hook(idx)
                    &&& final(self)@ == old(self)@.update(idx as int, res.new)
                },
                Err(()) => {
                    &&& spec_csr_level(idx) != CSRAccessLevel::RW
                    &&& final(self)@ == old(self)@
                },
            },
    {
        self.write_masked(idx, val)
    }

    /// The shared masked-write path: a read-only register is refused; a
    /// successful write stores `(val & mask) | (old & !mask)`.
    fn write_masked(&mut self, idx: u64, val: u64) -> (r: Result<CSROpResult, ()>)
        requires
            old(self).wf(),
            idx < 4096,
        ensures
            final(self).wf(),
            final(self).time == old(self).time,
            final(self).cycles == old(self).cycles,
            match r {
                Ok(res) => {
                    &&& spec_csr_level(idx) == CSRAccessLevel::RW
                    &&& res.old == old(self).spec_read(idx)
                    &&& res.new == spec_masked_write(res.old, val, spec_csr_mask(idx))
                    &&& res.hook == spec_csr_hook(idx)
                    &&& final(self)@ == old(self)@.update(idx as int, res.new)
                },
                Err(()) => {
                    &&& spec_csr_level(idx) != CSRAccessLevel::RW
                    &&& final(self)@ == old(self)@
                },
            },
    {
        match csr_level(idx) {
            CSRAccessLevel::NotSupported => Err(()),
            CSRAccessLevel::ROnly => Err(()),
            CSRAccessLevel::RW => {
                let mask = csr_mask(idx);
                let old_val = self.vals[idx as usize];
                let new_val = (val & mask) | (old_val & !mask);
                self.vals.set(idx as usize, new_val);
                Ok(CSROpResult::new(old_val, new_val, csr_hook(idx)))
            },
        }
    }

    /// Set bits of the CSR numbered `idx` (`csrrs` and `csrrsi`): the new
    /// value is `old | (val & mask)`. With rs1 = x0 the write side is
    /// skipped entirely, so a read-only CSR may still be read.
    pub fn or(&mut self, idx: u64, val: u64, rs1_is_x0: bool) -> (r: Result<CSROpResult, ()>)
        requires
            old(self).wf(),
            idx < 4096,
        ensures
            final(self).wf(),
            final(self).time == old(self).time,
            final(self).cycles == old(self).cycles,
            match r {
                Ok(res) => {
                    &&& spec_csr_level(idx) != CSRAccessLevel::NotSupported
                    &&& (spec_csr_level(idx) == CSRAccessLevel::ROnly ==> rs1_is_x0)
                    &&& res.old == old(self).spec_read(idx)
                    &&& res.new == (res.old | (val & spec_csr_mask(idx)))
                    &&& res.hook == spec_csr_hook(idx)
                    &&& if spec_is_counter(idx) {
                        final(self)@ == old(self)@
                    } else {
                        final(self)@ == old(self)@.update(idx as int, res.new)
                    }
                },
                Err(()) => {
                    &&& (spec_csr_level(idx) == CSRAccessLevel::NotSupported || (spec_csr_level(
                        idx,
                    ) == CSRAccessLevel::ROnly && !rs1_is_x0))
                    &&& final(self)@ == old(self)@
                },
            },
    {
        match csr_level(idx) {
            CSRAccessLevel::NotSupported => Err(()),
            CSRAccessLevel::ROnly if !rs1_is_x0 => Err(()),
            _ => {
                let mask = csr_mask(idx);
                if is_counter(idx) {
                    let old_val = self.get_by_addr(idx);
                    proof {
                        let m = spec_csr_mask(idx);
                        assert(m == 0 ==> old_val | (val & m) == old_val) by (bit_vector);
                    }
                    Ok(CSROpResult::new(old_val, old_val, csr_hook(idx)))
                } else {
                    let old_val = self.vals[idx as usize];
                    let new_val = old_val | (val & mask);
                    self.vals.set(idx as usize, new_val);
                    Ok(CSROpResult::new(old_val, new_val, csr_hook(idx)))
                }
            },
        }
    }

    /// Clear bits of the CSR numbered `idx` (`csrrc` and `csrrci`): the
    /// new value is `old & !(val & mask)`. With rs1 = x0 the write side is
    /// skipped entirely.
    pub fn clear_bits(&mut self, idx: u64, val: u64, rs1_is_x0: bool) -> (r: Result<
        CSROpResult,
        (),
    >)
        requires
            old(self).wf(),
            idx < 4096,
        ensures
            final(self).wf(),
            final(self).time == old(self).time,
            final(self).cycles == old(self).cycles,
            match r {
                Ok(res) => {
                    &&& spec_csr_level(idx) != CSRAccessLevel::NotSupported
                    &&& (spec_csr_level(idx) == CSRAccessLevel::ROnly ==> rs1_is_x0)
                    &&& res.old == old(self).spec_read(idx)
                    &&& res.new == (res.old & !(val & spec_csr_mask(idx)))
                    &&& res.hook == spec_csr_hook(idx)
                    &&& if spec_is_counter(idx) {
                        final(self)@ == old(self)@
                    } else {
                        final(self)@ == old(self)@.update(idx as int, res.new)
                    }
                },
                Err(()) => {
                    &&& (spec_csr_level(idx) == CSRAccessLevel::NotSupported || (spec_csr_level(
                        idx,
                    ) == CSRAccessLevel::ROnly && !rs1_is_x0))
                    &&& final(self)@ == old(self)@
                },
            },
    {
        match csr_level(idx) {
            CSRAccessLevel::NotSupported => Err(()),
            CSRAccessLevel::ROnly if !rs1_is_x0 => Err(()),
            _ => {
                let mask = csr_mask(idx);
                if is_counter(idx) {
                    let old_val = self.get_by_addr(idx);
                    proof {
                        let m = spec_csr_mask(idx);
                        assert(m == 0 ==> (old_val & !(val & m)) == old_val) by (bit_vector);
                    }
                    Ok(CSROpResult::new(old_val, old_val, csr_hook(idx)))
                } else {
                    let old_val = self.vals[idx as usize];
                    let new_val = old_val & !(val & mask);
                    self.vals.set(idx as usize, new_val);
                    Ok(CSROpResult::new(old_val, new_val, csr_hook(idx)))
                }
            },
        }
    }

    /// Count one retired instruction.
    pub fn bump_cycles(&mut self)
        requires
            old(self).wf(),
        ensures
            final(self).wf(),
            *final(self) == (CSRs {
                cycles: crate::wrap_add64(old(self).cycles, 1),
                ..*old(self)
            }),
    {
        self.cycles = self.cycles.wrapping_add(1);
    }

    /// Whether the accessibility field of the CSR number (bits 9..=8)
    /// admits an access from `privilege`.
    pub open spec fn spec_check_privilege(idx: u64, privilege: RISCV64Privilege) -> bool {
        privilege.spec_encode() >= ((idx >> 8) & 3)
    }

    /// Whether the accessibility field of the CSR number (bits 9..=8)
    /// admits an access from `privilege`.
    pub fn check_privilege(idx: u64, privilege: RISCV64Privilege) -> (r: bool)
        ensures
            r == CSRs::spec_check_privilege(idx, privilege),
    {
        privilege.encode() >= ((idx >> 8) & 3)
    }
}

} // verus!
