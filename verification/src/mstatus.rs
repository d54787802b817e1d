//! The `mstatus` register as a bit structure, and the privilege levels.
//! Field layout follows the RISC-V privileged architecture; only the
//! fields this core interprets get accessors.
#![allow(non_snake_case)]
use vstd::prelude::*;

verus! {

/// Privilege levels. Encodings: M = 3, S = 1, U = 0.
#[derive(Clone, Copy, PartialEq, Eq, Structural, Debug)]
pub enum RISCV64Privilege {
    M,
    S,
    U,
}

impl RISCV64Privilege {
    /// Architectural encoding of the level.
    pub open spec fn spec_encode(self) -> u64 {
        match self {
            RISCV64Privilege::M => 3,
            RISCV64Privilege::S => 1,
            RISCV64Privilege::U => 0,
        }
    }

    /// Architectural encoding of the level.
    #[verifier::when_used_as_spec(spec_encode)]
    pub fn encode(self) -> (r: u64)
        ensures
            r == self.spec_encode(),
    {
        match self {
            RISCV64Privilege::M => 3,
            RISCV64Privilege::S => 1,
            RISCV64Privilege::U => 0,
        }
    }

    /// The level a 2-bit encoding denotes, if any (2 encodes nothing).
    pub open spec fn spec_from_repr(v: u64) -> Option<RISCV64Privilege> {
        if v == 3 {
            Some(RISCV64Privilege::M)
        } else if v == 1 {
            Some(RISCV64Privilege::S)
        } else if v == 0 {
            Some(RISCV64Privilege::U)
        } else {
            None
        }
    }

    /// The level a 2-bit encoding denotes, if any.
    #[verifier::when_used_as_spec(spec_from_repr)]
    pub fn from_repr(v: u64) -> (r: Option<RISCV64Privilege>)
        ensures
            r == RISCV64Privilege::spec_from_repr(v),
    {
        if v == 3 {
            Some(RISCV64Privilege::M)
        } else if v == 1 {
            Some(RISCV64Privilege::S)
        } else if v == 0 {
            Some(RISCV64Privilege::U)
        } else {
            None
        }
    }
}

/// Writable bits of `mstatus`: SIE, MIE, SPIE, MPIE, SPP, MPP, MPRV, SUM,
/// MXR, TVM, TW, TSR.
pub const MSTATUS_WMASK: u64 = 0b11111100001100110101010;

/// The bits `update_when_trap` may change when trapping to M: MIE, MPIE,
/// MPP.
pub const MSTATUS_TRAP_M_MASK: u64 = 0x1888;

/// The bits `update_when_trap` may change when trapping to S: SIE, SPIE,
/// SPP.
pub const MSTATUS_TRAP_S_MASK: u64 = 0x122;

/// The machine status register, stored as its architectural bit image.
#[derive(Clone, Copy, PartialEq, Eq, Structural, Debug)]
pub struct MStatus(pub u64);

impl MStatus {
    /// S-mode interrupt enable (bit 1).
    pub open spec fn spec_SIE(&self) -> bool {
        (self.0 >> 1) & 1 == 1
    }

    #[verifier::when_used_as_spec(spec_SIE)]
    pub fn SIE(&self) -> (r: bool)
        ensures
            r == self.spec_SIE(),
    {
        (self.0 >> 1) & 1 == 1
    }

    /// M-mode interrupt enable (bit 3).
    pub open spec fn spec_MIE(&self) -> bool {
        (self.0 >> 3) & 1 == 1
    }

    #[verifier::when_used_as_spec(spec_MIE)]
    pub fn MIE(&self) -> (r: bool)
        ensures
            r == self.spec_MIE(),
    {
        (self.0 >> 3) & 1 == 1
    }

    /// S-mode previous interrupt enable (bit 5).
    pub open spec fn spec_SPIE(&self) -> bool {
        (self.0 >> 5) & 1 == 1
    }

    #[verifier::when_used_as_spec(spec_SPIE)]
    pub fn SPIE(&self) -> (r: bool)
        ensures
            r == self.spec_SPIE(),
    {
        (self.0 >> 5) & 1 == 1
    }

    /// M-mode previous interrupt enable (bit 7).
    pub open spec fn spec_MPIE(&self) -> bool {
        (self.0 >> 7) & 1 == 1
    }

    #[verifier::when_used_as_spec(spec_MPIE)]
    pub fn MPIE(&self) -> (r: bool)
        ensures
            r == self.spec_MPIE(),
    {
        (self.0 >> 7) & 1 == 1
    }

    /// S-mode previous privilege (bit 8): true means S, false means U.
    pub open spec fn spec_SPP(&self) -> bool {
        (self.0 >> 8) & 1 == 1
    }

    #[verifier::when_used_as_spec(spec_SPP)]
    pub fn SPP(&self) -> (r: bool)
        ensures
            r == self.spec_SPP(),
    {
        (self.0 >> 8) & 1 == 1
    }

    /// M-mode previous privilege (bits 11..=12), as its 2-bit encoding.
    pub open spec fn spec_MPP(&self) -> u64 {
        (self.0 >> 11) & 3
    }

    #[verifier::when_used_as_spec(spec_MPP)]
    pub fn MPP(&self) -> (r: u64)
        ensures
            r == self.spec_MPP(),
            r < 4,
    {
        proof {
            let b = self.0;
            assert((b >> 11) & 3 < 4) by (bit_vector);
        }
        (self.0 >> 11) & 3
    }

    /// MPP holds the M encoding.
    pub open spec fn spec_MPP_is_m_mode(&self) -> bool {
        self.spec_MPP() == 3
    }

    #[verifier::when_used_as_spec(spec_MPP_is_m_mode)]
    pub fn MPP_is_m_mode(&self) -> (r: bool)
        ensures
            r == self.spec_MPP_is_m_mode(),
    {
        self.MPP() == 3
    }

    /// Modify-privilege bit (bit 17): loads and stores in M use MPP.
    pub open spec fn spec_MPRV(&self) -> bool {
        (self.0 >> 17) & 1 == 1
    }

    #[verifier::when_used_as_spec(spec_MPRV)]
    pub fn MPRV(&self) -> (r: bool)
        ensures
            r == self.spec_MPRV(),
    {
        (self.0 >> 17) & 1 == 1
    }

    /// Permit-supervisor-user-memory bit (bit 18).
    pub open spec fn spec_SUM(&self) -> bool {
        (self.0 >> 18) & 1 == 1
    }

    #[verifier::when_used_as_spec(spec_SUM)]
    pub fn SUM(&self) -> (r: bool)
        ensures
            r == self.spec_SUM(),
    {
        (self.0 >> 18) & 1 == 1
    }

    /// Make-executable-readable bit (bit 19).
    pub open spec fn spec_MXR(&self) -> bool {
        (self.0 >> 19) & 1 == 1
    }

    #[verifier::when_used_as_spec(spec_MXR)]
    pub fn MXR(&self) -> (r: bool)
        ensures
            r == self.spec_MXR(),
    {
        (self.0 >> 19) & 1 == 1
    }

    /// All bits zero.
    pub fn new() -> (r: MStatus)
        ensures
            r.0 == 0,
    {
        MStatus(0)
    }

    /// Reset value: MPP = M, UXL = SXL = 2.
    pub fn create() -> (r: MStatus)
        ensures
            r.0 == 0xa00001800u64,
    {
        MStatus(0xa00001800)
    }

    /// Copy with SIE replaced.
    pub fn with_SIE(self, v: bool) -> (r: MStatus)
        ensures
            r.0 == if v {
                self.0 | 2u64
            } else {
                self.0 & !2u64
            },
            r.spec_SIE() == v,
    {
        let bits: u64 = if v {
            self.0 | 2u64
        } else {
            self.0 & !2u64
        };
        proof {
            let b = self.0;
            assert(((b | 2u64) >> 1) & 1 == 1) by (bit_vector);
            assert(((b & !2u64) >> 1) & 1 == 0) by (bit_vector);
        }
        MStatus(bits)
    }

    /// The bit image after a trap from `from` to `to`: xPIE takes xIE,
    /// xIE clears, xPP records `from`; every other bit keeps its value.
    pub open spec fn spec_after_trap(self, from: RISCV64Privilege, to: RISCV64Privilege) -> u64 {
        if to == RISCV64Privilege::M {
            (self.0 & !MSTATUS_TRAP_M_MASK) | (if self.spec_MIE() { 0x80u64 } else { 0u64 }) | (
            from.spec_encode() << 11)
        } else {
            (self.0 & !MSTATUS_TRAP_S_MASK) | (if self.spec_SIE() { 0x20u64 } else { 0u64 }) | (
            if from == RISCV64Privilege::S {
                0x100u64
            } else {
                0u64
            })
        }
    }

    /// Apply the status update of a trap taken from `from` into `to`:
    /// `xPIE <- xIE`, `xIE <- 0`, `xPP <- from`.
    pub fn update_when_trap(&mut self, from: RISCV64Privilege, to: RISCV64Privilege)
        requires
            to != RISCV64Privilege::M ==> from != RISCV64Privilege::M,
        ensures
            final(self).0 == old(self).spec_after_trap(from, to),
            to == RISCV64Privilege::M ==> {
                &&& final(self).spec_MPIE() == old(self).spec_MIE()
                &&& !final(self).spec_MIE()
                &&& final(self).spec_MPP() == from.spec_encode()
                &&& final(self).0 & !MSTATUS_TRAP_M_MASK == old(self).0 & !MSTATUS_TRAP_M_MASK
            },
            to != RISCV64Privilege::M ==> {
                &&& final(self).spec_SPIE() == old(self).spec_SIE()
                &&& !final(self).spec_SIE()
                &&& final(self).spec_SPP() == (from == RISCV64Privilege::S)
                &&& final(self).0 & !MSTATUS_TRAP_S_MASK == old(self).0 & !MSTATUS_TRAP_S_MASK
            },
    {
        let b = self.0;
        if to == RISCV64Privilege::M {
            let mie: u64 = if self.MIE() { 0x80 } else { 0 };
            let mpp: u64 = from.encode() << 11;
            let nb: u64 = (b & !MSTATUS_TRAP_M_MASK) | mie | mpp;
            proof {
                let f = from.spec_encode();
                assert({
                    let nb2 = (b & !0x1888u64) | mie | mpp;
                    &&& ((nb2 >> 7) & 1 == 1) == ((b >> 3) & 1 == 1)
                    &&& (nb2 >> 3) & 1 == 0
                    &&& (nb2 >> 11) & 3 == f
                    &&& nb2 & !0x1888u64 == b & !0x1888u64
                }) by (bit_vector)
                    requires
                        mie == (if (b >> 3) & 1 == 1 { 0x80u64 } else { 0u64 }),
                        mpp == f << 11,
                        f < 4,
                ;
            }
            self.0 = nb;
        } else {
            let sie: u64 = if self.SIE() { 0x20 } else { 0 };
            let spp: u64 = if from == RISCV64Privilege::S { 0x100 } else { 0 };
            let nb: u64 = (b & !MSTATUS_TRAP_S_MASK) | sie | spp;
            proof {
                assert({
                    let nb2 = (b & !0x122u64) | sie | spp;
                    &&& ((nb2 >> 5) & 1 == 1) == ((b >> 1) & 1 == 1)
                    &&& (nb2 >> 1) & 1 == 0
                    &&& ((nb2 >> 8) & 1 == 1) == (spp == 0x100)
                    &&& nb2 & !0x122u64 == b & !0x122u64
                }) by (bit_vector)
                    requires
                        sie == (if (b >> 1) & 1 == 1 { 0x20u64 } else { 0u64 }),
                        spp == 0x100u64 || spp == 0u64,
                ;
            }
            self.0 = nb;
        }
    }

    /// The bit image after `xret`: xIE takes xPIE, xPIE sets, xPP clears
    /// to U; MPRV clears when the destination is not M.
    pub open spec fn spec_after_ret(self, ret_inst: RISCV64Privilege) -> u64 {
        let to = self.spec_ret_target(ret_inst);
        let base = if ret_inst == RISCV64Privilege::M {
            (self.0 & !MSTATUS_TRAP_M_MASK) | (if self.spec_MPIE() { 8u64 } else { 0u64 })
                | 0x80u64
        } else {
            (self.0 & !MSTATUS_TRAP_S_MASK) | (if self.spec_SPIE() { 2u64 } else { 0u64 })
                | 0x20u64
        };
        if to != RISCV64Privilege::M {
            base & !0x20000u64
        } else {
            base
        }
    }

    /// The privilege that `xret` returns to: xPP.
    pub open spec fn spec_ret_target(self, ret_inst: RISCV64Privilege) -> RISCV64Privilege {
        if ret_inst == RISCV64Privilege::M {
            if self.spec_MPP() == 3 {
                RISCV64Privilege::M
            } else if self.spec_MPP() == 1 {
                RISCV64Privilege::S
            } else {
                RISCV64Privilege::U
            }
        } else {
            if self.spec_SPP() {
                RISCV64Privilege::S
            } else {
                RISCV64Privilege::U
            }
        }
    }

    /// Apply the status update of an `xret` and return the next privilege:
    /// `xIE <- xPIE`, `xPIE <- 1`, privilege becomes xPP, `xPP <- U`,
    /// and `MPRV <- 0` when the destination is below M. The reserved MPP
    /// encoding reads as U.
    pub fn update_when_ret(&mut self, ret_inst: RISCV64Privilege) -> (to: RISCV64Privilege)
        ensures
            to == old(self).spec_ret_target(ret_inst),
            final(self).0 == old(self).spec_after_ret(ret_inst),
            ret_inst == RISCV64Privilege::M ==> {
                &&& final(self).spec_MIE() == old(self).spec_MPIE()
                &&& final(self).spec_MPIE()
                &&& final(self).spec_MPP() == 0
            },
            ret_inst != RISCV64Privilege::M ==> {
                &&& final(self).spec_SIE() == old(self).spec_SPIE()
                &&& final(self).spec_SPIE()
                &&& !final(self).spec_SPP()
            },
            to != RISCV64Privilege::M ==> !final(self).spec_MPRV(),
    {
        let b = self.0;
        let to: RISCV64Privilege;
        let base: u64;
        if ret_inst == RISCV64Privilege::M {
            let mpie: u64 = if self.MPIE() { 8 } else { 0 };
            base = (b & !MSTATUS_TRAP_M_MASK) | mpie | 0x80;
            let mpp = self.MPP();
            to = if mpp == 3 {
                RISCV64Privilege::M
            } else if mpp == 1 {
                RISCV64Privilege::S
            } else {
                RISCV64Privilege::U
            };
            proof {
                assert({
                    let nb2 = (b & !0x1888u64) | mpie | 0x80u64;
                    &&& ((nb2 >> 3) & 1 == 1) == ((b >> 7) & 1 == 1)
                    &&& (nb2 >> 7) & 1 == 1
                    &&& (nb2 >> 11) & 3 == 0
                    &&& ((nb2 & !0x20000u64) >> 3) & 1 == (nb2 >> 3) & 1
                    &&& ((nb2 & !0x20000u64) >> 7) & 1 == 1
                    &&& ((nb2 & !0x20000u64) >> 11) & 3 == 0
                    &&& ((nb2 & !0x20000u64) >> 17) & 1 == 0
                }) by (bit_vector)
                    requires
                        mpie == (if (b >> 7) & 1 == 1 { 8u64 } else { 0u64 }),
                ;
            }
        } else {
            let spie: u64 = if self.SPIE() { 2 } else { 0 };
            base = (b & !MSTATUS_TRAP_S_MASK) | spie | 0x20;
            to = if self.SPP() {
                RISCV64Privilege::S
            } else {
                RISCV64Privilege::U
            };
            proof {
                assert({
                    let nb2 = (b & !0x122u64) | spie | 0x20u64;
                    &&& ((nb2 >> 1) & 1 == 1) == ((b >> 5) & 1 == 1)
                    &&& (nb2 >> 5) & 1 == 1
                    &&& (nb2 >> 8) & 1 == 0
                    &&& ((nb2 & !0x20000u64) >> 1) & 1 == (nb2 >> 1) & 1
                    &&& ((nb2 & !0x20000u64) >> 5) & 1 == 1
                    &&& ((nb2 & !0x20000u64) >> 8) & 1 == 0
                    &&& ((nb2 & !0x20000u64) >> 17) & 1 == 0
                }) by (bit_vector)
                    requires
                        spie == (if (b >> 5) & 1 == 1 { 2u64 } else { 0u64 }),
                ;
            }
        }
        if to != RISCV64Privilege::M {
            self.0 = base & !0x20000;
        } else {
            self.0 = base;
        }
        to
    }
}

} // verus!
