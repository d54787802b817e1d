//! The `satp` register: translation mode and root page-table PPN.
use vstd::prelude::*;

verus! {

/// Translation modes this core supports. `Bare` encodes as 0, `Sv39` as 8.
#[derive(Clone, Copy, PartialEq, Eq, Structural, Debug)]
pub enum SATPMode {
    Bare,
    Sv39,
}

impl SATPMode {
    /// The mode a 4-bit encoding denotes, if supported.
    pub open spec fn spec_from_repr(v: u64) -> Option<SATPMode> {
        if v == 0 {
            Some(SATPMode::Bare)
        } else if v == 8 {
            Some(SATPMode::Sv39)
        } else {
            None
        }
    }

    /// The mode a 4-bit encoding denotes, if supported.
    #[verifier::when_used_as_spec(spec_from_repr)]
    pub fn from_repr(v: u64) -> (r: Option<SATPMode>)
        ensures
            r == SATPMode::spec_from_repr(v),
    {
        if v == 0 {
            Some(SATPMode::Bare)
        } else if v == 8 {
            Some(SATPMode::Sv39)
        } else {
            None
        }
    }
}

/// Writable bits of `satp`: everything but the ASID field (not implemented).
pub const SATP_WMASK: u64 = !(0xffffu64 << 44);

/// The address-translation register, stored as its architectural bit image.
#[derive(Clone, Copy, PartialEq, Eq, Structural, Debug)]
pub struct Satp(pub u64);

impl Satp {
    /// Root page-table physical page number (bits 0..=43).
    pub open spec fn spec_ppn(&self) -> u64 {
        self.0 & 0xfffffffffffu64
    }

    #[verifier::when_used_as_spec(spec_ppn)]
    pub fn ppn(&self) -> (r: u64)
        ensures
            r == self.spec_ppn(),
            r < 0x100000000000u64,
    {
        proof {
            let b = self.0;
            assert(b & 0xfffffffffffu64 < 0x100000000000u64) by (bit_vector);
        }
        self.0 & 0xfffffffffffu64
    }

    /// Translation mode field (bits 60..=63).
    pub open spec fn spec_mode(&self) -> u64 {
        self.0 >> 60
    }

    #[verifier::when_used_as_spec(spec_mode)]
    pub fn mode(&self) -> (r: u64)
        ensures
            r == self.spec_mode(),
    {
        self.0 >> 60
    }

    /// Reset value: bare mode, PPN 0.
    pub fn create() -> (r: Satp)
        ensures
            r.0 == 0,
    {
        Satp(0)
    }
}

} // verus!
