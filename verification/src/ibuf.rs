//! The decoded-instruction cache: direct-mapped by physical PC, a row
//! answers only when both the stored PC and the raw instruction bits
//! match, so self-modifying code is tolerated automatically.
use vstd::prelude::*;

use crate::inst::Decode;

verus! {

/// Number of rows in the cache.
pub const IBUF_ROWS: usize = 65536;

/// One cache row: the physical PC and raw bits it answers for, the index
/// of the matched pattern, and the pre-extracted operands.
#[derive(Clone, Copy, PartialEq, Eq, Structural, Debug)]
pub struct IBufEntry {
    pub valid: bool,
    pub pc: u64,
    pub inst: u64,
    pub pat_idx: usize,
    pub decode: Decode,
}

impl IBufEntry {
    /// An empty row that answers for nothing.
    pub fn create_empty() -> (r: IBufEntry)
        ensures
            r == (IBufEntry {
                valid: false,
                pc: 0,
                inst: 0,
                pat_idx: 0,
                decode: Decode::spec_empty(),
            }),
    {
        IBufEntry { valid: false, pc: 0, inst: 0, pat_idx: 0, decode: Decode::create_empty() }
    }
}

/// The decoded-instruction cache, direct-mapped by `PA mod 65536`.
pub struct SetAssociativeIBuf {
    pub entries: Vec<IBufEntry>,
    /// Lookup hits observed (statistics).
    pub hit: u64,
    /// Lookup misses observed (statistics).
    pub missed: u64,
}

impl SetAssociativeIBuf {
    /// All rows present; a valid row's pattern index is in the table and
    /// its operands are the decode of its instruction bits.
    pub open spec fn wf(self) -> bool {
        &&& self.entries@.len() == IBUF_ROWS
        &&& forall|i: int|
            0 <= i < IBUF_ROWS && (#[trigger] self.entries@[i]).valid ==> self.entries@[i].pat_idx
                < 87 && self.entries@[i].decode.wf()
    }

    /// An empty cache.
    pub fn new() -> (r: SetAssociativeIBuf)
        ensures
            r.wf(),
            forall|i: int| 0 <= i < IBUF_ROWS ==> !(#[trigger] r.entries@[i]).valid,
    {
        let mut entries: Vec<IBufEntry> = Vec::new();
        let mut i: usize = 0;
        while i < IBUF_ROWS
            invariant
                entries@.len() == i,
                i <= IBUF_ROWS,
                forall|k: int| 0 <= k < i ==> !(#[trigger] entries@[k]).valid,
            decreases IBUF_ROWS - i,
        {
            entries.push(IBufEntry::create_empty());
            i = i + 1;
        }
        SetAssociativeIBuf { entries, hit: 0, missed: 0 }
    }

    /// The row a physical PC maps to.
    pub open spec fn spec_entry_idx(pc: u64) -> int {
        (pc % 65536) as int
    }

    /// The row a physical PC maps to.
    pub fn get_entry_idx(&self, pc: u64) -> (r: usize)
        ensures
            r == SetAssociativeIBuf::spec_entry_idx(pc),
            r < IBUF_ROWS,
    {
        (pc % 65536) as usize
    }

    /// Look up a fetch: a hit requires the stored PC and the stored
    /// instruction bits to equal the current ones.
    pub fn get(&self, pc: u64, inst: u64) -> (r: Option<(usize, Decode)>)
        requires
            self.wf(),
        ensures
            ({
                let e = self.entries@[SetAssociativeIBuf::spec_entry_idx(pc)];
                match r {
                    Option::Some(c) => {
                        &&& e.valid
                        &&& e.pc == pc
                        &&& e.inst == inst
                        &&& c.0 == e.pat_idx
                        &&& c.1 == e.decode
                        &&& c.0 < 87
                        &&& c.1.wf()
                    },
                    Option::None => !(e.valid && e.pc == pc && e.inst == inst),
                }
            }),
    {
        let idx = self.get_entry_idx(pc);
        let e = self.entries[idx];
        if e.valid && e.pc == pc && e.inst == inst {
            Option::Some((e.pat_idx, e.decode))
        } else {
            Option::None
        }
    }

    /// Install a decoded instruction for a physical PC.
    pub fn set(&mut self, pc: u64, inst: u64, pat_idx: usize, decode: Decode)
        requires
            old(self).wf(),
            pat_idx < 87,
            decode.wf(),
        ensures
            final(self).wf(),
            final(self).entries@ == old(self).entries@.update(
                SetAssociativeIBuf::spec_entry_idx(pc),
                IBufEntry { valid: true, pc, inst, pat_idx, decode },
            ),
    {
        let idx = self.get_entry_idx(pc);
        self.entries.set(idx, IBufEntry { valid: true, pc, inst, pat_idx, decode });
    }
}

} // verus!
