//! Virtual addresses, Sv39 page-table entries, the TLB and the MMU.
//!
//! Translation is specified by `spec_walk`: a three-level walk over the
//! RAM image, read little-endian, exactly as the hardware would see it.
use vstd::prelude::*;

use crate::bits::le_read_int;
use crate::csr::MCauseCode;
use crate::mem::MemOperationSize;
use crate::mem::Memory;
use crate::mstatus::MStatus;
use crate::mstatus::RISCV64Privilege;
use crate::paddr::CONFIG_MEM_BASE;
use crate::paddr::PAddr;
use crate::satp::SATPMode;
use crate::satp::Satp;

verus! {

/// A virtual address.
#[derive(Clone, Copy, PartialEq, Eq, Structural, Debug)]
pub struct VAddr(pub u64);

impl VAddr {
    pub fn new(addr: u64) -> (r: VAddr)
        ensures
            r.0 == addr,
    {
        VAddr(addr)
    }

    pub fn value(&self) -> (r: u64)
        ensures
            r == self.0,
    {
        self.0
    }

    /// Advance by an access width, wrapping at the top of the space.
    pub fn inc(&mut self, len: MemOperationSize)
        ensures
            final(self).0 == crate::wrap_add64(old(self).0, len.spec_bytes()),
    {
        self.0 = self.0.wrapping_add(len.bytes());
    }
}

/// An Sv39 page-table entry, as its bit image.
#[derive(Clone, Copy, PartialEq, Eq, Structural, Debug)]
pub struct SV39PTE(pub u64);

impl SV39PTE {
    /// Valid bit.
    pub open spec fn spec_v(&self) -> bool {
        self.0 & 1 == 1
    }

    /// Readable bit.
    pub open spec fn spec_r(&self) -> bool {
        (self.0 >> 1) & 1 == 1
    }

    /// Writable bit.
    pub open spec fn spec_w(&self) -> bool {
        (self.0 >> 2) & 1 == 1
    }

    /// Executable bit.
    pub open spec fn spec_x(&self) -> bool {
        (self.0 >> 3) & 1 == 1
    }

    /// User-accessible bit.
    pub open spec fn spec_u(&self) -> bool {
        (self.0 >> 4) & 1 == 1
    }

    /// Accessed bit.
    pub open spec fn spec_a(&self) -> bool {
        (self.0 >> 6) & 1 == 1
    }

    /// Dirty bit.
    pub open spec fn spec_d(&self) -> bool {
        (self.0 >> 7) & 1 == 1
    }

    /// Physical page number (bits 10..=53).
    pub open spec fn spec_ppn(&self) -> u64 {
        (self.0 >> 10) & 0xfffffffffffu64
    }

    /// Physical page number (bits 10..=53).
    #[verifier::when_used_as_spec(spec_ppn)]
    pub fn ppn(&self) -> (r: u64)
        ensures
            r == self.spec_ppn(),
            r <= 0xfffffffffffu64,
    {
        proof {
            let b = self.0;
            assert((b >> 10) & 0xfffffffffffu64 <= 0xfffffffffffu64) by (bit_vector);
        }
        (self.0 >> 10) & 0xfffffffffff
    }

    /// A pointer to the next level: neither readable nor executable.
    pub open spec fn spec_is_next_lvl_ptr(&self) -> bool {
        !(self.spec_r() || self.spec_x())
    }

    /// A pointer to the next level: neither readable nor executable.
    #[verifier::when_used_as_spec(spec_is_next_lvl_ptr)]
    pub fn is_next_lvl_ptr(&self) -> (r: bool)
        ensures
            r == self.spec_is_next_lvl_ptr(),
    {
        !((self.0 >> 1) & 1 == 1 || (self.0 >> 3) & 1 == 1)
    }

    /// Invalid: V clear, or the reserved W-without-R encoding.
    pub open spec fn spec_is_invalid(&self) -> bool {
        !self.spec_v() || (self.spec_w() && !self.spec_r())
    }

    /// Invalid: V clear, or the reserved W-without-R encoding.
    #[verifier::when_used_as_spec(spec_is_invalid)]
    pub fn is_invalid(&self) -> (r: bool)
        ensures
            r == self.spec_is_invalid(),
    {
        !(self.0 & 1 == 1) || ((self.0 >> 2) & 1 == 1 && !((self.0 >> 1) & 1 == 1))
    }

    /// Whether this leaf admits the access: fetch wants X, load wants R
    /// (or X under MXR), store wants W.
    pub open spec fn spec_check_access_type(&self, typ: MemoryAccessType, mxr: bool) -> bool {
        match typ {
            MemoryAccessType::R => self.spec_r() || (self.spec_x() && mxr),
            MemoryAccessType::W => self.spec_w(),
            MemoryAccessType::X => self.spec_x(),
        }
    }

    /// Whether this leaf admits the access.
    #[verifier::when_used_as_spec(spec_check_access_type)]
    pub fn check_access_type(&self, typ: MemoryAccessType, mxr: bool) -> (r: bool)
        ensures
            r == self.spec_check_access_type(typ, mxr),
    {
        match typ {
            MemoryAccessType::R => (self.0 >> 1) & 1 == 1 || ((self.0 >> 3) & 1 == 1 && mxr),
            MemoryAccessType::W => (self.0 >> 2) & 1 == 1,
            MemoryAccessType::X => (self.0 >> 3) & 1 == 1,
        }
    }
}

/// How a translation fails.
#[derive(Clone, Copy, PartialEq, Eq, Structural, Debug)]
pub enum TranslationErr {
    AccessFault,
    PageFault,
}

/// The intent of a memory access.
#[derive(Clone, Copy, PartialEq, Eq, Structural, Debug)]
pub enum MemoryAccessType {
    R,
    W,
    X,
}

/// One direct-mapped TLB entry: the VPN it caches, the leaf PTE value,
/// the walk depth, and the physical addresses of the PTEs visited
/// (one per level; meaningful for levels >= the depth).
#[derive(Clone, Copy, PartialEq, Eq, Structural, Debug)]
pub struct TLBEntry {
    pub vpn: u64,
    pub pte_addr0: u64,
    pub pte_addr1: u64,
    pub pte_addr2: u64,
    pub pte_addrs_len: usize,
    pub pte: u64,
}

impl TLBEntry {
    /// An empty (invalid) entry.
    pub fn new() -> (r: TLBEntry)
        ensures
            r == (TLBEntry {
                vpn: 0,
                pte_addr0: 0,
                pte_addr1: 0,
                pte_addr2: 0,
                pte_addrs_len: 0,
                pte: 0,
            }),
    {
        TLBEntry { vpn: 0, pte_addr0: 0, pte_addr1: 0, pte_addr2: 0, pte_addrs_len: 0, pte: 0 }
    }

    /// The recorded PTE address for level `j`.
    pub open spec fn spec_addr(&self, j: u64) -> u64 {
        if j == 0 {
            self.pte_addr0
        } else if j == 1 {
            self.pte_addr1
        } else {
            self.pte_addr2
        }
    }

    /// The recorded PTE address for level `j`.
    #[verifier::when_used_as_spec(spec_addr)]
    pub fn addr(&self, j: u64) -> (r: u64)
        ensures
            r == self.spec_addr(j),
    {
        if j == 0 {
            self.pte_addr0
        } else if j == 1 {
            self.pte_addr1
        } else {
            self.pte_addr2
        }
    }

    /// Whether the entry answers for `vaddr`: the VPN matches and the
    /// cached PTE is valid.
    pub open spec fn spec_lookup(&self, vaddr: u64) -> bool {
        vaddr >> 12 == self.vpn && self.pte & 1 != 0
    }

    /// Whether the entry answers for `vaddr`.
    #[verifier::when_used_as_spec(spec_lookup)]
    pub fn lookup(&self, vaddr: u64) -> (r: bool)
        ensures
            r == self.spec_lookup(vaddr),
    {
        vaddr >> 12 == self.vpn && self.pte & 1 != 0
    }
}

/// The Sv39 root: base address of the level-2 table.
#[derive(Clone, Copy, PartialEq, Eq, Structural, Debug)]
pub struct SV39 {
    pub lvl1_base: u64,
}

impl SV39 {
    pub fn new() -> (r: SV39)
        ensures
            r.lvl1_base == 0,
    {
        SV39 { lvl1_base: 0 }
    }
}

/// Cached translation inputs: satp mode and root, the current privilege,
/// and the `mstatus` bits the MMU consults.
#[derive(Clone, Copy, PartialEq, Eq, Structural, Debug)]
pub struct TranslationCtrl {
    pub is_bare: bool,
    pub sv39: SV39,
    pub privilege: RISCV64Privilege,
    pub sum: bool,
    pub mxr: bool,
    pub mprv: bool,
    pub mpp: RISCV64Privilege,
}

impl TranslationCtrl {
    /// The reset state: bare translation in M-mode.
    pub open spec fn spec_reset() -> TranslationCtrl {
        TranslationCtrl {
            is_bare: true,
            sv39: SV39 { lvl1_base: 0 },
            privilege: RISCV64Privilege::M,
            sum: false,
            mxr: false,
            mprv: false,
            mpp: RISCV64Privilege::U,
        }
    }

    /// Reset state: bare translation in M-mode.
    pub fn new() -> (r: TranslationCtrl)
        ensures
            r == (TranslationCtrl {
                is_bare: true,
                sv39: SV39 { lvl1_base: 0 },
                privilege: RISCV64Privilege::M,
                sum: false,
                mxr: false,
                mprv: false,
                mpp: RISCV64Privilege::U,
            }),
    {
        TranslationCtrl {
            is_bare: true,
            sv39: SV39::new(),
            privilege: RISCV64Privilege::M,
            sum: false,
            mxr: false,
            mprv: false,
            mpp: RISCV64Privilege::U,
        }
    }

    /// The privilege an access is judged by: MPP for loads and stores
    /// made from M-mode with MPRV set.
    pub open spec fn spec_effective_priv(&self, typ: MemoryAccessType) -> RISCV64Privilege {
        if typ != MemoryAccessType::X && self.privilege == RISCV64Privilege::M && self.mprv
            && self.mpp != RISCV64Privilege::M {
            self.mpp
        } else {
            self.privilege
        }
    }
}

/// The 9-bit VPN slice of `va` for level `lvl`.
pub open spec fn spec_vpn_part(va: u64, lvl: u64) -> u64 {
    if lvl == 0 {
        (va >> 12) & 0x1ff
    } else if lvl == 1 {
        (va >> 21) & 0x1ff
    } else {
        (va >> 30) & 0x1ff
    }
}

/// The 9-bit VPN slice of `va` for level `lvl`.
#[verifier::when_used_as_spec(spec_vpn_part)]
pub fn vpn_part(va: u64, lvl: u64) -> (r: u64)
    ensures
        r == spec_vpn_part(va, lvl),
        r <= 0x1ff,
{
    proof {
        assert((va >> 12) & 0x1ff <= 0x1ff && (va >> 21) & 0x1ff <= 0x1ff && (va >> 30) & 0x1ff
            <= 0x1ff) by (bit_vector);
    }
    if lvl == 0 {
        (va >> 12) & 0x1ff
    } else if lvl == 1 {
        (va >> 21) & 0x1ff
    } else {
        (va >> 30) & 0x1ff
    }
}

/// Sv39 canonical form: bits 63..=39 equal bit 38.
pub open spec fn spec_canonical(va: u64) -> bool {
    (va >> 38) == 0 || (va >> 38) == 0x3ffffff
}

/// The whole 8-byte range at `addr` lies in RAM.
pub open spec fn spec_pte_in_ram(mem: Seq<u8>, addr: int) -> bool {
    CONFIG_MEM_BASE <= addr && addr - CONFIG_MEM_BASE + 8 <= mem.len()
}

/// The PTE stored at physical address `addr`.
pub open spec fn spec_pte_at(mem: Seq<u8>, addr: int) -> u64 {
    le_read_int(mem, addr - CONFIG_MEM_BASE, 8) as u64
}

/// The outcome of a page-table walk.
#[derive(Clone, Copy, PartialEq, Eq, Structural, Debug)]
pub enum WalkResult {
    WAccessFault,
    WPageFault,
    WLeaf { pte: u64, lvl: u64 },
}

/// A leaf at `lvl` is a misaligned superpage if the low `9*lvl` PPN bits
/// are not zero.
pub open spec fn spec_misaligned_superpage(pte: u64, lvl: u64) -> bool {
    if lvl == 1 {
        SV39PTE(pte).spec_ppn() & 0x1ffu64 != 0
    } else if lvl == 2 {
        SV39PTE(pte).spec_ppn() & 0x3ffffu64 != 0
    } else {
        false
    }
}

/// The physical address of the PTE consulted at level 2.
pub open spec fn spec_walk_addr2(root: u64, va: u64) -> int {
    root + spec_vpn_part(va, 2) * 8
}

/// The table base for level 1, assuming level 2 held a pointer.
pub open spec fn spec_walk_base1(mem: Seq<u8>, root: u64, va: u64) -> u64 {
    SV39PTE(spec_pte_at(mem, spec_walk_addr2(root, va))).spec_ppn() << 12
}

/// The physical address of the PTE consulted at level 1.
pub open spec fn spec_walk_addr1(mem: Seq<u8>, root: u64, va: u64) -> int {
    spec_walk_base1(mem, root, va) + spec_vpn_part(va, 1) * 8
}

/// The table base for level 0, assuming levels 2 and 1 held pointers.
pub open spec fn spec_walk_base0(mem: Seq<u8>, root: u64, va: u64) -> u64 {
    SV39PTE(spec_pte_at(mem, spec_walk_addr1(mem, root, va))).spec_ppn() << 12
}

/// The physical address of the PTE consulted at level 0.
pub open spec fn spec_walk_addr0(mem: Seq<u8>, root: u64, va: u64) -> int {
    spec_walk_base0(mem, root, va) + spec_vpn_part(va, 0) * 8
}

/// The physical address of the PTE consulted at level `lvl`.
pub open spec fn spec_walk_addr(mem: Seq<u8>, root: u64, va: u64, lvl: u64) -> int {
    if lvl == 2 {
        spec_walk_addr2(root, va)
    } else if lvl == 1 {
        spec_walk_addr1(mem, root, va)
    } else {
        spec_walk_addr0(mem, root, va)
    }
}

/// One level of the walk: read the PTE at `addr`; `Some(next)` asks the
/// walk to continue at table base `next`.
pub open spec fn spec_walk_step(mem: Seq<u8>, addr: int, lvl: u64) -> (Option<u64>, WalkResult) {
    if !spec_pte_in_ram(mem, addr) {
        (Option::None, WalkResult::WAccessFault)
    } else {
        let pte = SV39PTE(spec_pte_at(mem, addr));
        if pte.spec_is_invalid() {
            (Option::None, WalkResult::WPageFault)
        } else if !pte.spec_is_next_lvl_ptr() {
            if spec_misaligned_superpage(pte.0, lvl) {
                (Option::None, WalkResult::WPageFault)
            } else {
                (Option::None, WalkResult::WLeaf { pte: pte.0, lvl })
            }
        } else if lvl == 0 {
            (Option::None, WalkResult::WPageFault)
        } else {
            (Option::Some(pte.spec_ppn() << 12), WalkResult::WPageFault)
        }
    }
}

/// The three-level Sv39 walk from table root `root` for `va`, over the
/// RAM image `mem`.
pub open spec fn spec_walk(mem: Seq<u8>, root: u64, va: u64) -> WalkResult {
    let s2 = spec_walk_step(mem, spec_walk_addr2(root, va), 2);
    match s2.0 {
        Option::None => s2.1,
        Option::Some(_) => {
            let s1 = spec_walk_step(mem, spec_walk_addr1(mem, root, va), 1);
            match s1.0 {
                Option::None => s1.1,
                Option::Some(_) => spec_walk_step(mem, spec_walk_addr0(mem, root, va), 0).1,
            }
        },
    }
}

/// The Sv39 step-7 permission rule: the leaf must admit the intent
/// under the effective privilege, SUM and MXR.
pub open spec fn spec_perm_ok(
    pte: u64,
    typ: MemoryAccessType,
    eff: RISCV64Privilege,
    sum: bool,
    mxr: bool,
) -> bool {
    let p = SV39PTE(pte);
    &&& (eff == RISCV64Privilege::U ==> p.spec_u())
    &&& (p.spec_u() && eff != RISCV64Privilege::U ==> sum)
    &&& p.spec_check_access_type(typ, mxr)
}

/// The physical address a leaf at `lvl` maps `va` to: the PPN's upper
/// part glued to the low `9*lvl + 12` bits of `va`.
pub open spec fn spec_leaf_pa(pte: u64, lvl: u64, va: u64) -> u64 {
    let ppn = SV39PTE(pte).spec_ppn();
    if lvl == 0 {
        (ppn << 12) | (va & 0xfffu64)
    } else if lvl == 1 {
        (ppn << 12) | (va & 0x1fffffu64)
    } else {
        (ppn << 12) | (va & 0x3fffffffu64)
    }
}

} // verus!

verus! {

/// The A and D bits a successful translation must set: A always, D when
/// the intent is a store; only bits not already set are written.
pub open spec fn spec_ad_bits(pte: u64, typ: MemoryAccessType) -> u64 {
    ((if !SV39PTE(pte).spec_a() {
        0x40int
    } else {
        0int
    }) + (if typ == MemoryAccessType::W && !SV39PTE(pte).spec_d() {
        0x80int
    } else {
        0int
    })) as u64
}

/// Translation is bypassed (the PA is the VA): bare mode, or an access
/// judged at M privilege.
pub open spec fn spec_bypass(ctrl: TranslationCtrl, typ: MemoryAccessType) -> bool {
    ctrl.is_bare || ctrl.spec_effective_priv(typ) == RISCV64Privilege::M
}

/// Facts about OR-ing A/D bits into a PTE image: the flags the walk and
/// the permission check read do not move, A and D rise as asked.
pub proof fn lemma_ad_or(p: u64, b: u64)
    by (bit_vector)
    requires
        b & !0xc0u64 == 0,
    ensures
        (p | b) & 1 == p & 1,
        ((p | b) >> 1) & 1 == (p >> 1) & 1,
        ((p | b) >> 2) & 1 == (p >> 2) & 1,
        ((p | b) >> 3) & 1 == (p >> 3) & 1,
        ((p | b) >> 4) & 1 == (p >> 4) & 1,
        ((p | b) >> 10) & 0xfffffffffffu64 == (p >> 10) & 0xfffffffffffu64,
        b & 0x40 != 0 ==> ((p | b) >> 6) & 1 == 1,
        b & 0x80 != 0 ==> ((p | b) >> 7) & 1 == 1,
        b & 0x40 == 0 ==> ((p | b) >> 6) & 1 == (p >> 6) & 1,
        b & 0x80 == 0 ==> ((p | b) >> 7) & 1 == (p >> 7) & 1,
{
}

/// Byte-level facts for the A/D read-modify-write: OR with zero is the
/// identity and OR is idempotent.
pub proof fn lemma_or8_facts()
    by (bit_vector)
    ensures
        forall|x: u8| #[trigger] (x | 0u8) == x,
        forall|x: u8, b: u8| #[trigger] ((x | b) | b) == x | b,
{
}

/// The MMU: the physical address space it reaches, the cached
/// translation inputs, and a 2048-entry direct-mapped TLB.
pub struct MMU {
    pub mem: Memory,
    pub translation_ctrl: TranslationCtrl,
    pub tlb: Vec<TLBEntry>,
    /// TLB misses observed (statistics).
    pub miss: u64,
    /// TLB hits observed (statistics).
    pub hit: u64,
}

impl MMU {
    /// TLB geometry, a sane root pointer, and cached entries whose
    /// recorded PTE addresses still lie in RAM (so A/D maintenance can
    /// write them).
    pub open spec fn wf(self) -> bool {
        &&& self.mem.wf()
        &&& self.tlb@.len() == 2048
        &&& self.translation_ctrl.sv39.lvl1_base <= 0xfffffffffff000u64
        &&& forall|i: int|
            0 <= i < 2048 && (#[trigger] self.tlb@[i]).pte & 1 == 1 ==> {
                &&& self.tlb@[i].pte_addrs_len <= 2
                &&& forall|j: u64|
                    self.tlb@[i].pte_addrs_len <= j <= 2 ==> spec_pte_in_ram(
                        self.mem@,
                        #[trigger] self.tlb@[i].spec_addr(j) as int,
                    )
            }
    }

    /// A fresh MMU over `mem`: bare translation, empty TLB.
    pub fn new(mem: Memory) -> (r: MMU)
        requires
            mem.wf(),
        ensures
            r.wf(),
            r.mem == mem,
            r.translation_ctrl == TranslationCtrl::spec_reset(),
            forall|i: int| 0 <= i < 2048 ==> (#[trigger] r.tlb@[i]).pte == 0,
    {
        let mut tlb: Vec<TLBEntry> = Vec::new();
        let mut i: usize = 0;
        while i < 2048
            invariant
                tlb@.len() == i,
                i <= 2048,
                forall|k: int| 0 <= k < i ==> (#[trigger] tlb@[k]).pte == 0,
            decreases 2048 - i,
        {
            tlb.push(TLBEntry::new());
            i = i + 1;
        }
        proof {
            assert(0u64 & 1 == 0) by (bit_vector);
        }
        MMU { mem, translation_ctrl: TranslationCtrl::new(), tlb, miss: 0, hit: 0 }
    }

    /// In bare mode a physical address is its own virtual address.
    pub fn paddr_to_vaddr(&self, paddr: &PAddr) -> (r: VAddr)
        requires
            self.translation_ctrl.is_bare,
        ensures
            r.0 == paddr.0,
    {
        VAddr(paddr.0)
    }

    /// Drop every TLB entry: the next access to any VPN walks the page
    /// table again.
    pub fn sfence_vma(&mut self)
        requires
            old(self).wf(),
        ensures
            final(self).wf(),
            final(self).mem == old(self).mem,
            final(self).translation_ctrl == old(self).translation_ctrl,
            forall|i: int| 0 <= i < 2048 ==> (#[trigger] final(self).tlb@[i]).pte == 0,
            forall|i: int|
                0 <= i < 2048 ==> !(#[trigger] final(self).tlb@[i]).spec_lookup(0) && forall|
                    va: u64,
                |
                    !final(self).tlb@[i].spec_lookup(va),
    {
        let mut i: usize = 0;
        while i < 2048
            invariant
                old(self).wf(),
                self.tlb@.len() == 2048,
                i <= 2048,
                self.mem == old(self).mem,
                self.translation_ctrl == old(self).translation_ctrl,
                self.miss == old(self).miss,
                self.hit == old(self).hit,
                forall|k: int| 0 <= k < i ==> (#[trigger] self.tlb@[k]).pte == 0,
            decreases 2048 - i,
        {
            self.tlb.set(i, TLBEntry::new());
            i = i + 1;
        }
        proof {
            assert(0u64 & 1 == 0) by (bit_vector);
        }
    }

    /// Install the walk result for `va` in the TLB.
    fn install_tlb(&mut self, va: u64, pte: u64, lvl: u64, a0: u64, a1: u64, a2: u64)
        requires
            old(self).wf(),
            lvl <= 2,
            lvl == 0 ==> spec_pte_in_ram(old(self).mem@, a0 as int),
            lvl <= 1 ==> spec_pte_in_ram(old(self).mem@, a1 as int),
            spec_pte_in_ram(old(self).mem@, a2 as int),
        ensures
            final(self).wf(),
            final(self).mem == old(self).mem,
            final(self).translation_ctrl == old(self).translation_ctrl,
            final(self).miss == old(self).miss,
            final(self).hit == old(self).hit,
            final(self).tlb@ == old(self).tlb@.update(
                ((va >> 12) % 2048) as int,
                TLBEntry {
                    vpn: va >> 12,
                    pte_addr0: a0,
                    pte_addr1: a1,
                    pte_addr2: a2,
                    pte_addrs_len: lvl as usize,
                    pte,
                },
            ),
    {
        let idx = ((va >> 12) % 2048) as usize;
        let entry = TLBEntry {
            vpn: va >> 12,
            pte_addr0: a0,
            pte_addr1: a1,
            pte_addr2: a2,
            pte_addrs_len: lvl as usize,
            pte,
        };
        self.tlb.set(idx, entry);
    }

    /// Walk the page table for `va` and cache the outcome. The result
    /// and the installed entry follow `spec_walk` over the current RAM.
    pub fn pt_walk(&mut self, vaddr: u64) -> (r: Result<(), TranslationErr>)
        requires
            old(self).wf(),
        ensures
            final(self).wf(),
            final(self).mem == old(self).mem,
            final(self).translation_ctrl == old(self).translation_ctrl,
            final(self).miss == old(self).miss,
            final(self).hit == old(self).hit,
            ({
                let root = old(self).translation_ctrl.sv39.lvl1_base;
                match spec_walk(old(self).mem@, root, vaddr) {
                    WalkResult::WAccessFault => r == Result::<(), TranslationErr>::Err(
                        TranslationErr::AccessFault,
                    ) && final(self).tlb == old(self).tlb,
                    WalkResult::WPageFault => r == Result::<(), TranslationErr>::Err(
                        TranslationErr::PageFault,
                    ) && final(self).tlb == old(self).tlb,
                    WalkResult::WLeaf { pte, lvl } => {
                        &&& r == Result::<(), TranslationErr>::Ok(())
                        &&& final(self).tlb@ == old(self).tlb@.update(
                            ((vaddr >> 12) % 2048) as int,
                            TLBEntry {
                                vpn: vaddr >> 12,
                                pte_addr0: if lvl == 0 {
                                    spec_walk_addr0(old(self).mem@, root, vaddr) as u64
                                } else {
                                    0u64
                                },
                                pte_addr1: if lvl <= 1 {
                                    spec_walk_addr1(old(self).mem@, root, vaddr) as u64
                                } else {
                                    0u64
                                },
                                pte_addr2: spec_walk_addr2(root, vaddr) as u64,
                                pte_addrs_len: lvl as usize,
                                pte,
                            },
                        )
                    },
                }
            }),
    {
        let va = vaddr;
        let root = self.translation_ctrl.sv39.lvl1_base;
        // Level 2.
        let a2addr: u64 = root + vpn_part(va, 2) * 8;
        let w2 = self.mem.read_mem(&PAddr(a2addr), MemOperationSize::QWORD);
        if w2.is_none() {
            return Result::Err(TranslationErr::AccessFault);
        }
        let pte2 = SV39PTE(w2.unwrap());
        if pte2.is_invalid() {
            return Result::Err(TranslationErr::PageFault);
        }
        if !pte2.is_next_lvl_ptr() {
            if pte2.ppn() & 0x3ffff != 0 {
                return Result::Err(TranslationErr::PageFault);
            }
            self.install_tlb(va, pte2.0, 2, 0, 0, a2addr);
            return Result::Ok(());
        }
        // Level 1.
        let b1: u64 = pte2.ppn() << 12;
        proof {
            let p = pte2.0;
            assert(((p >> 10) & 0xfffffffffffu64) << 12 <= 0xfffffffffff000u64) by (bit_vector);
        }
        let a1addr: u64 = b1 + vpn_part(va, 1) * 8;
        let w1 = self.mem.read_mem(&PAddr(a1addr), MemOperationSize::QWORD);
        if w1.is_none() {
            return Result::Err(TranslationErr::AccessFault);
        }
        let pte1 = SV39PTE(w1.unwrap());
        if pte1.is_invalid() {
            return Result::Err(TranslationErr::PageFault);
        }
        if !pte1.is_next_lvl_ptr() {
            if pte1.ppn() & 0x1ff != 0 {
                return Result::Err(TranslationErr::PageFault);
            }
            self.install_tlb(va, pte1.0, 1, 0, a1addr, a2addr);
            return Result::Ok(());
        }
        // Level 0.
        let b0: u64 = pte1.ppn() << 12;
        proof {
            let p = pte1.0;
            assert(((p >> 10) & 0xfffffffffffu64) << 12 <= 0xfffffffffff000u64) by (bit_vector);
        }
        let a0addr: u64 = b0 + vpn_part(va, 0) * 8;
        let w0 = self.mem.read_mem(&PAddr(a0addr), MemOperationSize::QWORD);
        if w0.is_none() {
            return Result::Err(TranslationErr::AccessFault);
        }
        let pte0 = SV39PTE(w0.unwrap());
        if pte0.is_invalid() {
            return Result::Err(TranslationErr::PageFault);
        }
        if pte0.is_next_lvl_ptr() {
            return Result::Err(TranslationErr::PageFault);
        }
        self.install_tlb(va, pte0.0, 0, a0addr, a1addr, a2addr);
        Result::Ok(())
    }
}

} // verus!

verus! {

/// Which bytes of RAM the A/D maintenance of entry `e` touches: byte 0
/// of each PTE the cached walk visited.
pub open spec fn spec_is_ad_target(e: TLBEntry, b: int) -> bool {
    exists|j: u64|
        e.pte_addrs_len <= j <= 2 && b == #[trigger] e.spec_addr(j) - CONFIG_MEM_BASE
}

/// The RAM image after A/D maintenance: the targeted bytes take the OR
/// of `bits`, everything else is untouched.
pub open spec fn spec_ad_mem(pre: Seq<u8>, post: Seq<u8>, e: TLBEntry, bits: u64) -> bool {
    &&& post.len() == pre.len()
    &&& forall|b: int|
        0 <= b < pre.len() ==> post[b] == (if spec_is_ad_target(e, b) {
            pre[b] | (bits as u8)
        } else {
            pre[b]
        })
}

/// Everything `translate` does, as a relation between the MMU before and
/// after. On success the physical address glues the leaf PPN to the low
/// bits of the virtual address, the leaf admits the access under the
/// effective privilege, the answer is cached in the TLB, and the A and D
/// bits are folded into the visited PTEs. In bare mode, or judged at M,
/// the address passes through untouched.
pub open spec fn spec_translate_post(
    pre: MMU,
    post: MMU,
    va: u64,
    typ: MemoryAccessType,
    r: Result<u64, TranslationErr>,
) -> bool {
    let ctrl = pre.translation_ctrl;
    let eff = ctrl.spec_effective_priv(typ);
    let root = ctrl.sv39.lvl1_base;
    let idx = ((va >> 12) % 2048) as int;
    let hit = pre.tlb@[idx].spec_lookup(va);
    &&& post.translation_ctrl == ctrl
    &&& post.mem.devices == pre.mem.devices
    &&& post.mem.mmio == pre.mem.mmio
    &&& post.mem@.len() == pre.mem@.len()
    &&& (spec_bypass(ctrl, typ) ==> r == Result::<u64, TranslationErr>::Ok(va) && post.mem@
        == pre.mem@ && post.tlb == pre.tlb)
    &&& (!spec_bypass(ctrl, typ) && !spec_canonical(va) ==> r == Result::<u64, TranslationErr>::Err(
        TranslationErr::PageFault,
    ) && post.mem@ == pre.mem@ && post.tlb == pre.tlb)
    &&& (!spec_bypass(ctrl, typ) && spec_canonical(va) ==> spec_translate_active_post(
        pre,
        post,
        va,
        typ,
        r,
    ))
}

/// The active-translation part of `spec_translate_post`: the TLB entry
/// (cached or walked), the permission verdict, the composed address and
/// the A/D side effects.
pub open spec fn spec_translate_active_post(
    pre: MMU,
    post: MMU,
    va: u64,
    typ: MemoryAccessType,
    r: Result<u64, TranslationErr>,
) -> bool {
    let ctrl = pre.translation_ctrl;
    let eff = ctrl.spec_effective_priv(typ);
    let root = ctrl.sv39.lvl1_base;
    let idx = ((va >> 12) % 2048) as int;
    let hit = pre.tlb@[idx].spec_lookup(va);
    let src: Result<(u64, u64), TranslationErr> = if hit {
        Result::Ok((pre.tlb@[idx].pte, pre.tlb@[idx].pte_addrs_len as u64))
    } else {
        match spec_walk(pre.mem@, root, va) {
            WalkResult::WAccessFault => Result::Err(TranslationErr::AccessFault),
            WalkResult::WPageFault => Result::Err(TranslationErr::PageFault),
            WalkResult::WLeaf { pte, lvl } => Result::Ok((pte, lvl)),
        }
    };
    match src {
        Result::Err(e) => r == Result::<u64, TranslationErr>::Err(e) && post.mem@ == pre.mem@
            && post.tlb == pre.tlb,
        Result::Ok(src_pair) => {
            let pte0 = src_pair.0;
            let lvl = src_pair.1;
            &&& post.tlb@.len() == pre.tlb@.len()
            &&& post.tlb@[idx].vpn == va >> 12
            &&& post.tlb@[idx].pte_addrs_len == lvl
            &&& (forall|k: int|
                0 <= k < 2048 && k != idx ==> post.tlb@[k] == #[trigger] pre.tlb@[k])
            &&& (hit ==> post.tlb@[idx].pte_addr0 == pre.tlb@[idx].pte_addr0 && post.tlb@[
                idx
            ].pte_addr1 == pre.tlb@[idx].pte_addr1 && post.tlb@[idx].pte_addr2 == pre.tlb@[
                idx
            ].pte_addr2)
            &&& (!hit ==> {
                &&& (lvl == 0 ==> post.tlb@[idx].pte_addr0 == spec_walk_addr0(
                    pre.mem@,
                    root,
                    va,
                ) as u64)
                &&& (lvl <= 1 ==> post.tlb@[idx].pte_addr1 == spec_walk_addr1(
                    pre.mem@,
                    root,
                    va,
                ) as u64)
                &&& post.tlb@[idx].pte_addr2 == spec_walk_addr2(root, va) as u64
            })
            &&& (!spec_perm_ok(pte0, typ, eff, ctrl.sum, ctrl.mxr) ==> r == Result::<
                u64,
                TranslationErr,
            >::Err(TranslationErr::PageFault) && post.mem@ == pre.mem@ && post.tlb@[idx].pte
                == pte0)
            &&& (spec_perm_ok(pte0, typ, eff, ctrl.sum, ctrl.mxr) ==> {
                &&& r == Result::<u64, TranslationErr>::Ok(spec_leaf_pa(pte0, lvl, va))
                &&& lvl <= 2
                &&& post.tlb@[idx].pte == (pte0 | spec_ad_bits(pte0, typ))
                &&& spec_ad_mem(pre.mem@, post.mem@, post.tlb@[idx], spec_ad_bits(pte0, typ))
            })
        },
    }
}

/// The translation-control bits `update_priv` derives from `mstatus`.
pub open spec fn spec_priv_refresh(pre: TranslationCtrl, mstatus: MStatus) -> TranslationCtrl {
    TranslationCtrl {
        sum: mstatus.spec_SUM(),
        mxr: mstatus.spec_MXR(),
        mprv: mstatus.spec_MPRV(),
        mpp: if mstatus.spec_MPP() == 3 {
            RISCV64Privilege::M
        } else if mstatus.spec_MPP() == 1 {
            RISCV64Privilege::S
        } else {
            RISCV64Privilege::U
        },
        ..pre
    }
}

impl MMU {
    /// Translate `vaddr` for an access of intent `typ`, filling the TLB
    /// and maintaining A/D bits; see `spec_translate_post`.
    #[verifier::rlimit(100)]
    #[verifier::spinoff_prover]
    pub fn translate(&mut self, vaddr: &VAddr, typ: MemoryAccessType) -> (r: Result<
        PAddr,
        TranslationErr,
    >)
        requires
            old(self).wf(),
        ensures
            final(self).wf(),
            spec_translate_post(
                *old(self),
                *final(self),
                vaddr.0,
                typ,
                match r {
                    Result::Ok(p) => Result::Ok(p.0),
                    Result::Err(e) => Result::Err(e),
                },
            ),
    {
        let va = vaddr.0;
        let eff = if typ != MemoryAccessType::X && self.translation_ctrl.privilege
            == RISCV64Privilege::M && self.translation_ctrl.mprv && self.translation_ctrl.mpp
            != RISCV64Privilege::M {
            self.translation_ctrl.mpp
        } else {
            self.translation_ctrl.privilege
        };
        if self.translation_ctrl.is_bare || eff == RISCV64Privilege::M {
            return Result::Ok(PAddr(va));
        }
        if !((va >> 38) == 0 || (va >> 38) == 0x3ffffff) {
            return Result::Err(TranslationErr::PageFault);
        }
        let idx = ((va >> 12) % 2048) as usize;
        let hit = self.tlb[idx].lookup(va);
        if !hit {
            match self.pt_walk(va) {
                Result::Err(e) => {
                    return Result::Err(e);
                },
                Result::Ok(()) => {
                    self.miss = self.miss.wrapping_add(1);
                },
            }
        } else {
            self.hit = self.hit.wrapping_add(1);
        }
        let entry = self.tlb[idx];
        let pte0 = entry.pte;
        let lvl = entry.pte_addrs_len as u64;
        let p = SV39PTE(pte0);
        // Permission checks under the effective privilege.
        let mut ok = true;
        if eff == RISCV64Privilege::U && !((pte0 >> 4) & 1 == 1) {
            ok = false;
        }
        if ((pte0 >> 4) & 1 == 1) && eff != RISCV64Privilege::U && !self.translation_ctrl.sum {
            ok = false;
        }
        if !p.check_access_type(typ, self.translation_ctrl.mxr) {
            ok = false;
        }
        if !ok {
            proof {
                assert(spec_translate_active_post(
                    *old(self),
                    *self,
                    va,
                    typ,
                    Result::Err(TranslationErr::PageFault),
                ));
            }
            return Result::Err(TranslationErr::PageFault);
        }
        // A/D maintenance.
        let a_part: u64 = if !((pte0 >> 6) & 1 == 1) {
            0x40
        } else {
            0
        };
        let d_part: u64 = if typ == MemoryAccessType::W && !((pte0 >> 7) & 1 == 1) {
            0x80
        } else {
            0
        };
        let bits = a_part + d_part;
        proof {
            lemma_or8_facts();
            crate::bits::lemma_pow256_values();
        }
        proof {
            let pp = entry.pte;
            assert(pp & 1 != 0 ==> pp & 1 == 1) by (bit_vector);
            if !hit {
                assert(entry.pte & 1 == 1);
            }
        }
        let ghost pre_ad = *self;
        if bits != 0 {
            let mut j: u64 = lvl;
            while j < 3
                invariant
                    pre_ad.wf(),
                    self.wf(),
                    bits <= 0xc0,
                    lvl <= j <= 3,
                    lvl == entry.pte_addrs_len as u64,
                    self.tlb@.len() == 2048,
                    idx < 2048,
                    self.tlb@[idx as int] == entry,
                    entry.pte & 1 == 1,
                    self.translation_ctrl == pre_ad.translation_ctrl,
                    self.mem.devices == pre_ad.mem.devices,
                    self.mem.mmio == pre_ad.mem.mmio,
                    self.tlb == pre_ad.tlb,
                    self.mem@.len() == pre_ad.mem@.len(),
                    forall|b: int|
                        0 <= b < pre_ad.mem@.len() ==> self.mem@[b] == (if (exists|j2: u64|
                            lvl <= j2 < j && b == #[trigger] entry.spec_addr(j2)
                                - CONFIG_MEM_BASE) {
                            pre_ad.mem@[b] | (bits as u8)
                        } else {
                            pre_ad.mem@[b]
                        }),
                decreases 3 - j,
            {
                let ghost mem_before = self.mem@;
                let addr = self.tlb[idx].addr(j);
                proof {
                    assert(spec_pte_in_ram(self.mem@, entry.spec_addr(j) as int));
                    crate::bits::lemma_pow256_values();
                    vstd::arithmetic::div_mod::lemma_small_mod(bits as nat, 256);
                }
                let _ = self.mem.pmem_bitor(&PAddr(addr), bits, MemOperationSize::Byte);
                proof {
                    lemma_or8_facts();
                    crate::bits::lemma_pow256_values();
                    vstd::arithmetic::div_mod::lemma_small_mod(bits as nat, 256);
                    assert(crate::bits::le_byte(bits, 0) == bits as u8);
                    assert(entry.spec_addr(j) == addr);
                    assert forall|b: int| 0 <= b < pre_ad.mem@.len() implies self.mem@[b] == (if (
                    exists|j2: u64|
                        lvl <= j2 < j + 1 && b == #[trigger] entry.spec_addr(j2)
                            - CONFIG_MEM_BASE) {
                        pre_ad.mem@[b] | (bits as u8)
                    } else {
                        pre_ad.mem@[b]
                    }) by {
                        if b == addr - CONFIG_MEM_BASE {
                            assert(lvl <= j < j + 1 && b == entry.spec_addr(j) - CONFIG_MEM_BASE);
                            assert(self.mem@[b] == mem_before[b] | (bits as u8));
                            if (exists|j2: u64|
                                lvl <= j2 < j && b == #[trigger] entry.spec_addr(j2)
                                    - CONFIG_MEM_BASE) {
                                assert(mem_before[b] == pre_ad.mem@[b] | (bits as u8));
                            } else {
                                assert(mem_before[b] == pre_ad.mem@[b]);
                            }
                        } else {
                            assert(self.mem@[b] == mem_before[b]);
                            if (exists|j2: u64|
                                lvl <= j2 < j + 1 && b == #[trigger] entry.spec_addr(j2)
                                    - CONFIG_MEM_BASE) {
                                let j2 = choose|j2: u64|
                                    lvl <= j2 < j + 1 && b == #[trigger] entry.spec_addr(j2)
                                        - CONFIG_MEM_BASE;
                                assert(j2 < j);
                            }
                        }
                    }
                }
                j = j + 1;
            }
            let mut e2 = self.tlb[idx];
            e2.pte = pte0 | bits;
            self.tlb.set(idx, e2);
            proof {
                assert(bits & !0xc0u64 == 0) by (bit_vector)
                    requires
                        bits == 0x40u64 || bits == 0x80u64 || bits == 0xc0u64 || bits == 0u64,
                ;
                lemma_ad_or(pte0, bits);
                assert(bits == spec_ad_bits(pte0, typ));
                assert forall|jj: u64|
                    e2.pte_addrs_len <= jj <= 2 implies spec_pte_in_ram(
                    self.mem@,
                    #[trigger] e2.spec_addr(jj) as int,
                ) by {
                    assert(e2.spec_addr(jj) == entry.spec_addr(jj));
                    assert(spec_pte_in_ram(pre_ad.mem@, entry.spec_addr(jj) as int));
                }
                assert forall|b: int| 0 <= b < pre_ad.mem@.len() implies self.mem@[b] == (if
                    spec_is_ad_target(e2, b) {
                    pre_ad.mem@[b] | (bits as u8)
                } else {
                    pre_ad.mem@[b]
                }) by {
                    if spec_is_ad_target(e2, b) {
                        let j2 = choose|j2: u64|
                            e2.pte_addrs_len <= j2 <= 2 && b == #[trigger] e2.spec_addr(j2)
                                - CONFIG_MEM_BASE;
                        assert(entry.spec_addr(j2) == e2.spec_addr(j2));
                        assert(lvl <= j2 < 3 && b == entry.spec_addr(j2) - CONFIG_MEM_BASE);
                    }
                    if (exists|j2: u64|
                        lvl <= j2 < 3 && b == #[trigger] entry.spec_addr(j2) - CONFIG_MEM_BASE) {
                        let j2 = choose|j2: u64|
                            lvl <= j2 < 3 && b == #[trigger] entry.spec_addr(j2) - CONFIG_MEM_BASE;
                        assert(e2.spec_addr(j2) == entry.spec_addr(j2));
                        assert(e2.pte_addrs_len <= j2 <= 2 && b == e2.spec_addr(j2)
                            - CONFIG_MEM_BASE);
                        assert(spec_is_ad_target(e2, b));
                    }
                }
                assert(spec_ad_mem(pre_ad.mem@, self.mem@, e2, bits));
            }
        } else {
            proof {
                assert(pte0 | 0u64 == pte0) by (bit_vector);
                assert(bits == spec_ad_bits(pte0, typ));
                assert forall|b: int| 0 <= b < self.mem@.len() implies self.mem@[b] == (if
                    spec_is_ad_target(self.tlb@[idx as int], b) {
                    self.mem@[b] | (bits as u8)
                } else {
                    self.mem@[b]
                }) by {
                    lemma_or8_facts();
                    assert((bits as u8) == 0);
                }
            }
        }
        // Compose the physical address from the leaf PPN and the page
        // offset (wider for superpages).
        let ppn = SV39PTE(pte0).ppn();
        let base: u64 = ppn << 12;
        proof {
            let pp = pte0;
            assert(((pp >> 10) & 0xfffffffffffu64) << 12 <= 0xfffffffffff000u64) by (bit_vector);
            let bb = base;
            let vv = va;
            assert(bb <= 0xfffffffffff000u64 ==> bb | (vv & 0xfffu64) <= 0xffffffffffffffffu64
                && bb | (vv & 0x1fffffu64) >= 0 && bb | (vv & 0x3fffffffu64) >= 0) by (bit_vector);
        }
        let pa: u64 = if lvl == 0 {
            base | (va & 0xfff)
        } else if lvl == 1 {
            base | (va & 0x1fffff)
        } else {
            base | (va & 0x3fffffff)
        };
        proof {
            assert(pa == spec_leaf_pa(pte0, lvl, va));
            assert(spec_translate_active_post(
                *old(self),
                *self,
                va,
                typ,
                Result::Ok(pa),
            ));
        }
        Result::Ok(PAddr(pa))
    }

    /// Alignment of `vaddr` for an operand of width `len`.
    pub fn is_aligned(&self, vaddr: &VAddr, len: MemOperationSize) -> (r: bool)
        ensures
            r == (vaddr.0 % len.spec_bytes() == 0),
    {
        vaddr.0 % len.bytes() == 0
    }

    /// Recompute translation mode and root from a `satp` image. Only the
    /// bare and Sv39 modes exist on this hart.
    pub fn update_translation_ctrl(&mut self, satp: &Satp)
        requires
            old(self).wf(),
            SATPMode::spec_from_repr(satp.spec_mode()) is Some,
        ensures
            final(self).wf(),
            *final(self) == (MMU {
                translation_ctrl: TranslationCtrl {
                    is_bare: satp.spec_mode() == 0,
                    sv39: SV39 { lvl1_base: satp.spec_ppn() << 12 },
                    ..old(self).translation_ctrl
                },
                ..*old(self)
            }),
    {
        let mode = satp.mode();
        self.translation_ctrl.is_bare = mode == 0;
        proof {
            let s = satp.0;
            assert((s & 0xfffffffffffu64) << 12 <= 0xfffffffffff000u64) by (bit_vector);
        }
        self.translation_ctrl.sv39.lvl1_base = satp.ppn() << 12;
    }

    /// Refresh the `mstatus`-derived bits the MMU consults: SUM, MXR,
    /// MPRV and MPP.
    pub fn update_priv(&mut self, mstatus: &MStatus)
        requires
            old(self).wf(),
        ensures
            final(self).wf(),
            *final(self) == (MMU {
                translation_ctrl: TranslationCtrl {
                    sum: mstatus.spec_SUM(),
                    mxr: mstatus.spec_MXR(),
                    mprv: mstatus.spec_MPRV(),
                    mpp: if mstatus.spec_MPP() == 3 {
                        RISCV64Privilege::M
                    } else if mstatus.spec_MPP() == 1 {
                        RISCV64Privilege::S
                    } else {
                        RISCV64Privilege::U
                    },
                    ..old(self).translation_ctrl
                },
                ..*old(self)
            }),
    {
        self.translation_ctrl.sum = mstatus.SUM();
        self.translation_ctrl.mxr = mstatus.MXR();
        self.translation_ctrl.mprv = mstatus.MPRV();
        let mpp = mstatus.MPP();
        self.translation_ctrl.mpp = if mpp == 3 {
            RISCV64Privilege::M
        } else if mpp == 1 {
            RISCV64Privilege::S
        } else {
            RISCV64Privilege::U
        };
    }

    /// Publish the hart's privilege level to the translation logic.
    pub fn set_privilege(&mut self, privilege: RISCV64Privilege)
        requires
            old(self).wf(),
        ensures
            final(self).wf(),
            *final(self) == (MMU {
                translation_ctrl: TranslationCtrl {
                    privilege,
                    ..old(self).translation_ctrl
                },
                ..*old(self)
            }),
    {
        self.translation_ctrl.privilege = privilege;
    }
}

} // verus!

verus! {

/// The trap cause of a failed translation, for a load.
pub open spec fn spec_load_cause(e: TranslationErr) -> MCauseCode {
    match e {
        TranslationErr::AccessFault => MCauseCode::LoadAccessFault,
        TranslationErr::PageFault => MCauseCode::LoadPageFault,
    }
}

/// The trap cause of a failed translation, for a store or AMO.
pub open spec fn spec_store_cause(e: TranslationErr) -> MCauseCode {
    match e {
        TranslationErr::AccessFault => MCauseCode::StoreAMOAccessFault,
        TranslationErr::PageFault => MCauseCode::StoreAMOPageFault,
    }
}

/// The trap cause of a failed translation, for a fetch.
pub open spec fn spec_fetch_cause(e: TranslationErr) -> MCauseCode {
    match e {
        TranslationErr::AccessFault => MCauseCode::InstAccessFault,
        TranslationErr::PageFault => MCauseCode::InstPageFault,
    }
}

/// What one physical read of `n` bytes does: from RAM the little-endian
/// value with no state change; otherwise the MMIO dispatch.
pub open spec fn spec_mem_value_read(
    pre: Memory,
    post: Memory,
    pa: u64,
    n: u64,
    v: Option<u64>,
) -> bool {
    if pre.spec_in_ram(pa, n) {
        post == pre && v == Option::Some(
            le_read_int(pre@, pa - CONFIG_MEM_BASE, n as nat) as u64,
        )
    } else {
        Memory::spec_mmio_read_post(pre, post, pa, n, v)
    }
}

/// What one physical write of `n` bytes does: into RAM the little-endian
/// bytes with everything else untouched; otherwise the MMIO dispatch.
pub open spec fn spec_mem_value_write(
    pre: Memory,
    post: Memory,
    pa: u64,
    data: u64,
    n: u64,
    v: Option<()>,
) -> bool {
    &&& post@.len() == pre@.len()
    &&& post.mmio == pre.mmio
    &&& if pre.spec_in_ram(pa, n) {
        &&& v == Option::Some(())
        &&& post.devices == pre.devices
        &&& (forall|k: nat|
            k < n ==> post@[pa - CONFIG_MEM_BASE + k] == crate::bits::le_byte(data, k))
        &&& (forall|j: int|
            0 <= j < pre@.len() && !(pa - CONFIG_MEM_BASE <= j < pa - CONFIG_MEM_BASE + n)
                ==> post@[j] == pre@[j])
    } else {
        post@ == pre@ && Memory::spec_mmio_write_post(pre, post, pa, data, n, v)
    }
}

/// The value of a load split across a page boundary: the low `n1` bytes
/// from the first page below the `n2` bytes from the second.
pub open spec fn spec_split_value(x1: u64, n1: u64, x2: u64, n2: u64) -> u64 {
    ((crate::device::spec_trunc(x1, n1) as int) + (crate::device::spec_trunc(x2, n2) as int)
        * crate::bits::pow256(n1 as nat)) as u64
}

/// What a virtual load within one page does: translate, then read.
/// Exactly one scenario holds: the translation faults, or the physical
/// read rejects, or a value comes back.
pub open spec fn spec_mmu_read_one_post(
    pre: MMU,
    post: MMU,
    va: u64,
    n: u64,
    r: Result<u64, MCauseCode>,
) -> bool {
    ||| exists|mid: MMU, e: TranslationErr|
        {
            &&& #[trigger] spec_translate_post(
                pre,
                mid,
                va,
                MemoryAccessType::R,
                Result::Err(e),
            )
            &&& r == Result::<u64, MCauseCode>::Err(spec_load_cause(e))
            &&& post == mid
        }
    ||| exists|mid: MMU, pa: u64, x: u64|
        #![trigger spec_translate_post(pre, mid, va, MemoryAccessType::R, Result::Ok(pa)), spec_mem_value_read(mid.mem, post.mem, pa, n, Option::Some(x))]
        {
            &&& spec_translate_post(pre, mid, va, MemoryAccessType::R, Result::Ok(pa))
            &&& post.tlb == mid.tlb
            &&& post.translation_ctrl == mid.translation_ctrl
            &&& spec_mem_value_read(mid.mem, post.mem, pa, n, Option::Some(x))
            &&& r == Result::<u64, MCauseCode>::Ok(x)
        }
    ||| exists|mid: MMU, pa: u64|
        {
            &&& #[trigger] spec_translate_post(pre, mid, va, MemoryAccessType::R, Result::Ok(pa))
            &&& post.tlb == mid.tlb
            &&& post.translation_ctrl == mid.translation_ctrl
            &&& spec_mem_value_read(mid.mem, post.mem, pa, n, Option::None)
            &&& r == Result::<u64, MCauseCode>::Err(MCauseCode::LoadAccessFault)
        }
}

/// What a virtual load straddling a page boundary does: both pages are
/// translated (a fault on either page is the load's fault, before any
/// byte is read), then the two parts are read and glued little-endian.
pub open spec fn spec_mmu_read_split_post(
    pre: MMU,
    post: MMU,
    va: u64,
    n: u64,
    r: Result<u64, MCauseCode>,
) -> bool {
    let n1 = (4096 - va % 4096) as u64;
    let n2 = (n - n1) as u64;
    let va2 = crate::wrap_add64(va, n1);
    ||| exists|mid: MMU, e: TranslationErr|
        {
            &&& #[trigger] spec_translate_post(
                pre,
                mid,
                va,
                MemoryAccessType::R,
                Result::Err(e),
            )
            &&& r == Result::<u64, MCauseCode>::Err(spec_load_cause(e))
            &&& post == mid
        }
    ||| exists|mid: MMU, pa1: u64, mid2: MMU, e: TranslationErr|
        #![trigger spec_translate_post(pre, mid, va, MemoryAccessType::R, Result::Ok(pa1)), spec_translate_post(mid, mid2, va2, MemoryAccessType::R, Result::Err(e))]
        {
            &&& spec_translate_post(pre, mid, va, MemoryAccessType::R, Result::Ok(pa1))
            &&& spec_translate_post(mid, mid2, va2, MemoryAccessType::R, Result::Err(e))
            &&& r == Result::<u64, MCauseCode>::Err(spec_load_cause(e))
            &&& post == mid2
        }
    ||| exists|mid: MMU, pa1: u64, mid2: MMU, pa2: u64|
        #![trigger spec_translate_post(pre, mid, va, MemoryAccessType::R, Result::Ok(pa1)), spec_translate_post(mid, mid2, va2, MemoryAccessType::R, Result::Ok(pa2))]
        {
            &&& spec_translate_post(pre, mid, va, MemoryAccessType::R, Result::Ok(pa1))
            &&& spec_translate_post(mid, mid2, va2, MemoryAccessType::R, Result::Ok(pa2))
            &&& post.tlb == mid2.tlb
            &&& post.translation_ctrl == mid2.translation_ctrl
            &&& spec_mem_value_read(mid2.mem, post.mem, pa1, n1, Option::None)
            &&& r == Result::<u64, MCauseCode>::Err(MCauseCode::LoadAccessFault)
        }
    ||| exists|mid: MMU, pa1: u64, mid2: MMU, pa2: u64, x1: u64, memm: Memory|
        #![trigger spec_translate_post(pre, mid, va, MemoryAccessType::R, Result::Ok(pa1)), spec_translate_post(mid, mid2, va2, MemoryAccessType::R, Result::Ok(pa2)), spec_mem_value_read(mid2.mem, memm, pa1, n1, Option::Some(x1))]
        {
            &&& spec_translate_post(pre, mid, va, MemoryAccessType::R, Result::Ok(pa1))
            &&& spec_translate_post(mid, mid2, va2, MemoryAccessType::R, Result::Ok(pa2))
            &&& spec_mem_value_read(mid2.mem, memm, pa1, n1, Option::Some(x1))
            &&& post.tlb == mid2.tlb
            &&& post.translation_ctrl == mid2.translation_ctrl
            &&& spec_mem_value_read(memm, post.mem, pa2, n2, Option::None)
            &&& r == Result::<u64, MCauseCode>::Err(MCauseCode::LoadAccessFault)
        }
    ||| exists|mid: MMU, pa1: u64, mid2: MMU, pa2: u64, x1: u64, memm: Memory, x2: u64|
        #![trigger spec_translate_post(pre, mid, va, MemoryAccessType::R, Result::Ok(pa1)), spec_translate_post(mid, mid2, va2, MemoryAccessType::R, Result::Ok(pa2)), spec_mem_value_read(mid2.mem, memm, pa1, n1, Option::Some(x1)), spec_mem_value_read(memm, post.mem, pa2, n2, Option::Some(x2))]
        {
            &&& spec_translate_post(pre, mid, va, MemoryAccessType::R, Result::Ok(pa1))
            &&& spec_translate_post(mid, mid2, va2, MemoryAccessType::R, Result::Ok(pa2))
            &&& spec_mem_value_read(mid2.mem, memm, pa1, n1, Option::Some(x1))
            &&& spec_mem_value_read(memm, post.mem, pa2, n2, Option::Some(x2))
            &&& post.tlb == mid2.tlb
            &&& post.translation_ctrl == mid2.translation_ctrl
            &&& r == Result::<u64, MCauseCode>::Ok(spec_split_value(x1, n1, x2, n2))
        }
}


/// What a virtual load does, split at page boundaries.
pub open spec fn spec_mmu_read_post(
    pre: MMU,
    post: MMU,
    va: u64,
    n: u64,
    r: Result<u64, MCauseCode>,
) -> bool {
    if va % 4096 + n <= 4096 {
        spec_mmu_read_one_post(pre, post, va, n, r)
    } else {
        spec_mmu_read_split_post(pre, post, va, n, r)
    }
}

impl MMU {
    /// Load a value of width `len` from virtual address `vaddr`. A load
    /// that straddles a page boundary translates both pages; a fault on
    /// either page is reported with no byte read.
    #[verifier::rlimit(100)]
    #[verifier::spinoff_prover]
    pub fn read(&mut self, vaddr: &VAddr, len: MemOperationSize) -> (r: Result<u64, MCauseCode>)
        requires
            old(self).wf(),
        ensures
            final(self).wf(),
            spec_mmu_read_post(*old(self), *final(self), vaddr.0, len.spec_bytes(), r),
    {
        let va = vaddr.0;
        let n = len.bytes();
        let off = va % 4096;
        if off + n <= 4096 {
            let t1 = self.translate(&VAddr(va), MemoryAccessType::R);
            let ghost mid = *self;
            let ghost t1g: Result<u64, TranslationErr> = match t1 {
                Result::Ok(p) => Result::Ok(p.0),
                Result::Err(e) => Result::Err(e),
            };
            proof {
                assert(spec_translate_post(*old(self), mid, va, MemoryAccessType::R, t1g));
            }
            match t1 {
                Result::Err(e) => {
                    let rr: Result<u64, MCauseCode> = match e {
                        TranslationErr::AccessFault => Result::Err(MCauseCode::LoadAccessFault),
                        TranslationErr::PageFault => Result::Err(MCauseCode::LoadPageFault),
                    };
                    proof {
                        assert(spec_mmu_read_one_post(*old(self), *self, va, n, rr));
                    }
                    rr
                },
                Result::Ok(pa) => {
                    let v = self.mem.read_n(pa.0, n);
                    proof {
                        assert(spec_mem_value_read(mid.mem, self.mem, pa.0, n, v));
                    }
                    let rr: Result<u64, MCauseCode> = match v {
                        Option::Some(x) => Result::Ok(x),
                        Option::None => Result::Err(MCauseCode::LoadAccessFault),
                    };
                    proof {
                        assert(exists|vv: Option<u64>|
                            {
                                &&& #[trigger] spec_mem_value_read(mid.mem, self.mem, pa.0, n, vv)
                                &&& match vv {
                                    Option::Some(x) => rr == Result::<u64, MCauseCode>::Ok(x),
                                    Option::None => rr == Result::<u64, MCauseCode>::Err(
                                        MCauseCode::LoadAccessFault,
                                    ),
                                }
                            });
                        assert(spec_mmu_read_one_post(*old(self), *self, va, n, rr));
                    }
                    rr
                },
            }
        } else {
            let n1 = 4096 - off;
            let n2 = n - n1;
            let va2 = va.wrapping_add(n1);
            let t1 = self.translate(&VAddr(va), MemoryAccessType::R);
            let ghost mid = *self;
            let ghost t1g: Result<u64, TranslationErr> = match t1 {
                Result::Ok(p) => Result::Ok(p.0),
                Result::Err(e) => Result::Err(e),
            };
            proof {
                assert(spec_translate_post(*old(self), mid, va, MemoryAccessType::R, t1g));
            }
            match t1 {
                Result::Err(e) => {
                    match e {
                        TranslationErr::AccessFault => Result::Err(MCauseCode::LoadAccessFault),
                        TranslationErr::PageFault => Result::Err(MCauseCode::LoadPageFault),
                    }
                },
                Result::Ok(pa1) => {
                    let t2 = self.translate(&VAddr(va2), MemoryAccessType::R);
                    let ghost mid2 = *self;
                    let ghost t2g: Result<u64, TranslationErr> = match t2 {
                        Result::Ok(p) => Result::Ok(p.0),
                        Result::Err(e) => Result::Err(e),
                    };
                    proof {
                        assert(spec_translate_post(mid, mid2, va2, MemoryAccessType::R, t2g));
                    }
                    match t2 {
                        Result::Err(e) => {
                            proof {
                                assert(spec_translate_post(
                                    *old(self),
                                    mid,
                                    va,
                                    MemoryAccessType::R,
                                    Result::<u64, TranslationErr>::Ok(pa1.0),
                                ));
                                assert(spec_translate_post(
                                    mid,
                                    mid2,
                                    crate::wrap_add64(va, (4096 - va % 4096) as u64),
                                    MemoryAccessType::R,
                                    Result::<u64, TranslationErr>::Err(e),
                                ));
                            }
                            match e {
                                TranslationErr::AccessFault => Result::Err(
                                    MCauseCode::LoadAccessFault,
                                ),
                                TranslationErr::PageFault => Result::Err(
                                    MCauseCode::LoadPageFault,
                                ),
                            }
                        },
                        Result::Ok(pa2) => {
                            let v1 = self.mem.read_n(pa1.0, n1);
                            let ghost memm = self.mem;
                            proof {
                                assert(spec_mem_value_read(mid2.mem, memm, pa1.0, n1, v1));
                            }
                            match v1 {
                                Option::None => {
                                    proof {
                                        assert(spec_translate_post(
                                            *old(self),
                                            mid,
                                            va,
                                            MemoryAccessType::R,
                                            Result::<u64, TranslationErr>::Ok(pa1.0),
                                        ));
                                        assert(spec_translate_post(
                                            mid,
                                            mid2,
                                            crate::wrap_add64(va, (4096 - va % 4096) as u64),
                                            MemoryAccessType::R,
                                            Result::<u64, TranslationErr>::Ok(pa2.0),
                                        ));
                                        assert(spec_mem_value_read(
                                            mid2.mem,
                                            self.mem,
                                            pa1.0,
                                            (4096 - va % 4096) as u64,
                                            Option::None,
                                        ));
                                    }
                                    Result::Err(MCauseCode::LoadAccessFault)
                                },
                                Option::Some(x1) => {
                                    let v2 = self.mem.read_n(pa2.0, n2);
                                    proof {
                                        assert(spec_mem_value_read(
                                            memm,
                                            self.mem,
                                            pa2.0,
                                            n2,
                                            v2,
                                        ));
                                    }
                                    match v2 {
                                        Option::None => {
                                            proof {
                                                assert(spec_translate_post(
                                                    *old(self),
                                                    mid,
                                                    va,
                                                    MemoryAccessType::R,
                                                    Result::<u64, TranslationErr>::Ok(pa1.0),
                                                ));
                                                assert(spec_translate_post(
                                                    mid,
                                                    mid2,
                                                    crate::wrap_add64(
                                                        va,
                                                        (4096 - va % 4096) as u64,
                                                    ),
                                                    MemoryAccessType::R,
                                                    Result::<u64, TranslationErr>::Ok(pa2.0),
                                                ));
                                                assert(spec_mem_value_read(
                                                    mid2.mem,
                                                    memm,
                                                    pa1.0,
                                                    (4096 - va % 4096) as u64,
                                                    Option::Some(x1),
                                                ));
                                                assert(spec_mem_value_read(
                                                    memm,
                                                    self.mem,
                                                    pa2.0,
                                                    (n - (4096 - va % 4096) as u64) as u64,
                                                    Option::None,
                                                ));
                                            }
                                            Result::Err(MCauseCode::LoadAccessFault)
                                        },
                                        Option::Some(x2) => {
                                            let lo = crate::device::trunc_bytes(x1, n1);
                                            let hi = crate::device::trunc_bytes(x2, n2);
                                            let p1 = crate::device::pow256_u64(n1);
                                            proof {
                                                crate::bits::lemma_pow256_values();
                                                crate::bits::lemma_pow256_pos(n2 as nat);
                                                assert((hi as int) * (p1 as int) <= (
                                                crate::bits::pow256(n2 as nat) - 1) * (
                                                crate::bits::pow256(n1 as nat)))
                                                    by (nonlinear_arith)
                                                    requires
                                                        0 <= hi as int <= crate::bits::pow256(
                                                            n2 as nat,
                                                        ) - 1,
                                                        p1 == crate::bits::pow256(n1 as nat),
                                                        p1 >= 1,
                                                ;
                                                assert((crate::bits::pow256(n2 as nat) - 1)
                                                    * crate::bits::pow256(n1 as nat)
                                                    == crate::bits::pow256(n2 as nat)
                                                    * crate::bits::pow256(n1 as nat)
                                                    - crate::bits::pow256(n1 as nat))
                                                    by (nonlinear_arith);
                                                lemma_pow256_mul(n1 as nat, n2 as nat);
                                                crate::bits::lemma_pow256_bound(n as nat);
                                                assert(lo + hi * p1 == spec_split_value(
                                                    x1,
                                                    n1,
                                                    x2,
                                                    n2,
                                                ));
                                                assert(spec_translate_post(
                                                    *old(self),
                                                    mid,
                                                    va,
                                                    MemoryAccessType::R,
                                                    Result::<u64, TranslationErr>::Ok(pa1.0),
                                                ));
                                                assert(spec_translate_post(
                                                    mid,
                                                    mid2,
                                                    va2,
                                                    MemoryAccessType::R,
                                                    Result::<u64, TranslationErr>::Ok(pa2.0),
                                                ));
                                                assert(spec_mem_value_read(
                                                    mid2.mem,
                                                    memm,
                                                    pa1.0,
                                                    n1,
                                                    Option::Some(x1),
                                                ));
                                                assert(spec_mem_value_read(
                                                    memm,
                                                    self.mem,
                                                    pa2.0,
                                                    n2,
                                                    Option::Some(x2),
                                                ));
                                                assert(spec_translate_post(
                                                    mid,
                                                    mid2,
                                                    crate::wrap_add64(
                                                        va,
                                                        (4096 - va % 4096) as u64,
                                                    ),
                                                    MemoryAccessType::R,
                                                    Result::<u64, TranslationErr>::Ok(pa2.0),
                                                ));
                                                assert(spec_mem_value_read(
                                                    mid2.mem,
                                                    memm,
                                                    pa1.0,
                                                    (4096 - va % 4096) as u64,
                                                    Option::Some(x1),
                                                ));
                                                assert(spec_mem_value_read(
                                                    memm,
                                                    self.mem,
                                                    pa2.0,
                                                    (n - (4096 - va % 4096) as u64) as u64,
                                                    Option::Some(x2),
                                                ));
                                                assert(spec_mmu_read_split_post(
                                                    *old(self),
                                                    *self,
                                                    va,
                                                    n,
                                                    Result::<u64, MCauseCode>::Ok(
                                                        (lo + hi * p1) as u64,
                                                    ),
                                                ));
                                            }
                                            Result::Ok(lo + hi * p1)
                                        },
                                    }
                                },
                            }
                        },
                    }
                },
            }
        }
    }
}

/// `pow256(a) * pow256(b) == pow256(a + b)`.
pub proof fn lemma_pow256_mul(a: nat, b: nat)
    ensures
        crate::bits::pow256(b) * crate::bits::pow256(a) == crate::bits::pow256(a + b),
    decreases b,
{
    if b == 0 {
        assert(crate::bits::pow256(0) == 1);
        assert(1 * crate::bits::pow256(a) == crate::bits::pow256(a));
    } else {
        lemma_pow256_mul(a, (b - 1) as nat);
        assert(crate::bits::pow256(b) == 256 * crate::bits::pow256((b - 1) as nat));
        assert((256 * crate::bits::pow256((b - 1) as nat)) * crate::bits::pow256(a) == 256 * (
        crate::bits::pow256((b - 1) as nat) * crate::bits::pow256(a))) by (nonlinear_arith);
    }
}

} // verus!

verus! {

/// What a virtual store within one page does: translate for W, then
/// write through.
pub open spec fn spec_mmu_write_one_post(
    pre: MMU,
    post: MMU,
    va: u64,
    data: u64,
    n: u64,
    r: Result<(), MCauseCode>,
) -> bool {
    ||| exists|mid: MMU, e: TranslationErr|
        {
            &&& #[trigger] spec_translate_post(
                pre,
                mid,
                va,
                MemoryAccessType::W,
                Result::Err(e),
            )
            &&& r == Result::<(), MCauseCode>::Err(spec_store_cause(e))
            &&& post == mid
        }
    ||| exists|mid: MMU, pa: u64|
        #![trigger spec_translate_post(pre, mid, va, MemoryAccessType::W, Result::Ok(pa))]
        {
            &&& spec_translate_post(pre, mid, va, MemoryAccessType::W, Result::Ok(pa))
            &&& post.tlb == mid.tlb
            &&& post.translation_ctrl == mid.translation_ctrl
            &&& (spec_mem_value_write(mid.mem, post.mem, pa, data, n, Option::Some(())) && r
                == Result::<(), MCauseCode>::Ok(()) || spec_mem_value_write(
                mid.mem,
                post.mem,
                pa,
                data,
                n,
                Option::None,
            ) && r == Result::<(), MCauseCode>::Err(MCauseCode::StoreAMOAccessFault))
        }
}

/// What a virtual store straddling a page boundary does: both pages are
/// translated before any byte is written (a fault on either page is the
/// store's fault), then the two parts are written little-endian.
pub open spec fn spec_mmu_write_split_post(
    pre: MMU,
    post: MMU,
    va: u64,
    data: u64,
    n: u64,
    r: Result<(), MCauseCode>,
) -> bool {
    let n1 = (4096 - va % 4096) as u64;
    let n2 = (n - n1) as u64;
    let va2 = crate::wrap_add64(va, n1);
    let d1 = crate::device::spec_trunc(data, n1);
    let d2 = crate::device::spec_field_bytes(data, n1, n2);
    ||| exists|mid: MMU, e: TranslationErr|
        {
            &&& #[trigger] spec_translate_post(
                pre,
                mid,
                va,
                MemoryAccessType::W,
                Result::Err(e),
            )
            &&& r == Result::<(), MCauseCode>::Err(spec_store_cause(e))
            &&& post == mid
        }
    ||| exists|mid: MMU, pa1: u64, mid2: MMU, e: TranslationErr|
        #![trigger spec_translate_post(pre, mid, va, MemoryAccessType::W, Result::Ok(pa1)), spec_translate_post(mid, mid2, va2, MemoryAccessType::W, Result::Err(e))]
        {
            &&& spec_translate_post(pre, mid, va, MemoryAccessType::W, Result::Ok(pa1))
            &&& spec_translate_post(mid, mid2, va2, MemoryAccessType::W, Result::Err(e))
            &&& r == Result::<(), MCauseCode>::Err(spec_store_cause(e))
            &&& post == mid2
        }
    ||| exists|mid: MMU, pa1: u64, mid2: MMU, pa2: u64|
        #![trigger spec_translate_post(pre, mid, va, MemoryAccessType::W, Result::Ok(pa1)), spec_translate_post(mid, mid2, va2, MemoryAccessType::W, Result::Ok(pa2))]
        {
            &&& spec_translate_post(pre, mid, va, MemoryAccessType::W, Result::Ok(pa1))
            &&& spec_translate_post(mid, mid2, va2, MemoryAccessType::W, Result::Ok(pa2))
            &&& post.tlb == mid2.tlb
            &&& post.translation_ctrl == mid2.translation_ctrl
            &&& (spec_mem_value_write(mid2.mem, post.mem, pa1, d1, n1, Option::None) && r
                == Result::<(), MCauseCode>::Err(MCauseCode::StoreAMOAccessFault))
        }
    ||| exists|mid: MMU, pa1: u64, mid2: MMU, pa2: u64, memm: Memory|
        #![trigger spec_translate_post(pre, mid, va, MemoryAccessType::W, Result::Ok(pa1)), spec_translate_post(mid, mid2, va2, MemoryAccessType::W, Result::Ok(pa2)), spec_mem_value_write(mid2.mem, memm, pa1, d1, n1, Option::Some(()))]
        {
            &&& spec_translate_post(pre, mid, va, MemoryAccessType::W, Result::Ok(pa1))
            &&& spec_translate_post(mid, mid2, va2, MemoryAccessType::W, Result::Ok(pa2))
            &&& spec_mem_value_write(mid2.mem, memm, pa1, d1, n1, Option::Some(()))
            &&& post.tlb == mid2.tlb
            &&& post.translation_ctrl == mid2.translation_ctrl
            &&& (spec_mem_value_write(memm, post.mem, pa2, d2, n2, Option::None) && r == Result::<
                (),
                MCauseCode,
            >::Err(MCauseCode::StoreAMOAccessFault) || spec_mem_value_write(
                memm,
                post.mem,
                pa2,
                d2,
                n2,
                Option::Some(()),
            ) && r == Result::<(), MCauseCode>::Ok(()))
        }
}

/// What a virtual store does, split at page boundaries.
pub open spec fn spec_mmu_write_post(
    pre: MMU,
    post: MMU,
    va: u64,
    data: u64,
    n: u64,
    r: Result<(), MCauseCode>,
) -> bool {
    if va % 4096 + n <= 4096 {
        spec_mmu_write_one_post(pre, post, va, data, n, r)
    } else {
        spec_mmu_write_split_post(pre, post, va, data, n, r)
    }
}

/// What an instruction fetch does: translate for X (fetches are judged
/// at the hart's own privilege) and read the instruction word, which
/// also reports the physical fetch address.
pub open spec fn spec_mmu_fetch_post(
    pre: MMU,
    post: MMU,
    va: u64,
    n: u64,
    r: Result<(u64, u64), MCauseCode>,
) -> bool {
    ||| exists|mid: MMU, e: TranslationErr|
        {
            &&& #[trigger] spec_translate_post(
                pre,
                mid,
                va,
                MemoryAccessType::X,
                Result::Err(e),
            )
            &&& r == Result::<(u64, u64), MCauseCode>::Err(spec_fetch_cause(e))
            &&& post == mid
        }
    ||| exists|mid: MMU, pa: u64, x: u64|
        #![trigger spec_translate_post(pre, mid, va, MemoryAccessType::X, Result::Ok(pa)), spec_mem_value_read(mid.mem, post.mem, pa, n, Option::Some(x))]
        {
            &&& spec_translate_post(pre, mid, va, MemoryAccessType::X, Result::Ok(pa))
            &&& post.tlb == mid.tlb
            &&& post.translation_ctrl == mid.translation_ctrl
            &&& spec_mem_value_read(mid.mem, post.mem, pa, n, Option::Some(x))
            &&& r == Result::<(u64, u64), MCauseCode>::Ok((x, pa))
        }
    ||| exists|mid: MMU, pa: u64|
        {
            &&& #[trigger] spec_translate_post(pre, mid, va, MemoryAccessType::X, Result::Ok(pa))
            &&& post.tlb == mid.tlb
            &&& post.translation_ctrl == mid.translation_ctrl
            &&& spec_mem_value_read(mid.mem, post.mem, pa, n, Option::None)
            &&& r == Result::<(u64, u64), MCauseCode>::Err(MCauseCode::InstAccessFault)
        }
}

impl MMU {
    /// Fetch an instruction word of width `len` at the program counter
    /// `vaddr`, returning the bits and the physical fetch address.
    pub fn ifetch(&mut self, vaddr: &VAddr, len: MemOperationSize) -> (r: Result<
        (u64, PAddr),
        MCauseCode,
    >)
        requires
            old(self).wf(),
        ensures
            final(self).wf(),
            spec_mmu_fetch_post(
                *old(self),
                *final(self),
                vaddr.0,
                len.spec_bytes(),
                match r {
                    Result::Ok((x, p)) => Result::Ok((x, p.0)),
                    Result::Err(e) => Result::Err(e),
                },
            ),
    {
        let va = vaddr.0;
        let n = len.bytes();
        let t1 = self.translate(&VAddr(va), MemoryAccessType::X);
        let ghost mid = *self;
        let ghost t1g: Result<u64, TranslationErr> = match t1 {
            Result::Ok(p) => Result::Ok(p.0),
            Result::Err(e) => Result::Err(e),
        };
        proof {
            assert(spec_translate_post(*old(self), mid, va, MemoryAccessType::X, t1g));
        }
        match t1 {
            Result::Err(e) => {
                match e {
                    TranslationErr::AccessFault => Result::Err(MCauseCode::InstAccessFault),
                    TranslationErr::PageFault => Result::Err(MCauseCode::InstPageFault),
                }
            },
            Result::Ok(pa) => {
                let v = self.mem.read_n(pa.0, n);
                proof {
                    assert(spec_mem_value_read(mid.mem, self.mem, pa.0, n, v));
                }
                match v {
                    Option::Some(x) => Result::Ok((x, pa)),
                    Option::None => Result::Err(MCauseCode::InstAccessFault),
                }
            },
        }
    }

    /// Store a value of width `len` to virtual address `vaddr`. A store
    /// that straddles a page boundary translates both pages before any
    /// byte is written; a fault on either page leaves memory untouched.
    #[verifier::rlimit(100)]
    #[verifier::spinoff_prover]
    pub fn write(&mut self, vaddr: &VAddr, data: u64, len: MemOperationSize) -> (r: Result<
        (),
        MCauseCode,
    >)
        requires
            old(self).wf(),
        ensures
            final(self).wf(),
            spec_mmu_write_post(
                *old(self),
                *final(self),
                vaddr.0,
                data,
                len.spec_bytes(),
                r,
            ),
    {
        let va = vaddr.0;
        let n = len.bytes();
        let off = va % 4096;
        if off + n <= 4096 {
            let t1 = self.translate(&VAddr(va), MemoryAccessType::W);
            let ghost mid = *self;
            let ghost t1g: Result<u64, TranslationErr> = match t1 {
                Result::Ok(p) => Result::Ok(p.0),
                Result::Err(e) => Result::Err(e),
            };
            proof {
                assert(spec_translate_post(*old(self), mid, va, MemoryAccessType::W, t1g));
            }
            match t1 {
                Result::Err(e) => {
                    match e {
                        TranslationErr::AccessFault => Result::Err(
                            MCauseCode::StoreAMOAccessFault,
                        ),
                        TranslationErr::PageFault => Result::Err(MCauseCode::StoreAMOPageFault),
                    }
                },
                Result::Ok(pa) => {
                    let v = self.mem.write_n(pa.0, data, n);
                    proof {
                        assert(spec_mem_value_write(mid.mem, self.mem, pa.0, data, n, v));
                    }
                    match v {
                        Option::Some(()) => Result::Ok(()),
                        Option::None => Result::Err(MCauseCode::StoreAMOAccessFault),
                    }
                },
            }
        } else {
            let n1 = 4096 - off;
            let n2 = n - n1;
            let va2 = va.wrapping_add(n1);
            let t1 = self.translate(&VAddr(va), MemoryAccessType::W);
            let ghost mid = *self;
            let ghost t1g: Result<u64, TranslationErr> = match t1 {
                Result::Ok(p) => Result::Ok(p.0),
                Result::Err(e) => Result::Err(e),
            };
            proof {
                assert(spec_translate_post(*old(self), mid, va, MemoryAccessType::W, t1g));
            }
            match t1 {
                Result::Err(e) => {
                    match e {
                        TranslationErr::AccessFault => Result::Err(
                            MCauseCode::StoreAMOAccessFault,
                        ),
                        TranslationErr::PageFault => Result::Err(MCauseCode::StoreAMOPageFault),
                    }
                },
                Result::Ok(pa1) => {
                    let t2 = self.translate(&VAddr(va2), MemoryAccessType::W);
                    let ghost mid2 = *self;
                    let ghost t2g: Result<u64, TranslationErr> = match t2 {
                        Result::Ok(p) => Result::Ok(p.0),
                        Result::Err(e) => Result::Err(e),
                    };
                    proof {
                        assert(spec_translate_post(mid, mid2, va2, MemoryAccessType::W, t2g));
                        assert(spec_translate_post(
                            *old(self),
                            mid,
                            va,
                            MemoryAccessType::W,
                            Result::<u64, TranslationErr>::Ok(pa1.0),
                        ));
                    }
                    match t2 {
                        Result::Err(e) => {
                            proof {
                                assert(spec_translate_post(
                                    mid,
                                    mid2,
                                    crate::wrap_add64(va, (4096 - va % 4096) as u64),
                                    MemoryAccessType::W,
                                    Result::<u64, TranslationErr>::Err(e),
                                ));
                            }
                            match e {
                                TranslationErr::AccessFault => Result::Err(
                                    MCauseCode::StoreAMOAccessFault,
                                ),
                                TranslationErr::PageFault => Result::Err(
                                    MCauseCode::StoreAMOPageFault,
                                ),
                            }
                        },
                        Result::Ok(pa2) => {
                            proof {
                                assert(spec_translate_post(
                                    mid,
                                    mid2,
                                    crate::wrap_add64(va, (4096 - va % 4096) as u64),
                                    MemoryAccessType::W,
                                    Result::<u64, TranslationErr>::Ok(pa2.0),
                                ));
                            }
                            let d1 = crate::device::trunc_bytes(data, n1);
                            let d2 = crate::device::field_bytes(data, n1, n2);
                            let w1 = self.mem.write_n(pa1.0, d1, n1);
                            let ghost memm = self.mem;
                            proof {
                                assert(spec_mem_value_write(
                                    mid2.mem,
                                    memm,
                                    pa1.0,
                                    crate::device::spec_trunc(data, (4096 - va % 4096) as u64),
                                    (4096 - va % 4096) as u64,
                                    w1,
                                ));
                            }
                            match w1 {
                                Option::None => Result::Err(MCauseCode::StoreAMOAccessFault),
                                Option::Some(()) => {
                                    let w2 = self.mem.write_n(pa2.0, d2, n2);
                                    proof {
                                        assert(spec_mem_value_write(
                                            memm,
                                            self.mem,
                                            pa2.0,
                                            crate::device::spec_field_bytes(
                                                data,
                                                (4096 - va % 4096) as u64,
                                                (n - (4096 - va % 4096) as u64) as u64,
                                            ),
                                            (n - (4096 - va % 4096) as u64) as u64,
                                            w2,
                                        ));
                                        assert(spec_mem_value_write(
                                            mid2.mem,
                                            memm,
                                            pa1.0,
                                            crate::device::spec_trunc(
                                                data,
                                                (4096 - va % 4096) as u64,
                                            ),
                                            (4096 - va % 4096) as u64,
                                            Option::Some(()),
                                        ));
                                    }
                                    match w2 {
                                        Option::None => Result::Err(
                                            MCauseCode::StoreAMOAccessFault,
                                        ),
                                        Option::Some(()) => Result::Ok(()),
                                    }
                                },
                            }
                        },
                    }
                },
            }
        }
    }
}

} // verus!
