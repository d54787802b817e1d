//! Cross-cutting laws of the core, stated over the same spec functions
//! the function contracts use and proved once and for all.
use vstd::prelude::*;

use crate::cpu::RISCV64CpuState;
use crate::csr::spec_masked_write;
use crate::inst::AmoOp;
use crate::mem::MemOperationSize;
use crate::vaddr::MMU;

verus! {

/// After `sfence_vma` has invalidated every TLB entry, no lookup
/// answers: the next translation of any virtual address, with paging
/// active, is sourced from a fresh page-table walk (the miss case of
/// `spec_translate_active_post`).
pub proof fn lemma_sfence_forces_walk(m: MMU, va: u64)
    requires
        forall|i: int| 0 <= i < 2048 ==> (#[trigger] m.tlb@[i]).pte == 0,
        m.tlb@.len() == 2048,
    ensures
        !m.tlb@[((va >> 12) % 2048) as int].spec_lookup(va),
{
    let idx = ((va >> 12) % 2048) as int;
    assert(m.tlb@[idx].pte == 0);
    assert(0u64 & 1 == 0) by (bit_vector);
}

/// Writing a CSR and then writing back the value first read restores the
/// register, whatever the write mask hid: reading gave `v0`, a masked
/// write stored `(x & m) | (v0 & !m)`, and writing `v0` back yields `v0`
/// again. This is the `csrrw rd, csr, x0` / `csrrw x0, csr, rd` pair.
pub proof fn lemma_csr_write_round_trip(v0: u64, x: u64, m: u64)
    ensures
        spec_masked_write(spec_masked_write(v0, x, m), v0, m) == v0,
{
    let mid = spec_masked_write(v0, x, m);
    assert((v0 & m) | (((x & m) | (v0 & !m)) & !m) == v0) by (bit_vector);
}

/// An `amoswap` stores its source operand regardless of the old memory
/// word; so a second swap whose source is the first swap's destination
/// register (which now holds the original word) writes the original word
/// back, restoring memory.
pub proof fn lemma_amoswap_restores(t: u64, v: u64)
    ensures
        RISCV64CpuState::spec_amo_result(AmoOp::Swap, MemOperationSize::QWORD, v, t) == t,
        RISCV64CpuState::spec_amo_result(
            AmoOp::Swap,
            MemOperationSize::QWORD,
            RISCV64CpuState::spec_amo_result(AmoOp::Swap, MemOperationSize::QWORD, t, v),
            t,
        ) == t,
{
}

/// With bare translation, every translated address is the virtual
/// address itself: the identity map over the whole space.
pub proof fn lemma_bare_translation_identity(
    pre: MMU,
    post: MMU,
    va: u64,
    typ: crate::vaddr::MemoryAccessType,
    r: Result<u64, crate::vaddr::TranslationErr>,
)
    requires
        crate::vaddr::spec_translate_post(pre, post, va, typ, r),
        pre.translation_ctrl.is_bare,
    ensures
        r == Result::<u64, crate::vaddr::TranslationErr>::Ok(va),
        post.mem@ == pre.mem@,
{
}

/// A successful active translation satisfied the leaf permission rule:
/// the physical address exists only when the leaf PTE admits the intent
/// under the effective privilege, SUM and MXR.
pub proof fn lemma_translation_respects_permissions(
    pre: MMU,
    post: MMU,
    va: u64,
    typ: crate::vaddr::MemoryAccessType,
    pa: u64,
)
    requires
        crate::vaddr::spec_translate_post(
            pre,
            post,
            va,
            typ,
            Result::<u64, crate::vaddr::TranslationErr>::Ok(pa),
        ),
        !crate::vaddr::spec_bypass(pre.translation_ctrl, typ),
    ensures
        ({
            let idx = ((va >> 12) % 2048) as int;
            let pte0 = post.tlb@[idx].pte;
            let lvl = post.tlb@[idx].pte_addrs_len as u64;
            &&& crate::vaddr::spec_perm_ok(
                pte0,
                typ,
                pre.translation_ctrl.spec_effective_priv(typ),
                pre.translation_ctrl.sum,
                pre.translation_ctrl.mxr,
            )
            &&& pa == crate::vaddr::spec_leaf_pa(pte0, lvl, va)
        }),
{
    let idx = ((va >> 12) % 2048) as int;
    let eff = pre.translation_ctrl.spec_effective_priv(typ);
    let sum = pre.translation_ctrl.sum;
    let mxr = pre.translation_ctrl.mxr;
    let hit = pre.tlb@[idx].spec_lookup(va);
    let root = pre.translation_ctrl.sv39.lvl1_base;
    let src: Result<(u64, u64), crate::vaddr::TranslationErr> = if hit {
        Result::Ok((pre.tlb@[idx].pte, pre.tlb@[idx].pte_addrs_len as u64))
    } else {
        match crate::vaddr::spec_walk(pre.mem@, root, va) {
            crate::vaddr::WalkResult::WAccessFault => Result::Err(
                crate::vaddr::TranslationErr::AccessFault,
            ),
            crate::vaddr::WalkResult::WPageFault => Result::Err(
                crate::vaddr::TranslationErr::PageFault,
            ),
            crate::vaddr::WalkResult::WLeaf { pte, lvl } => Result::Ok((pte, lvl)),
        }
    };
    match src {
        Result::Err(_) => {
            assert(false);
        },
        Result::Ok(p) => {
            let pte0 = p.0;
            let bits = crate::vaddr::spec_ad_bits(pte0, typ);
            assert(crate::vaddr::spec_perm_ok(pte0, typ, eff, sum, mxr));
            assert(post.tlb@[idx].pte == (pte0 | bits));
            assert(bits == 0x40u64 || bits == 0x80u64 || bits == 0xc0u64 || bits == 0u64);
            assert(bits & !0xc0u64 == 0) by (bit_vector)
                requires
                    bits == 0x40u64 || bits == 0x80u64 || bits == 0xc0u64 || bits == 0u64,
            ;
            crate::vaddr::lemma_ad_or(pte0, bits);
            assert(crate::vaddr::SV39PTE(pte0 | bits).spec_ppn() == crate::vaddr::SV39PTE(
                pte0,
            ).spec_ppn());
        },
    }
}

} // verus!

verus! {

/// An active translation whose walk reached a leaf that does not admit
/// the access returns a page fault (and installs nothing the caller can
/// use): the permission rule is not advisory.
pub proof fn lemma_denied_leaf_page_faults(
    pre: MMU,
    post: MMU,
    va: u64,
    typ: crate::vaddr::MemoryAccessType,
    r: Result<u64, crate::vaddr::TranslationErr>,
    pte: u64,
    lvl: u64,
)
    requires
        crate::vaddr::spec_translate_post(pre, post, va, typ, r),
        !crate::vaddr::spec_bypass(pre.translation_ctrl, typ),
        crate::vaddr::spec_canonical(va),
        !pre.tlb@[((va >> 12) % 2048) as int].spec_lookup(va),
        crate::vaddr::spec_walk(pre.mem@, pre.translation_ctrl.sv39.lvl1_base, va)
            == (crate::vaddr::WalkResult::WLeaf { pte, lvl }),
        !crate::vaddr::spec_perm_ok(
            pte,
            typ,
            pre.translation_ctrl.spec_effective_priv(typ),
            pre.translation_ctrl.sum,
            pre.translation_ctrl.mxr,
        ),
    ensures
        r == Result::<u64, crate::vaddr::TranslationErr>::Err(
            crate::vaddr::TranslationErr::PageFault,
        ),
{
}

/// A load permission holds only through the R bit, or through the X bit
/// under MXR: a leaf with R clear and not (X and MXR) denies every load.
pub proof fn lemma_load_needs_read_permission(
    pte: u64,
    eff: crate::mstatus::RISCV64Privilege,
    sum: bool,
    mxr: bool,
)
    ensures
        crate::vaddr::spec_perm_ok(pte, crate::vaddr::MemoryAccessType::R, eff, sum, mxr)
            ==> (crate::vaddr::SV39PTE(pte).spec_r() || (crate::vaddr::SV39PTE(pte).spec_x()
            && mxr)),
{
}

/// A user page reached from S-mode is gated by SUM: with the U bit set
/// and the effective privilege S, the access is admitted exactly when
/// `mstatus.SUM` is set and the leaf admits the intent.
pub proof fn lemma_supervisor_user_page_gated_by_sum(
    pte: u64,
    typ: crate::vaddr::MemoryAccessType,
    sum: bool,
    mxr: bool,
)
    requires
        crate::vaddr::SV39PTE(pte).spec_u(),
    ensures
        crate::vaddr::spec_perm_ok(pte, typ, crate::mstatus::RISCV64Privilege::S, sum, mxr) <==> (
        sum && crate::vaddr::SV39PTE(pte).spec_check_access_type(typ, mxr)),
{
}

} // verus!

verus! {

/// A load that straddles a page boundary faults, before any byte moves,
/// when only its first page is mapped: with paging active, the first
/// page's walk reaching a readable leaf (whose A bit is already set, so
/// nothing is written back) and the second page's walk page-faulting,
/// the load returns LoadPageFault and RAM is untouched.
pub proof fn lemma_straddling_load_faults(
    pre: MMU,
    post: MMU,
    va: u64,
    n: u64,
    r: Result<u64, crate::csr::MCauseCode>,
    pte: u64,
    lvl: u64,
)
    requires
        crate::vaddr::spec_mmu_read_post(pre, post, va, n, r),
        1 <= n <= 8,
        va % 4096 + n > 4096,
        va + (4096 - va % 4096) <= u64::MAX,
        !crate::vaddr::spec_bypass(pre.translation_ctrl, crate::vaddr::MemoryAccessType::R),
        crate::vaddr::spec_canonical(va),
        !pre.tlb@[((va >> 12) % 2048) as int].spec_lookup(va),
        crate::vaddr::spec_walk(pre.mem@, pre.translation_ctrl.sv39.lvl1_base, va)
            == (crate::vaddr::WalkResult::WLeaf { pte, lvl }),
        crate::vaddr::spec_perm_ok(
            pte,
            crate::vaddr::MemoryAccessType::R,
            pre.translation_ctrl.spec_effective_priv(crate::vaddr::MemoryAccessType::R),
            pre.translation_ctrl.sum,
            pre.translation_ctrl.mxr,
        ),
        crate::vaddr::SV39PTE(pte).spec_a(),
        pre.tlb@.len() == 2048,
        ({
            let va2 = crate::wrap_add64(va, (4096 - va % 4096) as u64);
            &&& !pre.tlb@[((va2 >> 12) % 2048) as int].spec_lookup(va2)
            &&& crate::vaddr::spec_walk(pre.mem@, pre.translation_ctrl.sv39.lvl1_base, va2)
                == crate::vaddr::WalkResult::WPageFault
        }),
    ensures
        r == Result::<u64, crate::csr::MCauseCode>::Err(crate::csr::MCauseCode::LoadPageFault),
        post.mem@ == pre.mem@,
{
    let rr = crate::vaddr::MemoryAccessType::R;
    let n1 = (4096 - va % 4096) as u64;
    let va2 = crate::wrap_add64(va, n1);
    let idx = ((va >> 12) % 2048) as int;
    let idx2 = ((va2 >> 12) % 2048) as int;
    // The two accesses index different TLB rows: the second page's VPN is
    // the first's plus one, and consecutive numbers differ modulo 2048.
    assert(va >> 12 == va / 4096 && va2 >> 12 == va2 / 4096) by (bit_vector);
    assert(va2 == va + n1);
    vstd::arithmetic::div_mod::lemma_fundamental_div_mod(va as int, 4096);
    assert(va2 == 4096 * (va as int / 4096) + 4096);
    assert(va2 as int / 4096 == va as int / 4096 + 1) by (nonlinear_arith)
        requires
            va2 == 4096 * (va as int / 4096) + 4096,
    ;
    assert(va2 >> 12 == (va >> 12) + 1);
    let vpn = (va >> 12) as int;
    vstd::arithmetic::div_mod::lemma_fundamental_div_mod(vpn, 2048);
    vstd::arithmetic::div_mod::lemma_fundamental_div_mod(vpn + 1, 2048);
    assert(idx2 != idx) by (nonlinear_arith)
        requires
            idx == vpn % 2048,
            idx2 == (vpn + 1) % 2048,
            0 <= idx < 2048,
            0 <= idx2 < 2048,
            vpn == 2048 * (vpn / 2048) + idx,
            vpn + 1 == 2048 * ((vpn + 1) / 2048) + idx2,
    ;
    // The A and D bits the first translation would fold in are already
    // set, so it writes no byte.
    assert(crate::vaddr::spec_ad_bits(pte, rr) == 0);
    crate::vaddr::lemma_or8_facts();
    // Every first-translation outcome succeeds, leaves RAM as it was,
    // keeps the control bits, and leaves the second row alone.
    assert forall|mid: MMU, t1: Result<u64, crate::vaddr::TranslationErr>|
        #[trigger] crate::vaddr::spec_translate_post(pre, mid, va, rr, t1) implies {
        &&& t1 == Result::<u64, crate::vaddr::TranslationErr>::Ok(
            crate::vaddr::spec_leaf_pa(pte, lvl, va),
        )
        &&& mid.mem@ == pre.mem@
        &&& mid.translation_ctrl == pre.translation_ctrl
        &&& !mid.tlb@[idx2].spec_lookup(va2)
        &&& mid.tlb@.len() == 2048
    } by {
        assert forall|b: int| 0 <= b < pre.mem@.len() implies mid.mem@[b] == pre.mem@[b] by {
            assert(mid.mem@[b] == (if crate::vaddr::spec_is_ad_target(mid.tlb@[idx], b) {
                pre.mem@[b] | (0u64 as u8)
            } else {
                pre.mem@[b]
            }));
        }
        assert(mid.mem@ =~= pre.mem@);
        assert(mid.tlb@[idx2] == pre.tlb@[idx2]);
    }
    // Every second-translation outcome, from such a mid-state, is the
    // page fault, again leaving RAM untouched.
    assert forall|mid: MMU, mid2: MMU, t2: Result<u64, crate::vaddr::TranslationErr>|
        (mid.mem@ == pre.mem@ && mid.translation_ctrl == pre.translation_ctrl && !mid.tlb@[
            idx2
        ].spec_lookup(va2) && #[trigger] crate::vaddr::spec_translate_post(
            mid,
            mid2,
            va2,
            rr,
            t2,
        )) implies {
        &&& t2 == Result::<u64, crate::vaddr::TranslationErr>::Err(
            crate::vaddr::TranslationErr::PageFault,
        )
        &&& mid2.mem@ == pre.mem@
    } by {
        assert(crate::vaddr::spec_walk(mid.mem@, mid.translation_ctrl.sv39.lvl1_base, va2)
            == crate::vaddr::WalkResult::WPageFault);
    }
    assert(crate::vaddr::spec_mmu_read_split_post(pre, post, va, n, r));
}

} // verus!

verus! {

/// What one aligned in-RAM `amoswap.d` does, under bare translation:
/// `rd` takes the old memory word, the word takes rs2, nothing else
/// moves. The helper shape both halves of the round-trip law use.
pub open spec fn spec_swap_once(s: RISCV64CpuState, s2: RISCV64CpuState, d: crate::inst::Decode, a: u64) -> bool {
    &&& s2.regs@ == s.regs@.update(
        d.rd as int,
        crate::bits::le_read_int(
            s.memory.mem@,
            a - crate::paddr::CONFIG_MEM_BASE,
            8,
        ) as u64,
    )
    &&& s2.memory.mem@.len() == s.memory.mem@.len()
    &&& (forall|k: nat|
        k < 8 ==> s2.memory.mem@[a - crate::paddr::CONFIG_MEM_BASE + k] == crate::bits::le_byte(
            s.regs@[d.rs2 as int],
            k,
        ))
    &&& (forall|j: int|
        0 <= j < s.memory.mem@.len() && !(a - crate::paddr::CONFIG_MEM_BASE <= j < a
            - crate::paddr::CONFIG_MEM_BASE + 8) ==> s2.memory.mem@[j] == s.memory.mem@[j])
    &&& s2.memory.translation_ctrl == s.memory.translation_ctrl
    &&& s2.regs@.len() == s.regs@.len()
}

/// The inputs under which `spec_swap_once` characterises an `amoswap.d`:
/// bare translation, the destination doubleword aligned and in RAM, and
/// the address register distinct from the destination.
pub open spec fn spec_swap_setting(s: RISCV64CpuState, d: crate::inst::Decode, a: u64) -> bool {
    &&& d.wf()
    &&& d.rd != 0
    &&& d.rd != d.rs1
    &&& s.regs@.len() == 33
    &&& s.regs@[d.rs1 as int] == a
    &&& a % 8 == 0
    &&& s.memory.translation_ctrl.is_bare
    &&& s.memory.mem.spec_in_ram(a, 8)
}

/// An `amoswap.d` under `spec_swap_setting` is exactly `spec_swap_once`.
pub proof fn lemma_swap_step_shape(
    s: RISCV64CpuState,
    s2: RISCV64CpuState,
    d: crate::inst::Decode,
    a: u64,
)
    requires
        crate::cpu::spec_amo_step(s, s2, AmoOp::Swap, MemOperationSize::QWORD, d),
        spec_swap_setting(s, d, a),
    ensures
        spec_swap_once(s, s2, d, a),
{
    reveal(crate::cpu::spec_amo_step);
    assert(a % 4096 % 8 == 0) by (nonlinear_arith)
        requires
            a % 8 == 0,
    ;
    assert(a % 4096 + 8 <= 4096) by (nonlinear_arith)
        requires
            a % 4096 % 8 == 0,
            a % 4096 < 4096,
    ;
    assert(crate::vaddr::spec_bypass(
        s.memory.translation_ctrl,
        crate::vaddr::MemoryAccessType::R,
    ));
    assert(crate::vaddr::spec_bypass(
        s.memory.translation_ctrl,
        crate::vaddr::MemoryAccessType::W,
    ));
    assert(d.rd as int != 0int && crate::cpu::spec_rd_slot(d.rd) == d.rd as int);
}

/// Two `amoswap.d` with the same operands and `rd == rs2` (the common
/// exchange idiom) restore memory and surface it through the registers:
/// the first leaves the original word in `rd`, the second writes it back
/// and returns the exchanged value.
pub proof fn lemma_amoswap_pair_restores_memory(
    s0: RISCV64CpuState,
    s1: RISCV64CpuState,
    s2: RISCV64CpuState,
    d: crate::inst::Decode,
    a: u64,
)
    requires
        crate::cpu::spec_amo_step(s0, s1, AmoOp::Swap, MemOperationSize::QWORD, d),
        crate::cpu::spec_amo_step(s1, s2, AmoOp::Swap, MemOperationSize::QWORD, d),
        spec_swap_setting(s0, d, a),
        d.rd == d.rs2,
    ensures
        crate::bits::le_read_int(s2.memory.mem@, a - crate::paddr::CONFIG_MEM_BASE, 8)
            == crate::bits::le_read_int(s0.memory.mem@, a - crate::paddr::CONFIG_MEM_BASE, 8),
        s1.regs@[d.rd as int] == crate::bits::le_read_int(
            s0.memory.mem@,
            a - crate::paddr::CONFIG_MEM_BASE,
            8,
        ) as u64,
        s2.regs@[d.rd as int] == s0.regs@[d.rs2 as int],
{
    let base = crate::paddr::CONFIG_MEM_BASE;
    lemma_swap_step_shape(s0, s1, d, a);
    // The first swap leaves the setting intact for the second.
    assert(s1.regs@[d.rs1 as int] == a);
    assert(s1.memory.mem.spec_in_ram(a, 8));
    lemma_swap_step_shape(s1, s2, d, a);
    crate::bits::lemma_pow256_values();
    // The word the first swap stored reads back as rs2's value.
    crate::bits::lemma_le_read_of_bytes(s1.memory.mem@, a - base, 8, s0.regs@[d.rs2 as int]);
    crate::bits::lemma_mod_small_value(s0.regs@[d.rs2 as int] as int, 8);
    // The word the second swap stored is the original content, carried
    // through rd == rs2.
    let m = crate::bits::le_read_int(s0.memory.mem@, a - base, 8);
    crate::bits::lemma_le_read_bound(s0.memory.mem@, a - base, 8);
    assert(s1.regs@[d.rs2 as int] == m as u64);
    crate::bits::lemma_le_read_of_bytes(s2.memory.mem@, a - base, 8, (m as u64));
    crate::bits::lemma_mod_small_value(m, 8);
}

} // verus!
