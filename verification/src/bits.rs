//! Little-endian byte composition: how multi-byte values live in memory,
//! with the lemmas the memory operations need.
use vstd::arithmetic::div_mod::lemma_div_denominator;
use vstd::prelude::*;

verus! {

/// 256 to the power `k`.
pub open spec fn pow256(k: nat) -> int
    decreases k,
{
    if k == 0 {
        1
    } else {
        256 * pow256((k - 1) as nat)
    }
}

/// The value of the `n` bytes at `mem[i..i+n]`, little-endian.
pub open spec fn le_read_int(mem: Seq<u8>, i: int, n: nat) -> int
    decreases n,
{
    if n == 0 {
        0
    } else {
        mem[i] + 256 * le_read_int(mem, i + 1, (n - 1) as nat)
    }
}

/// Byte `k` of `data`, little-endian.
pub open spec fn le_byte(data: u64, k: nat) -> u8 {
    (((data as int) / pow256(k)) % 256) as u8
}

/// The concrete values of `pow256` up to eight bytes.
pub proof fn lemma_pow256_values()
    ensures
        pow256(0) == 1,
        pow256(1) == 0x100,
        pow256(2) == 0x10000,
        pow256(3) == 0x1000000,
        pow256(4) == 0x100000000,
        pow256(5) == 0x10000000000,
        pow256(6) == 0x1000000000000,
        pow256(7) == 0x100000000000000,
        pow256(8) == 0x10000000000000000,
{
    reveal_with_fuel(pow256, 9);
}

/// `pow256` of at most eight bytes fits the 64-bit range.
pub proof fn lemma_pow256_bound(n: nat)
    requires
        n <= 8,
    ensures
        pow256(n) <= 0x10000000000000000,
{
    lemma_pow256_values();
    if n == 0 {
    } else if n == 1 {
    } else if n == 2 {
    } else if n == 3 {
    } else if n == 4 {
    } else if n == 5 {
    } else if n == 6 {
    } else if n == 7 {
    } else {
    }
}

/// `pow256` is positive.
pub proof fn lemma_pow256_pos(k: nat)
    ensures
        pow256(k) >= 1,
    decreases k,
{
    if k > 0 {
        lemma_pow256_pos((k - 1) as nat);
    }
}

/// A little-endian value of `n` bytes lies below `pow256(n)`.
pub proof fn lemma_le_read_bound(mem: Seq<u8>, i: int, n: nat)
    requires
        0 <= i,
        i + n <= mem.len(),
    ensures
        0 <= le_read_int(mem, i, n) < pow256(n),
    decreases n,
{
    if n == 0 {
    } else {
        lemma_le_read_bound(mem, i + 1, (n - 1) as nat);
    }
}

/// Splitting a little-endian read at byte `n`.
pub proof fn lemma_le_read_split(mem: Seq<u8>, i: int, n: nat, m: nat)
    requires
        0 <= i,
        i + n + m <= mem.len(),
    ensures
        le_read_int(mem, i, n + m) == le_read_int(mem, i, n) + pow256(n) * le_read_int(
            mem,
            i + n,
            m,
        ),
    decreases n,
{
    if n == 0 {
    } else {
        lemma_le_read_split(mem, i + 1, (n - 1) as nat, m);
        assert(le_read_int(mem, i, n + m) == mem[i] + 256 * le_read_int(
            mem,
            i + 1,
            ((n + m) - 1) as nat,
        ));
        assert(256 * (le_read_int(mem, i + 1, (n - 1) as nat) + pow256((n - 1) as nat)
            * le_read_int(mem, i + n, m)) == 256 * le_read_int(mem, i + 1, (n - 1) as nat) + (256
            * pow256((n - 1) as nat)) * le_read_int(mem, i + n, m)) by (nonlinear_arith);
    }
}

/// A read depends only on the bytes it covers.
pub proof fn lemma_le_read_frame(mem1: Seq<u8>, mem2: Seq<u8>, i: int, n: nat)
    requires
        0 <= i,
        i + n <= mem1.len(),
        mem1.len() == mem2.len(),
        forall|k: int| i <= k < i + n ==> mem1[k] == mem2[k],
    ensures
        le_read_int(mem1, i, n) == le_read_int(mem2, i, n),
    decreases n,
{
    if n > 0 {
        lemma_le_read_frame(mem1, mem2, i + 1, (n - 1) as nat);
    }
}

/// Reading back `n` bytes written from `data` gives `data % pow256(n)`.
pub proof fn lemma_le_read_of_bytes(mem: Seq<u8>, i: int, n: nat, data: u64)
    requires
        0 <= i,
        i + n <= mem.len(),
        forall|k: nat| k < n ==> mem[i + k] == le_byte(data, k),
    ensures
        le_read_int(mem, i, n) == (data as int) % pow256(n),
    decreases n,
{
    lemma_pow256_pos(n);
    if n == 0 {
        assert((data as int) % 1 == 0);
    } else {
        let d = data as int;
        let rest = mem.subrange(i + 1, mem.len() as int);
        assert forall|k: nat| k < (n - 1) as nat implies mem[i + 1 + k] == #[trigger] le_byte(
            (data / 256) as u64,
            k,
        ) by {
            assert(mem[i + (k + 1)] == le_byte(data, (k + 1) as nat));
            lemma_pow256_pos(k);
            lemma_div_denominator(d, 256, pow256(k));
            assert(pow256((k + 1) as nat) == 256 * pow256(k));
            assert(d / pow256((k + 1) as nat) == (d / 256) / pow256(k));
        }
        lemma_le_read_of_bytes(mem, i + 1, (n - 1) as nat, (data / 256) as u64);
        assert(mem[i] == le_byte(data, 0));
        assert(pow256(0) == 1);
        assert(d / 1 == d);
        // le_read(i, n) == d % 256 + 256 * ((d / 256) % pow256(n - 1))
        // and that equals d % (256 * pow256(n - 1)).
        lemma_mod_breakdown_le(d, (n - 1) as nat);
    }
}

/// `d % (256 * pow256(m)) == d % 256 + 256 * ((d / 256) % pow256(m))`.
proof fn lemma_mod_breakdown_le(d: int, m: nat)
    requires
        d >= 0,
    ensures
        d % (256 * pow256(m)) == d % 256 + 256 * ((d / 256) % pow256(m)),
{
    lemma_pow256_pos(m);
    vstd::arithmetic::div_mod::lemma_mod_breakdown(d, 256, pow256(m));
}

/// The `n`-byte truncation of a value that already fits is itself.
pub proof fn lemma_mod_small_value(d: int, n: nat)
    requires
        0 <= d < pow256(n),
    ensures
        d % pow256(n) == d,
{
    lemma_pow256_pos(n);
    vstd::arithmetic::div_mod::lemma_small_mod(d as nat, pow256(n) as nat);
}

} // verus!
