//! The platform devices as pure state machines: CLINT, PLIC, UART16550,
//! LiteUART, simple serial, RTC, microsecond timer, VGA and keyboard.
//!
//! Each device holds plain state; the host (outside the library) feeds in
//! time, received bytes and key events, and drains output bytes. The
//! devices publish interrupts into a shared pending word, bit-aligned to
//! the RISC-V interrupt numbering.
use vstd::prelude::*;

use crate::bits::pow256;

verus! {

/// MTIP bit of the pending word.
pub const INTR_MTI: u64 = 0x80;

/// STIP bit of the pending word.
pub const INTR_STI: u64 = 0x20;

/// MEIP bit of the pending word.
pub const INTR_MEI: u64 = 0x800;

/// SEIP bit of the pending word.
pub const INTR_SEI: u64 = 0x200;

/// PLIC interrupt line of the UART16550.
pub const UART_IRQ_ID: u64 = 10;

/// 256 to the power `k`, executable, for k up to 7.
pub fn pow256_u64(k: u64) -> (r: u64)
    requires
        k < 8,
    ensures
        r == pow256(k as nat),
{
    proof {
        crate::bits::lemma_pow256_values();
    }
    if k == 0 {
        1
    } else if k == 1 {
        0x100
    } else if k == 2 {
        0x10000
    } else if k == 3 {
        0x1000000
    } else if k == 4 {
        0x100000000
    } else if k == 5 {
        0x10000000000
    } else if k == 6 {
        0x1000000000000
    } else {
        0x100000000000000
    }
}

/// `data` truncated to its low `n` bytes (n <= 8).
pub open spec fn spec_trunc(data: u64, n: u64) -> u64 {
    (((data as int) % pow256(n as nat)) as u64)
}

/// `data` truncated to its low `n` bytes.
pub fn trunc_bytes(data: u64, n: u64) -> (r: u64)
    requires
        1 <= n <= 8,
    ensures
        r == spec_trunc(data, n),
{
    if n == 8 {
        proof {
            crate::bits::lemma_pow256_values();
            crate::bits::lemma_mod_small_value(data as int, 8);
        }
        data
    } else {
        let p = pow256_u64(n);
        proof {
            crate::bits::lemma_pow256_pos(n as nat);
        }
        data % p
    }
}

/// The `n` bytes of `data` that start at byte `offset` (offset + n <= 8).
pub open spec fn spec_field_bytes(data: u64, offset: u64, n: u64) -> u64 {
    spec_trunc((((data as int) / pow256(offset as nat)) as u64), n)
}

/// The `n` bytes of `data` that start at byte `offset`.
pub fn field_bytes(data: u64, offset: u64, n: u64) -> (r: u64)
    requires
        1 <= n <= 8,
        offset < 8,
    ensures
        r == spec_field_bytes(data, offset, n),
{
    let p = pow256_u64(offset);
    proof {
        crate::bits::lemma_pow256_pos(offset as nat);
        vstd::arithmetic::div_mod::lemma_div_nonincreasing(data as int, pow256(offset as nat));
        vstd::arithmetic::div_mod::lemma_div_pos_is_pos(data as int, pow256(offset as nat));
    }
    trunc_bytes(data / p, n)
}

/// The microsecond timer: publishes the host's monotonic time since boot.
pub struct Timer {
    /// Microseconds since boot, as last published by the host.
    pub now_us: u64,
}

impl Timer {
    /// A timer that has not advanced yet.
    pub fn new() -> (r: Timer)
        ensures
            r.now_us == 0,
    {
        Timer { now_us: 0 }
    }

    /// Microseconds since boot. Never decreases between host updates.
    pub fn since_boot_us(&self) -> (r: u64)
        ensures
            r == self.now_us,
    {
        self.now_us
    }

    /// Publish a new host time; the counter never moves backwards.
    pub fn advance_to(&mut self, now_us: u64)
        ensures
            final(self).now_us == if now_us > old(self).now_us {
                now_us
            } else {
                old(self).now_us
            },
            final(self).now_us >= old(self).now_us,
    {
        if now_us > self.now_us {
            self.now_us = now_us;
        }
    }
}

/// The core-local interruptor: owns `mtimecmp` and raises MTIP whenever
/// the current time has reached it.
pub struct CLINT {
    /// The machine timer compare register.
    pub mtimecmp: u64,
}

impl CLINT {
    /// MTIP is owed iff the time has reached `mtimecmp`.
    pub open spec fn spec_mtip(self, now_us: u64) -> bool {
        now_us >= self.mtimecmp
    }

    /// A CLINT whose `mtimecmp` is in the far future.
    pub fn new() -> (r: CLINT)
        ensures
            r.mtimecmp == 0xffffffffffffffffu64,
    {
        CLINT { mtimecmp: 0xffffffffffffffff }
    }

    /// Length of the CLINT MMIO window.
    pub fn len(&self) -> (r: u64)
        ensures
            r == 0x10000,
    {
        0x10000
    }
}

/// The platform-level interrupt controller: routes device lines to the
/// M and S external-interrupt bits of the two hart contexts.
pub struct PLIC {
    /// Per-line priorities, lines 0..16.
    pub priority: Vec<u8>,
    /// Which device lines are currently asserted by their devices.
    pub device_bits: u64,
    /// Enable mask, context 0 (M).
    pub enable_m: u64,
    /// Enable mask, context 1 (S).
    pub enable_s: u64,
    /// Pending lines, context 0 (M).
    pub pending_m: u64,
    /// Pending lines, context 1 (S).
    pub pending_s: u64,
}

impl PLIC {
    /// Sixteen priority slots; pending lines lie below 16.
    pub open spec fn wf(self) -> bool {
        &&& self.priority@.len() == 16
        &&& self.pending_m & !0xffffu64 == 0
        &&& self.pending_s & !0xffffu64 == 0
    }

    /// A PLIC with all lines idle and disabled.
    pub fn new() -> (r: PLIC)
        ensures
            r.wf(),
            r.device_bits == 0,
            r.enable_m == 0,
            r.enable_s == 0,
            r.pending_m == 0,
            r.pending_s == 0,
            forall|i: int| 0 <= i < 16 ==> r.priority@[i] == 0,
    {
        let mut priority: Vec<u8> = Vec::new();
        let mut i: usize = 0;
        while i < 16
            invariant
                priority@.len() == i,
                i <= 16,
                forall|k: int| 0 <= k < i ==> priority@[k] == 0,
            decreases 16 - i,
        {
            priority.push(0);
            i = i + 1;
        }
        proof {
            assert(0u64 & !0xffffu64 == 0) by (bit_vector);
        }
        PLIC {
            priority,
            device_bits: 0,
            enable_m: 0,
            enable_s: 0,
            pending_m: 0,
            pending_s: 0,
        }
    }

    /// Length of the PLIC MMIO window.
    pub fn len(&self) -> (r: u64)
        ensures
            r == 0x4000000,
    {
        0x4000000
    }

    /// Assert device line `id`: mark it, and make it pending for every
    /// context whose enable mask admits it. Returns, per context, whether
    /// the external-interrupt bit must be raised.
    pub fn trigger_interrupt(&mut self, id: u64) -> (r: (bool, bool))
        requires
            old(self).wf(),
            id < 16,
        ensures
            final(self).wf(),
            r.0 == (old(self).enable_m & (1u64 << id) != 0),
            r.1 == (old(self).enable_s & (1u64 << id) != 0),
            final(self).device_bits == old(self).device_bits | (1u64 << id),
            final(self).pending_m == if r.0 {
                old(self).pending_m | (1u64 << id)
            } else {
                old(self).pending_m
            },
            final(self).pending_s == if r.1 {
                old(self).pending_s | (1u64 << id)
            } else {
                old(self).pending_s
            },
            final(self).enable_m == old(self).enable_m,
            final(self).enable_s == old(self).enable_s,
            final(self).priority == old(self).priority,
    {
        proof {
            let pm = self.pending_m;
            let ps = self.pending_s;
            assert(pm & !0xffffu64 == 0 && id < 16 ==> (pm | (1u64 << id)) & !0xffffu64 == 0)
                by (bit_vector);
            assert(ps & !0xffffu64 == 0 && id < 16 ==> (ps | (1u64 << id)) & !0xffffu64 == 0)
                by (bit_vector);
        }
        self.device_bits = self.device_bits | (1u64 << id);
        let trigger_m = self.enable_m & (1u64 << id) != 0;
        let trigger_s = self.enable_s & (1u64 << id) != 0;
        if trigger_m {
            self.pending_m = self.pending_m | (1u64 << id);
        }
        if trigger_s {
            self.pending_s = self.pending_s | (1u64 << id);
        }
        (trigger_m, trigger_s)
    }

    /// Deassert device line `id`. Pending claims survive until completed.
    pub fn clear_interrupt(&mut self, id: u64)
        requires
            old(self).wf(),
            id < 16,
        ensures
            final(self).wf(),
            final(self).device_bits == old(self).device_bits & !(1u64 << id),
            final(self).pending_m == old(self).pending_m,
            final(self).pending_s == old(self).pending_s,
            final(self).enable_m == old(self).enable_m,
            final(self).enable_s == old(self).enable_s,
            final(self).priority == old(self).priority,
    {
        self.device_bits = self.device_bits & !(1u64 << id);
    }

    /// The pending word of context `ctx`.
    pub open spec fn spec_pending(self, ctx: u64) -> u64 {
        if ctx == 0 {
            self.pending_m
        } else {
            self.pending_s
        }
    }

    /// What `claim_complete` does: `r.0` is a pending line of maximal
    /// priority (or 0 when nothing is pending); a line whose device no
    /// longer asserts it is retired, and `r.1` says whether the context's
    /// external-interrupt bit must drop because nothing is pending now.
    pub open spec fn spec_claim_post(pre: PLIC, post: PLIC, ctx: u64, r: (u64, bool)) -> bool {
        let pending = pre.spec_pending(ctx);
        let pending_post = post.spec_pending(ctx);
        &&& (ctx == 0 ==> post.pending_s == pre.pending_s)
        &&& (ctx == 1 ==> post.pending_m == pre.pending_m)
        &&& (pending == 0 ==> r.0 == 0 && !r.1 && pending_post == pending)
        &&& (pending != 0 ==> pending & (1u64 << r.0) != 0)
        &&& (pending != 0 ==> (forall|j: u64|
            j < 16 && pending & (1u64 << j) != 0 ==> pre.priority@[j as int]
                <= pre.priority@[r.0 as int]))
        &&& (pending != 0 && pre.device_bits & (1u64 << r.0) != 0 ==> pending_post == pending
            && !r.1)
        &&& (pending != 0 && pre.device_bits & (1u64 << r.0) == 0 ==> pending_post == (pending & !(
        1u64 << r.0)) && r.1 == (pending_post == 0))
    }

    /// Claim/complete for context `ctx` (0 = M, 1 = S): pick a pending
    /// line of maximal priority; if its device no longer asserts it,
    /// retire it from the pending set. Returns the line picked together
    /// with whether the context's external-interrupt bit must drop.
    pub fn claim_complete(&mut self, ctx: u64) -> (r: (u64, bool))
        requires
            old(self).wf(),
            ctx <= 1,
        ensures
            final(self).wf(),
            final(self).device_bits == old(self).device_bits,
            final(self).enable_m == old(self).enable_m,
            final(self).enable_s == old(self).enable_s,
            final(self).priority == old(self).priority,
            r.0 < 16,
            PLIC::spec_claim_post(*old(self), *final(self), ctx, r),
    {
        let pending = if ctx == 0 {
            self.pending_m
        } else {
            self.pending_s
        };
        if pending == 0 {
            return (0, false);
        }
        let mut en: u64 = 0;
        let mut max: u8 = 0;
        let mut found: bool = false;
        let mut i: u64 = 16;
        while i > 0
            invariant
                self.wf(),
                i <= 16,
                en < 16,
                found ==> pending & (1u64 << en) != 0 && max == self.priority@[en as int],
                found ==> forall|j: u64|
                    i <= j < 16 && pending & (1u64 << j) != 0 ==> self.priority@[j as int]
                        <= self.priority@[en as int],
                !found ==> forall|j: u64| i <= j < 16 ==> pending & (1u64 << j) == 0,
                !found ==> max == 0,
            decreases i,
        {
            i = i - 1;
            if pending & (1u64 << i) != 0 && (!found || self.priority[i as usize] >= max) {
                max = self.priority[i as usize];
                en = i;
                found = true;
            }
        }
        if !found {
            // A nonzero pending word holds some line below 16, so a line
            // was found; this branch cannot be reached.
            proof {
                assert(false) by (bit_vector)
                    requires
                        pending != 0,
                        pending & !0xffffu64 == 0,
                        pending & (1u64 << 0u64) == 0,
                        pending & (1u64 << 1u64) == 0,
                        pending & (1u64 << 2u64) == 0,
                        pending & (1u64 << 3u64) == 0,
                        pending & (1u64 << 4u64) == 0,
                        pending & (1u64 << 5u64) == 0,
                        pending & (1u64 << 6u64) == 0,
                        pending & (1u64 << 7u64) == 0,
                        pending & (1u64 << 8u64) == 0,
                        pending & (1u64 << 9u64) == 0,
                        pending & (1u64 << 10u64) == 0,
                        pending & (1u64 << 11u64) == 0,
                        pending & (1u64 << 12u64) == 0,
                        pending & (1u64 << 13u64) == 0,
                        pending & (1u64 << 14u64) == 0,
                        pending & (1u64 << 15u64) == 0,
                ;
            }
            return (0, false);
        }
        if self.device_bits & (1u64 << en) == 0 {
            let newp = pending & !(1u64 << en);
            proof {
                assert(pending & !0xffffu64 == 0 ==> (pending & !(1u64 << en)) & !0xffffu64 == 0)
                    by (bit_vector);
            }
            if ctx == 0 {
                self.pending_m = newp;
            } else {
                self.pending_s = newp;
            }
            (en, newp == 0)
        } else {
            (en, false)
        }
    }
}

/// The UART16550 register file with its receive queue (filled by the
/// host) and transmit queue (drained by the host).
pub struct UART16550 {
    /// Bytes received from the host, oldest first.
    pub rx: Vec<u8>,
    /// Bytes the guest has transmitted, oldest first.
    pub tx: Vec<u8>,
    /// Divisor-latch access bit (LCR bit 7).
    pub dlab: bool,
    /// Stored word-length field of LCR.
    pub word_len: u8,
    /// Interrupt-enable register.
    pub ier: u8,
    /// Interrupt-status register.
    pub isr: u8,
    /// Raw register backing store (16 slots: 8 plus the DLAB bank).
    pub mem: Vec<u8>,
}

impl UART16550 {
    pub open spec fn wf(self) -> bool {
        self.mem@.len() == 16
    }

    /// A UART with empty queues and DLAB clear.
    pub fn new() -> (r: UART16550)
        ensures
            r.wf(),
            r.rx@.len() == 0,
            r.tx@.len() == 0,
            !r.dlab,
            r.word_len == 0,
            r.ier == 0,
            r.isr == 0,
    {
        let mut mem: Vec<u8> = Vec::new();
        let mut i: usize = 0;
        while i < 16
            invariant
                mem@.len() == i,
                i <= 16,
            decreases 16 - i,
        {
            mem.push(0);
            i = i + 1;
        }
        UART16550 { rx: Vec::new(), tx: Vec::new(), dlab: false, word_len: 0, ier: 0, isr: 0, mem }
    }

    /// Length of the UART MMIO window.
    pub fn len(&self) -> (r: u64)
        ensures
            r == 8,
    {
        8
    }

    /// The line-status register: transmit always ready (bit 5), data
    /// ready iff the receive queue holds a byte (bit 0).
    pub open spec fn spec_lsr(self) -> u64 {
        if self.rx@.len() > 0 {
            0x21
        } else {
            0x20
        }
    }
}

/// The LiteUART alternative console: transmit-only in this core.
pub struct LiteUART {
    /// Bytes the guest has transmitted, oldest first.
    pub out: Vec<u8>,
}

impl LiteUART {
    pub fn new() -> (r: LiteUART)
        ensures
            r.out@.len() == 0,
    {
        LiteUART { out: Vec::new() }
    }

    /// Length of the LiteUART MMIO window: six 32-bit registers.
    pub fn len(&self) -> (r: u64)
        ensures
            r == 24,
    {
        24
    }

    /// The register file it exposes: only RXEMPTY (index 2) is set.
    pub open spec fn spec_reg(j: u64) -> u64 {
        if j == 2 {
            1
        } else {
            0
        }
    }
}

/// The one-byte write-only serial port.
pub struct Serial {
    /// Bytes the guest has transmitted, oldest first.
    pub out: Vec<u8>,
}

impl Serial {
    pub fn new() -> (r: Serial)
        ensures
            r.out@.len() == 0,
    {
        Serial { out: Vec::new() }
    }

    pub fn len(&self) -> (r: u64)
        ensures
            r == 1,
    {
        1
    }
}

/// The real-time clock: eight 32-bit fields fed by the host from the
/// wall clock.
pub struct RTC {
    pub sec: u32,
    pub min: u32,
    pub hour: u32,
    pub day: u32,
    pub month: u32,
    pub year: u32,
    pub micro_lo: u32,
    pub micro_hi: u32,
}

impl RTC {
    pub fn new() -> (r: RTC)
        ensures
            r.sec == 0 && r.min == 0 && r.hour == 0 && r.day == 0 && r.month == 0 && r.year == 0
                && r.micro_lo == 0 && r.micro_hi == 0,
    {
        RTC { sec: 0, min: 0, hour: 0, day: 0, month: 0, year: 0, micro_lo: 0, micro_hi: 0 }
    }

    pub fn len(&self) -> (r: u64)
        ensures
            r == 32,
    {
        32
    }

    /// The 32-bit register at word index `j`.
    pub open spec fn spec_word(self, j: u64) -> u32 {
        if j == 0 {
            self.sec
        } else if j == 1 {
            self.min
        } else if j == 2 {
            self.hour
        } else if j == 3 {
            self.day
        } else if j == 4 {
            self.month
        } else if j == 5 {
            self.year
        } else if j == 6 {
            self.micro_lo
        } else {
            self.micro_hi
        }
    }

    /// The 32-bit register at word index `j`.
    pub fn word(&self, j: u64) -> (r: u32)
        requires
            j < 8,
        ensures
            r == self.spec_word(j),
    {
        if j == 0 {
            self.sec
        } else if j == 1 {
            self.min
        } else if j == 2 {
            self.hour
        } else if j == 3 {
            self.day
        } else if j == 4 {
            self.month
        } else if j == 5 {
            self.year
        } else if j == 6 {
            self.micro_lo
        } else {
            self.micro_hi
        }
    }
}

/// The VGA control window: width and height, read-only, plus a sync word.
pub struct VGACtrl {
    pub width: u16,
    pub height: u16,
    pub sync: u32,
}

impl VGACtrl {
    /// A control window reporting the fixed 320 x 200 mode.
    pub fn new() -> (r: VGACtrl)
        ensures
            r.width == 320,
            r.height == 200,
            r.sync == 0,
    {
        VGACtrl { width: 320, height: 200, sync: 0 }
    }

    pub fn len(&self) -> (r: u64)
        ensures
            r == 8,
    {
        8
    }

    /// The readable four bytes: width in the low half, height above it.
    pub open spec fn spec_size_word(self) -> u64 {
        ((self.width as int) + 0x10000 * (self.height as int)) as u64
    }
}

/// The VGA framebuffer: ARGB8888, 320 x 200.
pub struct VGA {
    /// The framebuffer bytes.
    pub mem: Vec<u8>,
}

impl VGA {
    pub open spec fn wf(self) -> bool {
        self.mem@.len() == 256000
    }

    /// A black framebuffer.
    pub fn new() -> (r: VGA)
        ensures
            r.wf(),
            forall|i: int| 0 <= i < 256000 ==> r.mem@[i] == 0,
    {
        let mut mem: Vec<u8> = Vec::new();
        let mut i: usize = 0;
        while i < 256000
            invariant
                mem@.len() == i,
                i <= 256000,
                forall|k: int| 0 <= k < i ==> mem@[k] == 0,
            decreases 256000 - i,
        {
            mem.push(0);
            i = i + 1;
        }
        VGA { mem }
    }

    pub fn len(&self) -> (r: u64)
        ensures
            r == 256000,
    {
        256000
    }
}

/// One key event: the code as the guest sees it, and when it arrived.
pub struct KeyEvent {
    pub code: u32,
    pub t_us: u64,
}

/// The keyboard device: a queue of key events; the guest reads the
/// current code and acknowledges it by a write.
pub struct Keyboard {
    /// Pending key events, oldest first.
    pub queue: Vec<KeyEvent>,
    /// The code the MMIO window currently shows.
    pub cur: u32,
}

impl Keyboard {
    pub fn new() -> (r: Keyboard)
        ensures
            r.queue@.len() == 0,
            r.cur == 0,
    {
        Keyboard { queue: Vec::new(), cur: 0 }
    }

    pub fn len(&self) -> (r: u64)
        ensures
            r == 8,
    {
        8
    }

    /// Deliver a key event: down-presses carry bit 15. An empty queue
    /// shows the code at once.
    pub fn send_key(&mut self, code: u32, is_down: bool, now_us: u64)
        ensures
            ({
                let stamped = if is_down {
                    code | 0x8000u32
                } else {
                    code
                };
                &&& final(self).queue@ == old(self).queue@.push(
                    KeyEvent { code: stamped, t_us: now_us },
                )
                &&& final(self).cur == if old(self).queue@.len() == 0 {
                    stamped
                } else {
                    old(self).cur
                }
            }),
    {
        let stamped: u32 = if is_down {
            code | 0x8000
        } else {
            code
        };
        if self.queue.len() == 0 {
            self.cur = stamped;
        }
        self.queue.push(KeyEvent { code: stamped, t_us: now_us });
    }

    /// Drop stale events (older than 100 ms) from the front of the queue
    /// and show the head of what is left: what remains is a suffix of the
    /// old queue whose head, if any, is fresh, and everything dropped was
    /// stale.
    pub fn update(&mut self, now_us: u64)
        ensures
            exists|k: int|
                #![trigger old(self).queue@.skip(k)]
                {
                    &&& 0 <= k <= old(self).queue@.len()
                    &&& final(self).queue@ == old(self).queue@.skip(k)
                    &&& (forall|j: int|
                        0 <= j < k ==> now_us > #[trigger] old(self).queue@[j].t_us + 100000)
                    &&& (final(self).queue@.len() > 0 ==> now_us <= final(self).queue@[0].t_us
                        + 100000)
                },
            final(self).cur == (if final(self).queue@.len() == 0 {
                0u32
            } else {
                final(self).queue@[0].code
            }),
    {
        let ghost mut k: int = 0;
        let mut done = false;
        while !done
            invariant
                0 <= k <= old(self).queue@.len(),
                self.queue@ == old(self).queue@.skip(k),
                forall|j: int| 0 <= j < k ==> now_us > #[trigger] old(self).queue@[j].t_us + 100000,
                done ==> (self.queue@.len() > 0 ==> now_us <= self.queue@[0].t_us + 100000),
            decreases self.queue@.len(), (if done { 0int } else { 1int }),
        {
            proof {
                assert(old(self).queue@.skip(0) =~= old(self).queue@);
            }
            if self.queue.len() == 0 {
                done = true;
            } else {
                let head_t = self.queue[0].t_us;
                if now_us >= head_t && now_us - head_t > 100000 {
                    self.queue.remove(0);
                    proof {
                        assert(old(self).queue@.skip(k).remove(0) =~= old(self).queue@.skip(k + 1));
                        k = k + 1;
                    }
                } else {
                    done = true;
                }
            }
        }
        if self.queue.len() == 0 {
            self.cur = 0;
        } else {
            self.cur = self.queue[0].code;
        }
    }
}

} // verus!

use chrono::Datelike;
use chrono::Timelike;

verus! {

/// Which device an MMIO range belongs to.
#[derive(Clone, Copy, PartialEq, Eq, Structural, Debug)]
pub enum DeviceId {
    ClintDev,
    PlicDev,
    UartDev,
    LiteUartDev,
    SerialDev,
    RtcDev,
    TimerDev,
    VgaCtrlDev,
    VgaDev,
    KeyboardDev,
}

/// All platform devices, plus the interrupt-pending word they publish to
/// the hart (bit 5 = STI, 7 = MTI, 9 = SEI, 11 = MEI).
pub struct Devices {
    /// The interrupt-pending word the hart polls each retired instruction.
    pub intr: u64,
    /// Host-stop flag: set when the host wants the hart to exit.
    pub stopped: bool,
    pub timer: Timer,
    pub clint: CLINT,
    pub plic: PLIC,
    pub uart: UART16550,
    pub liteuart: LiteUART,
    pub serial: Serial,
    pub rtc: RTC,
    pub vga: VGA,
    pub vgactrl: VGACtrl,
    pub keyboard: Keyboard,
}

impl Devices {
    pub open spec fn wf(self) -> bool {
        &&& self.plic.wf()
        &&& self.uart.wf()
        &&& self.vga.wf()
    }

    /// A fresh platform: all queues empty, no interrupt pending, every
    /// device at its reset state.
    pub fn new() -> (r: Devices)
        ensures
            r.wf(),
            r.intr == 0,
            !r.stopped,
            r.timer.now_us == 0,
            r.clint.mtimecmp == 0xffffffffffffffffu64,
            r.uart.rx@.len() == 0,
            r.uart.tx@.len() == 0,
            !r.uart.dlab,
            r.uart.word_len == 0,
            r.uart.ier == 0,
            r.uart.isr == 0,
            r.plic.device_bits == 0,
            r.plic.enable_m == 0,
            r.plic.enable_s == 0,
            r.plic.pending_m == 0,
            r.plic.pending_s == 0,
            forall|i: int| 0 <= i < 16 ==> r.plic.priority@[i] == 0,
            r.serial.out@.len() == 0,
            r.liteuart.out@.len() == 0,
            r.rtc == (RTC {
                sec: 0,
                min: 0,
                hour: 0,
                day: 0,
                month: 0,
                year: 0,
                micro_lo: 0,
                micro_hi: 0,
            }),
            r.vgactrl == (VGACtrl { width: 320, height: 200, sync: 0 }),
            forall|i: int| 0 <= i < 256000 ==> r.vga.mem@[i] == 0,
            r.keyboard.queue@.len() == 0,
            r.keyboard.cur == 0,
    {
        Devices {
            intr: 0,
            stopped: false,
            timer: Timer::new(),
            clint: CLINT::new(),
            plic: PLIC::new(),
            uart: UART16550::new(),
            liteuart: LiteUART::new(),
            serial: Serial::new(),
            rtc: RTC::new(),
            vga: VGA::new(),
            vgactrl: VGACtrl::new(),
            keyboard: Keyboard::new(),
        }
    }

    /// Ask the hart to stop at the next instruction boundary.
    pub fn stop(&mut self)
        ensures
            *final(self) == (Devices { stopped: true, ..*old(self) }),
    {
        self.stopped = true;
    }

    /// Whether the host asked the hart to stop.
    pub fn has_stopped(&self) -> (r: bool)
        ensures
            r == self.stopped,
    {
        self.stopped
    }

    /// Length of the MMIO window of device `id`, in bytes.
    pub open spec fn spec_len_of(id: DeviceId) -> u64 {
        match id {
            DeviceId::ClintDev => 0x10000,
            DeviceId::PlicDev => 0x4000000,
            DeviceId::UartDev => 8,
            DeviceId::LiteUartDev => 24,
            DeviceId::SerialDev => 1,
            DeviceId::RtcDev => 32,
            DeviceId::TimerDev => 8,
            DeviceId::VgaCtrlDev => 8,
            DeviceId::VgaDev => 256000,
            DeviceId::KeyboardDev => 8,
        }
    }

    /// Length of the MMIO window of device `id`, in bytes.
    #[verifier::when_used_as_spec(spec_len_of)]
    pub fn len_of(id: DeviceId) -> (r: u64)
        ensures
            r == Devices::spec_len_of(id),
    {
        match id {
            DeviceId::ClintDev => 0x10000,
            DeviceId::PlicDev => 0x4000000,
            DeviceId::UartDev => 8,
            DeviceId::LiteUartDev => 24,
            DeviceId::SerialDev => 1,
            DeviceId::RtcDev => 32,
            DeviceId::TimerDev => 8,
            DeviceId::VgaCtrlDev => 8,
            DeviceId::VgaDev => 256000,
            DeviceId::KeyboardDev => 8,
        }
    }

    /// The MTIP bit the CLINT owes for time `now` and its compare value.
    pub open spec fn spec_mti_folded(intr: u64, now: u64, mtimecmp: u64) -> u64 {
        if now >= mtimecmp {
            intr | INTR_MTI
        } else {
            intr & !INTR_MTI
        }
    }

    /// Recompute the CLINT's MTIP bit from the current time.
    fn refresh_mti(&mut self)
        ensures
            *final(self) == (Devices {
                intr: Devices::spec_mti_folded(
                    old(self).intr,
                    old(self).timer.now_us,
                    old(self).clint.mtimecmp,
                ),
                ..*old(self)
            }),
    {
        if self.timer.now_us >= self.clint.mtimecmp {
            self.intr = self.intr | INTR_MTI;
        } else {
            self.intr = self.intr & !INTR_MTI;
        }
    }

    /// Publish a new host time and re-evaluate the timer interrupt.
    /// MTIP is pending afterwards iff the time has reached `mtimecmp`.
    pub fn advance_time(&mut self, now_us: u64)
        requires
            old(self).wf(),
        ensures
            final(self).wf(),
            final(self).timer.now_us == if now_us > old(self).timer.now_us {
                now_us
            } else {
                old(self).timer.now_us
            },
            final(self).intr == Devices::spec_mti_folded(
                old(self).intr,
                final(self).timer.now_us,
                old(self).clint.mtimecmp,
            ),
            final(self).clint == old(self).clint,
            final(self).plic == old(self).plic,
            final(self).uart == old(self).uart,
            final(self).stopped == old(self).stopped,
    {
        self.timer.advance_to(now_us);
        self.refresh_mti();
    }

    /// Deliver one byte from the host into the UART receive queue. With
    /// the data-ready interrupt enabled (IER bit 0), the ISR reports a
    /// pending receive interrupt and the UART's PLIC line is asserted:
    /// the line becomes pending for each context whose enable mask admits
    /// it, and the matching external-interrupt bits rise in the shared
    /// pending word.
    pub fn uart_receive(&mut self, byte: u8)
        requires
            old(self).wf(),
        ensures
            final(self).wf(),
            final(self).uart.rx@ == old(self).uart.rx@.push(byte),
            *final(self) == (Devices {
                uart: UART16550 { rx: final(self).uart.rx, isr: final(self).uart.isr, ..old(self).uart },
                plic: final(self).plic,
                intr: final(self).intr,
                ..*old(self)
            }),
            old(self).uart.ier & 1 != 1 ==> final(self).plic == old(self).plic && final(self).intr
                == old(self).intr && final(self).uart.isr == old(self).uart.isr,
            old(self).uart.ier & 1 == 1 ==> ({
                let en_m = old(self).plic.enable_m & (1u64 << UART_IRQ_ID) != 0;
                let en_s = old(self).plic.enable_s & (1u64 << UART_IRQ_ID) != 0;
                let intr_m: u64 = if en_m {
                    old(self).intr | INTR_MEI
                } else {
                    old(self).intr
                };
                &&& final(self).uart.isr == 0b0100u8
                &&& final(self).plic == (PLIC {
                    device_bits: old(self).plic.device_bits | (1u64 << UART_IRQ_ID),
                    pending_m: if en_m {
                        old(self).plic.pending_m | (1u64 << UART_IRQ_ID)
                    } else {
                        old(self).plic.pending_m
                    },
                    pending_s: if en_s {
                        old(self).plic.pending_s | (1u64 << UART_IRQ_ID)
                    } else {
                        old(self).plic.pending_s
                    },
                    ..old(self).plic
                })
                &&& final(self).intr == (if en_s {
                    intr_m | INTR_SEI
                } else {
                    intr_m
                })
            }),
    {
        self.uart.rx.push(byte);
        if self.uart.ier & 1 == 1 {
            self.uart.isr = 0b0100;
            let r = self.plic.trigger_interrupt(UART_IRQ_ID);
            if r.0 {
                self.intr = self.intr | INTR_MEI;
            }
            if r.1 {
                self.intr = self.intr | INTR_SEI;
            }
        }
    }

    /// Take the bytes the guest wrote to the UART transmitter.
    pub fn uart_take_output(&mut self) -> (r: Vec<u8>)
        requires
            old(self).wf(),
        ensures
            final(self).wf(),
            r@ == old(self).uart.tx@,
            final(self).uart.tx@.len() == 0,
            *final(self) == (Devices {
                uart: UART16550 { tx: final(self).uart.tx, ..old(self).uart },
                ..*old(self)
            }),
    {
        let mut out: Vec<u8> = Vec::new();
        core::mem::swap(&mut out, &mut self.uart.tx);
        out
    }

    /// Take the bytes the guest wrote to the simple serial port.
    pub fn serial_take_output(&mut self) -> (r: Vec<u8>)
        requires
            old(self).wf(),
        ensures
            final(self).wf(),
            r@ == old(self).serial.out@,
            final(self).serial.out@.len() == 0,
            *final(self) == (Devices {
                serial: Serial { out: final(self).serial.out },
                ..*old(self)
            }),
    {
        let mut out: Vec<u8> = Vec::new();
        core::mem::swap(&mut out, &mut self.serial.out);
        out
    }

    /// Take the bytes the guest wrote to the LiteUART transmitter.
    pub fn liteuart_take_output(&mut self) -> (r: Vec<u8>)
        requires
            old(self).wf(),
        ensures
            final(self).wf(),
            r@ == old(self).liteuart.out@,
            final(self).liteuart.out@.len() == 0,
            *final(self) == (Devices {
                liteuart: LiteUART { out: final(self).liteuart.out },
                ..*old(self)
            }),
    {
        let mut out: Vec<u8> = Vec::new();
        core::mem::swap(&mut out, &mut self.liteuart.out);
        out
    }

    /// Deliver a key event, stamped with the current device time: the
    /// code (with bit 15 marking a down-press) is appended to the queue,
    /// and shows at the MMIO window at once when the queue was empty.
    pub fn send_key(&mut self, code: u32, is_down: bool)
        requires
            old(self).wf(),
        ensures
            final(self).wf(),
            *final(self) == (Devices { keyboard: final(self).keyboard, ..*old(self) }),
            ({
                let stamped = if is_down {
                    code | 0x8000u32
                } else {
                    code
                };
                &&& final(self).keyboard.queue@ == old(self).keyboard.queue@.push(
                    KeyEvent { code: stamped, t_us: old(self).timer.now_us },
                )
                &&& final(self).keyboard.cur == (if old(self).keyboard.queue@.len() == 0 {
                    stamped
                } else {
                    old(self).keyboard.cur
                })
            }),
    {
        let now = self.timer.now_us;
        self.keyboard.send_key(code, is_down, now);
    }

    /// Refresh the RTC registers from the host's wall clock.
    pub fn rtc_sync_host_clock(&mut self)
        requires
            old(self).wf(),
        ensures
            final(self).wf(),
            final(self).rtc.sec < 60,
            final(self).rtc.min < 60,
            final(self).rtc.hour < 24,
            *final(self) == (Devices { rtc: final(self).rtc, ..*old(self) }),
    {
        let now = host_wall_clock();
        self.rtc = RTC {
            sec: now.0,
            min: now.1,
            hour: now.2,
            day: now.3,
            month: now.4,
            year: now.5,
            micro_lo: (now.6 % 0x100000000) as u32,
            micro_hi: (now.6 / 0x100000000) as u32,
        };
    }
}

/// Relies on chrono's `Local::now` with the `Timelike` and `Datelike`
/// accessors: the host wall clock as calendar fields, plus
/// `timestamp_micros`. chrono documents `second` and `minute` as 0..=59,
/// `hour` as 0..=23, `day` as starting from 1 and `month` as 1..=12; the
/// year and the microsecond count carry no promise here.
#[verifier::external_body]
fn host_wall_clock() -> (r: (u32, u32, u32, u32, u32, u32, u64))
    ensures
        r.0 < 60,
        r.1 < 60,
        r.2 < 24,
        1 <= r.3,
        1 <= r.4 <= 12,
{
    let now = chrono::Local::now();
    let micros = now.timestamp_micros() as u64;
    (now.second(), now.minute(), now.hour(), now.day(), now.month(), now.year() as u32, micros)
}

} // verus!

verus! {

impl Devices {
    /// What a read of the PLIC claim/complete register does: some pending
    /// line of maximal priority is claimed, and the context's
    /// external-interrupt bit drops when nothing stays pending.
    pub open spec fn spec_claim_read_post(
        pre: Devices,
        post: Devices,
        ctx: u64,
        r: Option<u64>,
    ) -> bool {
        exists|cr: (u64, bool)|
            {
                &&& #[trigger] PLIC::spec_claim_post(pre.plic, post.plic, ctx, cr)
                &&& r == Option::Some(cr.0)
                &&& post.intr == (if cr.1 {
                    pre.intr & !(if ctx == 0 {
                        INTR_MEI
                    } else {
                        INTR_SEI
                    })
                } else {
                    pre.intr
                })
            }
    }

    /// What a read of the UART registers does: offset 0 consumes a
    /// received byte (and settles the data-ready interrupt), the others
    /// report register state without side effects.
    pub open spec fn spec_uart_read_post(
        pre: Devices,
        post: Devices,
        offset: u64,
        n: u64,
        r: Option<u64>,
    ) -> bool {
        &&& ((n != 1 || offset == 4 || offset == 7) ==> (r is None && post == pre))
        &&& ((n == 1 && offset == 1) ==> (r == Option::Some(pre.uart.ier as u64) && post == pre))
        &&& ((n == 1 && offset == 2) ==> (r == Option::Some(pre.uart.isr as u64) && post == pre))
        &&& ((n == 1 && offset == 3) ==> (r == Option::Some(
            (pre.uart.word_len as int + if pre.uart.dlab {
                128int
            } else {
                0int
            }) as u64,
        ) && post == pre))
        &&& ((n == 1 && offset == 5) ==> (r == Option::Some(pre.uart.spec_lsr()) && post == pre))
        &&& ((n == 1 && offset == 6) ==> (r == Option::Some(0b11110000u64) && post == pre))
        &&& ((n == 1 && offset == 0) ==> {
            &&& r == Option::Some(
                if pre.uart.rx@.len() > 0 {
                    pre.uart.rx@[0] as u64
                } else {
                    0u64
                },
            )
            &&& post.uart.rx@ == (if pre.uart.rx@.len() > 0 {
                pre.uart.rx@.drop_first()
            } else {
                pre.uart.rx@
            })
            &&& ((pre.uart.ier & 1 != 1 || post.uart.rx@.len() > 0) ==> (post.plic == pre.plic
                && post.intr == pre.intr && post.uart.isr == pre.uart.isr))
            &&& post.uart.tx == pre.uart.tx
            &&& post.uart.dlab == pre.uart.dlab
            &&& post.uart.ier == pre.uart.ier
            &&& post.uart.word_len == pre.uart.word_len
        })
    }

    /// What a read of the PLIC window does: priorities and enables read
    /// back, the claim/complete register claims a pending line, and
    /// everything else is rejected.
    pub open spec fn spec_plic_read_post(
        pre: Devices,
        post: Devices,
        offset: u64,
        n: u64,
        r: Option<u64>,
    ) -> bool {
        &&& post.uart == pre.uart
        &&& ((offset % n != 0) ==> (r is None && post == pre))
        &&& ((offset % n == 0 && offset < 0x1000 && offset % 4 == 0 && offset < 64) ==> (r
            == Option::Some(pre.plic.priority@[offset as int / 4] as u64) && post == pre))
        &&& ((offset % n == 0 && offset < 0x1000 && !(offset % 4 == 0 && offset < 64)) ==> (
        r is None && post == pre))
        &&& ((offset % n == 0 && 0x2000 <= offset < 0x1f1ffc && offset % 0x80 == 0 && offset
            < 0x2100) ==> (r == Option::Some(
            spec_trunc(
                if offset == 0x2000 {
                    pre.plic.enable_m
                } else {
                    pre.plic.enable_s
                },
                n,
            ),
        ) && post == pre))
        &&& ((offset % n == 0 && 0x2000 <= offset < 0x1f1ffc && !(offset % 0x80 == 0 && offset
            < 0x2100)) ==> (r is None && post == pre))
        &&& ((offset % n == 0 && 0x200000 <= offset < 0x3ff008 && offset & 0xfff == 0) ==> (r
            == Option::Some(0u64) && post == pre))
        &&& ((offset % n == 0 && 0x200000 <= offset < 0x3ff008 && offset & 0xfff == 4 && offset
            < 0x202000) ==> Devices::spec_claim_read_post(
            pre,
            post,
            if offset < 0x201000 {
                0u64
            } else {
                1u64
            },
            r,
        ))
    }

    /// The value a read of a side-effect-free device returns: None stands
    /// for a rejected access (bad offset, size or alignment).
    pub open spec fn spec_pure_read_val(self, id: DeviceId, offset: u64, n: u64) -> Option<u64> {
        match id {
            DeviceId::ClintDev => if offset % n != 0 || offset == 0 {
                Option::None
            } else if offset == 0x4000 {
                Option::Some(spec_trunc(self.clint.mtimecmp, n))
            } else if offset == 0xBFF8 {
                Option::Some(spec_trunc(self.timer.now_us, n))
            } else {
                Option::Some(0)
            },
            DeviceId::LiteUartDev => if offset <= 8 < offset + n {
                Option::Some(pow256((8 - offset) as nat) as u64)
            } else {
                Option::Some(0)
            },
            DeviceId::RtcDev => if (offset / 4) * 4 + n <= 32 {
                Option::Some(
                    spec_trunc(
                        ((self.rtc.spec_word(offset / 4) as int) + 0x100000000 * (if offset / 4
                            < 7 {
                            self.rtc.spec_word((offset / 4 + 1) as u64) as int
                        } else {
                            0int
                        })) as u64,
                        n,
                    ),
                )
            } else {
                Option::None
            },
            DeviceId::TimerDev => Option::Some(spec_field_bytes(self.timer.now_us, offset, n)),
            DeviceId::VgaCtrlDev => if offset + n <= 4 {
                Option::Some(spec_field_bytes(self.vgactrl.spec_size_word(), offset, n))
            } else {
                Option::None
            },
            DeviceId::KeyboardDev => Option::Some(
                spec_field_bytes(self.keyboard.cur as u64, offset, n),
            ),
            _ => Option::None,
        }
    }

    /// Read `n` bytes at `offset` of device `id`. `None` means the device
    /// rejects the access (the hart sees an access fault). Reads of the
    /// UART receive register consume a byte; reads of the PLIC
    /// claim/complete register claim a pending line.
    #[verifier::rlimit(100)]
    #[verifier::spinoff_prover]
    pub fn dev_read(&mut self, id: DeviceId, offset: u64, n: u64) -> (r: Option<u64>)
        requires
            old(self).wf(),
            1 <= n <= 8,
            offset + n <= Devices::spec_len_of(id),
        ensures
            final(self).wf(),
            final(self).stopped == old(self).stopped,
            final(self).timer == old(self).timer,
            final(self).clint == old(self).clint,
            (id != DeviceId::UartDev && id != DeviceId::PlicDev) ==> *final(self) == *old(self)
                && r == old(self).spec_pure_read_val(id, offset, n),
            id == DeviceId::UartDev ==> Devices::spec_uart_read_post(
                *old(self),
                *final(self),
                offset,
                n,
                r,
            ),
            id == DeviceId::PlicDev ==> Devices::spec_plic_read_post(
                *old(self),
                *final(self),
                offset,
                n,
                r,
            ),
    {
        match id {
            DeviceId::ClintDev => {
                if offset % n != 0 {
                    return Option::None;
                }
                if offset == 0 {
                    Option::None
                } else if offset == 0x4000 {
                    Option::Some(trunc_bytes(self.clint.mtimecmp, n))
                } else if offset == 0xBFF8 {
                    Option::Some(trunc_bytes(self.timer.now_us, n))
                } else {
                    Option::Some(0)
                }
            },
            DeviceId::PlicDev => {
                if offset % n != 0 {
                    return Option::None;
                }
                if offset < 0x1000 {
                    if offset % 4 == 0 && offset < 64 {
                        let p = self.plic.priority[(offset / 4) as usize];
                        Option::Some(p as u64)
                    } else {
                        Option::None
                    }
                } else if offset == 0x1000 {
                    Option::None
                } else if 0x2000 <= offset && offset < 0x1f1ffc {
                    if offset % 0x80 == 0 && offset < 0x2100 {
                        let e = if offset == 0x2000 {
                            self.plic.enable_m
                        } else {
                            self.plic.enable_s
                        };
                        Option::Some(trunc_bytes(e, n))
                    } else {
                        Option::None
                    }
                } else if 0x200000 <= offset && offset < 0x3ff008 {
                    if offset & 0xfff == 4 {
                        if offset < 0x202000 {
                            let ctx: u64 = if offset < 0x201000 {
                                0
                            } else {
                                1
                            };
                            let cr = self.plic.claim_complete(ctx);
                            if cr.1 {
                                if ctx == 0 {
                                    self.intr = self.intr & !INTR_MEI;
                                } else {
                                    self.intr = self.intr & !INTR_SEI;
                                }
                            }
                            proof {
                                if ctx == 0 {
                                    assert(PLIC::spec_claim_post(old(self).plic, self.plic, 0, cr));
                                    assert(Devices::spec_claim_read_post(
                                        *old(self),
                                        *self,
                                        0,
                                        Option::Some(cr.0),
                                    ));
                                } else {
                                    assert(PLIC::spec_claim_post(old(self).plic, self.plic, 1, cr));
                                    assert(Devices::spec_claim_read_post(
                                        *old(self),
                                        *self,
                                        1,
                                        Option::Some(cr.0),
                                    ));
                                }
                            }
                            Option::Some(cr.0)
                        } else {
                            Option::None
                        }
                    } else if offset & 0xfff == 0 {
                        Option::Some(0)
                    } else {
                        Option::None
                    }
                } else {
                    Option::None
                }
            },
            DeviceId::UartDev => {
                if n != 1 {
                    return Option::None;
                }
                if offset == 0 {
                    let res: u64;
                    if self.uart.rx.len() > 0 {
                        res = self.uart.rx[0] as u64;
                        self.uart.rx.remove(0);
                    } else {
                        res = 0;
                    }
                    if self.uart.ier & 1 == 1 && self.uart.rx.len() == 0 {
                        if self.uart.ier & 2 == 0 {
                            self.uart.isr = 0b1;
                            self.plic.clear_interrupt(UART_IRQ_ID);
                        } else {
                            self.uart.isr = 0b10;
                            let tr = self.plic.trigger_interrupt(UART_IRQ_ID);
                            if tr.0 {
                                self.intr = self.intr | INTR_MEI;
                            }
                            if tr.1 {
                                self.intr = self.intr | INTR_SEI;
                            }
                        }
                    }
                    Option::Some(res)
                } else if offset == 1 {
                    Option::Some(self.uart.ier as u64)
                } else if offset == 2 {
                    Option::Some(self.uart.isr as u64)
                } else if offset == 3 {
                    let d: u64 = if self.uart.dlab {
                        128
                    } else {
                        0
                    };
                    Option::Some(self.uart.word_len as u64 + d)
                } else if offset == 5 {
                    if self.uart.rx.len() > 0 {
                        Option::Some(0x21)
                    } else {
                        Option::Some(0x20)
                    }
                } else if offset == 6 {
                    Option::Some(0b11110000)
                } else {
                    Option::None
                }
            },
            DeviceId::LiteUartDev => {
                if offset <= 8 && 8 < offset + n {
                    Option::Some(pow256_u64(8 - offset))
                } else {
                    Option::Some(0)
                }
            },
            DeviceId::SerialDev => Option::None,
            DeviceId::RtcDev => {
                let base = offset / 4;
                if base * 4 + n <= 32 {
                    let lo = self.rtc.word(base) as u64;
                    let hi = if base < 7 {
                        self.rtc.word(base + 1) as u64
                    } else {
                        0
                    };
                    Option::Some(trunc_bytes(lo + hi * 0x100000000, n))
                } else {
                    Option::None
                }
            },
            DeviceId::TimerDev => Option::Some(field_bytes(self.timer.now_us, offset, n)),
            DeviceId::VgaCtrlDev => {
                if offset + n <= 4 {
                    let w: u64 = self.vgactrl.width as u64;
                    let h: u64 = self.vgactrl.height as u64;
                    Option::Some(field_bytes(w + 0x10000 * h, offset, n))
                } else {
                    Option::None
                }
            },
            DeviceId::VgaDev => Option::None,
            DeviceId::KeyboardDev => Option::Some(field_bytes(self.keyboard.cur as u64, offset, n)),
        }
    }
}

} // verus!

verus! {

impl Devices {
    /// What a write of the CLINT window does: storing `mtimecmp`
    /// re-evaluates the timer interrupt at once; MSIP and MTIME writes are
    /// not supported.
    pub open spec fn spec_clint_write_post(
        pre: Devices,
        post: Devices,
        offset: u64,
        data: u64,
        n: u64,
        r: Option<()>,
    ) -> bool {
        &&& ((offset % n != 0) ==> (r is None && post == pre))
        &&& ((offset % n == 0 && offset == 0 && data % 2 == 1) ==> (r is None && post == pre))
        &&& ((offset % n == 0 && offset == 0 && data % 2 != 1) ==> (r == Option::Some(()) && post
            == pre))
        &&& ((offset % n == 0 && offset == 0x4000) ==> (r == Option::Some(()) && post == (Devices {
            clint: CLINT { mtimecmp: spec_trunc(data, n) },
            intr: Devices::spec_mti_folded(pre.intr, pre.timer.now_us, spec_trunc(data, n)),
            ..pre
        })))
        &&& ((offset % n == 0 && offset == 0xBFF8) ==> (r is None && post == pre))
        &&& ((offset % n == 0 && offset != 0 && offset != 0x4000 && offset != 0xBFF8) ==> (r
            == Option::Some(()) && post == pre))
    }

    /// What a write of the PLIC window does: priorities and enables are
    /// stored; a claim/complete write performs a claim and discards the
    /// line.
    pub open spec fn spec_plic_write_post(
        pre: Devices,
        post: Devices,
        offset: u64,
        data: u64,
        n: u64,
        r: Option<()>,
    ) -> bool {
        &&& post.uart == pre.uart
        &&& ((offset % n != 0) ==> (r is None && post == pre))
        &&& ((offset % n == 0 && offset < 0x1000 && offset % 4 == 0 && offset < 64) ==> (r
            == Option::Some(()) && post == (Devices {
            plic: PLIC {
                priority: post.plic.priority,
                ..pre.plic
            },
            ..pre
        }) && post.plic.priority@ == pre.plic.priority@.update(
            offset as int / 4,
            (data % 256) as u8,
        )))
        &&& ((offset % n == 0 && offset < 0x1000 && !(offset % 4 == 0 && offset < 64)) ==> (
        r is None && post == pre))
        &&& ((offset % n == 0 && 0x2000 <= offset < 0x1f1ffc && offset % 0x80 == 0 && offset
            < 0x2100) ==> (r == Option::Some(()) && post == (Devices {
            plic: PLIC {
                enable_m: if offset == 0x2000 {
                    spec_trunc(data, n)
                } else {
                    pre.plic.enable_m
                },
                enable_s: if offset == 0x2000 {
                    pre.plic.enable_s
                } else {
                    spec_trunc(data, n)
                },
                ..pre.plic
            },
            ..pre
        })))
        &&& ((offset % n == 0 && 0x2000 <= offset < 0x1f1ffc && !(offset % 0x80 == 0 && offset
            < 0x2100)) ==> (r is None && post == pre))
        &&& ((offset % n == 0 && 0x200000 <= offset < 0x3ff008 && offset & 0xfff == 0) ==> (r
            == Option::Some(()) && post == pre))
        &&& ((offset % n == 0 && 0x200000 <= offset < 0x201000 && offset & 0xfff == 4) ==> (r
            == Option::Some(()) && Devices::spec_claim_write_post(pre, post, 0)))
        &&& ((offset % n == 0 && 0x201000 <= offset < 0x202000 && offset & 0xfff == 4) ==> (r
            == Option::Some(()) && Devices::spec_claim_write_post(pre, post, 1)))
    }

    /// What a write of the PLIC claim/complete register does: a claim of
    /// some pending line of maximal priority, whose value is discarded.
    pub open spec fn spec_claim_write_post(pre: Devices, post: Devices, ctx: u64) -> bool {
        exists|cr: (u64, bool)|
            {
                &&& #[trigger] PLIC::spec_claim_post(pre.plic, post.plic, ctx, cr)
                &&& post.intr == (if cr.1 {
                    pre.intr & !(if ctx == 0 {
                        INTR_MEI
                    } else {
                        INTR_SEI
                    })
                } else {
                    pre.intr
                })
            }
    }

    /// What a write of the UART registers does: transmit on 0 (unless
    /// DLAB redirects it to the divisor latch), interrupt enable on 1,
    /// line control on 3; writes to the status registers (5 and 6) are
    /// accepted and ignored, as the hardware ignores them.
    pub open spec fn spec_uart_write_post(
        pre: Devices,
        post: Devices,
        offset: u64,
        data: u64,
        n: u64,
        r: Option<()>,
    ) -> bool {
        let byte = (data % 256) as u8;
        let moff = if pre.uart.dlab && (offset == 0 || offset == 1 || offset == 5) {
            (offset + 8) as int
        } else {
            offset as int
        };
        &&& (n != 1 ==> (r is None && post == pre))
        &&& (n == 1 ==> {
            &&& r == Option::Some(())
            &&& post.plic == pre.plic
            &&& post.intr == pre.intr
            &&& post.uart.mem@ == pre.uart.mem@.update(moff, byte)
            &&& post.uart.rx == pre.uart.rx
            &&& post.uart.isr == pre.uart.isr
            &&& (offset == 0 ==> post.uart.tx@ == (if pre.uart.dlab {
                pre.uart.tx@
            } else {
                pre.uart.tx@.push(byte)
            }) && post.uart.ier == pre.uart.ier && post.uart.dlab == pre.uart.dlab
                && post.uart.word_len == pre.uart.word_len)
            &&& (offset == 1 ==> post.uart.ier == byte && post.uart.tx == pre.uart.tx
                && post.uart.dlab == pre.uart.dlab && post.uart.word_len == pre.uart.word_len)
            &&& (offset == 3 ==> post.uart.word_len == byte & 0x11 && post.uart.dlab == (byte
                & 0x80 != 0) && post.uart.tx == pre.uart.tx && post.uart.ier == pre.uart.ier)
            &&& ((offset == 2 || offset == 4 || offset == 5 || offset == 6 || offset == 7)
                ==> post.uart.tx == pre.uart.tx && post.uart.ier == pre.uart.ier
                && post.uart.dlab == pre.uart.dlab && post.uart.word_len == pre.uart.word_len)
        })
    }

    /// What a write of device `id` does, whatever the device.
    pub open spec fn spec_dev_write_post(
        pre: Devices,
        post: Devices,
        id: DeviceId,
        offset: u64,
        data: u64,
        n: u64,
        r: Option<()>,
    ) -> bool {
        &&& (post.stopped == pre.stopped)
        &&& (post.timer == pre.timer)
        &&& (id == DeviceId::ClintDev ==> Devices::spec_clint_write_post(
                pre,
                post,
                offset,
                data,
                n,
                r,
            ))
        &&& (id == DeviceId::PlicDev ==> Devices::spec_plic_write_post(
                pre,
                post,
                offset,
                data,
                n,
                r,
            ))
        &&& (id == DeviceId::UartDev ==> Devices::spec_uart_write_post(
                pre,
                post,
                offset,
                data,
                n,
                r,
            ))
        &&& (id == DeviceId::LiteUartDev ==> {
                &&& (offset == 0 ==> r == Option::Some(()) && post == (Devices {
                    liteuart: LiteUART { out: post.liteuart.out },
                    ..pre
                }) && post.liteuart.out@ == pre.liteuart.out@.push(
                    (data % 256) as u8,
                ))
                &&& ((offset == 16 || offset == 20) ==> r == Option::Some(()) && post
                    == pre)
                &&& ((offset != 0 && offset != 16 && offset != 20) ==> r is None && post
                    == pre)
            })
        &&& (id == DeviceId::SerialDev ==> r == Option::Some(()) && post == (Devices {
                serial: Serial { out: post.serial.out },
                ..pre
            }) && post.serial.out@ == pre.serial.out@.push((data % 256) as u8))
        &&& ((id == DeviceId::RtcDev || id == DeviceId::TimerDev) ==> r is None && post
                == pre)
        &&& (id == DeviceId::VgaCtrlDev ==> {
                &&& (offset < 4 ==> r is None && post == pre)
                &&& (offset == 4 ==> r == Option::Some(()) && post == (Devices {
                    vgactrl: VGACtrl {
                        sync: (spec_trunc(
                            data,
                            if n < 4 {
                                n
                            } else {
                                4
                            },
                        ) as u32),
                        ..pre.vgactrl
                    },
                    ..pre
                }))
                &&& (offset > 4 ==> r == Option::Some(()) && post == pre)
            })
        &&& (id == DeviceId::VgaDev ==> {
                &&& r == Option::Some(())
                &&& post == (Devices { vga: VGA { mem: post.vga.mem }, ..pre })
                &&& post.vga.mem@.len() == pre.vga.mem@.len()
                &&& (forall|k: nat|
                    k < n ==> post.vga.mem@[offset + k] == crate::bits::le_byte(data, k))
                &&& (forall|j: int|
                    0 <= j < 256000 && !(offset <= j < offset + n) ==> post.vga.mem@[j]
                        == pre.vga.mem@[j])
            })
        &&& (id == DeviceId::KeyboardDev ==> {
                &&& (offset < 4 ==> r is None && post == pre)
                &&& (offset >= 4 && data == 0 ==> r == Option::Some(()) && post == pre)
                &&& (offset >= 4 && data != 0 ==> r == Option::Some(()) && post == (Devices {
                    keyboard: post.keyboard,
                    ..pre
                }) && post.keyboard.queue@ == (if pre.keyboard.queue@.len() > 0 {
                    pre.keyboard.queue@.drop_first()
                } else {
                    pre.keyboard.queue@
                }) && post.keyboard.cur == (if post.keyboard.queue@.len() > 0 {
                    post.keyboard.queue@[0].code
                } else {
                    0u32
                }))
            })
    }

    /// Write `n` bytes at `offset` of device `id`. `None` means the
    /// device rejects the access (the hart sees an access fault).
    #[verifier::rlimit(100)]
    #[verifier::spinoff_prover]
    pub fn dev_write(&mut self, id: DeviceId, offset: u64, data: u64, n: u64) -> (r: Option<()>)
        requires
            old(self).wf(),
            1 <= n <= 8,
            offset + n <= Devices::spec_len_of(id),
        ensures
            final(self).wf(),
            Devices::spec_dev_write_post(*old(self), *final(self), id, offset, data, n, r),
    {
        match id {
            DeviceId::ClintDev => {
                if offset % n != 0 {
                    return Option::None;
                }
                if offset == 0 {
                    if data % 2 == 1 {
                        Option::None
                    } else {
                        Option::Some(())
                    }
                } else if offset == 0x4000 {
                    self.clint.mtimecmp = trunc_bytes(data, n);
                    self.refresh_mti();
                    Option::Some(())
                } else if offset == 0xBFF8 {
                    Option::None
                } else {
                    Option::Some(())
                }
            },
            DeviceId::PlicDev => {
                if offset % n != 0 {
                    return Option::None;
                }
                if offset < 0x1000 {
                    if offset % 4 == 0 && offset < 64 {
                        self.plic.priority.set((offset / 4) as usize, (data % 256) as u8);
                        Option::Some(())
                    } else {
                        Option::None
                    }
                } else if offset == 0x1000 {
                    Option::None
                } else if 0x2000 <= offset && offset < 0x1f1ffc {
                    if offset % 0x80 == 0 && offset < 0x2100 {
                        if offset == 0x2000 {
                            self.plic.enable_m = trunc_bytes(data, n);
                        } else {
                            self.plic.enable_s = trunc_bytes(data, n);
                        }
                        Option::Some(())
                    } else {
                        Option::None
                    }
                } else if 0x200000 <= offset && offset < 0x3ff008 {
                    if offset & 0xfff == 4 {
                        if offset < 0x202000 {
                            let ctx: u64 = if offset < 0x201000 {
                                0
                            } else {
                                1
                            };
                            let cr = self.plic.claim_complete(ctx);
                            if cr.1 {
                                if ctx == 0 {
                                    self.intr = self.intr & !INTR_MEI;
                                } else {
                                    self.intr = self.intr & !INTR_SEI;
                                }
                            }
                            proof {
                                if ctx == 0 {
                                    assert(PLIC::spec_claim_post(old(self).plic, self.plic, 0, cr));
                                    assert(Devices::spec_claim_write_post(*old(self), *self, 0));
                                } else {
                                    assert(PLIC::spec_claim_post(old(self).plic, self.plic, 1, cr));
                                    assert(Devices::spec_claim_write_post(*old(self), *self, 1));
                                }
                            }
                            Option::Some(())
                        } else {
                            Option::None
                        }
                    } else if offset & 0xfff == 0 {
                        Option::Some(())
                    } else {
                        Option::None
                    }
                } else {
                    Option::None
                }
            },
            DeviceId::UartDev => {
                if n != 1 {
                    return Option::None;
                }
                let byte = (data % 256) as u8;
                let moff: u64 = if self.uart.dlab && (offset == 0 || offset == 1 || offset == 5) {
                    offset + 8
                } else {
                    offset
                };
                self.uart.mem.set(moff as usize, byte);
                if offset == 0 {
                    if !self.uart.dlab {
                        self.uart.tx.push(byte);
                    }
                } else if offset == 1 {
                    self.uart.ier = byte;
                } else if offset == 3 {
                    self.uart.word_len = byte & 0x11;
                    self.uart.dlab = byte & 0x80 != 0;
                }
                Option::Some(())
            },
            DeviceId::LiteUartDev => {
                if offset == 0 {
                    self.liteuart.out.push((data % 256) as u8);
                    Option::Some(())
                } else if offset == 16 || offset == 20 {
                    Option::Some(())
                } else {
                    Option::None
                }
            },
            DeviceId::SerialDev => {
                self.serial.out.push((data % 256) as u8);
                Option::Some(())
            },
            DeviceId::RtcDev => Option::None,
            DeviceId::TimerDev => Option::None,
            DeviceId::VgaCtrlDev => {
                if offset < 4 {
                    Option::None
                } else if offset == 4 {
                    let m: u64 = if n < 4 {
                        n
                    } else {
                        4
                    };
                    self.vgactrl.sync = trunc_bytes(data, m) as u32;
                    Option::Some(())
                } else {
                    Option::Some(())
                }
            },
            DeviceId::VgaDev => {
                let mut k: u64 = 0;
                let mut cur: u64 = data;
                while k < n
                    invariant
                        self.wf(),
                        n <= 8,
                        offset + n <= 256000,
                        k <= n,
                        cur == ((data as int) / pow256(k as nat)) as u64,
                        *self == (Devices { vga: VGA { mem: self.vga.mem }, ..*old(self) }),
                        self.vga.mem@.len() == old(self).vga.mem@.len(),
                        forall|j: nat|
                            j < k ==> self.vga.mem@[offset + j] == crate::bits::le_byte(data, j),
                        forall|j: int|
                            0 <= j < 256000 && !(offset <= j < offset + k) ==> self.vga.mem@[j]
                                == old(self).vga.mem@[j],
                    decreases n - k,
                {
                    let b = (cur % 256) as u8;
                    self.vga.mem.set((offset + k) as usize, b);
                    proof {
                        crate::bits::lemma_pow256_pos(k as nat);
                        vstd::arithmetic::div_mod::lemma_div_denominator(
                            data as int,
                            pow256(k as nat),
                            256,
                        );
                        assert(pow256((k + 1) as nat) == pow256(k as nat) * 256)
                            by (nonlinear_arith);
                    }
                    cur = cur / 256;
                    k = k + 1;
                }
                Option::Some(())
            },
            DeviceId::KeyboardDev => {
                if offset < 4 {
                    Option::None
                } else if data != 0 {
                    if self.keyboard.queue.len() > 0 {
                        self.keyboard.queue.remove(0);
                    }
                    if self.keyboard.queue.len() > 0 {
                        let c = self.keyboard.queue[0].code;
                        self.keyboard.cur = c;
                    } else {
                        self.keyboard.cur = 0;
                    }
                    Option::Some(())
                } else {
                    Option::Some(())
                }
            },
        }
    }
}

} // verus!
