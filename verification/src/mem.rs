//! The physical address space: a RAM slab plus registered MMIO windows.
//! Every access is dispatched either to RAM (little-endian bytes) or to
//! the device that owns the window.
use vstd::prelude::*;

use crate::bits::le_byte;
use crate::bits::le_read_int;
use crate::bits::lemma_le_read_bound;
use crate::bits::lemma_pow256_pos;
use crate::bits::lemma_pow256_values;
use crate::bits::pow256;
use crate::device::DeviceId;
use crate::device::Devices;
use crate::paddr::CONFIG_MEM_BASE;
use crate::paddr::CONFIG_MEM_SIZE;
use crate::paddr::PAddr;

verus! {

/// Access widths of the memory system.
#[derive(Clone, Copy, PartialEq, Eq, Structural, Debug)]
pub enum MemOperationSize {
    Byte,
    WORD,
    DWORD,
    QWORD,
}

impl MemOperationSize {
    /// Width in bytes.
    pub open spec fn spec_bytes(self) -> u64 {
        match self {
            MemOperationSize::Byte => 1,
            MemOperationSize::WORD => 2,
            MemOperationSize::DWORD => 4,
            MemOperationSize::QWORD => 8,
        }
    }

    /// Width in bytes.
    #[verifier::when_used_as_spec(spec_bytes)]
    pub fn bytes(self) -> (r: u64)
        ensures
            r == self.spec_bytes(),
    {
        match self {
            MemOperationSize::Byte => 1,
            MemOperationSize::WORD => 2,
            MemOperationSize::DWORD => 4,
            MemOperationSize::QWORD => 8,
        }
    }

    /// Truncate `src` to this width.
    pub fn read_val(&self, src: u64) -> (r: u64)
        ensures
            r == crate::device::spec_trunc(src, self.spec_bytes()),
    {
        crate::device::trunc_bytes(src, self.bytes())
    }
}

/// One registered MMIO window: the device serves `[left, right)`.
#[derive(Clone, Copy, PartialEq, Eq, Structural, Debug)]
pub struct IOMapEntry {
    pub left: u64,
    pub right: u64,
    pub dev: DeviceId,
}

impl IOMapEntry {
    pub fn new(left: u64, right: u64, dev: DeviceId) -> (r: IOMapEntry)
        ensures
            r == (IOMapEntry { left, right, dev }),
    {
        IOMapEntry { left, right, dev }
    }

    /// Whether the window covers `paddr`.
    pub open spec fn spec_addr_inside(&self, paddr: u64) -> bool {
        self.left <= paddr < self.right
    }

    /// Whether the window covers `paddr`.
    pub fn addr_inside(&self, paddr: &PAddr) -> (r: bool)
        ensures
            r == self.spec_addr_inside(paddr.0),
    {
        self.left <= paddr.0 && paddr.0 < self.right
    }

    /// The device-relative offset of `paddr`.
    pub fn paddr_to_device_mem_idx(&self, paddr: &PAddr) -> (r: u64)
        requires
            self.spec_addr_inside(paddr.0),
        ensures
            r == paddr.0 - self.left,
    {
        paddr.0 - self.left
    }
}

/// The first registered window that covers `pa`, if any.
pub open spec fn spec_find_iomap(s: Seq<IOMapEntry>, pa: u64) -> Option<int>
    decreases s.len(),
{
    if s.len() == 0 {
        Option::None
    } else if s[0].spec_addr_inside(pa) {
        Option::Some(0)
    } else {
        match spec_find_iomap(s.drop_first(), pa) {
            Option::Some(i) => Option::Some(i + 1),
            Option::None => Option::None,
        }
    }
}

/// The physical address space: RAM from `CONFIG_MEM_BASE`, devices behind
/// registered windows, all owned here.
pub struct Memory {
    /// The RAM bytes.
    pub pmem: Vec<u8>,
    /// The registered MMIO windows.
    pub mmio: Vec<IOMapEntry>,
    /// The platform devices the windows lead to.
    pub devices: Devices,
}

impl Memory {
    /// The RAM bytes.
    pub open spec fn view(self) -> Seq<u8> {
        self.pmem@
    }

    /// The whole range `[pa, pa+n)` lies in RAM.
    pub open spec fn spec_in_ram(self, pa: u64, n: u64) -> bool {
        CONFIG_MEM_BASE <= pa && pa - CONFIG_MEM_BASE + n <= self@.len()
    }

    /// Windows carry their device's length, avoid RAM, and are disjoint.
    pub open spec fn mmio_wf(self) -> bool {
        &&& forall|i: int|
            0 <= i < self.mmio@.len() ==> {
                let e = #[trigger] self.mmio@[i];
                &&& e.right == e.left + Devices::spec_len_of(e.dev)
                &&& (e.right <= CONFIG_MEM_BASE || e.left >= CONFIG_MEM_BASE + self@.len())
            }
        &&& forall|i: int, j: int|
            0 <= i < self.mmio@.len() && 0 <= j < self.mmio@.len() && i != j
                ==> (#[trigger] self.mmio@[i]).right <= (#[trigger] self.mmio@[j]).left
                || self.mmio@[j].right <= self.mmio@[i].left
    }

    pub open spec fn wf(self) -> bool {
        &&& self.devices.wf()
        &&& self.mmio_wf()
    }

    /// Fresh RAM of the given size, zero-filled, with no windows yet.
    pub fn new_with_size(size: usize) -> (r: Memory)
        ensures
            r.wf(),
            r@.len() == size,
            forall|i: int| 0 <= i < size ==> r@[i] == 0,
            r.mmio@.len() == 0,
            r.devices.intr == 0,
            !r.devices.stopped,
            r.devices.timer.now_us == 0,
            r.devices.clint.mtimecmp == 0xffffffffffffffffu64,
            r.devices.uart.rx@.len() == 0,
            r.devices.uart.tx@.len() == 0,
    {
        let mut pmem: Vec<u8> = Vec::new();
        let mut i: usize = 0;
        while i < size
            invariant
                pmem@.len() == i,
                i <= size,
                forall|k: int| 0 <= k < i ==> pmem@[k] == 0,
            decreases size - i,
        {
            pmem.push(0);
            i = i + 1;
        }
        Memory { pmem, mmio: Vec::new(), devices: Devices::new() }
    }

    /// Fresh RAM of the default size, zero-filled, the devices at reset.
    pub fn new() -> (r: Memory)
        ensures
            r.wf(),
            r@.len() == CONFIG_MEM_SIZE,
            forall|i: int| 0 <= i < CONFIG_MEM_SIZE ==> r@[i] == 0,
            r.mmio@.len() == 0,
            r.devices.intr == 0,
            !r.devices.stopped,
            r.devices.timer.now_us == 0,
            r.devices.clint.mtimecmp == 0xffffffffffffffffu64,
            r.devices.uart.rx@.len() == 0,
            r.devices.uart.tx@.len() == 0,
    {
        Memory::new_with_size(CONFIG_MEM_SIZE)
    }

    /// Whether `paddr` is a RAM byte.
    pub fn in_pmem(&self, paddr: &PAddr) -> (r: bool)
        ensures
            r == self.spec_in_ram(paddr.0, 1),
    {
        CONFIG_MEM_BASE <= paddr.0 && paddr.0 - CONFIG_MEM_BASE < self.pmem.len() as u64
    }

    /// The registered window that covers `paddr`, if any, as its index.
    pub fn find_iomap(&self, paddr: &PAddr) -> (r: Option<usize>)
        ensures
            r == match spec_find_iomap(self.mmio@, paddr.0) {
                Option::Some(i) => Option::<usize>::Some(i as usize),
                Option::None => Option::<usize>::None,
            },
            r matches Option::Some(i) ==> i < self.mmio@.len() && self.mmio@[
                i as int
            ].spec_addr_inside(paddr.0) && spec_find_iomap(self.mmio@, paddr.0)
                == Option::Some(i as int),
    {
        proof {
            assert(self.mmio@.skip(0) =~= self.mmio@);
        }
        let mut i: usize = 0;
        while i < self.mmio.len()
            invariant
                i <= self.mmio@.len(),
                spec_find_iomap(self.mmio@, paddr.0) == match spec_find_iomap(
                    self.mmio@.skip(i as int),
                    paddr.0,
                ) {
                    Option::Some(j) => Option::Some(j + i),
                    Option::None => Option::<int>::None,
                },
            decreases self.mmio@.len() - i,
        {
            proof {
                assert(self.mmio@.skip(i as int).drop_first() =~= self.mmio@.skip(i + 1));
            }
            if self.mmio[i].addr_inside(paddr) {
                proof {
                    assert(self.mmio@.skip(i as int)[0] == self.mmio@[i as int]);
                }
                return Option::Some(i);
            }
            i = i + 1;
        }
        proof {
            assert(self.mmio@.skip(i as int).len() == 0);
        }
        Option::None
    }

    /// The registered window that covers `paddr`, if any, as its index;
    /// the caller holds the space mutably to write through it.
    pub fn find_iomap_mut(&mut self, paddr: &PAddr) -> (r: Option<usize>)
        ensures
            *final(self) == *old(self),
            r == match spec_find_iomap(old(self).mmio@, paddr.0) {
                Option::Some(i) => Option::<usize>::Some(i as usize),
                Option::None => Option::<usize>::None,
            },
    {
        self.find_iomap(paddr)
    }

    /// Register the window of device `dev` at base `left`. The window
    /// must not overlap RAM or any window registered before.
    pub fn add_mmio(&mut self, left: PAddr, dev: DeviceId)
        requires
            old(self).wf(),
            left.0 + Devices::spec_len_of(dev) <= u64::MAX,
            left.0 + Devices::spec_len_of(dev) <= CONFIG_MEM_BASE || left.0 >= CONFIG_MEM_BASE
                + old(self)@.len(),
            forall|i: int|
                0 <= i < old(self).mmio@.len() ==> (#[trigger] old(self).mmio@[i]).right <= left.0
                    || left.0 + Devices::spec_len_of(dev) <= old(self).mmio@[i].left,
        ensures
            final(self).wf(),
            final(self).mmio@ == old(self).mmio@.push(
                IOMapEntry {
                    left: left.0,
                    right: (left.0 + Devices::spec_len_of(dev)) as u64,
                    dev,
                },
            ),
            final(self)@ == old(self)@,
            final(self).devices == old(self).devices,
    {
        let len = Devices::len_of(dev);
        let entry = IOMapEntry::new(left.0, left.0 + len, dev);
        self.mmio.push(entry);
    }

    /// Read `n` little-endian bytes at RAM index `idx`.
    fn ram_read(&self, idx: usize, n: u64) -> (r: u64)
        requires
            1 <= n <= 8,
            idx + n <= self@.len(),
        ensures
            r == le_read_int(self@, idx as int, n as nat),
    {
        proof {
            lemma_pow256_values();
        }
        let total: usize = self.pmem.len();
        let mut val: u64 = 0;
        let mut k: u64 = n;
        while k > 0
            invariant
                1 <= n <= 8,
                idx + n <= self@.len(),
                idx + n <= usize::MAX,
                k <= n,
                val == le_read_int(self@, idx + k, (n - k) as nat),
                0 <= val < pow256((n - k) as nat),
            decreases k,
        {
            proof {
                lemma_pow256_values();
            }
            k = k - 1;
            let b = self.pmem[idx + k as usize];
            val = val * 256 + (b as u64);
            proof {
                lemma_le_read_bound(self@, idx + k, (n - k) as nat);
            }
        }
        val
    }

    /// Write the `n` low bytes of `data` at RAM index `idx`,
    /// little-endian; no other byte changes.
    fn ram_write(&mut self, idx: usize, data: u64, n: u64)
        requires
            1 <= n <= 8,
            idx + n <= old(self)@.len(),
        ensures
            final(self)@.len() == old(self)@.len(),
            forall|k: nat| k < n ==> final(self)@[idx + k] == le_byte(data, k),
            forall|j: int|
                0 <= j < old(self)@.len() && !(idx <= j < idx + n) ==> final(self)@[j] == old(
                    self,
                )@[j],
            final(self).devices == old(self).devices,
            final(self).mmio == old(self).mmio,
    {
        let total: usize = self.pmem.len();
        let mut k: u64 = 0;
        let mut cur: u64 = data;
        while k < n
            invariant
                1 <= n <= 8,
                idx + n <= self@.len(),
                idx + n <= usize::MAX,
                self@.len() == old(self)@.len(),
                k <= n,
                cur == ((data as int) / pow256(k as nat)) as u64,
                forall|j: nat| j < k ==> self@[idx + j] == le_byte(data, j),
                forall|j: int|
                    0 <= j < old(self)@.len() && !(idx <= j < idx + k) ==> self@[j] == old(
                        self,
                    )@[j],
                self.devices == old(self).devices,
                self.mmio == old(self).mmio,
            decreases n - k,
        {
            let b = (cur % 256) as u8;
            self.pmem.set(idx + k as usize, b);
            proof {
                lemma_pow256_pos(k as nat);
                vstd::arithmetic::div_mod::lemma_div_denominator(
                    data as int,
                    pow256(k as nat),
                    256,
                );
                assert(pow256((k + 1) as nat) == pow256(k as nat) * 256) by (nonlinear_arith);
            }
            cur = cur / 256;
            k = k + 1;
        }
    }

    /// OR the `n` low bytes of `mask` into RAM at `idx`, byte by byte.
    fn ram_bitor(&mut self, idx: usize, mask: u64, n: u64)
        requires
            1 <= n <= 8,
            idx + n <= old(self)@.len(),
        ensures
            final(self)@.len() == old(self)@.len(),
            forall|k: nat|
                k < n ==> final(self)@[idx + k] == (old(self)@[idx + k] | le_byte(mask, k)),
            forall|j: int|
                0 <= j < old(self)@.len() && !(idx <= j < idx + n) ==> final(self)@[j] == old(
                    self,
                )@[j],
            final(self).devices == old(self).devices,
            final(self).mmio == old(self).mmio,
    {
        let total: usize = self.pmem.len();
        let mut k: u64 = 0;
        let mut cur: u64 = mask;
        while k < n
            invariant
                1 <= n <= 8,
                idx + n <= self@.len(),
                idx + n <= usize::MAX,
                self@.len() == old(self)@.len(),
                k <= n,
                cur == ((mask as int) / pow256(k as nat)) as u64,
                forall|j: nat|
                    j < k ==> self@[idx + j] == (old(self)@[idx + j] | le_byte(mask, j)),
                forall|j: int|
                    0 <= j < old(self)@.len() && !(idx <= j < idx + k) ==> self@[j] == old(
                        self,
                    )@[j],
                self.devices == old(self).devices,
                self.mmio == old(self).mmio,
            decreases n - k,
        {
            let b = (cur % 256) as u8;
            let prev = self.pmem[idx + k as usize];
            self.pmem.set(idx + k as usize, prev | b);
            proof {
                lemma_pow256_pos(k as nat);
                vstd::arithmetic::div_mod::lemma_div_denominator(
                    mask as int,
                    pow256(k as nat),
                    256,
                );
                assert(pow256((k + 1) as nat) == pow256(k as nat) * 256) by (nonlinear_arith);
            }
            cur = cur / 256;
            k = k + 1;
        }
    }

    /// A RAM-only read: used for page-table walks and instruction fetch,
    /// which never reach a device.
    pub fn read_mem(&self, paddr: &PAddr, len: MemOperationSize) -> (r: Option<u64>)
        ensures
            r == if self.spec_in_ram(paddr.0, len.spec_bytes()) {
                Option::Some(
                    le_read_int(
                        self@,
                        paddr.0 - CONFIG_MEM_BASE,
                        len.spec_bytes() as nat,
                    ) as u64,
                )
            } else {
                Option::<u64>::None
            },
    {
        let n = len.bytes();
        if CONFIG_MEM_BASE <= paddr.0 && paddr.0 - CONFIG_MEM_BASE <= self.pmem.len() as u64 && n
            <= self.pmem.len() as u64 - (paddr.0 - CONFIG_MEM_BASE) {
            proof {
                lemma_le_read_bound(self@, paddr.0 - CONFIG_MEM_BASE, n as nat);
                lemma_pow256_values();
            }
            Option::Some(self.ram_read((paddr.0 - CONFIG_MEM_BASE) as usize, n))
        } else {
            Option::None
        }
    }

    /// OR `mask` into RAM at `paddr` (A/D maintenance of the page
    /// tables); fails outside RAM.
    pub fn pmem_bitor(&mut self, paddr: &PAddr, mask: u64, len: MemOperationSize) -> (r: Option<
        (),
    >)
        ensures
            final(self).mmio == old(self).mmio,
            final(self).devices == old(self).devices,
            final(self)@.len() == old(self)@.len(),
            ({
                let n = len.spec_bytes();
                let idx = paddr.0 - CONFIG_MEM_BASE;
                if old(self).spec_in_ram(paddr.0, n) {
                    &&& r == Option::Some(())
                    &&& (forall|k: nat|
                        k < n ==> final(self)@[idx + k] == (old(self)@[idx + k] | le_byte(
                            mask,
                            k,
                        )))
                    &&& (forall|j: int|
                        0 <= j < old(self)@.len() && !(idx <= j < idx + n) ==> final(self)@[j]
                            == old(self)@[j])
                } else {
                    r == Option::<()>::None && final(self)@ == old(self)@
                }
            }),
    {
        let n = len.bytes();
        if CONFIG_MEM_BASE <= paddr.0 && paddr.0 - CONFIG_MEM_BASE <= self.pmem.len() as u64 && n
            <= self.pmem.len() as u64 - (paddr.0 - CONFIG_MEM_BASE) {
            self.ram_bitor((paddr.0 - CONFIG_MEM_BASE) as usize, mask, n);
            Option::Some(())
        } else {
            Option::None
        }
    }
}

} // verus!

verus! {

impl Memory {
    /// What `read_n` does when the address is not RAM: the first window
    /// that covers it serves the access; no window, or a range that runs
    /// off the window, is an access fault.
    pub open spec fn spec_mmio_read_post(
        pre: Memory,
        post: Memory,
        pa: u64,
        n: u64,
        r: Option<u64>,
    ) -> bool {
        match spec_find_iomap(pre.mmio@, pa) {
            Option::None => r is None && post == pre,
            Option::Some(i) => {
                let e = pre.mmio@[i];
                if pa + n <= e.right {
                    &&& (e.dev != DeviceId::UartDev && e.dev != DeviceId::PlicDev) ==> (
                    post.devices == pre.devices && r == pre.devices.spec_pure_read_val(
                        e.dev,
                        (pa - e.left) as u64,
                        n,
                    ))
                    &&& (e.dev == DeviceId::UartDev ==> Devices::spec_uart_read_post(
                        pre.devices,
                        post.devices,
                        (pa - e.left) as u64,
                        n,
                        r,
                    ))
                    &&& (e.dev == DeviceId::PlicDev ==> Devices::spec_plic_read_post(
                        pre.devices,
                        post.devices,
                        (pa - e.left) as u64,
                        n,
                        r,
                    ))
                } else {
                    r is None && post == pre
                }
            },
        }
    }

    /// Read `n` bytes at physical address `pa`: from RAM little-endian,
    /// or through the MMIO window that covers the address.
    pub fn read_n(&mut self, pa: u64, n: u64) -> (r: Option<u64>)
        requires
            old(self).wf(),
            1 <= n <= 8,
        ensures
            final(self).wf(),
            final(self)@ == old(self)@,
            final(self).mmio == old(self).mmio,
            old(self).spec_in_ram(pa, n) ==> (*final(self) == *old(self) && r == Option::Some(
                le_read_int(old(self)@, pa - CONFIG_MEM_BASE, n as nat) as u64,
            )),
            !old(self).spec_in_ram(pa, n) ==> Memory::spec_mmio_read_post(
                *old(self),
                *final(self),
                pa,
                n,
                r,
            ),
    {
        if CONFIG_MEM_BASE <= pa && pa - CONFIG_MEM_BASE <= self.pmem.len() as u64 && n
            <= self.pmem.len() as u64 - (pa - CONFIG_MEM_BASE) {
            proof {
                lemma_le_read_bound(self@, pa - CONFIG_MEM_BASE, n as nat);
                lemma_pow256_values();
            }
            return Option::Some(self.ram_read((pa - CONFIG_MEM_BASE) as usize, n));
        }
        proof {
            lemma_find_iomap_props(self.mmio@, pa);
        }
        let target = PAddr(pa);
        match self.find_iomap(&target) {
            Option::None => Option::None,
            Option::Some(i) => {
                let e = self.mmio[i];
                if n <= e.right - pa {
                    self.devices.dev_read(e.dev, pa - e.left, n)
                } else {
                    Option::None
                }
            },
        }
    }

    /// What `write_n` does when the address is not RAM.
    pub open spec fn spec_mmio_write_post(
        pre: Memory,
        post: Memory,
        pa: u64,
        data: u64,
        n: u64,
        r: Option<()>,
    ) -> bool {
        match spec_find_iomap(pre.mmio@, pa) {
            Option::None => r is None && post == pre,
            Option::Some(i) => {
                let e = pre.mmio@[i];
                if pa + n <= e.right {
                    Devices::spec_dev_write_post(
                        pre.devices,
                        post.devices,
                        e.dev,
                        (pa - e.left) as u64,
                        data,
                        n,
                        r,
                    )
                } else {
                    r is None && post == pre
                }
            },
        }
    }

    /// Write the `n` low bytes of `data` at physical address `pa`: into
    /// RAM little-endian, or through the MMIO window that covers it.
    pub fn write_n(&mut self, pa: u64, data: u64, n: u64) -> (r: Option<()>)
        requires
            old(self).wf(),
            1 <= n <= 8,
        ensures
            final(self).wf(),
            final(self)@.len() == old(self)@.len(),
            final(self).mmio == old(self).mmio,
            old(self).spec_in_ram(pa, n) ==> {
                let idx = pa - CONFIG_MEM_BASE;
                &&& r == Option::Some(())
                &&& final(self).devices == old(self).devices
                &&& (forall|k: nat| k < n ==> final(self)@[idx + k] == le_byte(data, k))
                &&& (forall|j: int|
                    0 <= j < old(self)@.len() && !(idx <= j < idx + n) ==> final(self)@[j] == old(
                        self,
                    )@[j])
            },
            !old(self).spec_in_ram(pa, n) ==> (final(self)@ == old(self)@
                && Memory::spec_mmio_write_post(*old(self), *final(self), pa, data, n, r)),
    {
        if CONFIG_MEM_BASE <= pa && pa - CONFIG_MEM_BASE <= self.pmem.len() as u64 && n
            <= self.pmem.len() as u64 - (pa - CONFIG_MEM_BASE) {
            self.ram_write((pa - CONFIG_MEM_BASE) as usize, data, n);
            return Option::Some(());
        }
        proof {
            lemma_find_iomap_props(self.mmio@, pa);
        }
        let target = PAddr(pa);
        match self.find_iomap(&target) {
            Option::None => Option::None,
            Option::Some(i) => {
                let e = self.mmio[i];
                if n <= e.right - pa {
                    self.devices.dev_write(e.dev, pa - e.left, data, n)
                } else {
                    Option::None
                }
            },
        }
    }

    /// Read a value of width `len` at `paddr`.
    pub fn read(&mut self, paddr: &PAddr, len: MemOperationSize) -> (r: Option<u64>)
        requires
            old(self).wf(),
        ensures
            final(self).wf(),
            final(self)@ == old(self)@,
            final(self).mmio == old(self).mmio,
            old(self).spec_in_ram(paddr.0, len.spec_bytes()) ==> (*final(self) == *old(self) && r
                == Option::Some(
                le_read_int(
                    old(self)@,
                    paddr.0 - CONFIG_MEM_BASE,
                    len.spec_bytes() as nat,
                ) as u64,
            )),
            !old(self).spec_in_ram(paddr.0, len.spec_bytes()) ==> Memory::spec_mmio_read_post(
                *old(self),
                *final(self),
                paddr.0,
                len.spec_bytes(),
                r,
            ),
    {
        self.read_n(paddr.0, len.bytes())
    }

    /// Write a value of width `len` at `paddr`. `Err` is an access fault.
    pub fn write(&mut self, paddr: &PAddr, data: u64, len: MemOperationSize) -> (r: Result<
        (),
        (),
    >)
        requires
            old(self).wf(),
        ensures
            final(self).wf(),
            final(self)@.len() == old(self)@.len(),
            final(self).mmio == old(self).mmio,
            old(self).spec_in_ram(paddr.0, len.spec_bytes()) ==> {
                let idx = paddr.0 - CONFIG_MEM_BASE;
                let n = len.spec_bytes();
                &&& r is Ok
                &&& final(self).devices == old(self).devices
                &&& (forall|k: nat| k < n ==> final(self)@[idx + k] == le_byte(data, k))
                &&& (forall|j: int|
                    0 <= j < old(self)@.len() && !(idx <= j < idx + n) ==> final(self)@[j] == old(
                        self,
                    )@[j])
            },
            !old(self).spec_in_ram(paddr.0, len.spec_bytes()) ==> (final(self)@ == old(self)@
                && Memory::spec_mmio_write_post(
                *old(self),
                *final(self),
                paddr.0,
                data,
                len.spec_bytes(),
                match r {
                    Result::Ok(()) => Option::Some(()),
                    Result::Err(()) => Option::None,
                },
            )),
    {
        match self.write_n(paddr.0, data, len.bytes()) {
            Option::Some(()) => Result::Ok(()),
            Option::None => Result::Err(()),
        }
    }
}

/// Where `spec_find_iomap` points: a window that covers `pa`; `None`
/// means no window covers it.
pub proof fn lemma_find_iomap_props(s: Seq<IOMapEntry>, pa: u64)
    ensures
        match spec_find_iomap(s, pa) {
            Option::Some(i) => 0 <= i < s.len() && s[i].spec_addr_inside(pa),
            Option::None => forall|j: int| 0 <= j < s.len() ==> !s[j].spec_addr_inside(pa),
        },
    decreases s.len(),
{
    if s.len() > 0 && !s[0].spec_addr_inside(pa) {
        lemma_find_iomap_props(s.drop_first(), pa);
        assert forall|j: int|
            0 <= j < s.len() && spec_find_iomap(s, pa) is None implies !s[j].spec_addr_inside(
            pa,
        ) by {
            if j > 0 {
                assert(s.drop_first()[j - 1] == s[j]);
            }
        }
        if spec_find_iomap(s.drop_first(), pa) is Some {
            let i = spec_find_iomap(s.drop_first(), pa)->Some_0;
            assert(s.drop_first()[i] == s[i + 1]);
        }
    }
}

/// A RAM-only instruction fetch at a physical program counter.
pub fn ifetch(pc: &PAddr, memory: &Memory, len: MemOperationSize) -> (r: Option<u64>)
    ensures
        r == if memory.spec_in_ram(pc.0, len.spec_bytes()) {
            Option::Some(
                le_read_int(memory@, pc.0 - CONFIG_MEM_BASE, len.spec_bytes() as nat) as u64,
            )
        } else {
            Option::<u64>::None
        },
{
    memory.read_mem(pc, len)
}

} // verus!
