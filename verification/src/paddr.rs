//! Physical addresses and the fixed platform memory map constants.
use vstd::prelude::*;

verus! {

/// Base of main RAM in the physical address space.
pub const CONFIG_MEM_BASE: u64 = 0x80000000;

/// Default size of main RAM.
pub const CONFIG_MEM_SIZE: usize = 0x20000000;

/// Base of the firmware load area (start of RAM).
pub const CONFIG_FIRMWARE_BASE: u64 = 0x80000000;

/// Offset into RAM where a guest image is loaded.
pub const CONFIG_IMAGE_BASE: usize = 0x200000;

/// A physical address.
#[derive(Clone, Copy, PartialEq, Eq, Structural, Debug)]
pub struct PAddr(pub u64);

impl PAddr {
    /// Wrap a raw address.
    pub fn new(addr: u64) -> (r: PAddr)
        ensures
            r.0 == addr,
    {
        PAddr(addr)
    }

    /// The raw address.
    pub fn value(&self) -> (r: u64)
        ensures
            r == self.0,
    {
        self.0
    }

    /// The index of this address in the host RAM slab.
    pub fn to_host_mem_arr_index(&self) -> (r: usize)
        requires
            self.0 >= CONFIG_MEM_BASE,
            self.0 - CONFIG_MEM_BASE <= usize::MAX,
        ensures
            r == self.0 - CONFIG_MEM_BASE,
    {
        (self.0 - CONFIG_MEM_BASE) as usize
    }

    /// The index of this address in the host firmware area.
    pub fn to_host_firmware_arr_index(&self) -> (r: usize)
        requires
            self.0 >= CONFIG_FIRMWARE_BASE,
            self.0 - CONFIG_FIRMWARE_BASE <= usize::MAX,
        ensures
            r == self.0 - CONFIG_FIRMWARE_BASE,
    {
        (self.0 - CONFIG_FIRMWARE_BASE) as usize
    }
}

/// The bounds of physical RAM under the default configuration, as an
/// inclusive `(first, last)` pair.
pub fn init_mem() -> (r: (u64, u64))
    ensures
        r.0 == CONFIG_MEM_BASE,
        r.1 == CONFIG_MEM_BASE + CONFIG_MEM_SIZE - 1,
{
    (CONFIG_MEM_BASE, CONFIG_MEM_BASE + (CONFIG_MEM_SIZE as u64) - 1)
}

} // verus!
