//! A verified RV64IMA full-system emulator core: registers, CSR file,
//! Sv39 MMU with TLB, decoded-instruction cache, instruction dispatch,
//! trap and interrupt handling, and the memory-mapped platform devices
//! as pure state machines.
use vstd::prelude::*;

pub mod bits;
pub mod ibuf;
pub mod inst;
pub mod vaddr;
pub mod cpu;
pub mod csr;
pub mod device;
pub mod laws;
pub mod mem;
pub mod mstatus;
pub mod monitor;
pub mod paddr;
pub mod satp;
pub mod reg;

verus! {

/// 64-bit wrapping addition.
pub open spec fn wrap_add64(a: u64, b: u64) -> u64 {
    vstd::wrapping::u64_specs::wrapping_add(a, b)
}

/// 64-bit wrapping subtraction.
pub open spec fn wrap_sub64(a: u64, b: u64) -> u64 {
    vstd::wrapping::u64_specs::wrapping_sub(a, b)
}

/// 64-bit wrapping multiplication.
pub open spec fn wrap_mul64(a: u64, b: u64) -> u64 {
    vstd::wrapping::u64_specs::wrapping_mul(a, b)
}

/// 32-bit wrapping addition.
pub open spec fn wrap_add32(a: u32, b: u32) -> u32 {
    vstd::wrapping::u32_specs::wrapping_add(a, b)
}

/// 32-bit wrapping subtraction.
pub open spec fn wrap_sub32(a: u32, b: u32) -> u32 {
    vstd::wrapping::u32_specs::wrapping_sub(a, b)
}

/// 32-bit wrapping multiplication.
pub open spec fn wrap_mul32(a: u32, b: u32) -> u32 {
    vstd::wrapping::u32_specs::wrapping_mul(a, b)
}

/// Sign-extend the low `size` bits of `data` to 64 bits.
pub open spec fn spec_sign_extend64(data: u64, size: u64) -> u64 {
    if (data >> ((size - 1) as u64)) & 1 == 1 {
        data | (!0u64 << size)
    } else {
        data & !(!0u64 << size)
    }
}

/// Sign-extend the low `size` bits (1 <= size < 64) of `data` to 64 bits.
pub fn sign_extend64(data: u64, size: usize) -> (r: u64)
    requires
        1 <= size < 64,
    ensures
        r == spec_sign_extend64(data, size as u64),
{
    if (data >> ((size - 1) as u64)) & 1 == 1 {
        data | (!0u64 << (size as u64))
    } else {
        data & !(!0u64 << (size as u64))
    }
}

} // verus!
