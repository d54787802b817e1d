//! Host-facing odds and ends: launch options, the GDB remote-protocol
//! hex decoding, and the descriptors the host tooling consumes.
use vstd::prelude::*;

verus! {

/// Launch options of the emulator.
pub struct Args {
    /// Guest image path, loaded above the firmware.
    pub image: Option<String>,
    /// Firmware path, loaded at the base of RAM.
    pub firmware: String,
    /// Run without the windowed devices.
    pub no_sdl_devices: bool,
    /// Run in lockstep against a reference implementation.
    pub difftest: bool,
    /// Run headless until the guest exits.
    pub batch: bool,
    /// Log file path, if logging to a file.
    pub log: Option<String>,
    /// Keep running when the guest hits a breakpoint.
    pub ignore_isa_breakpoint: bool,
    /// Verbosity of the log.
    pub log_level: LogLevel,
}

/// Log verbosity.
#[derive(Clone, Copy, PartialEq, Eq, Structural, Debug)]
pub enum LogLevel {
    Info,
    Debug,
    Trace,
}

/// How to start the reference implementation for lockstep runs.
pub struct DifftestInfo {
    /// Path of the reference system emulator.
    pub qemu_bin: String,
    /// The reset vector both sides start from.
    pub reset_vec: u64,
}

/// A handle to an external disassembler; the plain core only carries it.
pub struct LLVMDisassembler {
    /// Whether the handle was initialised.
    pub ready: bool,
}

impl LLVMDisassembler {
    /// A disassembler handle for the given triple and ISA string (the
    /// strings only select the external tool; the core stores nothing).
    pub fn new(_triple: &str, _isa: &str) -> (r: LLVMDisassembler)
        ensures
            r.ready,
    {
        LLVMDisassembler { ready: true }
    }
}

/// Whether a byte is an ASCII hexadecimal digit.
pub open spec fn spec_is_hexdigit(b: u8) -> bool {
    (0x30 <= b <= 0x39) || (0x41 <= b <= 0x46) || (0x61 <= b <= 0x66)
}

/// The value of an ASCII hexadecimal digit, either case.
pub open spec fn spec_hex_val(b: u8) -> u8 {
    if 0x30 <= b <= 0x39 {
        (b - 0x30) as u8
    } else if 0x41 <= b <= 0x46 {
        (b - 0x41 + 10) as u8
    } else {
        (b - 0x61 + 10) as u8
    }
}

/// The value of one ASCII hexadecimal digit.
pub fn hex_nibble(hex: u8) -> (r: u8)
    requires
        spec_is_hexdigit(hex),
    ensures
        r == spec_hex_val(hex),
        r < 16,
{
    if 0x30 <= hex && hex <= 0x39 {
        hex - 0x30
    } else if 0x41 <= hex && hex <= 0x46 {
        hex - 0x41 + 10
    } else {
        hex - 0x61 + 10
    }
}

/// Decode one GDB-protocol byte from two hexadecimal digits, most
/// significant first; `None` iff either is no hexadecimal digit.
pub fn gdb_decode_hex(msb: u8, lsb: u8) -> (r: Option<u8>)
    ensures
        r is Some <==> (spec_is_hexdigit(msb) && spec_is_hexdigit(lsb)),
        r matches Option::Some(v) ==> v == 16 * spec_hex_val(msb) + spec_hex_val(lsb),
{
    let msb_ok = (0x30 <= msb && msb <= 0x39) || (0x41 <= msb && msb <= 0x46) || (0x61 <= msb
        && msb <= 0x66);
    let lsb_ok = (0x30 <= lsb && lsb <= 0x39) || (0x41 <= lsb && lsb <= 0x46) || (0x61 <= lsb
        && lsb <= 0x66);
    if !msb_ok || !lsb_ok {
        return Option::None;
    }
    Option::Some(16 * hex_nibble(msb) + hex_nibble(lsb))
}

} // verus!
