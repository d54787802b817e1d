//! Integer register file: 32 architectural registers plus a synthetic
//! "fake zero" slot at index 32. Writes that name x0 are redirected to the
//! fake slot, so the real x0 is never modified.
use vstd::prelude::*;

verus! {

/// Number of register slots: 32 architectural plus the fake-zero slot.
pub const REG_COUNT: usize = 33;

/// Index of the slot that absorbs writes to x0.
pub const FAKE_ZERO_INDEX: u64 = 32;

/// Architectural register names in encoding order (`zero` is index 0,
/// `fake_zero` is the synthetic slot at index 32).
#[allow(non_camel_case_types)]
#[derive(Clone, Copy, PartialEq, Eq, Structural, Debug)]
pub enum RegName {
    zero,
    ra,
    sp,
    gp,
    tp,
    t0,
    t1,
    t2,
    s0,
    s1,
    a0,
    a1,
    a2,
    a3,
    a4,
    a5,
    a6,
    a7,
    s2,
    s3,
    s4,
    s5,
    s6,
    s7,
    s8,
    s9,
    s10,
    s11,
    t3,
    t4,
    t5,
    t6,
    fake_zero,
}

impl RegName {
    /// The register's index in the file.
    pub open spec fn spec_num(self) -> u64 {
        match self {
            RegName::zero => 0,
            RegName::ra => 1,
            RegName::sp => 2,
            RegName::gp => 3,
            RegName::tp => 4,
            RegName::t0 => 5,
            RegName::t1 => 6,
            RegName::t2 => 7,
            RegName::s0 => 8,
            RegName::s1 => 9,
            RegName::a0 => 10,
            RegName::a1 => 11,
            RegName::a2 => 12,
            RegName::a3 => 13,
            RegName::a4 => 14,
            RegName::a5 => 15,
            RegName::a6 => 16,
            RegName::a7 => 17,
            RegName::s2 => 18,
            RegName::s3 => 19,
            RegName::s4 => 20,
            RegName::s5 => 21,
            RegName::s6 => 22,
            RegName::s7 => 23,
            RegName::s8 => 24,
            RegName::s9 => 25,
            RegName::s10 => 26,
            RegName::s11 => 27,
            RegName::t3 => 28,
            RegName::t4 => 29,
            RegName::t5 => 30,
            RegName::t6 => 31,
            RegName::fake_zero => 32,
        }
    }

    /// The register's index in the file.
    #[verifier::when_used_as_spec(spec_num)]
    pub fn num(self) -> (r: u64)
        ensures
            r == self.spec_num(),
    {
        match self {
            RegName::zero => 0,
            RegName::ra => 1,
            RegName::sp => 2,
            RegName::gp => 3,
            RegName::tp => 4,
            RegName::t0 => 5,
            RegName::t1 => 6,
            RegName::t2 => 7,
            RegName::s0 => 8,
            RegName::s1 => 9,
            RegName::a0 => 10,
            RegName::a1 => 11,
            RegName::a2 => 12,
            RegName::a3 => 13,
            RegName::a4 => 14,
            RegName::a5 => 15,
            RegName::a6 => 16,
            RegName::a7 => 17,
            RegName::s2 => 18,
            RegName::s3 => 19,
            RegName::s4 => 20,
            RegName::s5 => 21,
            RegName::s6 => 22,
            RegName::s7 => 23,
            RegName::s8 => 24,
            RegName::s9 => 25,
            RegName::s10 => 26,
            RegName::s11 => 27,
            RegName::t3 => 28,
            RegName::t4 => 29,
            RegName::t5 => 30,
            RegName::t6 => 31,
            RegName::fake_zero => 32,
        }
    }
}

/// The register file. Invariant: slot 0 (architectural x0) always reads 0.
pub struct Registers {
    regs: Vec<u64>,
}

impl Registers {
    /// The register values, slot by slot.
    pub closed spec fn view(self) -> Seq<u64> {
        self.regs@
    }

    /// The file has all 33 slots and x0 reads 0.
    pub open spec fn wf(self) -> bool {
        &&& self@.len() == 33
        &&& self@[0] == 0
    }

    /// A fresh file with every register 0.
    pub fn new() -> (r: Registers)
        ensures
            r.wf(),
            forall|i: int| 0 <= i < 33 ==> r@[i] == 0,
    {
        let mut regs: Vec<u64> = Vec::new();
        let mut i: usize = 0;
        while i < 33
            invariant
                regs@.len() == i,
                i <= 33,
                forall|k: int| 0 <= k < i ==> regs@[k] == 0,
            decreases 33 - i,
        {
            regs.push(0);
            i = i + 1;
        }
        Registers { regs }
    }

    /// Read register `idx`.
    pub fn read(&self, idx: u64) -> (r: u64)
        requires
            self.wf(),
            idx < 33,
        ensures
            r == self@[idx as int],
    {
        self.regs[idx as usize]
    }

    /// Write register `idx`. A write naming architectural x0 is redirected
    /// to the fake-zero slot, so x0 still reads 0 afterwards.
    pub fn write(&mut self, idx: u64, val: u64)
        requires
            old(self).wf(),
            idx < 33,
        ensures
            final(self).wf(),
            final(self)@ == old(self)@.update(
                if idx == 0 { 32int } else { idx as int },
                val,
            ),
            final(self)@[0] == 0,
    {
        let slot: usize = if idx == 0 { 32 } else { idx as usize };
        self.regs.set(slot, val);
    }

    /// Read a register by name.
    pub fn read_name(&self, name: RegName) -> (r: u64)
        requires
            self.wf(),
        ensures
            r == self@[name.spec_num() as int],
    {
        self.read(name.num())
    }

    /// Write a register by name, with the x0 redirect.
    pub fn write_name(&mut self, name: RegName, val: u64)
        requires
            old(self).wf(),
        ensures
            final(self).wf(),
            final(self)@ == old(self)@.update(
                if name.spec_num() == 0 { 32int } else { name.spec_num() as int },
                val,
            ),
    {
        self.write(name.num(), val);
    }
}

/// Render the 32 architectural registers and the PC, one per line.
pub fn format_regs(regs: &Registers, pc: u64) -> (r: String)
    requires
        regs.wf(),
{
    let mut res = String::new();
    let names: [&str; 32] = [
        "zero", "ra", "sp", "gp", "tp", "t0", "t1", "t2", "s0", "s1", "a0", "a1", "a2", "a3",
        "a4", "a5", "a6", "a7", "s2", "s3", "s4", "s5", "s6", "s7", "s8", "s9", "s10", "s11",
        "t3", "t4", "t5", "t6",
    ];
    let mut i: usize = 0;
    while i < 32
        invariant
            regs.wf(),
        decreases 32 - i,
    {
        let line = format_reg_line(names[i], regs.read(i as u64));
        res.append(line.as_str());
        i = i + 1;
    }
    let pc_line = format_reg_line("pc", pc);
    res.append(pc_line.as_str());
    res
}

/// Relies on the `format!` macro of std: renders one "name: value" line.
#[verifier::external_body]
fn format_reg_line(name: &str, val: u64) -> (r: String) {
    format!("{}: {:#x}\n", name, val)
}

} // verus!
