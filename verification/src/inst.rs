//! Instruction patterns and operand decoding: the mask/key table that
//! recognises every implemented opcode, the per-format operand
//! extraction, and the arithmetic helpers the semantics use.
use vstd::prelude::*;

use crate::mem::MemOperationSize;
use crate::reg::FAKE_ZERO_INDEX;
use crate::spec_sign_extend64;

verus! {

/// The signed value of a 64-bit two's-complement word.
pub open spec fn s64val(x: u64) -> int {
    if x >= 0x8000000000000000 {
        x - 0x10000000000000000
    } else {
        x as int
    }
}

/// The signed value of a 32-bit two's-complement word.
pub open spec fn s32val(x: u32) -> int {
    if x >= 0x80000000 {
        x - 0x100000000
    } else {
        x as int
    }
}

/// Signed less-than on 64-bit words.
pub open spec fn spec_slt64(a: u64, b: u64) -> bool {
    s64val(a) < s64val(b)
}

/// Signed less-than on 64-bit words.
#[verifier::when_used_as_spec(spec_slt64)]
pub fn slt64(a: u64, b: u64) -> (r: bool)
    ensures
        r == spec_slt64(a, b),
{
    let an = a >= 0x8000000000000000;
    let bn = b >= 0x8000000000000000;
    if an != bn {
        an
    } else {
        a < b
    }
}

/// Two's-complement negation of a 64-bit word.
pub open spec fn spec_neg64(x: u64) -> u64 {
    if x == 0 {
        0
    } else {
        (0x10000000000000000 - x) as u64
    }
}

/// Two's-complement negation of a 64-bit word.
#[verifier::when_used_as_spec(spec_neg64)]
pub fn neg64(x: u64) -> (r: u64)
    ensures
        r == spec_neg64(x),
{
    if x == 0 {
        0
    } else {
        proof {
            let y = x;
            assert(y != 0 ==> !y == (0xffffffffffffffffu64 - y) as u64) by (bit_vector);
        }
        !x + 1
    }
}

/// The magnitude of a 64-bit word read as signed.
pub open spec fn spec_abs64(x: u64) -> u64 {
    if x >= 0x8000000000000000 {
        spec_neg64(x)
    } else {
        x
    }
}

/// The magnitude of a 64-bit word read as signed.
#[verifier::when_used_as_spec(spec_abs64)]
pub fn abs64(x: u64) -> (r: u64)
    ensures
        r == spec_abs64(x),
{
    if x >= 0x8000000000000000 {
        neg64(x)
    } else {
        x
    }
}

/// Unsigned 64-bit division; division by zero returns all ones, the
/// architectural result.
pub open spec fn spec_divu64(a: u64, b: u64) -> u64 {
    if b == 0 {
        0xffffffffffffffffu64
    } else {
        (a as int / b as int) as u64
    }
}

/// Unsigned 64-bit division; division by zero returns all ones.
#[verifier::when_used_as_spec(spec_divu64)]
pub fn divu64(a: u64, b: u64) -> (r: u64)
    ensures
        r == spec_divu64(a, b),
{
    if b == 0 {
        0xffffffffffffffff
    } else {
        a / b
    }
}

/// Unsigned 64-bit remainder; division by zero returns the dividend.
pub open spec fn spec_remu64(a: u64, b: u64) -> u64 {
    if b == 0 {
        a
    } else {
        (a as int % b as int) as u64
    }
}

/// Unsigned 64-bit remainder; division by zero returns the dividend.
#[verifier::when_used_as_spec(spec_remu64)]
pub fn remu64(a: u64, b: u64) -> (r: u64)
    ensures
        r == spec_remu64(a, b),
{
    if b == 0 {
        a
    } else {
        a % b
    }
}

/// Signed 64-bit division, truncating toward zero: the quotient of the
/// magnitudes carries the product of the signs. Division by zero returns
/// -1; the most negative value divided by -1 wraps to itself.
pub open spec fn spec_div64(a: u64, b: u64) -> u64 {
    if b == 0 {
        0xffffffffffffffffu64
    } else {
        let q = (spec_abs64(a) as int / spec_abs64(b) as int) as u64;
        if (a >= 0x8000000000000000) != (b >= 0x8000000000000000) {
            spec_neg64(q)
        } else {
            q
        }
    }
}

/// Signed 64-bit division, truncating toward zero.
#[verifier::when_used_as_spec(spec_div64)]
pub fn div64(a: u64, b: u64) -> (r: u64)
    ensures
        r == spec_div64(a, b),
        b == 0 ==> r == 0xffffffffffffffffu64,
{
    if b == 0 {
        0xffffffffffffffff
    } else {
        let q = abs64(a) / abs64(b);
        if (a >= 0x8000000000000000) != (b >= 0x8000000000000000) {
            neg64(q)
        } else {
            q
        }
    }
}

/// Signed 64-bit remainder, with the sign of the dividend. Division by
/// zero returns the dividend.
pub open spec fn spec_rem64(a: u64, b: u64) -> u64 {
    if b == 0 {
        a
    } else {
        let m = (spec_abs64(a) as int % spec_abs64(b) as int) as u64;
        if a >= 0x8000000000000000 {
            spec_neg64(m)
        } else {
            m
        }
    }
}

/// Signed 64-bit remainder, with the sign of the dividend.
#[verifier::when_used_as_spec(spec_rem64)]
pub fn rem64(a: u64, b: u64) -> (r: u64)
    ensures
        r == spec_rem64(a, b),
        b == 0 ==> r == a,
{
    if b == 0 {
        a
    } else {
        let m = abs64(a) % abs64(b);
        if a >= 0x8000000000000000 {
            neg64(m)
        } else {
            m
        }
    }
}

/// Sign-extend the low 32 bits to 64.
pub open spec fn spec_sext32(src: u64) -> u64 {
    spec_sign_extend64(src, 32)
}

/// Sign-extend the low 32 bits to 64.
#[verifier::when_used_as_spec(spec_sext32)]
pub fn sign_ext_32to64(src: u64) -> (r: u64)
    ensures
        r == spec_sext32(src),
{
    crate::sign_extend64(src, 32)
}

/// Arithmetic (sign-preserving) right shift of a 64-bit word by
/// `sh < 64` places.
pub open spec fn spec_sra64(x: u64, sh: u64) -> u64 {
    if sh == 0 {
        x
    } else if x >= 0x8000000000000000 {
        (x >> sh) | (!0u64 << ((64 - sh) as u64))
    } else {
        x >> sh
    }
}

/// Arithmetic (sign-preserving) right shift by `sh < 64` places.
#[verifier::when_used_as_spec(spec_sra64)]
pub fn sra64(x: u64, sh: u64) -> (r: u64)
    requires
        sh < 64,
    ensures
        r == spec_sra64(x, sh),
{
    if sh == 0 {
        x
    } else if x >= 0x8000000000000000 {
        (x >> sh) | (!0u64 << (64 - sh))
    } else {
        x >> sh
    }
}

/// The high 64 bits of the unsigned 128-bit product.
pub open spec fn spec_mulhu64(a: u64, b: u64) -> u64 {
    (((a as int) * (b as int)) / 0x10000000000000000) as u64
}

/// The high 64 bits of the unsigned 128-bit product.
#[verifier::when_used_as_spec(spec_mulhu64)]
pub fn mulhu64(a: u64, b: u64) -> (r: u64)
    ensures
        r == spec_mulhu64(a, b),
{
    proof {
        assert((a as int) * (b as int) <= 0xffffffffffffffffu64 * 0xffffffffffffffffu64)
            by (nonlinear_arith)
            requires
                a <= 0xffffffffffffffffu64,
                b <= 0xffffffffffffffffu64,
        ;
        assert(0 <= (a as int) * (b as int)) by (nonlinear_arith);
        vstd::arithmetic::div_mod::lemma_div_nonincreasing(
            (a as int) * (b as int),
            0x10000000000000000,
        );
        vstd::arithmetic::div_mod::lemma_div_pos_is_pos(
            (a as int) * (b as int),
            0x10000000000000000,
        );
    }
    ((a as u128) * (b as u128) / 0x10000000000000000) as u64
}

/// The high 64 bits of the signed 128-bit product, computed from the
/// unsigned high product by the usual sign corrections.
pub open spec fn spec_mulh64(a: u64, b: u64) -> u64 {
    let base = spec_mulhu64(a, b);
    let c1 = if a >= 0x8000000000000000 {
        crate::wrap_sub64(base, b)
    } else {
        base
    };
    if b >= 0x8000000000000000 {
        crate::wrap_sub64(c1, a)
    } else {
        c1
    }
}

/// The high 64 bits of the signed 128-bit product.
#[verifier::when_used_as_spec(spec_mulh64)]
pub fn mulh64(a: u64, b: u64) -> (r: u64)
    ensures
        r == spec_mulh64(a, b),
{
    let base = mulhu64(a, b);
    let c1 = if a >= 0x8000000000000000 {
        base.wrapping_sub(b)
    } else {
        base
    };
    if b >= 0x8000000000000000 {
        c1.wrapping_sub(a)
    } else {
        c1
    }
}

/// The operand format of an instruction.
#[derive(Clone, Copy, PartialEq, Eq, Structural, Debug)]
pub enum InstType {
    R,
    I,
    S,
    B,
    U,
    J,
    Zicsr,
}

/// Two-operand integer operations.
#[derive(Clone, Copy, PartialEq, Eq, Structural, Debug)]
pub enum AluOp {
    Add,
    Sub,
    Mul,
    Mulh,
    Mulhu,
    Div,
    Divu,
    Rem,
    Remu,
    And,
    Or,
    Xor,
    Sll,
    Srl,
    Sra,
    Slt,
    Sltu,
}

/// Branch comparisons.
#[derive(Clone, Copy, PartialEq, Eq, Structural, Debug)]
pub enum BranchCond {
    Eq,
    Ne,
    Ge,
    Geu,
    Lt,
    Ltu,
}

/// The Zicsr access forms.
#[derive(Clone, Copy, PartialEq, Eq, Structural, Debug)]
pub enum CsrOp {
    Rw,
    Rs,
    Rc,
}

/// The Zaamo read-modify-write operations.
#[derive(Clone, Copy, PartialEq, Eq, Structural, Debug)]
pub enum AmoOp {
    Swap,
    Add,
    Or,
    And,
}

/// The semantic class of an instruction, with its static parameters.
#[derive(Clone, Copy, PartialEq, Eq, Structural, Debug)]
pub enum InstOp {
    Load { size: MemOperationSize, signed: bool },
    Store { size: MemOperationSize, clear_rd: bool },
    Lui,
    Auipc,
    AluR { op: AluOp },
    AluI { op: AluOp },
    AluRW { op: AluOp },
    AluIW { op: AluOp },
    Branch { cond: BranchCond },
    Jal,
    Jalr,
    Csr { op: CsrOp, imm_form: bool },
    Amo { op: AmoOp, size: MemOperationSize },
    Ecall,
    Ebreak,
    Sret,
    Mret,
    Fence,
    FenceI,
    SfenceVma,
    Wfi,
}

/// 64-bit two-operand semantics; shifts use only the low six bits of the
/// second operand; division follows the architectural zero rules.
pub open spec fn spec_alu64(op: AluOp, a: u64, b: u64) -> u64 {
    match op {
        AluOp::Add => crate::wrap_add64(a, b),
        AluOp::Sub => crate::wrap_sub64(a, b),
        AluOp::Mul => crate::wrap_mul64(a, b),
        AluOp::Mulh => spec_mulh64(a, b),
        AluOp::Mulhu => spec_mulhu64(a, b),
        AluOp::Div => spec_div64(a, b),
        AluOp::Divu => spec_divu64(a, b),
        AluOp::Rem => spec_rem64(a, b),
        AluOp::Remu => spec_remu64(a, b),
        AluOp::And => a & b,
        AluOp::Or => a | b,
        AluOp::Xor => a ^ b,
        AluOp::Sll => a << (b & 0x3f),
        AluOp::Srl => a >> (b & 0x3f),
        AluOp::Sra => spec_sra64(a, b & 0x3f),
        AluOp::Slt => if spec_slt64(a, b) {
            1
        } else {
            0
        },
        AluOp::Sltu => if a < b {
            1
        } else {
            0
        },
    }
}

/// 64-bit two-operand semantics.
#[verifier::when_used_as_spec(spec_alu64)]
pub fn alu64(op: AluOp, a: u64, b: u64) -> (r: u64)
    ensures
        r == spec_alu64(op, a, b),
{
    match op {
        AluOp::Add => a.wrapping_add(b),
        AluOp::Sub => a.wrapping_sub(b),
        AluOp::Mul => a.wrapping_mul(b),
        AluOp::Mulh => mulh64(a, b),
        AluOp::Mulhu => mulhu64(a, b),
        AluOp::Div => div64(a, b),
        AluOp::Divu => divu64(a, b),
        AluOp::Rem => rem64(a, b),
        AluOp::Remu => remu64(a, b),
        AluOp::And => a & b,
        AluOp::Or => a | b,
        AluOp::Xor => a ^ b,
        AluOp::Sll => {
            proof {
                let bb = b;
                assert(bb & 0x3f < 64) by (bit_vector);
            }
            a << (b & 0x3f)
        },
        AluOp::Srl => {
            proof {
                let bb = b;
                assert(bb & 0x3f < 64) by (bit_vector);
            }
            a >> (b & 0x3f)
        },
        AluOp::Sra => {
            proof {
                let bb = b;
                assert(bb & 0x3f < 64) by (bit_vector);
            }
            sra64(a, b & 0x3f)
        },
        AluOp::Slt => if slt64(a, b) {
            1
        } else {
            0
        },
        AluOp::Sltu => if a < b {
            1
        } else {
            0
        },
    }
}

/// 32-bit two-operand semantics (the `W` forms): operate on the low 32
/// bits, then sign-extend to 64. Shifts use only the low five bits of
/// the second operand.
pub open spec fn spec_alu32(op: AluOp, a: u64, b: u64) -> u64 {
    let a32 = (a & 0xffffffffu64) as u32;
    let b32 = (b & 0xffffffffu64) as u32;
    match op {
        AluOp::Add => spec_sext32(crate::wrap_add32(a32, b32) as u64),
        AluOp::Sub => spec_sext32(crate::wrap_sub32(a32, b32) as u64),
        AluOp::Mul => spec_sext32(crate::wrap_mul32(a32, b32) as u64),
        AluOp::Div => spec_sext32(spec_div32(a32, b32) as u64),
        AluOp::Divu => spec_sext32(spec_divu32(a32, b32) as u64),
        AluOp::Rem => spec_sext32(spec_rem32(a32, b32) as u64),
        AluOp::Remu => spec_sext32(spec_remu32(a32, b32) as u64),
        AluOp::Sll => spec_sext32((a & 0xffffffffu64) << (b & 0x1f)),
        AluOp::Srl => spec_sext32((a & 0xffffffffu64) >> (b & 0x1f)),
        AluOp::Sra => spec_sra64(spec_sext32(a), b & 0x1f),
        _ => 0,
    }
}

/// Unsigned 32-bit division; zero divisor gives all ones.
pub open spec fn spec_divu32(a: u32, b: u32) -> u32 {
    if b == 0 {
        0xffffffffu32
    } else {
        (a as int / b as int) as u32
    }
}

/// Unsigned 32-bit remainder; zero divisor gives the dividend.
pub open spec fn spec_remu32(a: u32, b: u32) -> u32 {
    if b == 0 {
        a
    } else {
        (a as int % b as int) as u32
    }
}

/// The magnitude of a 32-bit word read as signed.
pub open spec fn spec_abs32(x: u32) -> u32 {
    if x == 0 {
        0
    } else if x >= 0x80000000 {
        (0x100000000 - x) as u32
    } else {
        x
    }
}

/// Signed 32-bit division, truncating toward zero; zero divisor gives
/// all ones (-1).
pub open spec fn spec_div32(a: u32, b: u32) -> u32 {
    if b == 0 {
        0xffffffffu32
    } else {
        let q = (spec_abs32(a) as int / spec_abs32(b) as int) as u32;
        if (a >= 0x80000000) != (b >= 0x80000000) {
            if q == 0 {
                0
            } else {
                (0x100000000 - q) as u32
            }
        } else {
            q
        }
    }
}

/// Signed 32-bit remainder, with the sign of the dividend; zero divisor
/// gives the dividend.
pub open spec fn spec_rem32(a: u32, b: u32) -> u32 {
    if b == 0 {
        a
    } else {
        let m = (spec_abs32(a) as int % spec_abs32(b) as int) as u32;
        if a >= 0x80000000 {
            if m == 0 {
                0
            } else {
                (0x100000000 - m) as u32
            }
        } else {
            m
        }
    }
}

/// 32-bit two-operand semantics.
pub fn alu32(op: AluOp, a: u64, b: u64) -> (r: u64)
    ensures
        r == spec_alu32(op, a, b),
{
    let a32: u32 = (a & 0xffffffff) as u32;
    let b32: u32 = (b & 0xffffffff) as u32;
    proof {
        let bb = b;
        assert(bb & 0x1f < 32 && bb & 0x1f < 64) by (bit_vector);
        let aa = a;
        assert(aa & 0xffffffffu64 <= 0xffffffffu64) by (bit_vector);
    }
    match op {
        AluOp::Add => sign_ext_32to64(a32.wrapping_add(b32) as u64),
        AluOp::Sub => sign_ext_32to64(a32.wrapping_sub(b32) as u64),
        AluOp::Mul => sign_ext_32to64(a32.wrapping_mul(b32) as u64),
        AluOp::Div => {
            let q: u32 = if b32 == 0 {
                0xffffffff
            } else {
                let qa = abs32(a32) / abs32(b32);
                if (a32 >= 0x80000000) != (b32 >= 0x80000000) {
                    neg32(qa)
                } else {
                    qa
                }
            };
            sign_ext_32to64(q as u64)
        },
        AluOp::Divu => {
            let q: u32 = if b32 == 0 {
                0xffffffff
            } else {
                a32 / b32
            };
            sign_ext_32to64(q as u64)
        },
        AluOp::Rem => {
            let m: u32 = if b32 == 0 {
                a32
            } else {
                let ma = abs32(a32) % abs32(b32);
                if a32 >= 0x80000000 {
                    neg32(ma)
                } else {
                    ma
                }
            };
            sign_ext_32to64(m as u64)
        },
        AluOp::Remu => {
            let m: u32 = if b32 == 0 {
                a32
            } else {
                a32 % b32
            };
            sign_ext_32to64(m as u64)
        },
        AluOp::Sll => sign_ext_32to64((a & 0xffffffff) << (b & 0x1f)),
        AluOp::Srl => sign_ext_32to64((a & 0xffffffff) >> (b & 0x1f)),
        AluOp::Sra => sra64(sign_ext_32to64(a), b & 0x1f),
        _ => 0,
    }
}

/// The magnitude of a 32-bit word read as signed.
fn abs32(x: u32) -> (r: u32)
    ensures
        r == spec_abs32(x),
{
    if x >= 0x80000000 {
        neg32(x)
    } else {
        x
    }
}

/// Two's-complement negation of a 32-bit word.
fn neg32(x: u32) -> (r: u32)
    ensures
        r == if x == 0 {
            0u32
        } else {
            ((0x100000000 - x) as u32)
        },
{
    if x == 0 {
        0
    } else {
        proof {
            let y = x;
            assert(y != 0 ==> !y == (0xffffffffu32 - y) as u32) by (bit_vector);
        }
        !x + 1
    }
}

/// The decoded operands of one instruction. `rd` naming x0 has been
/// redirected to the fake-zero slot already.
#[derive(Clone, Copy, PartialEq, Eq, Structural, Debug)]
pub struct Decode {
    pub rd: u64,
    pub rs1: u64,
    pub rs2: u64,
    pub imm: u64,
    pub inst: u64,
}

impl Decode {
    /// A zeroed record.
    pub open spec fn spec_empty() -> Decode {
        Decode { rd: 0, rs1: 0, rs2: 0, imm: 0, inst: 0 }
    }

    /// A zeroed record (what an empty cache row holds).
    pub fn create_empty() -> (r: Decode)
        ensures
            r == Decode::spec_empty(),
    {
        Decode { rd: 0, rs1: 0, rs2: 0, imm: 0, inst: 0 }
    }

    /// Operands in range for the register file.
    pub open spec fn wf(self) -> bool {
        &&& self.rd < 33
        &&& self.rs1 < 33
        &&& self.rs2 < 33
    }
}

/// The operands `format` extracts from `inst`, with the x0 destination
/// redirect applied.
pub open spec fn spec_decode(format: InstType, inst: u64) -> Decode {
    let rd_raw = (inst >> 7) & 0x1f;
    let rd = if rd_raw == 0 {
        32u64
    } else {
        rd_raw
    };
    let rs1 = (inst >> 15) & 0x1f;
    let rs2 = (inst >> 20) & 0x1f;
    match format {
        InstType::R => Decode { rd, rs1, rs2, imm: 0, inst },
        InstType::I => Decode {
            rd,
            rs1,
            rs2: 0,
            imm: spec_sign_extend64((inst >> 20) & 0xfff, 12),
            inst,
        },
        InstType::S => Decode {
            rd: 0,
            rs1,
            rs2,
            imm: spec_sign_extend64((((inst >> 25) & 0x7f) << 5) | ((inst >> 7) & 0x1f), 12),
            inst,
        },
        InstType::B => Decode {
            rd: 0,
            rs1,
            rs2,
            imm: spec_sign_extend64(
                (((inst >> 31) & 1) << 12) | (((inst >> 7) & 1) << 11) | (((inst >> 25) & 0x3f)
                    << 5) | (((inst >> 8) & 0xf) << 1),
                13,
            ),
            inst,
        },
        InstType::U => Decode {
            rd,
            rs1: 0,
            rs2: 0,
            imm: spec_sign_extend64((inst >> 12) & 0xfffff, 20) << 12,
            inst,
        },
        InstType::J => Decode {
            rd,
            rs1: 0,
            rs2: 0,
            imm: spec_sign_extend64(
                (((inst >> 31) & 1) << 20) | (((inst >> 12) & 0xff) << 12) | (((inst >> 20) & 1)
                    << 11) | (((inst >> 21) & 0x3ff) << 1),
                21,
            ),
            inst,
        },
        InstType::Zicsr => Decode { rd, rs1, rs2: 0, imm: (inst >> 20) & 0xfff, inst },
    }
}

/// One dispatch-table row: an instruction matches iff
/// `inst & mask == key`.
#[derive(Clone, Copy)]
pub struct Pattern {
    pub mask: u64,
    pub key: u64,
    pub inst_type: InstType,
    pub name: &'static str,
    pub op: InstOp,
}

impl Pattern {
    /// Whether this pattern recognises `inst`.
    pub fn match_inst(&self, inst: &u64) -> (r: bool)
        ensures
            r == (inst & self.mask == self.key),
    {
        (*inst & self.mask) == self.key
    }

    /// Extract the operands of `inst` under this pattern's format.
    pub fn decode(&self, inst: &u64) -> (d: Decode)
        ensures
            d == spec_decode(self.inst_type, *inst),
            d.wf(),
    {
        let i = *inst;
        proof {
            let x = i;
            assert((x >> 7) & 0x1f < 32 && (x >> 15) & 0x1f < 32 && (x >> 20) & 0x1f < 32)
                by (bit_vector);
        }
        let rd_raw = (i >> 7) & 0x1f;
        let rd: u64 = if rd_raw == 0 {
            FAKE_ZERO_INDEX
        } else {
            rd_raw
        };
        let rs1 = (i >> 15) & 0x1f;
        let rs2 = (i >> 20) & 0x1f;
        match self.inst_type {
            InstType::R => Decode { rd, rs1, rs2, imm: 0, inst: i },
            InstType::I => Decode {
                rd,
                rs1,
                rs2: 0,
                imm: crate::sign_extend64((i >> 20) & 0xfff, 12),
                inst: i,
            },
            InstType::S => Decode {
                rd: 0,
                rs1,
                rs2,
                imm: crate::sign_extend64((((i >> 25) & 0x7f) << 5) | ((i >> 7) & 0x1f), 12),
                inst: i,
            },
            InstType::B => Decode {
                rd: 0,
                rs1,
                rs2,
                imm: crate::sign_extend64(
                    (((i >> 31) & 1) << 12) | (((i >> 7) & 1) << 11) | (((i >> 25) & 0x3f) << 5) | (
                    ((i >> 8) & 0xf) << 1),
                    13,
                ),
                inst: i,
            },
            InstType::U => Decode {
                rd,
                rs1: 0,
                rs2: 0,
                imm: crate::sign_extend64((i >> 12) & 0xfffff, 20) << 12,
                inst: i,
            },
            InstType::J => Decode {
                rd,
                rs1: 0,
                rs2: 0,
                imm: crate::sign_extend64(
                    (((i >> 31) & 1) << 20) | (((i >> 12) & 0xff) << 12) | (((i >> 20) & 1) << 11)
                        | (((i >> 21) & 0x3ff) << 1),
                    21,
                ),
                inst: i,
            },
            InstType::Zicsr => Decode { rd, rs1, rs2: 0, imm: (i >> 20) & 0xfff, inst: i },
        }
    }
}

/// One step of parsing a pattern string: `1` and `0` extend mask and
/// key, `?` leaves the bit free, anything else is skipped.
pub open spec fn spec_pat_step(mk: (u64, u64), c: char) -> (u64, u64) {
    if c == '1' {
        ((mk.0 << 1) | 1, (mk.1 << 1) | 1)
    } else if c == '0' {
        ((mk.0 << 1) | 1, mk.1 << 1)
    } else if c == '?' {
        (mk.0 << 1, mk.1 << 1)
    } else {
        mk
    }
}

/// The mask and key a pattern string denotes.
pub open spec fn spec_pat_fold(s: Seq<char>) -> (u64, u64)
    decreases s.len(),
{
    if s.len() == 0 {
        (0, 0)
    } else {
        spec_pat_step(spec_pat_fold(s.drop_last()), s.last())
    }
}

/// Build a dispatch row from a human-readable bit pattern: `1` and `0`
/// are fixed bits, `?` is free, spaces group fields.
pub fn make_pattern(pat: &str, inst_type: InstType, name: &'static str, op: InstOp) -> (r: Pattern)
    ensures
        (r.mask, r.key) == spec_pat_fold(pat@),
        r.inst_type == inst_type,
        r.name == name,
        r.op == op,
{
    let mut mask: u64 = 0;
    let mut key: u64 = 0;
    let len = pat.unicode_len();
    let mut i: usize = 0;
    while i < len
        invariant
            len == pat@.len(),
            i <= len,
            (mask, key) == spec_pat_fold(pat@.take(i as int)),
        decreases len - i,
    {
        let c = pat.get_char(i);
        proof {
            assert(pat@.take(i + 1).drop_last() =~= pat@.take(i as int));
            assert(pat@.take(i + 1).last() == pat@[i as int]);
        }
        if c == '1' {
            mask = (mask << 1) | 1;
            key = (key << 1) | 1;
        } else if c == '0' {
            mask = (mask << 1) | 1;
            key = key << 1;
        } else if c == '?' {
            mask = mask << 1;
            key = key << 1;
        }
        i = i + 1;
    }
    proof {
        assert(pat@.take(len as int) =~= pat@);
    }
    Pattern { mask, key, inst_type, name, op }
}

} // verus!

verus! {

/// The first pattern in the table that recognises `inst`, if any.
pub open spec fn spec_first_match(pats: Seq<Pattern>, inst: u64) -> Option<int>
    decreases pats.len(),
{
    if pats.len() == 0 {
        Option::None
    } else if inst & pats[0].mask == pats[0].key {
        Option::Some(0)
    } else {
        match spec_first_match(pats.drop_first(), inst) {
            Option::Some(i) => Option::Some(i + 1),
            Option::None => Option::None,
        }
    }
}

/// Row `i` of the dispatch table, as a value the contracts can speak
/// of: the mask and key its bit pattern denotes, its operand format, its
/// name and its semantic class.
pub open spec fn spec_pattern_at(i: int) -> Pattern {
    if i == 0 {
        Pattern {
            mask: spec_pat_fold("??????? ????? ????? 000 ????? 0000011"@).0,
            key: spec_pat_fold("??????? ????? ????? 000 ????? 0000011"@).1,
            inst_type: InstType::I,
            name: "lb",
            op: InstOp::Load { size: MemOperationSize::Byte, signed: true },
        }
    } else if i == 1 {
        Pattern {
            mask: spec_pat_fold("??????? ????? ????? 100 ????? 0000011"@).0,
            key: spec_pat_fold("??????? ????? ????? 100 ????? 0000011"@).1,
            inst_type: InstType::I,
            name: "lbu",
            op: InstOp::Load { size: MemOperationSize::Byte, signed: false },
        }
    } else if i == 2 {
        Pattern {
            mask: spec_pat_fold("??????? ????? ????? 001 ????? 0000011"@).0,
            key: spec_pat_fold("??????? ????? ????? 001 ????? 0000011"@).1,
            inst_type: InstType::I,
            name: "lh",
            op: InstOp::Load { size: MemOperationSize::WORD, signed: true },
        }
    } else if i == 3 {
        Pattern {
            mask: spec_pat_fold("??????? ????? ????? 101 ????? 0000011"@).0,
            key: spec_pat_fold("??????? ????? ????? 101 ????? 0000011"@).1,
            inst_type: InstType::I,
            name: "lhu",
            op: InstOp::Load { size: MemOperationSize::WORD, signed: false },
        }
    } else if i == 4 {
        Pattern {
            mask: spec_pat_fold("??????? ????? ????? 010 ????? 0000011"@).0,
            key: spec_pat_fold("??????? ????? ????? 010 ????? 0000011"@).1,
            inst_type: InstType::I,
            name: "lw",
            op: InstOp::Load { size: MemOperationSize::DWORD, signed: true },
        }
    } else if i == 5 {
        Pattern {
            mask: spec_pat_fold("??????? ????? ????? 110 ????? 0000011"@).0,
            key: spec_pat_fold("??????? ????? ????? 110 ????? 0000011"@).1,
            inst_type: InstType::I,
            name: "lwu",
            op: InstOp::Load { size: MemOperationSize::DWORD, signed: false },
        }
    } else if i == 6 {
        Pattern {
            mask: spec_pat_fold("??????? ????? ????? 011 ????? 0000011"@).0,
            key: spec_pat_fold("??????? ????? ????? 011 ????? 0000011"@).1,
            inst_type: InstType::I,
            name: "ld",
            op: InstOp::Load { size: MemOperationSize::QWORD, signed: false },
        }
    } else if i == 7 {
        Pattern {
            mask: spec_pat_fold("??????? ????? ????? 000 ????? 0100011"@).0,
            key: spec_pat_fold("??????? ????? ????? 000 ????? 0100011"@).1,
            inst_type: InstType::S,
            name: "sb",
            op: InstOp::Store { size: MemOperationSize::Byte, clear_rd: false },
        }
    } else if i == 8 {
        Pattern {
            mask: spec_pat_fold("??????? ????? ????? 001 ????? 0100011"@).0,
            key: spec_pat_fold("??????? ????? ????? 001 ????? 0100011"@).1,
            inst_type: InstType::S,
            name: "sh",
            op: InstOp::Store { size: MemOperationSize::WORD, clear_rd: false },
        }
    } else if i == 9 {
        Pattern {
            mask: spec_pat_fold("??????? ????? ????? 010 ????? 0100011"@).0,
            key: spec_pat_fold("??????? ????? ????? 010 ????? 0100011"@).1,
            inst_type: InstType::S,
            name: "sw",
            op: InstOp::Store { size: MemOperationSize::DWORD, clear_rd: false },
        }
    } else if i == 10 {
        Pattern {
            mask: spec_pat_fold("??????? ????? ????? 011 ????? 0100011"@).0,
            key: spec_pat_fold("??????? ????? ????? 011 ????? 0100011"@).1,
            inst_type: InstType::S,
            name: "sd",
            op: InstOp::Store { size: MemOperationSize::QWORD, clear_rd: false },
        }
    } else if i == 11 {
        Pattern {
            mask: spec_pat_fold("??????? ????? ????? ??? ????? 0110111"@).0,
            key: spec_pat_fold("??????? ????? ????? ??? ????? 0110111"@).1,
            inst_type: InstType::U,
            name: "lui",
            op: InstOp::Lui,
        }
    } else if i == 12 {
        Pattern {
            mask: spec_pat_fold("??????? ????? ????? 000 ????? 0010011"@).0,
            key: spec_pat_fold("??????? ????? ????? 000 ????? 0010011"@).1,
            inst_type: InstType::I,
            name: "addi",
            op: InstOp::AluI { op: AluOp::Add },
        }
    } else if i == 13 {
        Pattern {
            mask: spec_pat_fold("??????? ????? ????? 000 ????? 0011011"@).0,
            key: spec_pat_fold("??????? ????? ????? 000 ????? 0011011"@).1,
            inst_type: InstType::I,
            name: "addiw",
            op: InstOp::AluIW { op: AluOp::Add },
        }
    } else if i == 14 {
        Pattern {
            mask: spec_pat_fold("0000000 ????? ????? 000 ????? 0110011"@).0,
            key: spec_pat_fold("0000000 ????? ????? 000 ????? 0110011"@).1,
            inst_type: InstType::R,
            name: "add",
            op: InstOp::AluR { op: AluOp::Add },
        }
    } else if i == 15 {
        Pattern {
            mask: spec_pat_fold("0100000 ????? ????? 000 ????? 0110011"@).0,
            key: spec_pat_fold("0100000 ????? ????? 000 ????? 0110011"@).1,
            inst_type: InstType::R,
            name: "sub",
            op: InstOp::AluR { op: AluOp::Sub },
        }
    } else if i == 16 {
        Pattern {
            mask: spec_pat_fold("0000001 ????? ????? 000 ????? 0110011"@).0,
            key: spec_pat_fold("0000001 ????? ????? 000 ????? 0110011"@).1,
            inst_type: InstType::R,
            name: "mul",
            op: InstOp::AluR { op: AluOp::Mul },
        }
    } else if i == 17 {
        Pattern {
            mask: spec_pat_fold("0000001 ????? ????? 100 ????? 0110011"@).0,
            key: spec_pat_fold("0000001 ????? ????? 100 ????? 0110011"@).1,
            inst_type: InstType::R,
            name: "div",
            op: InstOp::AluR { op: AluOp::Div },
        }
    } else if i == 18 {
        Pattern {
            mask: spec_pat_fold("0000001 ????? ????? 101 ????? 0110011"@).0,
            key: spec_pat_fold("0000001 ????? ????? 101 ????? 0110011"@).1,
            inst_type: InstType::R,
            name: "divu",
            op: InstOp::AluR { op: AluOp::Divu },
        }
    } else if i == 19 {
        Pattern {
            mask: spec_pat_fold("0000001 ????? ????? 110 ????? 0110011"@).0,
            key: spec_pat_fold("0000001 ????? ????? 110 ????? 0110011"@).1,
            inst_type: InstType::R,
            name: "rem",
            op: InstOp::AluR { op: AluOp::Rem },
        }
    } else if i == 20 {
        Pattern {
            mask: spec_pat_fold("0000001 ????? ????? 111 ????? 0110011"@).0,
            key: spec_pat_fold("0000001 ????? ????? 111 ????? 0110011"@).1,
            inst_type: InstType::R,
            name: "remu",
            op: InstOp::AluR { op: AluOp::Remu },
        }
    } else if i == 21 {
        Pattern {
            mask: spec_pat_fold("0000000 ????? ????? 000 ????? 0111011"@).0,
            key: spec_pat_fold("0000000 ????? ????? 000 ????? 0111011"@).1,
            inst_type: InstType::R,
            name: "addw",
            op: InstOp::AluRW { op: AluOp::Add },
        }
    } else if i == 22 {
        Pattern {
            mask: spec_pat_fold("0100000 ????? ????? 000 ????? 0111011"@).0,
            key: spec_pat_fold("0100000 ????? ????? 000 ????? 0111011"@).1,
            inst_type: InstType::R,
            name: "subw",
            op: InstOp::AluRW { op: AluOp::Sub },
        }
    } else if i == 23 {
        Pattern {
            mask: spec_pat_fold("0000001 ????? ????? 000 ????? 0111011"@).0,
            key: spec_pat_fold("0000001 ????? ????? 000 ????? 0111011"@).1,
            inst_type: InstType::R,
            name: "mulw",
            op: InstOp::AluRW { op: AluOp::Mul },
        }
    } else if i == 24 {
        Pattern {
            mask: spec_pat_fold("0000001 ????? ????? 100 ????? 0111011"@).0,
            key: spec_pat_fold("0000001 ????? ????? 100 ????? 0111011"@).1,
            inst_type: InstType::R,
            name: "divw",
            op: InstOp::AluRW { op: AluOp::Div },
        }
    } else if i == 25 {
        Pattern {
            mask: spec_pat_fold("0000001 ????? ????? 101 ????? 0111011"@).0,
            key: spec_pat_fold("0000001 ????? ????? 101 ????? 0111011"@).1,
            inst_type: InstType::R,
            name: "divuw",
            op: InstOp::AluRW { op: AluOp::Divu },
        }
    } else if i == 26 {
        Pattern {
            mask: spec_pat_fold("0000001 ????? ????? 110 ????? 0111011"@).0,
            key: spec_pat_fold("0000001 ????? ????? 110 ????? 0111011"@).1,
            inst_type: InstType::R,
            name: "remw",
            op: InstOp::AluRW { op: AluOp::Rem },
        }
    } else if i == 27 {
        Pattern {
            mask: spec_pat_fold("0000001 ????? ????? 111 ????? 0111011"@).0,
            key: spec_pat_fold("0000001 ????? ????? 111 ????? 0111011"@).1,
            inst_type: InstType::R,
            name: "remuw",
            op: InstOp::AluRW { op: AluOp::Remu },
        }
    } else if i == 28 {
        Pattern {
            mask: spec_pat_fold("0000001 ????? ????? 001 ????? 0110011"@).0,
            key: spec_pat_fold("0000001 ????? ????? 001 ????? 0110011"@).1,
            inst_type: InstType::R,
            name: "mulh",
            op: InstOp::AluR { op: AluOp::Mulh },
        }
    } else if i == 29 {
        Pattern {
            mask: spec_pat_fold("0000001 ????? ????? 011 ????? 0110011"@).0,
            key: spec_pat_fold("0000001 ????? ????? 011 ????? 0110011"@).1,
            inst_type: InstType::R,
            name: "mulhu",
            op: InstOp::AluR { op: AluOp::Mulhu },
        }
    } else if i == 30 {
        Pattern {
            mask: spec_pat_fold("0000000 ????? ????? 111 ????? 0110011"@).0,
            key: spec_pat_fold("0000000 ????? ????? 111 ????? 0110011"@).1,
            inst_type: InstType::R,
            name: "and",
            op: InstOp::AluR { op: AluOp::And },
        }
    } else if i == 31 {
        Pattern {
            mask: spec_pat_fold("0000000 ????? ????? 110 ????? 0110011"@).0,
            key: spec_pat_fold("0000000 ????? ????? 110 ????? 0110011"@).1,
            inst_type: InstType::R,
            name: "or",
            op: InstOp::AluR { op: AluOp::Or },
        }
    } else if i == 32 {
        Pattern {
            mask: spec_pat_fold("0000000 ????? ????? 100 ????? 0110011"@).0,
            key: spec_pat_fold("0000000 ????? ????? 100 ????? 0110011"@).1,
            inst_type: InstType::R,
            name: "xor",
            op: InstOp::AluR { op: AluOp::Xor },
        }
    } else if i == 33 {
        Pattern {
            mask: spec_pat_fold("??????? ????? ????? 111 ????? 0010011"@).0,
            key: spec_pat_fold("??????? ????? ????? 111 ????? 0010011"@).1,
            inst_type: InstType::I,
            name: "andi",
            op: InstOp::AluI { op: AluOp::And },
        }
    } else if i == 34 {
        Pattern {
            mask: spec_pat_fold("??????? ????? ????? 110 ????? 0010011"@).0,
            key: spec_pat_fold("??????? ????? ????? 110 ????? 0010011"@).1,
            inst_type: InstType::I,
            name: "ori",
            op: InstOp::AluI { op: AluOp::Or },
        }
    } else if i == 35 {
        Pattern {
            mask: spec_pat_fold("??????? ????? ????? 100 ????? 0010011"@).0,
            key: spec_pat_fold("??????? ????? ????? 100 ????? 0010011"@).1,
            inst_type: InstType::I,
            name: "xori",
            op: InstOp::AluI { op: AluOp::Xor },
        }
    } else if i == 36 {
        Pattern {
            mask: spec_pat_fold("0000000 ????? ????? 001 ????? 0110011"@).0,
            key: spec_pat_fold("0000000 ????? ????? 001 ????? 0110011"@).1,
            inst_type: InstType::R,
            name: "sll",
            op: InstOp::AluR { op: AluOp::Sll },
        }
    } else if i == 37 {
        Pattern {
            mask: spec_pat_fold("0000000 ????? ????? 101 ????? 0110011"@).0,
            key: spec_pat_fold("0000000 ????? ????? 101 ????? 0110011"@).1,
            inst_type: InstType::R,
            name: "srl",
            op: InstOp::AluR { op: AluOp::Srl },
        }
    } else if i == 38 {
        Pattern {
            mask: spec_pat_fold("000000 ?????? ????? 001 ????? 0010011"@).0,
            key: spec_pat_fold("000000 ?????? ????? 001 ????? 0010011"@).1,
            inst_type: InstType::I,
            name: "slli",
            op: InstOp::AluI { op: AluOp::Sll },
        }
    } else if i == 39 {
        Pattern {
            mask: spec_pat_fold("000000 ?????? ????? 101 ????? 0010011"@).0,
            key: spec_pat_fold("000000 ?????? ????? 101 ????? 0010011"@).1,
            inst_type: InstType::I,
            name: "srli",
            op: InstOp::AluI { op: AluOp::Srl },
        }
    } else if i == 40 {
        Pattern {
            mask: spec_pat_fold("010000 ?????? ????? 101 ????? 0010011"@).0,
            key: spec_pat_fold("010000 ?????? ????? 101 ????? 0010011"@).1,
            inst_type: InstType::I,
            name: "srai",
            op: InstOp::AluI { op: AluOp::Sra },
        }
    } else if i == 41 {
        Pattern {
            mask: spec_pat_fold("010000 ?????? ????? 101 ????? 0110011"@).0,
            key: spec_pat_fold("010000 ?????? ????? 101 ????? 0110011"@).1,
            inst_type: InstType::R,
            name: "sra",
            op: InstOp::AluR { op: AluOp::Sra },
        }
    } else if i == 42 {
        Pattern {
            mask: spec_pat_fold("0000000 ????? ????? 001 ????? 0111011"@).0,
            key: spec_pat_fold("0000000 ????? ????? 001 ????? 0111011"@).1,
            inst_type: InstType::R,
            name: "sllw",
            op: InstOp::AluRW { op: AluOp::Sll },
        }
    } else if i == 43 {
        Pattern {
            mask: spec_pat_fold("0000000 ????? ????? 101 ????? 0111011"@).0,
            key: spec_pat_fold("0000000 ????? ????? 101 ????? 0111011"@).1,
            inst_type: InstType::R,
            name: "srlw",
            op: InstOp::AluRW { op: AluOp::Srl },
        }
    } else if i == 44 {
        Pattern {
            mask: spec_pat_fold("0100000 ????? ????? 101 ????? 0111011"@).0,
            key: spec_pat_fold("0100000 ????? ????? 101 ????? 0111011"@).1,
            inst_type: InstType::R,
            name: "sraw",
            op: InstOp::AluRW { op: AluOp::Sra },
        }
    } else if i == 45 {
        Pattern {
            mask: spec_pat_fold("0000000 ????? ????? 001 ????? 0011011"@).0,
            key: spec_pat_fold("0000000 ????? ????? 001 ????? 0011011"@).1,
            inst_type: InstType::I,
            name: "slliw",
            op: InstOp::AluIW { op: AluOp::Sll },
        }
    } else if i == 46 {
        Pattern {
            mask: spec_pat_fold("0000000 ????? ????? 101 ????? 0011011"@).0,
            key: spec_pat_fold("0000000 ????? ????? 101 ????? 0011011"@).1,
            inst_type: InstType::I,
            name: "srliw",
            op: InstOp::AluIW { op: AluOp::Srl },
        }
    } else if i == 47 {
        Pattern {
            mask: spec_pat_fold("010000 ?????? ????? 101 ????? 0011011"@).0,
            key: spec_pat_fold("010000 ?????? ????? 101 ????? 0011011"@).1,
            inst_type: InstType::I,
            name: "sraiw",
            op: InstOp::AluIW { op: AluOp::Sra },
        }
    } else if i == 48 {
        Pattern {
            mask: spec_pat_fold("??????? ????? ????? 000 ????? 1100011"@).0,
            key: spec_pat_fold("??????? ????? ????? 000 ????? 1100011"@).1,
            inst_type: InstType::B,
            name: "beq",
            op: InstOp::Branch { cond: BranchCond::Eq },
        }
    } else if i == 49 {
        Pattern {
            mask: spec_pat_fold("??????? ????? ????? 001 ????? 1100011"@).0,
            key: spec_pat_fold("??????? ????? ????? 001 ????? 1100011"@).1,
            inst_type: InstType::B,
            name: "bne",
            op: InstOp::Branch { cond: BranchCond::Ne },
        }
    } else if i == 50 {
        Pattern {
            mask: spec_pat_fold("??????? ????? ????? 101 ????? 1100011"@).0,
            key: spec_pat_fold("??????? ????? ????? 101 ????? 1100011"@).1,
            inst_type: InstType::B,
            name: "bge",
            op: InstOp::Branch { cond: BranchCond::Ge },
        }
    } else if i == 51 {
        Pattern {
            mask: spec_pat_fold("??????? ????? ????? 111 ????? 1100011"@).0,
            key: spec_pat_fold("??????? ????? ????? 111 ????? 1100011"@).1,
            inst_type: InstType::B,
            name: "bgeu",
            op: InstOp::Branch { cond: BranchCond::Geu },
        }
    } else if i == 52 {
        Pattern {
            mask: spec_pat_fold("??????? ????? ????? 100 ????? 1100011"@).0,
            key: spec_pat_fold("??????? ????? ????? 100 ????? 1100011"@).1,
            inst_type: InstType::B,
            name: "blt",
            op: InstOp::Branch { cond: BranchCond::Lt },
        }
    } else if i == 53 {
        Pattern {
            mask: spec_pat_fold("??????? ????? ????? 110 ????? 1100011"@).0,
            key: spec_pat_fold("??????? ????? ????? 110 ????? 1100011"@).1,
            inst_type: InstType::B,
            name: "bltu",
            op: InstOp::Branch { cond: BranchCond::Ltu },
        }
    } else if i == 54 {
        Pattern {
            mask: spec_pat_fold("??????? ????? ????? ??? ????? 1101111"@).0,
            key: spec_pat_fold("??????? ????? ????? ??? ????? 1101111"@).1,
            inst_type: InstType::J,
            name: "jal",
            op: InstOp::Jal,
        }
    } else if i == 55 {
        Pattern {
            mask: spec_pat_fold("??????? ????? ????? 000 ????? 1100111"@).0,
            key: spec_pat_fold("??????? ????? ????? 000 ????? 1100111"@).1,
            inst_type: InstType::I,
            name: "jalr",
            op: InstOp::Jalr,
        }
    } else if i == 56 {
        Pattern {
            mask: spec_pat_fold("0000000 ????? ????? 010 ????? 0110011"@).0,
            key: spec_pat_fold("0000000 ????? ????? 010 ????? 0110011"@).1,
            inst_type: InstType::R,
            name: "slt",
            op: InstOp::AluR { op: AluOp::Slt },
        }
    } else if i == 57 {
        Pattern {
            mask: spec_pat_fold("0000000 ????? ????? 011 ????? 0110011"@).0,
            key: spec_pat_fold("0000000 ????? ????? 011 ????? 0110011"@).1,
            inst_type: InstType::R,
            name: "sltu",
            op: InstOp::AluR { op: AluOp::Sltu },
        }
    } else if i == 58 {
        Pattern {
            mask: spec_pat_fold("??????? ????? ????? 010 ????? 0010011"@).0,
            key: spec_pat_fold("??????? ????? ????? 010 ????? 0010011"@).1,
            inst_type: InstType::I,
            name: "slti",
            op: InstOp::AluI { op: AluOp::Slt },
        }
    } else if i == 59 {
        Pattern {
            mask: spec_pat_fold("??????? ????? ????? 011 ????? 0010011"@).0,
            key: spec_pat_fold("??????? ????? ????? 011 ????? 0010011"@).1,
            inst_type: InstType::I,
            name: "sltiu",
            op: InstOp::AluI { op: AluOp::Sltu },
        }
    } else if i == 60 {
        Pattern {
            mask: spec_pat_fold("??????? ????? ????? 001 ????? 1110011"@).0,
            key: spec_pat_fold("??????? ????? ????? 001 ????? 1110011"@).1,
            inst_type: InstType::Zicsr,
            name: "csrrw",
            op: InstOp::Csr { op: CsrOp::Rw, imm_form: false },
        }
    } else if i == 61 {
        Pattern {
            mask: spec_pat_fold("??????? ????? ????? 010 ????? 1110011"@).0,
            key: spec_pat_fold("??????? ????? ????? 010 ????? 1110011"@).1,
            inst_type: InstType::Zicsr,
            name: "csrrs",
            op: InstOp::Csr { op: CsrOp::Rs, imm_form: false },
        }
    } else if i == 62 {
        Pattern {
            mask: spec_pat_fold("??????? ????? ????? 011 ????? 1110011"@).0,
            key: spec_pat_fold("??????? ????? ????? 011 ????? 1110011"@).1,
            inst_type: InstType::Zicsr,
            name: "csrrc",
            op: InstOp::Csr { op: CsrOp::Rc, imm_form: false },
        }
    } else if i == 63 {
        Pattern {
            mask: spec_pat_fold("??????? ????? ????? 101 ????? 1110011"@).0,
            key: spec_pat_fold("??????? ????? ????? 101 ????? 1110011"@).1,
            inst_type: InstType::Zicsr,
            name: "csrrwi",
            op: InstOp::Csr { op: CsrOp::Rw, imm_form: true },
        }
    } else if i == 64 {
        Pattern {
            mask: spec_pat_fold("??????? ????? ????? 110 ????? 1110011"@).0,
            key: spec_pat_fold("??????? ????? ????? 110 ????? 1110011"@).1,
            inst_type: InstType::Zicsr,
            name: "csrrsi",
            op: InstOp::Csr { op: CsrOp::Rs, imm_form: true },
        }
    } else if i == 65 {
        Pattern {
            mask: spec_pat_fold("??????? ????? ????? 111 ????? 1110011"@).0,
            key: spec_pat_fold("??????? ????? ????? 111 ????? 1110011"@).1,
            inst_type: InstType::Zicsr,
            name: "csrrci",
            op: InstOp::Csr { op: CsrOp::Rc, imm_form: true },
        }
    } else if i == 66 {
        Pattern {
            mask: spec_pat_fold("00001 ?? ????? ????? 010 ????? 0101111"@).0,
            key: spec_pat_fold("00001 ?? ????? ????? 010 ????? 0101111"@).1,
            inst_type: InstType::R,
            name: "amoswap.w",
            op: InstOp::Amo { op: AmoOp::Swap, size: MemOperationSize::DWORD },
        }
    } else if i == 67 {
        Pattern {
            mask: spec_pat_fold("00001 ?? ????? ????? 011 ????? 0101111"@).0,
            key: spec_pat_fold("00001 ?? ????? ????? 011 ????? 0101111"@).1,
            inst_type: InstType::R,
            name: "amoswap.d",
            op: InstOp::Amo { op: AmoOp::Swap, size: MemOperationSize::QWORD },
        }
    } else if i == 68 {
        Pattern {
            mask: spec_pat_fold("00000 ?? ????? ????? 010 ????? 0101111"@).0,
            key: spec_pat_fold("00000 ?? ????? ????? 010 ????? 0101111"@).1,
            inst_type: InstType::R,
            name: "amoadd.w",
            op: InstOp::Amo { op: AmoOp::Add, size: MemOperationSize::DWORD },
        }
    } else if i == 69 {
        Pattern {
            mask: spec_pat_fold("00000 ?? ????? ????? 011 ????? 0101111"@).0,
            key: spec_pat_fold("00000 ?? ????? ????? 011 ????? 0101111"@).1,
            inst_type: InstType::R,
            name: "amoadd.d",
            op: InstOp::Amo { op: AmoOp::Add, size: MemOperationSize::QWORD },
        }
    } else if i == 70 {
        Pattern {
            mask: spec_pat_fold("01000 ?? ????? ????? 010 ????? 0101111"@).0,
            key: spec_pat_fold("01000 ?? ????? ????? 010 ????? 0101111"@).1,
            inst_type: InstType::R,
            name: "amoor.w",
            op: InstOp::Amo { op: AmoOp::Or, size: MemOperationSize::DWORD },
        }
    } else if i == 71 {
        Pattern {
            mask: spec_pat_fold("01000 ?? ????? ????? 011 ????? 0101111"@).0,
            key: spec_pat_fold("01000 ?? ????? ????? 011 ????? 0101111"@).1,
            inst_type: InstType::R,
            name: "amoor.d",
            op: InstOp::Amo { op: AmoOp::Or, size: MemOperationSize::QWORD },
        }
    } else if i == 72 {
        Pattern {
            mask: spec_pat_fold("01100 ?? ????? ????? 010 ????? 0101111"@).0,
            key: spec_pat_fold("01100 ?? ????? ????? 010 ????? 0101111"@).1,
            inst_type: InstType::R,
            name: "amoand.w",
            op: InstOp::Amo { op: AmoOp::And, size: MemOperationSize::DWORD },
        }
    } else if i == 73 {
        Pattern {
            mask: spec_pat_fold("01100 ?? ????? ????? 011 ????? 0101111"@).0,
            key: spec_pat_fold("01100 ?? ????? ????? 011 ????? 0101111"@).1,
            inst_type: InstType::R,
            name: "amoand.d",
            op: InstOp::Amo { op: AmoOp::And, size: MemOperationSize::QWORD },
        }
    } else if i == 74 {
        Pattern {
            mask: spec_pat_fold("00010 ?? 00000 ????? 011 ????? 0101111"@).0,
            key: spec_pat_fold("00010 ?? 00000 ????? 011 ????? 0101111"@).1,
            inst_type: InstType::R,
            name: "lr.d",
            op: InstOp::Load { size: MemOperationSize::QWORD, signed: false },
        }
    } else if i == 75 {
        Pattern {
            mask: spec_pat_fold("00010 ?? 00000 ????? 010 ????? 0101111"@).0,
            key: spec_pat_fold("00010 ?? 00000 ????? 010 ????? 0101111"@).1,
            inst_type: InstType::R,
            name: "lr.w",
            op: InstOp::Load { size: MemOperationSize::DWORD, signed: true },
        }
    } else if i == 76 {
        Pattern {
            mask: spec_pat_fold("00011 ?? ????? ????? 011 ????? 0101111"@).0,
            key: spec_pat_fold("00011 ?? ????? ????? 011 ????? 0101111"@).1,
            inst_type: InstType::R,
            name: "sc.d",
            op: InstOp::Store { size: MemOperationSize::QWORD, clear_rd: true },
        }
    } else if i == 77 {
        Pattern {
            mask: spec_pat_fold("00011 ?? ????? ????? 010 ????? 0101111"@).0,
            key: spec_pat_fold("00011 ?? ????? ????? 010 ????? 0101111"@).1,
            inst_type: InstType::R,
            name: "sc.w",
            op: InstOp::Store { size: MemOperationSize::DWORD, clear_rd: true },
        }
    } else if i == 78 {
        Pattern {
            mask: spec_pat_fold("??????? ????? ????? ??? ????? 0010111"@).0,
            key: spec_pat_fold("??????? ????? ????? ??? ????? 0010111"@).1,
            inst_type: InstType::U,
            name: "auipc",
            op: InstOp::Auipc,
        }
    } else if i == 79 {
        Pattern {
            mask: spec_pat_fold("0000000 00001 00000 000 00000 1110011"@).0,
            key: spec_pat_fold("0000000 00001 00000 000 00000 1110011"@).1,
            inst_type: InstType::I,
            name: "ebreak",
            op: InstOp::Ebreak,
        }
    } else if i == 80 {
        Pattern {
            mask: spec_pat_fold("0000000 00000 00000 000 00000 1110011"@).0,
            key: spec_pat_fold("0000000 00000 00000 000 00000 1110011"@).1,
            inst_type: InstType::I,
            name: "ecall",
            op: InstOp::Ecall,
        }
    } else if i == 81 {
        Pattern {
            mask: spec_pat_fold("0001000 00010 00000 000 00000 1110011"@).0,
            key: spec_pat_fold("0001000 00010 00000 000 00000 1110011"@).1,
            inst_type: InstType::I,
            name: "sret",
            op: InstOp::Sret,
        }
    } else if i == 82 {
        Pattern {
            mask: spec_pat_fold("0011000 00010 00000 000 00000 1110011"@).0,
            key: spec_pat_fold("0011000 00010 00000 000 00000 1110011"@).1,
            inst_type: InstType::I,
            name: "mret",
            op: InstOp::Mret,
        }
    } else if i == 83 {
        Pattern {
            mask: spec_pat_fold("??????? ????? ????? 000 ????? 0001111"@).0,
            key: spec_pat_fold("??????? ????? ????? 000 ????? 0001111"@).1,
            inst_type: InstType::I,
            name: "fence",
            op: InstOp::Fence,
        }
    } else if i == 84 {
        Pattern {
            mask: spec_pat_fold("??????? ????? ????? 001 ????? 0001111"@).0,
            key: spec_pat_fold("??????? ????? ????? 001 ????? 0001111"@).1,
            inst_type: InstType::I,
            name: "fence.i",
            op: InstOp::FenceI,
        }
    } else if i == 85 {
        Pattern {
            mask: spec_pat_fold("0001001 ????? ????? 000 00000 1110011"@).0,
            key: spec_pat_fold("0001001 ????? ????? 000 00000 1110011"@).1,
            inst_type: InstType::R,
            name: "sfence.vma",
            op: InstOp::SfenceVma,
        }
    } else if i == 86 {
        Pattern {
            mask: spec_pat_fold("0001000 00101 00000 000 00000 1110011"@).0,
            key: spec_pat_fold("0001000 00101 00000 000 00000 1110011"@).1,
            inst_type: InstType::R,
            name: "wfi",
            op: InstOp::Wfi,
        }
    } else {
        Pattern {
            mask: spec_pat_fold("0001000 00101 00000 000 00000 1110011"@).0,
            key: spec_pat_fold("0001000 00101 00000 000 00000 1110011"@).1,
            inst_type: InstType::R,
            name: "wfi",
            op: InstOp::Wfi,
        }
    }
}

/// The dispatch table: mask, key, format and semantics of every
/// implemented opcode, row for row the `spec_pattern_at` table. Patterns
/// are pairwise disjoint, so scan order does not change which one
/// answers.
#[verifier::rlimit(100)]
#[verifier::spinoff_prover]
pub fn patterns() -> (r: Vec<Pattern>)
    ensures
        r@.len() == 87,
        forall|i: int| 0 <= i < 87 ==> #[trigger] r@[i] == spec_pattern_at(i),
{
    let w = MemOperationSize::DWORD;
    let dw = MemOperationSize::QWORD;
    let mut v: Vec<Pattern> = Vec::new();
    // Memory.
    v.push(make_pattern("??????? ????? ????? 000 ????? 0000011", InstType::I, "lb", InstOp::Load { size: MemOperationSize::Byte, signed: true }));
    v.push(make_pattern("??????? ????? ????? 100 ????? 0000011", InstType::I, "lbu", InstOp::Load { size: MemOperationSize::Byte, signed: false }));
    v.push(make_pattern("??????? ????? ????? 001 ????? 0000011", InstType::I, "lh", InstOp::Load { size: MemOperationSize::WORD, signed: true }));
    v.push(make_pattern("??????? ????? ????? 101 ????? 0000011", InstType::I, "lhu", InstOp::Load { size: MemOperationSize::WORD, signed: false }));
    v.push(make_pattern("??????? ????? ????? 010 ????? 0000011", InstType::I, "lw", InstOp::Load { size: w, signed: true }));
    v.push(make_pattern("??????? ????? ????? 110 ????? 0000011", InstType::I, "lwu", InstOp::Load { size: w, signed: false }));
    v.push(make_pattern("??????? ????? ????? 011 ????? 0000011", InstType::I, "ld", InstOp::Load { size: dw, signed: false }));
    v.push(make_pattern("??????? ????? ????? 000 ????? 0100011", InstType::S, "sb", InstOp::Store { size: MemOperationSize::Byte, clear_rd: false }));
    v.push(make_pattern("??????? ????? ????? 001 ????? 0100011", InstType::S, "sh", InstOp::Store { size: MemOperationSize::WORD, clear_rd: false }));
    v.push(make_pattern("??????? ????? ????? 010 ????? 0100011", InstType::S, "sw", InstOp::Store { size: w, clear_rd: false }));
    v.push(make_pattern("??????? ????? ????? 011 ????? 0100011", InstType::S, "sd", InstOp::Store { size: dw, clear_rd: false }));
    v.push(make_pattern("??????? ????? ????? ??? ????? 0110111", InstType::U, "lui", InstOp::Lui));
    // Arithmetic.
    v.push(make_pattern("??????? ????? ????? 000 ????? 0010011", InstType::I, "addi", InstOp::AluI { op: AluOp::Add }));
    v.push(make_pattern("??????? ????? ????? 000 ????? 0011011", InstType::I, "addiw", InstOp::AluIW { op: AluOp::Add }));
    v.push(make_pattern("0000000 ????? ????? 000 ????? 0110011", InstType::R, "add", InstOp::AluR { op: AluOp::Add }));
    v.push(make_pattern("0100000 ????? ????? 000 ????? 0110011", InstType::R, "sub", InstOp::AluR { op: AluOp::Sub }));
    v.push(make_pattern("0000001 ????? ????? 000 ????? 0110011", InstType::R, "mul", InstOp::AluR { op: AluOp::Mul }));
    v.push(make_pattern("0000001 ????? ????? 100 ????? 0110011", InstType::R, "div", InstOp::AluR { op: AluOp::Div }));
    v.push(make_pattern("0000001 ????? ????? 101 ????? 0110011", InstType::R, "divu", InstOp::AluR { op: AluOp::Divu }));
    v.push(make_pattern("0000001 ????? ????? 110 ????? 0110011", InstType::R, "rem", InstOp::AluR { op: AluOp::Rem }));
    v.push(make_pattern("0000001 ????? ????? 111 ????? 0110011", InstType::R, "remu", InstOp::AluR { op: AluOp::Remu }));
    v.push(make_pattern("0000000 ????? ????? 000 ????? 0111011", InstType::R, "addw", InstOp::AluRW { op: AluOp::Add }));
    v.push(make_pattern("0100000 ????? ????? 000 ????? 0111011", InstType::R, "subw", InstOp::AluRW { op: AluOp::Sub }));
    v.push(make_pattern("0000001 ????? ????? 000 ????? 0111011", InstType::R, "mulw", InstOp::AluRW { op: AluOp::Mul }));
    v.push(make_pattern("0000001 ????? ????? 100 ????? 0111011", InstType::R, "divw", InstOp::AluRW { op: AluOp::Div }));
    v.push(make_pattern("0000001 ????? ????? 101 ????? 0111011", InstType::R, "divuw", InstOp::AluRW { op: AluOp::Divu }));
    v.push(make_pattern("0000001 ????? ????? 110 ????? 0111011", InstType::R, "remw", InstOp::AluRW { op: AluOp::Rem }));
    v.push(make_pattern("0000001 ????? ????? 111 ????? 0111011", InstType::R, "remuw", InstOp::AluRW { op: AluOp::Remu }));
    v.push(make_pattern("0000001 ????? ????? 001 ????? 0110011", InstType::R, "mulh", InstOp::AluR { op: AluOp::Mulh }));
    v.push(make_pattern("0000001 ????? ????? 011 ????? 0110011", InstType::R, "mulhu", InstOp::AluR { op: AluOp::Mulhu }));
    // Bit operations.
    v.push(make_pattern("0000000 ????? ????? 111 ????? 0110011", InstType::R, "and", InstOp::AluR { op: AluOp::And }));
    v.push(make_pattern("0000000 ????? ????? 110 ????? 0110011", InstType::R, "or", InstOp::AluR { op: AluOp::Or }));
    v.push(make_pattern("0000000 ????? ????? 100 ????? 0110011", InstType::R, "xor", InstOp::AluR { op: AluOp::Xor }));
    v.push(make_pattern("??????? ????? ????? 111 ????? 0010011", InstType::I, "andi", InstOp::AluI { op: AluOp::And }));
    v.push(make_pattern("??????? ????? ????? 110 ????? 0010011", InstType::I, "ori", InstOp::AluI { op: AluOp::Or }));
    v.push(make_pattern("??????? ????? ????? 100 ????? 0010011", InstType::I, "xori", InstOp::AluI { op: AluOp::Xor }));
    // Shifts.
    v.push(make_pattern("0000000 ????? ????? 001 ????? 0110011", InstType::R, "sll", InstOp::AluR { op: AluOp::Sll }));
    v.push(make_pattern("0000000 ????? ????? 101 ????? 0110011", InstType::R, "srl", InstOp::AluR { op: AluOp::Srl }));
    v.push(make_pattern("000000 ?????? ????? 001 ????? 0010011", InstType::I, "slli", InstOp::AluI { op: AluOp::Sll }));
    v.push(make_pattern("000000 ?????? ????? 101 ????? 0010011", InstType::I, "srli", InstOp::AluI { op: AluOp::Srl }));
    v.push(make_pattern("010000 ?????? ????? 101 ????? 0010011", InstType::I, "srai", InstOp::AluI { op: AluOp::Sra }));
    v.push(make_pattern("010000 ?????? ????? 101 ????? 0110011", InstType::R, "sra", InstOp::AluR { op: AluOp::Sra }));
    v.push(make_pattern("0000000 ????? ????? 001 ????? 0111011", InstType::R, "sllw", InstOp::AluRW { op: AluOp::Sll }));
    v.push(make_pattern("0000000 ????? ????? 101 ????? 0111011", InstType::R, "srlw", InstOp::AluRW { op: AluOp::Srl }));
    v.push(make_pattern("0100000 ????? ????? 101 ????? 0111011", InstType::R, "sraw", InstOp::AluRW { op: AluOp::Sra }));
    v.push(make_pattern("0000000 ????? ????? 001 ????? 0011011", InstType::I, "slliw", InstOp::AluIW { op: AluOp::Sll }));
    v.push(make_pattern("0000000 ????? ????? 101 ????? 0011011", InstType::I, "srliw", InstOp::AluIW { op: AluOp::Srl }));
    v.push(make_pattern("010000 ?????? ????? 101 ????? 0011011", InstType::I, "sraiw", InstOp::AluIW { op: AluOp::Sra }));
    // Branches.
    v.push(make_pattern("??????? ????? ????? 000 ????? 1100011", InstType::B, "beq", InstOp::Branch { cond: BranchCond::Eq }));
    v.push(make_pattern("??????? ????? ????? 001 ????? 1100011", InstType::B, "bne", InstOp::Branch { cond: BranchCond::Ne }));
    v.push(make_pattern("??????? ????? ????? 101 ????? 1100011", InstType::B, "bge", InstOp::Branch { cond: BranchCond::Ge }));
    v.push(make_pattern("??????? ????? ????? 111 ????? 1100011", InstType::B, "bgeu", InstOp::Branch { cond: BranchCond::Geu }));
    v.push(make_pattern("??????? ????? ????? 100 ????? 1100011", InstType::B, "blt", InstOp::Branch { cond: BranchCond::Lt }));
    v.push(make_pattern("??????? ????? ????? 110 ????? 1100011", InstType::B, "bltu", InstOp::Branch { cond: BranchCond::Ltu }));
    v.push(make_pattern("??????? ????? ????? ??? ????? 1101111", InstType::J, "jal", InstOp::Jal));
    v.push(make_pattern("??????? ????? ????? 000 ????? 1100111", InstType::I, "jalr", InstOp::Jalr));
    // Set-less-than.
    v.push(make_pattern("0000000 ????? ????? 010 ????? 0110011", InstType::R, "slt", InstOp::AluR { op: AluOp::Slt }));
    v.push(make_pattern("0000000 ????? ????? 011 ????? 0110011", InstType::R, "sltu", InstOp::AluR { op: AluOp::Sltu }));
    v.push(make_pattern("??????? ????? ????? 010 ????? 0010011", InstType::I, "slti", InstOp::AluI { op: AluOp::Slt }));
    v.push(make_pattern("??????? ????? ????? 011 ????? 0010011", InstType::I, "sltiu", InstOp::AluI { op: AluOp::Sltu }));
    // Zicsr.
    v.push(make_pattern("??????? ????? ????? 001 ????? 1110011", InstType::Zicsr, "csrrw", InstOp::Csr { op: CsrOp::Rw, imm_form: false }));
    v.push(make_pattern("??????? ????? ????? 010 ????? 1110011", InstType::Zicsr, "csrrs", InstOp::Csr { op: CsrOp::Rs, imm_form: false }));
    v.push(make_pattern("??????? ????? ????? 011 ????? 1110011", InstType::Zicsr, "csrrc", InstOp::Csr { op: CsrOp::Rc, imm_form: false }));
    v.push(make_pattern("??????? ????? ????? 101 ????? 1110011", InstType::Zicsr, "csrrwi", InstOp::Csr { op: CsrOp::Rw, imm_form: true }));
    v.push(make_pattern("??????? ????? ????? 110 ????? 1110011", InstType::Zicsr, "csrrsi", InstOp::Csr { op: CsrOp::Rs, imm_form: true }));
    v.push(make_pattern("??????? ????? ????? 111 ????? 1110011", InstType::Zicsr, "csrrci", InstOp::Csr { op: CsrOp::Rc, imm_form: true }));
    // Zaamo (aq and rl are ignored).
    v.push(make_pattern("00001 ?? ????? ????? 010 ????? 0101111", InstType::R, "amoswap.w", InstOp::Amo { op: AmoOp::Swap, size: w }));
    v.push(make_pattern("00001 ?? ????? ????? 011 ????? 0101111", InstType::R, "amoswap.d", InstOp::Amo { op: AmoOp::Swap, size: dw }));
    v.push(make_pattern("00000 ?? ????? ????? 010 ????? 0101111", InstType::R, "amoadd.w", InstOp::Amo { op: AmoOp::Add, size: w }));
    v.push(make_pattern("00000 ?? ????? ????? 011 ????? 0101111", InstType::R, "amoadd.d", InstOp::Amo { op: AmoOp::Add, size: dw }));
    v.push(make_pattern("01000 ?? ????? ????? 010 ????? 0101111", InstType::R, "amoor.w", InstOp::Amo { op: AmoOp::Or, size: w }));
    v.push(make_pattern("01000 ?? ????? ????? 011 ????? 0101111", InstType::R, "amoor.d", InstOp::Amo { op: AmoOp::Or, size: dw }));
    v.push(make_pattern("01100 ?? ????? ????? 010 ????? 0101111", InstType::R, "amoand.w", InstOp::Amo { op: AmoOp::And, size: w }));
    v.push(make_pattern("01100 ?? ????? ????? 011 ????? 0101111", InstType::R, "amoand.d", InstOp::Amo { op: AmoOp::And, size: dw }));
    // Zalrsc; the reservation always succeeds on this single hart.
    v.push(make_pattern("00010 ?? 00000 ????? 011 ????? 0101111", InstType::R, "lr.d", InstOp::Load { size: dw, signed: false }));
    v.push(make_pattern("00010 ?? 00000 ????? 010 ????? 0101111", InstType::R, "lr.w", InstOp::Load { size: w, signed: true }));
    v.push(make_pattern("00011 ?? ????? ????? 011 ????? 0101111", InstType::R, "sc.d", InstOp::Store { size: dw, clear_rd: true }));
    v.push(make_pattern("00011 ?? ????? ????? 010 ????? 0101111", InstType::R, "sc.w", InstOp::Store { size: w, clear_rd: true }));
    // System and miscellaneous.
    v.push(make_pattern("??????? ????? ????? ??? ????? 0010111", InstType::U, "auipc", InstOp::Auipc));
    v.push(make_pattern("0000000 00001 00000 000 00000 1110011", InstType::I, "ebreak", InstOp::Ebreak));
    v.push(make_pattern("0000000 00000 00000 000 00000 1110011", InstType::I, "ecall", InstOp::Ecall));
    v.push(make_pattern("0001000 00010 00000 000 00000 1110011", InstType::I, "sret", InstOp::Sret));
    v.push(make_pattern("0011000 00010 00000 000 00000 1110011", InstType::I, "mret", InstOp::Mret));
    v.push(make_pattern("??????? ????? ????? 000 ????? 0001111", InstType::I, "fence", InstOp::Fence));
    v.push(make_pattern("??????? ????? ????? 001 ????? 0001111", InstType::I, "fence.i", InstOp::FenceI));
    v.push(make_pattern("0001001 ????? ????? 000 00000 1110011", InstType::R, "sfence.vma", InstOp::SfenceVma));
    v.push(make_pattern("0001000 00101 00000 000 00000 1110011", InstType::R, "wfi", InstOp::Wfi));
    v
}

} // verus!
