use vstd::prelude::*;
use vstd::string::StringExecFns;
use crate::instruction::RiscVInstruction;

verus! {

/// The character for one decimal digit.
pub open spec fn dec_digit(d: nat) -> char {
    if d == 0 {
        '0'
    } else if d == 1 {
        '1'
    } else if d == 2 {
        '2'
    } else if d == 3 {
        '3'
    } else if d == 4 {
        '4'
    } else if d == 5 {
        '5'
    } else if d == 6 {
        '6'
    } else if d == 7 {
        '7'
    } else if d == 8 {
        '8'
    } else {
        '9'
    }
}

/// The decimal rendering of a natural number, without leading zeros.
pub open spec fn dec_seq(n: nat) -> Seq<char>
    decreases n,
{
    if n < 10 {
        seq![dec_digit(n)]
    } else {
        dec_seq(n / 10).push(dec_digit(n % 10))
    }
}

/// The decimal rendering of an integer: a minus sign before the magnitude
/// when it is negative.
pub open spec fn int_seq(i: int) -> Seq<char> {
    if i < 0 {
        seq!['-'] + dec_seq((-i) as nat)
    } else {
        dec_seq(i as nat)
    }
}

/// The character for one lowercase hexadecimal digit.
pub open spec fn hex_digit(d: nat) -> char {
    if d < 10 {
        dec_digit(d)
    } else if d == 10 {
        'a'
    } else if d == 11 {
        'b'
    } else if d == 12 {
        'c'
    } else if d == 13 {
        'd'
    } else if d == 14 {
        'e'
    } else {
        'f'
    }
}

/// The eight-digit, zero-padded, lowercase hexadecimal rendering of a word.
pub open spec fn hex8_seq(w: u32) -> Seq<char> {
    seq![
        hex_digit(((w >> 28) & 0xf) as nat),
        hex_digit(((w >> 24) & 0xf) as nat),
        hex_digit(((w >> 20) & 0xf) as nat),
        hex_digit(((w >> 16) & 0xf) as nat),
        hex_digit(((w >> 12) & 0xf) as nat),
        hex_digit(((w >> 8) & 0xf) as nat),
        hex_digit(((w >> 4) & 0xf) as nat),
        hex_digit((w & 0xf) as nat),
    ]
}

/// The operand tail of a register-register instruction:
/// ` xRD, xRS1, xRS2`.
pub open spec fn regs3_seq(rd: u8, rs1: u8, rs2: u8) -> Seq<char> {
    " x"@ + dec_seq(rd as nat) + ", x"@ + dec_seq(rs1 as nat) + ", x"@ + dec_seq(rs2 as nat)
}

/// The operand tail of a register-immediate instruction:
/// ` xRD, xRS1, IMM`.
pub open spec fn reg_imm_seq(rd: u8, rs1: u8, imm: i16) -> Seq<char> {
    " x"@ + dec_seq(rd as nat) + ", x"@ + dec_seq(rs1 as nat) + ", "@ + int_seq(imm as int)
}

/// The operand tail of a load instruction: ` xRD, IMM(xRS1)`.
pub open spec fn load_seq(rd: u8, rs1: u8, imm: i16) -> Seq<char> {
    " x"@ + dec_seq(rd as nat) + ", "@ + int_seq(imm as int) + "(x"@ + dec_seq(rs1 as nat) + ")"@
}

/// The canonical textual form of an instruction.
pub open spec fn spec_text(i: RiscVInstruction) -> Seq<char> {
    match i {
        RiscVInstruction::Add { rd, rs1, rs2 } => "add"@ + regs3_seq(rd, rs1, rs2),
        RiscVInstruction::Sub { rd, rs1, rs2 } => "sub"@ + regs3_seq(rd, rs1, rs2),
        RiscVInstruction::Xor { rd, rs1, rs2 } => "xor"@ + regs3_seq(rd, rs1, rs2),
        RiscVInstruction::Or { rd, rs1, rs2 } => "or"@ + regs3_seq(rd, rs1, rs2),
        RiscVInstruction::And { rd, rs1, rs2 } => "and"@ + regs3_seq(rd, rs1, rs2),
        RiscVInstruction::Addi { rd, rs1, imm } => "addi"@ + reg_imm_seq(rd, rs1, imm),
        RiscVInstruction::Xori { rd, rs1, imm } => "xori"@ + reg_imm_seq(rd, rs1, imm),
        RiscVInstruction::Ori { rd, rs1, imm } => "ori"@ + reg_imm_seq(rd, rs1, imm),
        RiscVInstruction::Andi { rd, rs1, imm } => "andi"@ + reg_imm_seq(rd, rs1, imm),
        RiscVInstruction::Slli { rd, rs1, imm } => "slli"@ + reg_imm_seq(rd, rs1, imm),
        RiscVInstruction::Srli { rd, rs1, imm } => "srli"@ + reg_imm_seq(rd, rs1, imm),
        RiscVInstruction::Srai { rd, rs1, imm } => "srai"@ + reg_imm_seq(rd, rs1, imm),
        RiscVInstruction::Slti { rd, rs1, imm } => "slti"@ + reg_imm_seq(rd, rs1, imm),
        RiscVInstruction::Sltiu { rd, rs1, imm } => "sltiu"@ + reg_imm_seq(rd, rs1, imm),
        RiscVInstruction::Lb { rd, rs1, imm } => "lb"@ + load_seq(rd, rs1, imm),
        RiscVInstruction::Lh { rd, rs1, imm } => "lh"@ + load_seq(rd, rs1, imm),
        RiscVInstruction::Lw { rd, rs1, imm } => "lw"@ + load_seq(rd, rs1, imm),
        RiscVInstruction::Lbu { rd, rs1, imm } => "lbu"@ + load_seq(rd, rs1, imm),
        RiscVInstruction::Lhu { rd, rs1, imm } => "lhu"@ + load_seq(rd, rs1, imm),
        RiscVInstruction::Jalr { rd, rs1, imm } => "jalr"@ + reg_imm_seq(rd, rs1, imm),
        RiscVInstruction::Ecall => "ecall"@,
        RiscVInstruction::Ebreak => "ebreak"@,
        RiscVInstruction::Unsupported(w) => "unsupported(0x"@ + hex8_seq(w) + ")"@,
    }
}

/// The string literal for one decimal digit.
fn dec_digit_str(d: u8) -> (r: &'static str)
    requires
        d < 10,
    ensures
        r@ == seq![dec_digit(d as nat)],
{
    proof {
        reveal_strlit("0");
        reveal_strlit("1");
        reveal_strlit("2");
        reveal_strlit("3");
        reveal_strlit("4");
        reveal_strlit("5");
        reveal_strlit("6");
        reveal_strlit("7");
        reveal_strlit("8");
        reveal_strlit("9");
    }
    let r = match d {
        0 => "0",
        1 => "1",
        2 => "2",
        3 => "3",
        4 => "4",
        5 => "5",
        6 => "6",
        7 => "7",
        8 => "8",
        _ => "9",
    };
    proof {
        assert(r@ =~= seq![dec_digit(d as nat)]);
    }
    r
}

/// The string literal for one lowercase hexadecimal digit.
fn hex_digit_str(d: u8) -> (r: &'static str)
    requires
        d < 16,
    ensures
        r@ == seq![hex_digit(d as nat)],
{
    if d < 10 {
        dec_digit_str(d)
    } else {
        proof {
            reveal_strlit("a");
            reveal_strlit("b");
            reveal_strlit("c");
            reveal_strlit("d");
            reveal_strlit("e");
            reveal_strlit("f");
        }
        let r = match d {
            10 => "a",
            11 => "b",
            12 => "c",
            13 => "d",
            14 => "e",
            _ => "f",
        };
        proof {
            assert(r@ =~= seq![hex_digit(d as nat)]);
        }
        r
    }
}

/// Appends the decimal rendering of `n`.
fn push_dec(s: &mut String, n: u32)
    ensures
        final(s)@ == old(s)@ + dec_seq(n as nat),
    decreases n,
{
    if n >= 10 {
        push_dec(s, n / 10);
    }
    s.append(dec_digit_str((n % 10) as u8));
    proof {
        assert(s@ =~= old(s)@ + dec_seq(n as nat));
    }
}

/// Appends the decimal rendering of a signed immediate.
fn push_imm(s: &mut String, imm: i16)
    ensures
        final(s)@ == old(s)@ + int_seq(imm as int),
{
    if imm < 0 {
        proof {
            reveal_strlit("-");
        }
        s.append("-");
        let mag = -(imm as i32);
        push_dec(s, mag as u32);
        proof {
            assert(s@ =~= old(s)@ + int_seq(imm as int));
        }
    } else {
        push_dec(s, imm as u32);
    }
}

/// Each nibble of a word is below 16, before and after narrowing.
proof fn lemma_nibble_bounds(w: u32)
    by (bit_vector)
    ensures
        (w >> 28) & 0xf < 16,
        (w >> 24) & 0xf < 16,
        (w >> 20) & 0xf < 16,
        (w >> 16) & 0xf < 16,
        (w >> 12) & 0xf < 16,
        (w >> 8) & 0xf < 16,
        (w >> 4) & 0xf < 16,
        w & 0xf < 16,
        ((w >> 28) & 0xf) as u8 == (w >> 28) & 0xf,
        ((w >> 24) & 0xf) as u8 == (w >> 24) & 0xf,
        ((w >> 20) & 0xf) as u8 == (w >> 20) & 0xf,
        ((w >> 16) & 0xf) as u8 == (w >> 16) & 0xf,
        ((w >> 12) & 0xf) as u8 == (w >> 12) & 0xf,
        ((w >> 8) & 0xf) as u8 == (w >> 8) & 0xf,
        ((w >> 4) & 0xf) as u8 == (w >> 4) & 0xf,
        (w & 0xf) as u8 == w & 0xf,
{
}

/// Appends the eight-digit lowercase hexadecimal rendering of `w`.
fn push_hex8(s: &mut String, w: u32)
    ensures
        final(s)@ == old(s)@ + hex8_seq(w),
{
    proof {
        lemma_nibble_bounds(w);
    }
    s.append(hex_digit_str(((w >> 28) & 0xf) as u8));
    s.append(hex_digit_str(((w >> 24) & 0xf) as u8));
    s.append(hex_digit_str(((w >> 20) & 0xf) as u8));
    s.append(hex_digit_str(((w >> 16) & 0xf) as u8));
    s.append(hex_digit_str(((w >> 12) & 0xf) as u8));
    s.append(hex_digit_str(((w >> 8) & 0xf) as u8));
    s.append(hex_digit_str(((w >> 4) & 0xf) as u8));
    s.append(hex_digit_str((w & 0xf) as u8));
    proof {
        assert(s@ =~= old(s)@ + hex8_seq(w));
    }
}

/// Appends ` xRD, xRS1, xRS2`.
fn push_regs3(s: &mut String, rd: u8, rs1: u8, rs2: u8)
    ensures
        final(s)@ == old(s)@ + regs3_seq(rd, rs1, rs2),
{
    s.append(" x");
    push_dec(s, rd as u32);
    s.append(", x");
    push_dec(s, rs1 as u32);
    s.append(", x");
    push_dec(s, rs2 as u32);
    proof {
        assert(s@ =~= old(s)@ + regs3_seq(rd, rs1, rs2));
    }
}

/// Appends ` xRD, xRS1, IMM`.
fn push_reg_imm(s: &mut String, rd: u8, rs1: u8, imm: i16)
    ensures
        final(s)@ == old(s)@ + reg_imm_seq(rd, rs1, imm),
{
    s.append(" x");
    push_dec(s, rd as u32);
    s.append(", x");
    push_dec(s, rs1 as u32);
    s.append(", ");
    push_imm(s, imm);
    proof {
        assert(s@ =~= old(s)@ + reg_imm_seq(rd, rs1, imm));
    }
}

/// Appends ` xRD, IMM(xRS1)`.
fn push_load(s: &mut String, rd: u8, rs1: u8, imm: i16)
    ensures
        final(s)@ == old(s)@ + load_seq(rd, rs1, imm),
{
    s.append(" x");
    push_dec(s, rd as u32);
    s.append(", ");
    push_imm(s, imm);
    s.append("(x");
    push_dec(s, rs1 as u32);
    s.append(")");
    proof {
        assert(s@ =~= old(s)@ + load_seq(rd, rs1, imm));
    }
}

impl RiscVInstruction {
    /// Renders the instruction in its canonical textual form: register
    /// instructions as `op xRD, xRS1, xRS2`, immediate instructions as
    /// `op xRD, xRS1, IMM`, loads as `op xRD, IMM(xRS1)`, system
    /// instructions as bare mnemonics, and unsupported words as
    /// `unsupported(0xWWWWWWWW)` in lowercase hexadecimal.
    pub fn text(&self) -> (r: String)
        ensures
            r@ == spec_text(*self),
    {
        let mut s = String::new();
        match self {
            RiscVInstruction::Add { rd, rs1, rs2 } => {
                s.append("add");
                push_regs3(&mut s, *rd, *rs1, *rs2);
            },
            RiscVInstruction::Sub { rd, rs1, rs2 } => {
                s.append("sub");
                push_regs3(&mut s, *rd, *rs1, *rs2);
            },
            RiscVInstruction::Xor { rd, rs1, rs2 } => {
                s.append("xor");
                push_regs3(&mut s, *rd, *rs1, *rs2);
            },
            RiscVInstruction::Or { rd, rs1, rs2 } => {
                s.append("or");
                push_regs3(&mut s, *rd, *rs1, *rs2);
            },
            RiscVInstruction::And { rd, rs1, rs2 } => {
                s.append("and");
                push_regs3(&mut s, *rd, *rs1, *rs2);
            },
            RiscVInstruction::Addi { rd, rs1, imm } => {
                s.append("addi");
                push_reg_imm(&mut s, *rd, *rs1, *imm);
            },
            RiscVInstruction::Xori { rd, rs1, imm } => {
                s.append("xori");
                push_reg_imm(&mut s, *rd, *rs1, *imm);
            },
            RiscVInstruction::Ori { rd, rs1, imm } => {
                s.append("ori");
                push_reg_imm(&mut s, *rd, *rs1, *imm);
            },
            RiscVInstruction::Andi { rd, rs1, imm } => {
                s.append("andi");
                push_reg_imm(&mut s, *rd, *rs1, *imm);
            },
            RiscVInstruction::Slli { rd, rs1, imm } => {
                s.append("slli");
                push_reg_imm(&mut s, *rd, *rs1, *imm);
            },
            RiscVInstruction::Srli { rd, rs1, imm } => {
                s.append("srli");
                push_reg_imm(&mut s, *rd, *rs1, *imm);
            },
            RiscVInstruction::Srai { rd, rs1, imm } => {
                s.append("srai");
                push_reg_imm(&mut s, *rd, *rs1, *imm);
            },
            RiscVInstruction::Slti { rd, rs1, imm } => {
                s.append("slti");
                push_reg_imm(&mut s, *rd, *rs1, *imm);
            },
            RiscVInstruction::Sltiu { rd, rs1, imm } => {
                s.append("sltiu");
                push_reg_imm(&mut s, *rd, *rs1, *imm);
            },
            RiscVInstruction::Lb { rd, rs1, imm } => {
                s.append("lb");
                push_load(&mut s, *rd, *rs1, *imm);
            },
            RiscVInstruction::Lh { rd, rs1, imm } => {
                s.append("lh");
                push_load(&mut s, *rd, *rs1, *imm);
            },
            RiscVInstruction::Lw { rd, rs1, imm } => {
                s.append("lw");
                push_load(&mut s, *rd, *rs1, *imm);
            },
            RiscVInstruction::Lbu { rd, rs1, imm } => {
                s.append("lbu");
                push_load(&mut s, *rd, *rs1, *imm);
            },
            RiscVInstruction::Lhu { rd, rs1, imm } => {
                s.append("lhu");
                push_load(&mut s, *rd, *rs1, *imm);
            },
            RiscVInstruction::Jalr { rd, rs1, imm } => {
                s.append("jalr");
                push_reg_imm(&mut s, *rd, *rs1, *imm);
            },
            RiscVInstruction::Ecall => {
                s.append("ecall");
            },
            RiscVInstruction::Ebreak => {
                s.append("ebreak");
            },
            RiscVInstruction::Unsupported(w) => {
                s.append("unsupported(0x");
                push_hex8(&mut s, *w);
                s.append(")");
            },
        }
        proof {
            assert(s@ =~= spec_text(*self));
        }
        s
    }
}

} // verus!
