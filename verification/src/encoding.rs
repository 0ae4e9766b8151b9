use vstd::prelude::*;
use crate::instruction::{
    RiscVInstruction, spec_decode, opcode_of, rd_of, rs1_of, imm_bits_of, imm_of,
};
use crate::text::spec_text;

verus! {

/// The twelve immediate bits that encode a signed I-immediate: its two's
/// complement representation, truncated to twelve bits.
pub open spec fn enc_imm_bits(imm: i16) -> u32 {
    (imm as u32) & 0xfff
}

/// The canonical word for a register-register instruction.
pub open spec fn enc_register(f3: u32, f7: u32, rd: u8, rs1: u8, rs2: u8) -> u32 {
    0x33u32 | ((rd as u32) << 7) | (f3 << 12) | ((rs1 as u32) << 15) | ((rs2 as u32) << 20) | (
    f7 << 25)
}

/// The canonical word for an I-type instruction, from its raw immediate
/// bits.
pub open spec fn enc_itype(opc: u32, f3: u32, rd: u8, rs1: u8, imm12: u32) -> u32 {
    opc | ((rd as u32) << 7) | (f3 << 12) | ((rs1 as u32) << 15) | (imm12 << 20)
}

/// The canonical word for an immediate shift: the shift amount in the low
/// five immediate bits, the variant's `funct7` above them.
pub open spec fn enc_shift(f3: u32, f7: u32, rd: u8, rs1: u8, shamt: i16) -> u32 {
    enc_itype(0x13, f3, rd, rs1, (shamt as u32) | (f7 << 5))
}

/// The canonical encoding of each supported instruction, following the
/// dispatch table the decoder is specified by. An `Unsupported` value keeps
/// its word.
pub open spec fn spec_encode(i: RiscVInstruction) -> u32 {
    match i {
        RiscVInstruction::Add { rd, rs1, rs2 } => enc_register(0x0, 0x00, rd, rs1, rs2),
        RiscVInstruction::Sub { rd, rs1, rs2 } => enc_register(0x0, 0x20, rd, rs1, rs2),
        RiscVInstruction::Xor { rd, rs1, rs2 } => enc_register(0x4, 0x00, rd, rs1, rs2),
        RiscVInstruction::Or { rd, rs1, rs2 } => enc_register(0x6, 0x00, rd, rs1, rs2),
        RiscVInstruction::And { rd, rs1, rs2 } => enc_register(0x7, 0x00, rd, rs1, rs2),
        RiscVInstruction::Addi { rd, rs1, imm } => enc_itype(0x13, 0x0, rd, rs1, enc_imm_bits(imm)),
        RiscVInstruction::Xori { rd, rs1, imm } => enc_itype(0x13, 0x4, rd, rs1, enc_imm_bits(imm)),
        RiscVInstruction::Ori { rd, rs1, imm } => enc_itype(0x13, 0x6, rd, rs1, enc_imm_bits(imm)),
        RiscVInstruction::Andi { rd, rs1, imm } => enc_itype(0x13, 0x7, rd, rs1, enc_imm_bits(imm)),
        RiscVInstruction::Slli { rd, rs1, imm } => enc_shift(0x1, 0x00, rd, rs1, imm),
        RiscVInstruction::Srli { rd, rs1, imm } => enc_shift(0x5, 0x00, rd, rs1, imm),
        RiscVInstruction::Srai { rd, rs1, imm } => enc_shift(0x5, 0x20, rd, rs1, imm),
        RiscVInstruction::Slti { rd, rs1, imm } => enc_itype(0x13, 0x2, rd, rs1, enc_imm_bits(imm)),
        RiscVInstruction::Sltiu { rd, rs1, imm } => enc_itype(
            0x13,
            0x3,
            rd,
            rs1,
            enc_imm_bits(imm),
        ),
        RiscVInstruction::Lb { rd, rs1, imm } => enc_itype(0x03, 0x0, rd, rs1, enc_imm_bits(imm)),
        RiscVInstruction::Lh { rd, rs1, imm } => enc_itype(0x03, 0x1, rd, rs1, enc_imm_bits(imm)),
        RiscVInstruction::Lw { rd, rs1, imm } => enc_itype(0x03, 0x2, rd, rs1, enc_imm_bits(imm)),
        RiscVInstruction::Lbu { rd, rs1, imm } => enc_itype(0x03, 0x4, rd, rs1, enc_imm_bits(imm)),
        RiscVInstruction::Lhu { rd, rs1, imm } => enc_itype(0x03, 0x5, rd, rs1, enc_imm_bits(imm)),
        RiscVInstruction::Jalr { rd, rs1, imm } => enc_itype(0x67, 0x0, rd, rs1, enc_imm_bits(imm)),
        RiscVInstruction::Ecall => 0x00000073,
        RiscVInstruction::Ebreak => 0x00100073,
        RiscVInstruction::Unsupported(w) => w,
    }
}

/// Field extraction inverts the register-type encoding.
proof fn lemma_enc_register_fields(f3: u32, f7: u32, rd: u8, rs1: u8, rs2: u8)
    by (bit_vector)
    requires
        f3 < 8,
        f7 < 0x80,
        rd < 32,
        rs1 < 32,
        rs2 < 32,
    ensures
        ({
            let w = 0x33u32 | ((rd as u32) << 7) | (f3 << 12) | ((rs1 as u32) << 15) | ((
            rs2 as u32) << 20) | (f7 << 25);
            &&& w & 0x7f == 0x33
            &&& (w >> 12) & 0x7 == f3
            &&& (w >> 25) & 0x7f == f7
            &&& ((w >> 7) & 0x1f) as u8 == rd
            &&& ((w >> 15) & 0x1f) as u8 == rs1
            &&& ((w >> 20) & 0x1f) as u8 == rs2
        }),
{
}

/// Field extraction inverts the I-type encoding.
proof fn lemma_enc_itype_fields(opc: u32, f3: u32, rd: u8, rs1: u8, imm12: u32)
    by (bit_vector)
    requires
        opc < 0x80,
        f3 < 8,
        rd < 32,
        rs1 < 32,
        imm12 < 4096,
    ensures
        ({
            let w = opc | ((rd as u32) << 7) | (f3 << 12) | ((rs1 as u32) << 15) | (imm12 << 20);
            &&& w & 0x7f == opc
            &&& (w >> 12) & 0x7 == f3
            &&& ((w >> 7) & 0x1f) as u8 == rd
            &&& ((w >> 15) & 0x1f) as u8 == rs1
            &&& (w >> 20) & 0xfff == imm12
            &&& (w >> 25) & 0x7f == imm12 >> 5
            &&& (w >> 7) & 0x1f == rd as u32
            &&& (w >> 15) & 0x1f == rs1 as u32
        }),
{
}

/// The twelve encoded immediate bits carry the signed immediate exactly.
proof fn lemma_imm_bits_inverse(imm: i16)
    by (bit_vector)
    requires
        -2048 <= imm <= 2047,
    ensures
        (imm as u32) & 0xfff < 4096,
        imm >= 0 ==> (imm as u32) & 0xfff < 2048 && ((imm as u32) & 0xfff) as i16 == imm,
        imm < 0 ==> (imm as u32) & 0xfff >= 2048 && ((imm as u32) & 0xfff) - 4096 == imm,
{
}

/// The shift immediate bits carry the shift amount in their low five bits
/// and the variant's `funct7` above them.
proof fn lemma_shift_bits_inverse(f7: u32, shamt: i16)
    by (bit_vector)
    requires
        f7 < 0x80,
        0 <= shamt <= 31,
    ensures
        ({
            let imm12 = (shamt as u32) | (f7 << 5);
            &&& imm12 < 4096
            &&& (imm12 & 0x1f) as i16 == shamt
            &&& imm12 >> 5 == f7
        }),
{
}

/// The fields of the two system words.
proof fn lemma_system_word_fields()
    by (bit_vector)
    ensures
        0x73u32 & 0x7f == 0x73,
        (0x73u32 >> 12) & 0x7 == 0,
        (0x73u32 >> 7) & 0x1f == 0,
        (0x73u32 >> 15) & 0x1f == 0,
        (0x73u32 >> 20) & 0xfff == 0,
        0x00100073u32 & 0x7f == 0x73,
        (0x00100073u32 >> 12) & 0x7 == 0,
        (0x00100073u32 >> 7) & 0x1f == 0,
        (0x00100073u32 >> 15) & 0x1f == 0,
        (0x00100073u32 >> 20) & 0xfff == 1,
{
}

/// Decoder round-trip over the supported set: every supported instruction
/// with fields in their declared ranges has a canonical encoding, and
/// decoding that encoding returns the instruction — so its canonical text
/// is also the text of what the encoding decodes to.
pub proof fn lemma_encode_decode(i: RiscVInstruction)
    requires
        i.wf(),
        !(i is Unsupported),
    ensures
        spec_decode(spec_encode(i)) == i,
        spec_text(spec_decode(spec_encode(i))) == spec_text(i),
{
    match i {
        RiscVInstruction::Add { rd, rs1, rs2 } => {
            lemma_enc_register_fields(0x0, 0x00, rd, rs1, rs2);
        },
        RiscVInstruction::Sub { rd, rs1, rs2 } => {
            lemma_enc_register_fields(0x0, 0x20, rd, rs1, rs2);
        },
        RiscVInstruction::Xor { rd, rs1, rs2 } => {
            lemma_enc_register_fields(0x4, 0x00, rd, rs1, rs2);
        },
        RiscVInstruction::Or { rd, rs1, rs2 } => {
            lemma_enc_register_fields(0x6, 0x00, rd, rs1, rs2);
        },
        RiscVInstruction::And { rd, rs1, rs2 } => {
            lemma_enc_register_fields(0x7, 0x00, rd, rs1, rs2);
        },
        RiscVInstruction::Addi { rd, rs1, imm } => {
            lemma_imm_bits_inverse(imm);
            lemma_enc_itype_fields(0x13, 0x0, rd, rs1, enc_imm_bits(imm));
        },
        RiscVInstruction::Xori { rd, rs1, imm } => {
            lemma_imm_bits_inverse(imm);
            lemma_enc_itype_fields(0x13, 0x4, rd, rs1, enc_imm_bits(imm));
        },
        RiscVInstruction::Ori { rd, rs1, imm } => {
            lemma_imm_bits_inverse(imm);
            lemma_enc_itype_fields(0x13, 0x6, rd, rs1, enc_imm_bits(imm));
        },
        RiscVInstruction::Andi { rd, rs1, imm } => {
            lemma_imm_bits_inverse(imm);
            lemma_enc_itype_fields(0x13, 0x7, rd, rs1, enc_imm_bits(imm));
        },
        RiscVInstruction::Slli { rd, rs1, imm } => {
            lemma_shift_bits_inverse(0x00, imm);
            lemma_enc_itype_fields(0x13, 0x1, rd, rs1, (imm as u32) | (0x00u32 << 5));
        },
        RiscVInstruction::Srli { rd, rs1, imm } => {
            lemma_shift_bits_inverse(0x00, imm);
            lemma_enc_itype_fields(0x13, 0x5, rd, rs1, (imm as u32) | (0x00u32 << 5));
        },
        RiscVInstruction::Srai { rd, rs1, imm } => {
            lemma_shift_bits_inverse(0x20, imm);
            lemma_enc_itype_fields(0x13, 0x5, rd, rs1, (imm as u32) | (0x20u32 << 5));
        },
        RiscVInstruction::Slti { rd, rs1, imm } => {
            lemma_imm_bits_inverse(imm);
            lemma_enc_itype_fields(0x13, 0x2, rd, rs1, enc_imm_bits(imm));
        },
        RiscVInstruction::Sltiu { rd, rs1, imm } => {
            lemma_imm_bits_inverse(imm);
            lemma_enc_itype_fields(0x13, 0x3, rd, rs1, enc_imm_bits(imm));
        },
        RiscVInstruction::Lb { rd, rs1, imm } => {
            lemma_imm_bits_inverse(imm);
            lemma_enc_itype_fields(0x03, 0x0, rd, rs1, enc_imm_bits(imm));
        },
        RiscVInstruction::Lh { rd, rs1, imm } => {
            lemma_imm_bits_inverse(imm);
            lemma_enc_itype_fields(0x03, 0x1, rd, rs1, enc_imm_bits(imm));
        },
        RiscVInstruction::Lw { rd, rs1, imm } => {
            lemma_imm_bits_inverse(imm);
            lemma_enc_itype_fields(0x03, 0x2, rd, rs1, enc_imm_bits(imm));
        },
        RiscVInstruction::Lbu { rd, rs1, imm } => {
            lemma_imm_bits_inverse(imm);
            lemma_enc_itype_fields(0x03, 0x4, rd, rs1, enc_imm_bits(imm));
        },
        RiscVInstruction::Lhu { rd, rs1, imm } => {
            lemma_imm_bits_inverse(imm);
            lemma_enc_itype_fields(0x03, 0x5, rd, rs1, enc_imm_bits(imm));
        },
        RiscVInstruction::Jalr { rd, rs1, imm } => {
            lemma_imm_bits_inverse(imm);
            lemma_enc_itype_fields(0x67, 0x0, rd, rs1, enc_imm_bits(imm));
        },
        RiscVInstruction::Ecall => {
            lemma_system_word_fields();
        },
        RiscVInstruction::Ebreak => {
            lemma_system_word_fields();
        },
        RiscVInstruction::Unsupported(_) => {
        },
    }
}

/// Unsupported words are kept verbatim: whenever a word decodes to
/// `Unsupported`, the carried word is the input itself.
pub proof fn lemma_unsupported_verbatim(w: u32)
    ensures
        spec_decode(w) matches RiscVInstruction::Unsupported(v) ==> v == w,
{
}

/// Sign extension: the decoded I-immediate of any word equals its raw
/// twelve immediate bits when bit 11 of them is clear, and those bits
/// less 4096 when bit 11 is set.
pub proof fn lemma_sign_extension(w: u32)
    ensures
        imm_bits_of(w) & 0x800 == 0 ==> imm_of(w) == imm_bits_of(w),
        imm_bits_of(w) & 0x800 != 0 ==> imm_of(w) == imm_bits_of(w) - 4096,
{
    let p = imm_bits_of(w);
    assert(((w >> 20) & 0xfff) < 4096 && (((w >> 20) & 0xfff) & 0x800 == 0 <==> ((w >> 20)
        & 0xfff) < 2048)) by (bit_vector);
    assert(p < 4096);
    assert(p & 0x800 == 0 <==> p < 2048);
}

/// Shift immediate masking: whenever a word decodes to an immediate shift,
/// the decoded shift amount lies in `[0, 31]`, whatever the upper immediate
/// bits were.
pub proof fn lemma_shift_masking(w: u32)
    ensures
        spec_decode(w) matches RiscVInstruction::Slli { imm, .. } ==> 0 <= imm <= 31,
        spec_decode(w) matches RiscVInstruction::Srli { imm, .. } ==> 0 <= imm <= 31,
        spec_decode(w) matches RiscVInstruction::Srai { imm, .. } ==> 0 <= imm <= 31,
{
    assert(((((w >> 20) & 0xfff) & 0x1f) as i16) <= 31 && ((((w >> 20) & 0xfff) & 0x1f) as i16)
        >= 0) by (bit_vector);
}

/// System encoding: the two canonical system words decode to `ecall` and
/// `ebreak`, and every other word under the system opcode — non-zero `rd`
/// or `rs1`, or an immediate outside `{0, 1}` — decodes to `Unsupported`.
pub proof fn lemma_system_encoding(w: u32)
    ensures
        spec_decode(0x00000073) == RiscVInstruction::Ecall,
        spec_decode(0x00100073) == RiscVInstruction::Ebreak,
        opcode_of(w) == 0x73 && (rd_of(w) != 0 || rs1_of(w) != 0 || (imm_bits_of(w) != 0
            && imm_bits_of(w) != 1)) ==> spec_decode(w) is Unsupported,
{
    lemma_system_word_fields();
}

/// Every instruction the decoder returns has its fields in their declared
/// ranges: register indices below 32, I-immediates in `[-2048, 2047]`,
/// shift amounts in `[0, 31]`.
pub proof fn lemma_decode_wf(w: u32)
    ensures
        spec_decode(w).wf(),
{
    assert((((w >> 7) & 0x1f) as u8) < 32 && (((w >> 15) & 0x1f) as u8) < 32 && (((w >> 20)
        & 0x1f) as u8) < 32) by (bit_vector);
    assert((w >> 20) & 0xfff < 4096) by (bit_vector);
    assert(((((w >> 20) & 0xfff) & 0x1f) as i16) <= 31 && ((((w >> 20) & 0xfff) & 0x1f) as i16)
        >= 0) by (bit_vector);
}

} // verus!
