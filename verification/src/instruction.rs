use vstd::prelude::*;

verus! {

/// One decoded RV32I instruction.
///
/// The decoder covers a subset of the base integer instruction set:
/// register-register arithmetic, register-immediate arithmetic, immediate
/// shifts, loads, `jalr`, and the two system instructions. Every other
/// encoding decodes to `Unsupported`, carrying the original word verbatim.
#[derive(Debug, Clone, Copy, PartialEq, Eq, Structural)]
pub enum RiscVInstruction {
    /// Adds `rs1` and `rs2` into `rd`, wrapping on overflow.
    Add { rd: u8, rs1: u8, rs2: u8 },
    /// Subtracts `rs2` from `rs1` into `rd`, wrapping on overflow.
    Sub { rd: u8, rs1: u8, rs2: u8 },
    /// Bitwise XOR of `rs1` and `rs2` into `rd`.
    Xor { rd: u8, rs1: u8, rs2: u8 },
    /// Bitwise OR of `rs1` and `rs2` into `rd`.
    Or { rd: u8, rs1: u8, rs2: u8 },
    /// Bitwise AND of `rs1` and `rs2` into `rd`.
    And { rd: u8, rs1: u8, rs2: u8 },
    /// Adds the immediate to `rs1` into `rd`.
    Addi { rd: u8, rs1: u8, imm: i16 },
    /// Bitwise XOR of `rs1` and the immediate into `rd`.
    Xori { rd: u8, rs1: u8, imm: i16 },
    /// Bitwise OR of `rs1` and the immediate into `rd`.
    Ori { rd: u8, rs1: u8, imm: i16 },
    /// Bitwise AND of `rs1` and the immediate into `rd`.
    Andi { rd: u8, rs1: u8, imm: i16 },
    /// Shifts `rs1` left by the immediate (0 to 31 bits) into `rd`.
    Slli { rd: u8, rs1: u8, imm: i16 },
    /// Shifts `rs1` right logically by the immediate (0 to 31 bits) into `rd`.
    Srli { rd: u8, rs1: u8, imm: i16 },
    /// Shifts `rs1` right arithmetically by the immediate (0 to 31 bits) into `rd`.
    Srai { rd: u8, rs1: u8, imm: i16 },
    /// Signed comparison: `rd` is 1 when `rs1` is below the immediate, else 0.
    Slti { rd: u8, rs1: u8, imm: i16 },
    /// Unsigned comparison: `rd` is 1 when `rs1` is below the immediate, else 0.
    Sltiu { rd: u8, rs1: u8, imm: i16 },
    /// Loads a sign-extended byte from `rs1 + imm` into `rd`.
    Lb { rd: u8, rs1: u8, imm: i16 },
    /// Loads a sign-extended halfword from `rs1 + imm` into `rd`.
    Lh { rd: u8, rs1: u8, imm: i16 },
    /// Loads a word from `rs1 + imm` into `rd`.
    Lw { rd: u8, rs1: u8, imm: i16 },
    /// Loads a zero-extended byte from `rs1 + imm` into `rd`.
    Lbu { rd: u8, rs1: u8, imm: i16 },
    /// Loads a zero-extended halfword from `rs1 + imm` into `rd`.
    Lhu { rd: u8, rs1: u8, imm: i16 },
    /// Jumps to `rs1 + imm`, saving the return address in `rd`.
    Jalr { rd: u8, rs1: u8, imm: i16 },
    /// Transfers control to the host's system-call handler.
    Ecall,
    /// Transfers control to a debugger or trap handler.
    Ebreak,
    /// Any encoding outside the supported subset, kept verbatim.
    Unsupported(u32),
}

/// The major opcode: bits 0 to 6.
pub open spec fn opcode_of(w: u32) -> u32 {
    w & 0x7f
}

/// The destination register field: bits 7 to 11.
pub open spec fn rd_of(w: u32) -> u32 {
    (w >> 7) & 0x1f
}

/// The minor opcode: bits 12 to 14.
pub open spec fn funct3_of(w: u32) -> u32 {
    (w >> 12) & 0x7
}

/// The first source register field: bits 15 to 19.
pub open spec fn rs1_of(w: u32) -> u32 {
    (w >> 15) & 0x1f
}

/// The second source register field: bits 20 to 24.
pub open spec fn rs2_of(w: u32) -> u32 {
    (w >> 20) & 0x1f
}

/// The secondary opcode of register-type instructions: bits 25 to 31.
pub open spec fn funct7_of(w: u32) -> u32 {
    (w >> 25) & 0x7f
}

/// The raw twelve immediate bits of an I-type instruction: bits 20 to 31.
pub open spec fn imm_bits_of(w: u32) -> u32 {
    (w >> 20) & 0xfff
}

/// The I-immediate: the twelve immediate bits reinterpreted as a signed
/// twelve-bit value, in `[-2048, 2047]`.
pub open spec fn imm_of(w: u32) -> i16 {
    if imm_bits_of(w) >= 2048 {
        (imm_bits_of(w) - 4096) as i16
    } else {
        imm_bits_of(w) as i16
    }
}

/// The shift amount of an immediate shift: the low five immediate bits,
/// in `[0, 31]`.
pub open spec fn shamt_of(w: u32) -> i16 {
    (imm_bits_of(w) & 0x1f) as i16
}

/// Decoding of a word under the register-register opcode.
pub open spec fn spec_decode_register(w: u32) -> RiscVInstruction {
    let rd = rd_of(w) as u8;
    let rs1 = rs1_of(w) as u8;
    let rs2 = rs2_of(w) as u8;
    if funct3_of(w) == 0x0 && funct7_of(w) == 0x00 {
        RiscVInstruction::Add { rd, rs1, rs2 }
    } else if funct3_of(w) == 0x0 && funct7_of(w) == 0x20 {
        RiscVInstruction::Sub { rd, rs1, rs2 }
    } else if funct3_of(w) == 0x4 && funct7_of(w) == 0x00 {
        RiscVInstruction::Xor { rd, rs1, rs2 }
    } else if funct3_of(w) == 0x6 && funct7_of(w) == 0x00 {
        RiscVInstruction::Or { rd, rs1, rs2 }
    } else if funct3_of(w) == 0x7 && funct7_of(w) == 0x00 {
        RiscVInstruction::And { rd, rs1, rs2 }
    } else {
        RiscVInstruction::Unsupported(w)
    }
}

/// Decoding of a word under the register-immediate opcode.
pub open spec fn spec_decode_immediate(w: u32) -> RiscVInstruction {
    let rd = rd_of(w) as u8;
    let rs1 = rs1_of(w) as u8;
    let imm = imm_of(w);
    if funct3_of(w) == 0x0 {
        RiscVInstruction::Addi { rd, rs1, imm }
    } else if funct3_of(w) == 0x2 {
        RiscVInstruction::Slti { rd, rs1, imm }
    } else if funct3_of(w) == 0x3 {
        RiscVInstruction::Sltiu { rd, rs1, imm }
    } else if funct3_of(w) == 0x4 {
        RiscVInstruction::Xori { rd, rs1, imm }
    } else if funct3_of(w) == 0x6 {
        RiscVInstruction::Ori { rd, rs1, imm }
    } else if funct3_of(w) == 0x7 {
        RiscVInstruction::Andi { rd, rs1, imm }
    } else if funct3_of(w) == 0x1 {
        if funct7_of(w) == 0x00 {
            RiscVInstruction::Slli { rd, rs1, imm: shamt_of(w) }
        } else {
            RiscVInstruction::Unsupported(w)
        }
    } else if funct3_of(w) == 0x5 {
        if funct7_of(w) == 0x20 {
            RiscVInstruction::Srai { rd, rs1, imm: shamt_of(w) }
        } else if funct7_of(w) == 0x00 {
            RiscVInstruction::Srli { rd, rs1, imm: shamt_of(w) }
        } else {
            RiscVInstruction::Unsupported(w)
        }
    } else {
        RiscVInstruction::Unsupported(w)
    }
}

/// Decoding of a word under the load opcode.
pub open spec fn spec_decode_load(w: u32) -> RiscVInstruction {
    let rd = rd_of(w) as u8;
    let rs1 = rs1_of(w) as u8;
    let imm = imm_of(w);
    if funct3_of(w) == 0x0 {
        RiscVInstruction::Lb { rd, rs1, imm }
    } else if funct3_of(w) == 0x1 {
        RiscVInstruction::Lh { rd, rs1, imm }
    } else if funct3_of(w) == 0x2 {
        RiscVInstruction::Lw { rd, rs1, imm }
    } else if funct3_of(w) == 0x4 {
        RiscVInstruction::Lbu { rd, rs1, imm }
    } else if funct3_of(w) == 0x5 {
        RiscVInstruction::Lhu { rd, rs1, imm }
    } else {
        RiscVInstruction::Unsupported(w)
    }
}

/// Decoding of a word under the system opcode: `ecall` and `ebreak` demand
/// `funct3`, `rd` and `rs1` all zero, and an immediate of 0 or 1.
pub open spec fn spec_decode_system(w: u32) -> RiscVInstruction {
    if funct3_of(w) == 0x0 && rd_of(w) == 0 && rs1_of(w) == 0 {
        if imm_bits_of(w) == 0 {
            RiscVInstruction::Ecall
        } else if imm_bits_of(w) == 1 {
            RiscVInstruction::Ebreak
        } else {
            RiscVInstruction::Unsupported(w)
        }
    } else {
        RiscVInstruction::Unsupported(w)
    }
}

/// The decode table: a total function from a 32-bit instruction word to an
/// instruction value. Words outside the supported subset map to
/// `Unsupported`, preserving the word.
pub open spec fn spec_decode(w: u32) -> RiscVInstruction {
    if opcode_of(w) == 0x33 {
        spec_decode_register(w)
    } else if opcode_of(w) == 0x13 {
        spec_decode_immediate(w)
    } else if opcode_of(w) == 0x03 {
        spec_decode_load(w)
    } else if opcode_of(w) == 0x67 {
        if funct3_of(w) == 0x0 {
            RiscVInstruction::Jalr { rd: rd_of(w) as u8, rs1: rs1_of(w) as u8, imm: imm_of(w) }
        } else {
            RiscVInstruction::Unsupported(w)
        }
    } else if opcode_of(w) == 0x73 {
        spec_decode_system(w)
    } else {
        RiscVInstruction::Unsupported(w)
    }
}

impl RiscVInstruction {
    /// Field ranges of a decoded instruction: register indices below 32,
    /// I-immediates in `[-2048, 2047]`, shift amounts in `[0, 31]`.
    pub open spec fn wf(self) -> bool {
        match self {
            RiscVInstruction::Add { rd, rs1, rs2 } => rd < 32 && rs1 < 32 && rs2 < 32,
            RiscVInstruction::Sub { rd, rs1, rs2 } => rd < 32 && rs1 < 32 && rs2 < 32,
            RiscVInstruction::Xor { rd, rs1, rs2 } => rd < 32 && rs1 < 32 && rs2 < 32,
            RiscVInstruction::Or { rd, rs1, rs2 } => rd < 32 && rs1 < 32 && rs2 < 32,
            RiscVInstruction::And { rd, rs1, rs2 } => rd < 32 && rs1 < 32 && rs2 < 32,
            RiscVInstruction::Addi { rd, rs1, imm } => rd < 32 && rs1 < 32 && -2048 <= imm <= 2047,
            RiscVInstruction::Xori { rd, rs1, imm } => rd < 32 && rs1 < 32 && -2048 <= imm <= 2047,
            RiscVInstruction::Ori { rd, rs1, imm } => rd < 32 && rs1 < 32 && -2048 <= imm <= 2047,
            RiscVInstruction::Andi { rd, rs1, imm } => rd < 32 && rs1 < 32 && -2048 <= imm <= 2047,
            RiscVInstruction::Slli { rd, rs1, imm } => rd < 32 && rs1 < 32 && 0 <= imm <= 31,
            RiscVInstruction::Srli { rd, rs1, imm } => rd < 32 && rs1 < 32 && 0 <= imm <= 31,
            RiscVInstruction::Srai { rd, rs1, imm } => rd < 32 && rs1 < 32 && 0 <= imm <= 31,
            RiscVInstruction::Slti { rd, rs1, imm } => rd < 32 && rs1 < 32 && -2048 <= imm <= 2047,
            RiscVInstruction::Sltiu { rd, rs1, imm } => rd < 32 && rs1 < 32 && -2048 <= imm <= 2047,
            RiscVInstruction::Lb { rd, rs1, imm } => rd < 32 && rs1 < 32 && -2048 <= imm <= 2047,
            RiscVInstruction::Lh { rd, rs1, imm } => rd < 32 && rs1 < 32 && -2048 <= imm <= 2047,
            RiscVInstruction::Lw { rd, rs1, imm } => rd < 32 && rs1 < 32 && -2048 <= imm <= 2047,
            RiscVInstruction::Lbu { rd, rs1, imm } => rd < 32 && rs1 < 32 && -2048 <= imm <= 2047,
            RiscVInstruction::Lhu { rd, rs1, imm } => rd < 32 && rs1 < 32 && -2048 <= imm <= 2047,
            RiscVInstruction::Jalr { rd, rs1, imm } => rd < 32 && rs1 < 32 && -2048 <= imm <= 2047,
            RiscVInstruction::Ecall => true,
            RiscVInstruction::Ebreak => true,
            RiscVInstruction::Unsupported(_) => true,
        }
    }
}

/// Every instruction field a word can decode to lies in its declared range.
proof fn lemma_field_bounds(w: u32)
    by (bit_vector)
    ensures
        w & 0x7f < 0x80,
        (w >> 7) & 0x1f < 32,
        (w >> 12) & 0x7 < 8,
        (w >> 15) & 0x1f < 32,
        (w >> 20) & 0x1f < 32,
        (w >> 25) & 0x7f < 0x80,
        (w >> 20) & 0xfff < 4096,
        ((w >> 7) & 0x1f) as u8 == (w >> 7) & 0x1f,
        ((w >> 15) & 0x1f) as u8 == (w >> 15) & 0x1f,
        ((w >> 20) & 0x1f) as u8 == (w >> 20) & 0x1f,
        ((w >> 20) & 0xfff) & 0x1f < 32,
{
}

impl RiscVInstruction {
    /// Decodes a 32-bit instruction word. Total: every word yields exactly
    /// one instruction value, and every unsupported encoding yields
    /// `Unsupported` with the word kept verbatim.
    pub fn decode(word: u32) -> (r: RiscVInstruction)
        ensures
            r == spec_decode(word),
            r.wf(),
    {
        proof {
            lemma_field_bounds(word);
            crate::encoding::lemma_decode_wf(word);
        }
        let opcode = word & 0x7f;
        if opcode == 0x33 {
            let funct3 = (word >> 12) & 0x7;
            let funct7 = (word >> 25) & 0x7f;
            let rd = ((word >> 7) & 0x1f) as u8;
            let rs1 = ((word >> 15) & 0x1f) as u8;
            let rs2 = ((word >> 20) & 0x1f) as u8;
            if funct3 == 0x0 && funct7 == 0x00 {
                RiscVInstruction::Add { rd, rs1, rs2 }
            } else if funct3 == 0x0 && funct7 == 0x20 {
                RiscVInstruction::Sub { rd, rs1, rs2 }
            } else if funct3 == 0x4 && funct7 == 0x00 {
                RiscVInstruction::Xor { rd, rs1, rs2 }
            } else if funct3 == 0x6 && funct7 == 0x00 {
                RiscVInstruction::Or { rd, rs1, rs2 }
            } else if funct3 == 0x7 && funct7 == 0x00 {
                RiscVInstruction::And { rd, rs1, rs2 }
            } else {
                RiscVInstruction::Unsupported(word)
            }
        } else if opcode == 0x13 {
            let funct3 = (word >> 12) & 0x7;
            let funct7 = (word >> 25) & 0x7f;
            let rd = ((word >> 7) & 0x1f) as u8;
            let rs1 = ((word >> 15) & 0x1f) as u8;
            let imm_bits = (word >> 20) & 0xfff;
            let imm: i16 = if imm_bits >= 2048 {
                (imm_bits as i32 - 4096) as i16
            } else {
                imm_bits as i16
            };
            if funct3 == 0x0 {
                RiscVInstruction::Addi { rd, rs1, imm }
            } else if funct3 == 0x2 {
                RiscVInstruction::Slti { rd, rs1, imm }
            } else if funct3 == 0x3 {
                RiscVInstruction::Sltiu { rd, rs1, imm }
            } else if funct3 == 0x4 {
                RiscVInstruction::Xori { rd, rs1, imm }
            } else if funct3 == 0x6 {
                RiscVInstruction::Ori { rd, rs1, imm }
            } else if funct3 == 0x7 {
                RiscVInstruction::Andi { rd, rs1, imm }
            } else if funct3 == 0x1 {
                if funct7 == 0x00 {
                    let shamt = (imm_bits & 0x1f) as i16;
                    RiscVInstruction::Slli { rd, rs1, imm: shamt }
                } else {
                    RiscVInstruction::Unsupported(word)
                }
            } else if funct3 == 0x5 {
                if funct7 == 0x20 {
                    let shamt = (imm_bits & 0x1f) as i16;
                    RiscVInstruction::Srai { rd, rs1, imm: shamt }
                } else if funct7 == 0x00 {
                    let shamt = (imm_bits & 0x1f) as i16;
                    RiscVInstruction::Srli { rd, rs1, imm: shamt }
                } else {
                    RiscVInstruction::Unsupported(word)
                }
            } else {
                RiscVInstruction::Unsupported(word)
            }
        } else if opcode == 0x03 {
            let funct3 = (word >> 12) & 0x7;
            let rd = ((word >> 7) & 0x1f) as u8;
            let rs1 = ((word >> 15) & 0x1f) as u8;
            let imm_bits = (word >> 20) & 0xfff;
            let imm: i16 = if imm_bits >= 2048 {
                (imm_bits as i32 - 4096) as i16
            } else {
                imm_bits as i16
            };
            if funct3 == 0x0 {
                RiscVInstruction::Lb { rd, rs1, imm }
            } else if funct3 == 0x1 {
                RiscVInstruction::Lh { rd, rs1, imm }
            } else if funct3 == 0x2 {
                RiscVInstruction::Lw { rd, rs1, imm }
            } else if funct3 == 0x4 {
                RiscVInstruction::Lbu { rd, rs1, imm }
            } else if funct3 == 0x5 {
                RiscVInstruction::Lhu { rd, rs1, imm }
            } else {
                RiscVInstruction::Unsupported(word)
            }
        } else if opcode == 0x67 {
            let funct3 = (word >> 12) & 0x7;
            if funct3 == 0x0 {
                let rd = ((word >> 7) & 0x1f) as u8;
                let rs1 = ((word >> 15) & 0x1f) as u8;
                let imm_bits = (word >> 20) & 0xfff;
                let imm: i16 = if imm_bits >= 2048 {
                    (imm_bits as i32 - 4096) as i16
                } else {
                    imm_bits as i16
                };
                RiscVInstruction::Jalr { rd, rs1, imm }
            } else {
                RiscVInstruction::Unsupported(word)
            }
        } else if opcode == 0x73 {
            let funct3 = (word >> 12) & 0x7;
            let rd = (word >> 7) & 0x1f;
            let rs1 = (word >> 15) & 0x1f;
            let imm_bits = (word >> 20) & 0xfff;
            if funct3 == 0x0 && rd == 0 && rs1 == 0 {
                if imm_bits == 0 {
                    RiscVInstruction::Ecall
                } else if imm_bits == 1 {
                    RiscVInstruction::Ebreak
                } else {
                    RiscVInstruction::Unsupported(word)
                }
            } else {
                RiscVInstruction::Unsupported(word)
            }
        } else {
            RiscVInstruction::Unsupported(word)
        }
    }
}

} // verus!
