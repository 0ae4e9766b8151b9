use riscv::RiscVInstruction;

#[test]
fn jalr_positive_immediate() {
    let jalr = RiscVInstruction::Jalr {
        rd: 1,
        rs1: 2,
        imm: 100,
    };
    assert_eq!(jalr.text(), "jalr x1, x2, 100");
}

#[test]
fn jalr_negative_immediate() {
    let jalr = RiscVInstruction::Jalr {
        rd: 0,
        rs1: 1,
        imm: -4,
    };
    assert_eq!(jalr.text(), "jalr x0, x1, -4");
}

#[test]
fn jalr_zero_immediate() {
    let jalr = RiscVInstruction::Jalr {
        rd: 31,
        rs1: 0,
        imm: 0,
    };
    assert_eq!(jalr.text(), "jalr x31, x0, 0");
}

#[test]
fn jalr_min_values() {
    let jalr_min = RiscVInstruction::Jalr {
        rd: 0,
        rs1: 0,
        imm: -2048,
    };
    assert_eq!(jalr_min.text(), "jalr x0, x0, -2048");
}

#[test]
fn jalr_max_values() {
    let jalr_max = RiscVInstruction::Jalr {
        rd: 31,
        rs1: 31,
        imm: 2047,
    };
    assert_eq!(jalr_max.text(), "jalr x31, x31, 2047");
}
