use allude_sim::isa::instr_def::I_TYPE_MASK;
use allude_sim::isa::rv32i::rv32i_instrs;
use allude_sim::isa::rv32m::rv32m_instrs;
use allude_sim::isa::{InstrDef, InstrKind, RvInstr};

fn find(table: &[InstrDef], name: &str) -> InstrDef {
    *table.iter().find(|d| d.name == name).unwrap()
}

#[test]
fn test_instr_def_matches() {
    let add_def = find(&rv32i_instrs(), "ADD");

    let add_raw = 0x002081B3;
    assert!(add_def.matches(add_raw));

    let sub_raw = 0x402081B3;
    assert!(!add_def.matches(sub_raw));
}

#[test]
fn test_instr_def_decode() {
    let addi_def = find(&rv32i_instrs(), "ADDI");

    let raw = 0x02A00093;
    let decoded = addi_def.decode_instr(raw);
    assert_eq!(
        decoded.instr,
        RvInstr::Addi {
            rd: 1,
            rs1: 0,
            imm: 42
        }
    );
}

#[test]
fn test_no_conflict_add_mul() {
    let add_def = find(&rv32i_instrs(), "ADD");
    let mul_def = find(&rv32m_instrs(), "MUL");

    assert!(!add_def.conflicts_with(&mul_def));
}

#[test]
fn instr_def_test_conflict_detection() {
    let def1 = InstrDef::new("TEST1", I_TYPE_MASK, 0x0033, InstrKind::Ecall);
    let def2 = InstrDef::new("TEST2", I_TYPE_MASK, 0x0033, InstrKind::Ebreak);

    assert!(def1.conflicts_with(&def2));
}

#[test]
fn test_rv32i_coverage() {
    assert!(rv32i_instrs().len() >= 37);
}

#[test]
fn test_rv32m_coverage() {
    assert_eq!(rv32m_instrs().len(), 8);
}
