use allude_sim::isa::zicsr::{zicsr_decoder, CSR_MIE, CSR_MSCRATCH, CSR_MSTATUS};
use allude_sim::isa::{DecodedInstr, InstrDecoder, RvInstr};

#[test]
fn test_decode_csrrw() {
    let raw = 0x300110F3;
    let decoded = zicsr_decoder().decode(raw);
    assert!(decoded.is_some());
    let DecodedInstr { instr, .. } = decoded.unwrap();
    match instr {
        RvInstr::Csrrw { rd, rs1, csr } => {
            assert_eq!(rd, 1);
            assert_eq!(rs1, 2);
            assert_eq!(csr, CSR_MSTATUS);
        }
        _ => panic!("Expected Csrrw"),
    }
}

#[test]
fn test_decode_csrrs() {
    let raw = 0x304221F3;
    let decoded = zicsr_decoder().decode(raw);
    assert!(decoded.is_some());
    let DecodedInstr { instr, .. } = decoded.unwrap();
    match instr {
        RvInstr::Csrrs { rd, rs1, csr } => {
            assert_eq!(rd, 3);
            assert_eq!(rs1, 4);
            assert_eq!(csr, CSR_MIE);
        }
        _ => panic!("Expected Csrrs"),
    }
}

#[test]
fn test_decode_csrrwi() {
    let raw = 0x3403D2F3;
    let decoded = zicsr_decoder().decode(raw);
    assert!(decoded.is_some());
    let DecodedInstr { instr, .. } = decoded.unwrap();
    match instr {
        RvInstr::Csrrwi { rd, zimm, csr } => {
            assert_eq!(rd, 5);
            assert_eq!(zimm, 7);
            assert_eq!(csr, CSR_MSCRATCH);
        }
        _ => panic!("Expected Csrrwi"),
    }
}

#[test]
fn test_decode_csrrc() {
    let raw = 0x30013073;
    let decoded = zicsr_decoder().decode(raw);
    assert!(decoded.is_some());
    let DecodedInstr { instr, .. } = decoded.unwrap();
    match instr {
        RvInstr::Csrrc { rd, rs1, csr } => {
            assert_eq!(rd, 0);
            assert_eq!(rs1, 2);
            assert_eq!(csr, CSR_MSTATUS);
        }
        _ => panic!("Expected Csrrc"),
    }
}
