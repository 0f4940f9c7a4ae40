use allude_sim::isa::rv32f::rv32f_decoder;
use allude_sim::isa::{InstrDecoder, RvInstr};

#[test]
fn test_decode_flw() {
    let raw = 0x00412087;
    let decoded = rv32f_decoder().decode(raw);
    assert!(decoded.is_some());
    match decoded.unwrap().instr {
        RvInstr::Flw { frd, rs1, offset } => {
            assert_eq!(frd, 1);
            assert_eq!(rs1, 2);
            assert_eq!(offset, 4);
        }
        _ => panic!("Expected Flw"),
    }
}

#[test]
fn test_decode_fsw() {
    let raw = 0x00112427;
    let decoded = rv32f_decoder().decode(raw);
    assert!(decoded.is_some());
    match decoded.unwrap().instr {
        RvInstr::Fsw { frs2, rs1, offset } => {
            assert_eq!(frs2, 1);
            assert_eq!(rs1, 2);
            assert_eq!(offset, 8);
        }
        _ => panic!("Expected Fsw"),
    }
}

#[test]
fn test_decode_fadd_s() {
    let raw = 0x003100D3;
    let decoded = rv32f_decoder().decode(raw);
    assert!(decoded.is_some());
    match decoded.unwrap().instr {
        RvInstr::FaddS { frd, frs1, frs2, rm } => {
            assert_eq!(frd, 1);
            assert_eq!(frs1, 2);
            assert_eq!(frs2, 3);
            assert_eq!(rm, 0);
        }
        _ => panic!("Expected FaddS"),
    }
}

#[test]
fn test_decode_fmadd_s() {
    let raw = 0x203100C3;
    let decoded = rv32f_decoder().decode(raw);
    assert!(decoded.is_some());
    match decoded.unwrap().instr {
        RvInstr::FmaddS { frd, frs1, frs2, frs3, rm } => {
            assert_eq!(frd, 1);
            assert_eq!(frs1, 2);
            assert_eq!(frs2, 3);
            assert_eq!(frs3, 4);
            assert_eq!(rm, 0);
        }
        _ => panic!("Expected FmaddS"),
    }
}

#[test]
fn test_decode_fcvt_w_s() {
    let raw = 0xC00110D3;
    let decoded = rv32f_decoder().decode(raw);
    assert!(decoded.is_some());
    match decoded.unwrap().instr {
        RvInstr::FcvtWS { rd, frs1, rm } => {
            assert_eq!(rd, 1);
            assert_eq!(frs1, 2);
            assert_eq!(rm, 1);
        }
        _ => panic!("Expected FcvtWS"),
    }
}

#[test]
fn test_decode_fmv_x_w() {
    let raw = 0xE00100D3;
    let decoded = rv32f_decoder().decode(raw);
    assert!(decoded.is_some());
    match decoded.unwrap().instr {
        RvInstr::FmvXW { rd, frs1 } => {
            assert_eq!(rd, 1);
            assert_eq!(frs1, 2);
        }
        _ => panic!("Expected FmvXW"),
    }
}
