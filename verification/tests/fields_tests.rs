use allude_sim::isa::fields::{imm_b, imm_j, imm_s};

#[test]
fn test_imm_b_positive() {
    let raw = 0x00208463;
    assert_eq!(imm_b(raw), 8);
}

#[test]
fn test_imm_j_positive() {
    let raw = 0x0040006F;
    assert_eq!(imm_j(raw), 4);
}

#[test]
fn test_imm_s() {
    let raw = 0x00112423;
    assert_eq!(imm_s(raw), 8);
}
