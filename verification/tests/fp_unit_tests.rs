use allude_sim::cpu::exu::rv32f::{
    apply_fp_state, complete, decode_rounding_mode, execute as execute_fp, fclass, handle_min_max,
    is_signaling_nan_bits, request, set_fflags, CANONICAL_NAN,
};
use allude_sim::cpu::fpu::{FpOp, FpOrdering, FpOutcome, FpRequest, FpStatus, PendingFp};
use allude_sim::cpu::{CpuBuilder, CpuCore, CpuState};
use allude_sim::isa::rv32f::RoundingMode;
use allude_sim::isa::RvInstr;
use allude_sim::memory::{FlatMemory, Memory};

const FCSR: u16 = 0x003;
const QNAN: u32 = 0x7FC0_0000;
const SNAN: u32 = 0x7FA0_0000;
const ONE: u32 = 0x3F80_0000;
const TWO: u32 = 0x4000_0000;

fn fp_cpu() -> CpuCore {
    CpuBuilder::new(0)
        .with_f_extension()
        .build()
        .expect("the configuration builds")
}

fn status(invalid: bool, inexact: bool) -> FpStatus {
    FpStatus { invalid, division_by_zero: false, overflow: false, underflow: false, inexact }
}

fn compare(a: u32, b: u32, signaling: bool) -> FpOutcome {
    let (x, y) = (f32::from_bits(a), f32::from_bits(b));
    let ordering = if x < y {
        Some(FpOrdering::Less)
    } else if x == y {
        Some(FpOrdering::Equal)
    } else if x > y {
        Some(FpOrdering::Greater)
    } else {
        None
    };
    let is_snan = |v: u32| (v & 0x7FC0_0000) == 0x7F80_0000 && (v & 0x003F_FFFF) != 0;
    let invalid = ordering.is_none() && (signaling || is_snan(a) || is_snan(b));
    FpOutcome::Compared { ordering, status: status(invalid, false) }
}

fn compare_with(cpu: &mut CpuCore, mem: &mut FlatMemory, instr: RvInstr) -> u32 {
    assert!(execute_fp(cpu, mem, instr, 0));
    let req = cpu.fp_request().expect("a comparison asks for arithmetic");
    let outcome = compare(req.a, req.b, req.op == FpOp::CompareSignaling);
    assert!(cpu.fp_complete(outcome));
    assert!(cpu.fp_request().is_none());
    cpu.read_reg(10)
}

#[test]
fn compare_nan_semantics() {
    let mut cpu = fp_cpu();
    let mut mem = FlatMemory::new(64, 0);
    cpu.write_fp(1, ONE);
    cpu.write_fp(2, TWO);
    cpu.write_fp(3, ONE);
    cpu.write_fp(4, QNAN);
    assert_eq!(compare_with(&mut cpu, &mut mem, RvInstr::FeqS { rd: 10, frs1: 1, frs2: 2 }), 0);
    assert_eq!(compare_with(&mut cpu, &mut mem, RvInstr::FeqS { rd: 10, frs1: 1, frs2: 3 }), 1);
    assert_eq!(compare_with(&mut cpu, &mut mem, RvInstr::FltS { rd: 10, frs1: 1, frs2: 2 }), 1);
    assert_eq!(compare_with(&mut cpu, &mut mem, RvInstr::FleS { rd: 10, frs1: 1, frs2: 3 }), 1);
    assert_eq!(compare_with(&mut cpu, &mut mem, RvInstr::FeqS { rd: 10, frs1: 1, frs2: 4 }), 0);
    assert_eq!(cpu.csr_read(FCSR) & 0x1F, 0);
    assert_eq!(compare_with(&mut cpu, &mut mem, RvInstr::FltS { rd: 10, frs1: 1, frs2: 4 }), 0);
    assert_eq!(cpu.csr_read(FCSR) & 0x1F, 0x10);
    assert_eq!(compare_with(&mut cpu, &mut mem, RvInstr::FleS { rd: 10, frs1: 2, frs2: 1 }), 0);
}

#[test]
fn moves_keep_every_bit_pattern() {
    let mut cpu = fp_cpu();
    let mut mem = FlatMemory::new(64, 0);
    for pattern in [0u32, 0x8000_0000, SNAN, QNAN, 0xFFFF_FFFF, 0x0000_0001, 0x7F80_0000] {
        cpu.write_reg(1, pattern);
        assert!(execute_fp(&mut cpu, &mut mem, RvInstr::FmvWX { frd: 7, rs1: 1 }, 0));
        assert!(execute_fp(&mut cpu, &mut mem, RvInstr::FmvXW { rd: 2, frs1: 7 }, 0));
        assert_eq!(cpu.read_reg(2), pattern);
    }
    assert_eq!(cpu.csr_read(FCSR), 0);
}

#[test]
fn the_float_executor_needs_the_extension() {
    let mut cpu = CpuCore::new(0);
    let mut mem = FlatMemory::new(64, 0);
    cpu.write_reg(1, ONE);
    assert!(!execute_fp(&mut cpu, &mut mem, RvInstr::FmvWX { frd: 1, rs1: 1 }, 0));
    assert_eq!(cpu.read_fp(1), 0);
    cpu.write_fp(1, ONE);
    assert_eq!(cpu.read_fp(1), 0);
    assert!(!cpu.has_fp());
    // fadd.s f1, f2, f3 is no instruction of a core without F
    mem.store32(0, 0x0031_00D3).unwrap();
    let mut plain = CpuBuilder::new(0).build().expect("the configuration builds");
    assert_eq!(plain.step(&mut mem), CpuState::IllegalInstruction(0x0031_00D3));
}

#[test]
fn classification_is_one_hot() {
    let cases = [
        (0xFF80_0000u32, 0),
        (0xBF80_0000, 1),
        (0x8000_0001, 2),
        (0x8000_0000, 3),
        (0x0000_0000, 4),
        (0x007F_FFFF, 5),
        (0x7F7F_FFFF, 6),
        (0x7F80_0000, 7),
        (SNAN, 8),
        (QNAN, 9),
        (0xFFC0_0001, 9),
        (0xFF80_0001, 8),
    ];
    for (bits, class) in cases {
        assert_eq!(fclass(bits), 1 << class);
    }
    assert!(is_signaling_nan_bits(SNAN));
    assert!(!is_signaling_nan_bits(QNAN));
    assert!(!is_signaling_nan_bits(0x7F80_0000));
}

#[test]
fn minimum_and_maximum_of_special_values() {
    let mut cpu = fp_cpu();
    let mut check = |a: u32, b: u32, min: u32, max: u32, flags: u32| {
        cpu.csr_write(FCSR, 0);
        cpu.write_fp(1, a);
        cpu.write_fp(2, b);
        handle_min_max(&mut cpu, 3, 1, 2, true);
        assert_eq!(cpu.read_fp(3), min);
        handle_min_max(&mut cpu, 3, 1, 2, false);
        assert_eq!(cpu.read_fp(3), max);
        assert_eq!(cpu.csr_read(FCSR), flags);
    };
    let neg_zero = 0x8000_0000;
    let neg_two = 0xC000_0000;
    check(ONE, TWO, ONE, TWO, 0);
    check(TWO, ONE, ONE, TWO, 0);
    check(neg_two, ONE, neg_two, ONE, 0);
    check(neg_two, 0xBF80_0000, neg_two, 0xBF80_0000, 0);
    check(0, neg_zero, neg_zero, 0, 0);
    check(neg_zero, 0, neg_zero, 0, 0);
    check(QNAN, ONE, ONE, ONE, 0);
    check(TWO, QNAN, TWO, TWO, 0);
    check(QNAN, 0xFFC0_0000, CANONICAL_NAN, CANONICAL_NAN, 0x10);
    check(QNAN, QNAN, CANONICAL_NAN, CANONICAL_NAN, 0x10);
    check(SNAN, ONE, ONE, ONE, 0x10);
    check(SNAN, QNAN, CANONICAL_NAN, CANONICAL_NAN, 0x10);
    check(0x7F80_0000, 0xFF80_0000, 0xFF80_0000, 0x7F80_0000, 0);
}

#[test]
fn sign_injection_composes_bits() {
    let mut cpu = fp_cpu();
    let mut mem = FlatMemory::new(64, 0);
    cpu.write_fp(1, 0x7FC0_1234);
    cpu.write_fp(2, 0x8000_0000);
    assert!(execute_fp(&mut cpu, &mut mem, RvInstr::FsgnjS { frd: 3, frs1: 1, frs2: 2 }, 0));
    assert_eq!(cpu.read_fp(3), 0xFFC0_1234);
    assert!(execute_fp(&mut cpu, &mut mem, RvInstr::FsgnjnS { frd: 3, frs1: 1, frs2: 2 }, 0));
    assert_eq!(cpu.read_fp(3), 0x7FC0_1234);
    assert!(execute_fp(&mut cpu, &mut mem, RvInstr::FsgnjxS { frd: 3, frs1: 2, frs2: 2 }, 0));
    assert_eq!(cpu.read_fp(3), 0);
}

#[test]
fn rounding_modes_resolve_through_fcsr() {
    let mut cpu = fp_cpu();
    assert_eq!(decode_rounding_mode(&cpu, 0), Some(RoundingMode::Rne));
    assert_eq!(decode_rounding_mode(&cpu, 1), Some(RoundingMode::Rtz));
    assert_eq!(decode_rounding_mode(&cpu, 2), Some(RoundingMode::Rdn));
    assert_eq!(decode_rounding_mode(&cpu, 3), Some(RoundingMode::Rup));
    assert_eq!(decode_rounding_mode(&cpu, 4), Some(RoundingMode::Rmm));
    assert_eq!(decode_rounding_mode(&cpu, 5), None);
    assert_eq!(decode_rounding_mode(&cpu, 6), None);
    assert_eq!(decode_rounding_mode(&cpu, 7), Some(RoundingMode::Rne));
    cpu.csr_write(FCSR, 3 << 5);
    assert_eq!(decode_rounding_mode(&cpu, 7), Some(RoundingMode::Rup));
    cpu.csr_write(FCSR, 7 << 5);
    assert_eq!(decode_rounding_mode(&cpu, 7), None);
    assert_eq!(RoundingMode::from(2), RoundingMode::Rdn);
    assert_eq!(RoundingMode::from(5), RoundingMode::Dyn);
}

#[test]
fn an_unsupported_rounding_mode_makes_the_instruction_illegal() {
    let mut cpu = fp_cpu();
    let mut mem = FlatMemory::new(64, 0);
    let instr = RvInstr::FaddS { frd: 3, frs1: 1, frs2: 2, rm: 5 };
    assert!(!execute_fp(&mut cpu, &mut mem, instr, 0));
    assert!(request(&cpu, instr).is_none());
    assert!(cpu.fp_request().is_none());
    // fadd.s f3, f1, f2 with rm = 101
    mem.store32(0, 0x0020_D1D3).unwrap();
    assert_eq!(cpu.step(&mut mem), CpuState::IllegalInstruction(0x0020_D1D3));
}

#[test]
fn fused_forms_flip_the_signs_of_their_operands() {
    let mut cpu = fp_cpu();
    cpu.write_fp(1, ONE);
    cpu.write_fp(2, TWO);
    cpu.write_fp(3, 0x4040_0000);
    let ask = |instr| request(&cpu, instr).expect("a fused form asks for arithmetic");
    let plain = ask(RvInstr::FmaddS { frd: 4, frs1: 1, frs2: 2, frs3: 3, rm: 1 });
    assert_eq!(
        plain,
        FpRequest { op: FpOp::MulAdd, a: ONE, b: TWO, c: 0x4040_0000, rounding: RoundingMode::Rtz }
    );
    let msub = ask(RvInstr::FmsubS { frd: 4, frs1: 1, frs2: 2, frs3: 3, rm: 0 });
    assert_eq!((msub.a, msub.b, msub.c), (ONE, TWO, 0xC040_0000));
    let nmadd = ask(RvInstr::FnmaddS { frd: 4, frs1: 1, frs2: 2, frs3: 3, rm: 0 });
    assert_eq!((nmadd.a, nmadd.b, nmadd.c), (0xBF80_0000, TWO, 0xC040_0000));
    let nmsub = ask(RvInstr::FnmsubS { frd: 4, frs1: 1, frs2: 2, frs3: 3, rm: 0 });
    assert_eq!((nmsub.a, nmsub.b, nmsub.c), (0xBF80_0000, TWO, 0x4040_0000));
    let sqrt = ask(RvInstr::FsqrtS { frd: 4, frs1: 2, rm: 2 });
    assert_eq!((sqrt.op, sqrt.a, sqrt.b, sqrt.c), (FpOp::Sqrt, TWO, 0, 0));
    cpu.write_reg(5, 0xFFFF_FFFF);
    let from = request(&cpu, RvInstr::FcvtSWu { frd: 1, rs1: 5, rm: 0 }).unwrap();
    assert_eq!((from.op, from.a), (FpOp::FromUnsigned, 0xFFFF_FFFF));
}

#[test]
fn a_waiting_core_does_not_step() {
    let mut cpu = fp_cpu();
    let mut mem = FlatMemory::new(64, 0);
    cpu.write_fp(1, ONE);
    cpu.write_fp(2, TWO);
    // fadd.s f3, f1, f2; addi x1, x0, 1
    mem.store32(0, 0x0020_81D3).unwrap();
    mem.store32(4, 0x0010_0093).unwrap();
    assert_eq!(cpu.run(&mut mem, 10), (1, CpuState::Running));
    assert_eq!(cpu.pc(), 4);
    let waiting = cpu.pending().expect("the addition waits");
    assert_eq!(waiting.instr, RvInstr::FaddS { frd: 3, frs1: 1, frs2: 2, rm: 0 });
    assert_eq!(
        waiting,
        PendingFp {
            instr: waiting.instr,
            request: FpRequest { op: FpOp::Add, a: ONE, b: TWO, c: 0, rounding: RoundingMode::Rne },
        }
    );
    assert_eq!(cpu.step(&mut mem), CpuState::Running);
    assert_eq!(cpu.pc(), 4);
    assert_eq!(cpu.read_reg(1), 0);
    let wrong = FpOutcome::Compared { ordering: None, status: status(true, false) };
    assert!(!cpu.fp_complete(wrong));
    assert_eq!(cpu.csr_read(FCSR), 0);
    assert!(cpu.pending().is_some());
    let sum = FpOutcome::Value { bits: 0x4040_0000, status: status(false, true) };
    assert!(complete(&mut cpu, sum));
    assert_eq!(cpu.read_fp(3), 0x4040_0000);
    assert_eq!(cpu.csr_read(FCSR), 1);
    assert!(!cpu.fp_complete(sum));
    assert_eq!(cpu.step(&mut mem), CpuState::Running);
    assert_eq!(cpu.read_reg(1), 1);
}

#[test]
fn conversions_to_integers_saturate() {
    let mut cpu = fp_cpu();
    let mut mem = FlatMemory::new(64, 0);
    let mut convert = |bits: u32, unsigned: bool, value: Option<u32>| {
        cpu.csr_write(FCSR, 0);
        cpu.write_fp(1, bits);
        let instr = if unsigned {
            RvInstr::FcvtWuS { rd: 2, frs1: 1, rm: 1 }
        } else {
            RvInstr::FcvtWS { rd: 2, frs1: 1, rm: 1 }
        };
        assert!(execute_fp(&mut cpu, &mut mem, instr, 0));
        let req = cpu.fp_request().unwrap();
        assert_eq!(req.op, if unsigned { FpOp::ToUnsigned } else { FpOp::ToSigned });
        assert_eq!(req.rounding, RoundingMode::Rtz);
        let outcome = FpOutcome::Integer { value, status: status(value.is_none(), false) };
        assert!(cpu.fp_complete(outcome));
        (cpu.read_reg(2), cpu.csr_read(FCSR))
    };
    assert_eq!(convert(QNAN, false, None), (0x7FFF_FFFF, 0x10));
    assert_eq!(convert(0xFFC0_0000, false, None), (0x7FFF_FFFF, 0x10));
    assert_eq!(convert(0x7F80_0000, false, None), (0x7FFF_FFFF, 0x10));
    assert_eq!(convert(0xFF80_0000, false, None), (0x8000_0000, 0x10));
    assert_eq!(convert(0xCF80_0000, false, None), (0x8000_0000, 0x10));
    assert_eq!(convert(0x4F80_0000, false, None), (0x7FFF_FFFF, 0x10));
    assert_eq!(convert(QNAN, true, None), (0xFFFF_FFFF, 0x10));
    assert_eq!(convert(0xFFC0_0000, true, None), (0xFFFF_FFFF, 0x10));
    assert_eq!(convert(0x7F80_0000, true, None), (0xFFFF_FFFF, 0x10));
    assert_eq!(convert(0xBF80_0000, true, None), (0, 0x10));
    assert_eq!(convert(0xC000_0000, false, Some(0xFFFF_FFFE)), (0xFFFF_FFFE, 0));
    assert_eq!(convert(TWO, true, Some(2)), (2, 0));
}

#[test]
fn exception_flags_accumulate() {
    let mut cpu = fp_cpu();
    let all = FpStatus {
        invalid: true,
        division_by_zero: true,
        overflow: true,
        underflow: true,
        inexact: true,
    };
    apply_fp_state(&mut cpu, &FpStatus { division_by_zero: true, ..FpStatus::clear() });
    assert_eq!(cpu.csr_read(FCSR), 0x08);
    apply_fp_state(&mut cpu, &FpStatus { underflow: true, ..FpStatus::clear() });
    assert_eq!(cpu.csr_read(FCSR), 0x0A);
    apply_fp_state(&mut cpu, &FpStatus { overflow: true, inexact: true, ..FpStatus::clear() });
    assert_eq!(cpu.csr_read(FCSR), 0x0F);
    cpu.csr_write(FCSR, 0xE0);
    apply_fp_state(&mut cpu, &FpStatus::clear());
    assert_eq!(cpu.csr_read(FCSR), 0xE0);
    apply_fp_state(&mut cpu, &all);
    assert_eq!(cpu.csr_read(FCSR), 0xFF);
    set_fflags(&mut cpu, 0x100);
    assert_eq!(cpu.csr_read(FCSR), 0x1FF);
    assert_eq!(FpOutcome::Value { bits: 0, status: all }.status(), all);
    let mut plain = CpuCore::new(0);
    apply_fp_state(&mut plain, &FpStatus::clear());
    assert!(!plain.snapshot().csr.contains_key(&FCSR));
}

#[test]
fn float_loads_and_stores_follow_the_integer_word_access() {
    let mut cpu = fp_cpu();
    let mut mem = FlatMemory::new(0x100, 0);
    cpu.csr_write(0x305, 0x40);
    cpu.write_reg(1, 0x21);
    cpu.write_fp(2, 0x1122_3344);
    assert!(execute_fp(&mut cpu, &mut mem, RvInstr::Fsw { frs2: 2, rs1: 1, offset: 0 }, 0));
    assert_eq!(mem.read_bytes(0x21, 4).unwrap(), vec![0x44, 0x33, 0x22, 0x11]);
    assert!(execute_fp(&mut cpu, &mut mem, RvInstr::Flw { frd: 3, rs1: 1, offset: 0 }, 0));
    assert_eq!(cpu.read_fp(3), 0x1122_3344);
    cpu.write_reg(1, 0x100);
    assert!(execute_fp(&mut cpu, &mut mem, RvInstr::Flw { frd: 3, rs1: 1, offset: 0 }, 8));
    assert_eq!(cpu.read_fp(3), 0x1122_3344);
    assert_eq!(cpu.csr_read(0x342), 5);
    assert_eq!(cpu.csr_read(0x341), 8);
    assert_eq!(cpu.csr_read(0x343), 0x100);
    assert_eq!(cpu.pc(), 0x40);
}
