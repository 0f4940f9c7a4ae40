use allude_sim::cpu::exu::rv32f::execute;
use allude_sim::cpu::fpu::{FpOp, FpOrdering, FpOutcome, FpRequest, FpStatus};
use allude_sim::cpu::{CpuBuilder, CpuCore};
use allude_sim::isa::RvInstr;
use allude_sim::memory::{FlatMemory, Memory};

fn setup_fp_cpu() -> CpuCore {
    CpuBuilder::new(0x1000)
        .with_f_extension()
        .build()
        .expect("Failed to build CPU")
}

fn quiet() -> FpStatus {
    FpStatus {
        invalid: false,
        division_by_zero: false,
        overflow: false,
        underflow: false,
        inexact: false,
    }
}

/// Computes a request with the host's arithmetic, rounding to nearest.
fn host_fpu(request: FpRequest) -> FpOutcome {
    let a = f32::from_bits(request.a);
    let b = f32::from_bits(request.b);
    let c = f32::from_bits(request.c);
    let value = |v: f32| FpOutcome::Value { bits: v.to_bits(), status: quiet() };
    match request.op {
        FpOp::Add => value(a + b),
        FpOp::Sub => value(a - b),
        FpOp::Mul => value(a * b),
        FpOp::Div => value(a / b),
        FpOp::Sqrt => value(a.sqrt()),
        FpOp::MulAdd => value(a.mul_add(b, c)),
        FpOp::FromSigned => value(request.a as i32 as f32),
        FpOp::FromUnsigned => value(request.a as f32),
        FpOp::ToSigned => {
            let rounded = a.round_ties_even();
            let fits = rounded >= -2147483648.0 && rounded < 2147483648.0;
            let mut status = quiet();
            status.invalid = !fits;
            status.inexact = fits && rounded != a;
            FpOutcome::Integer {
                value: if fits { Some(rounded as i32 as u32) } else { None },
                status,
            }
        }
        FpOp::ToUnsigned => {
            let rounded = a.round_ties_even();
            let fits = rounded >= 0.0 && rounded < 4294967296.0;
            let mut status = quiet();
            status.invalid = !fits;
            status.inexact = fits && rounded != a;
            FpOutcome::Integer {
                value: if fits { Some(rounded as u32) } else { None },
                status,
            }
        }
        FpOp::CompareQuiet | FpOp::CompareSignaling => {
            let ordering = if a < b {
                Some(FpOrdering::Less)
            } else if a == b {
                Some(FpOrdering::Equal)
            } else if a > b {
                Some(FpOrdering::Greater)
            } else {
                None
            };
            let mut status = quiet();
            status.invalid = ordering.is_none() && request.op == FpOp::CompareSignaling;
            FpOutcome::Compared { ordering, status }
        }
    }
}

fn exec(cpu: &mut CpuCore, mem: &mut FlatMemory, instr: RvInstr) {
    let pc = cpu.pc();
    let _ = execute(cpu, mem, instr, pc);
    if let Some(request) = cpu.fp_request() {
        assert!(cpu.fp_complete(host_fpu(request)));
    }
}

fn write_fp_f32(cpu: &mut CpuCore, reg: u8, value: f32) {
    cpu.write_fp(reg, value.to_bits());
}

fn read_fp_f32(cpu: &CpuCore, reg: u8) -> f32 {
    f32::from_bits(cpu.read_fp(reg))
}

#[test]
fn test_fmv_w_x_and_fmv_x_w() {
    let mut cpu = setup_fp_cpu();
    let mut mem = FlatMemory::new(0x10000, 0);

    cpu.write_reg(1, 0x40490FDB);
    let instr = RvInstr::FmvWX { frd: 1, rs1: 1 };
    exec(&mut cpu, &mut mem, instr);
    assert_eq!(cpu.read_fp(1), 0x40490FDB);

    let instr = RvInstr::FmvXW { rd: 2, frs1: 1 };
    exec(&mut cpu, &mut mem, instr);
    assert_eq!(cpu.read_reg(2), 0x40490FDB);
}

#[test]
fn test_fadd_s() {
    let mut cpu = setup_fp_cpu();
    let mut mem = FlatMemory::new(0x10000, 0);

    write_fp_f32(&mut cpu, 1, 1.0);
    write_fp_f32(&mut cpu, 2, 2.0);

    let instr = RvInstr::FaddS { frd: 3, frs1: 1, frs2: 2, rm: 0 };
    exec(&mut cpu, &mut mem, instr);

    let result = read_fp_f32(&cpu, 3);
    assert!((result - 3.0).abs() < f32::EPSILON);
}

#[test]
fn test_fsub_s() {
    let mut cpu = setup_fp_cpu();
    let mut mem = FlatMemory::new(0x10000, 0);

    write_fp_f32(&mut cpu, 1, 5.0);
    write_fp_f32(&mut cpu, 2, 3.0);

    let instr = RvInstr::FsubS { frd: 3, frs1: 1, frs2: 2, rm: 0 };
    exec(&mut cpu, &mut mem, instr);

    let result = read_fp_f32(&cpu, 3);
    assert!((result - 2.0).abs() < f32::EPSILON);
}

#[test]
fn test_fmul_s() {
    let mut cpu = setup_fp_cpu();
    let mut mem = FlatMemory::new(0x10000, 0);

    write_fp_f32(&mut cpu, 1, 3.0);
    write_fp_f32(&mut cpu, 2, 4.0);

    let instr = RvInstr::FmulS { frd: 3, frs1: 1, frs2: 2, rm: 0 };
    exec(&mut cpu, &mut mem, instr);

    let result = read_fp_f32(&cpu, 3);
    assert!((result - 12.0).abs() < f32::EPSILON);
}

#[test]
fn test_fdiv_s() {
    let mut cpu = setup_fp_cpu();
    let mut mem = FlatMemory::new(0x10000, 0);

    write_fp_f32(&mut cpu, 1, 10.0);
    write_fp_f32(&mut cpu, 2, 2.0);

    let instr = RvInstr::FdivS { frd: 3, frs1: 1, frs2: 2, rm: 0 };
    exec(&mut cpu, &mut mem, instr);

    let result = read_fp_f32(&cpu, 3);
    assert!((result - 5.0).abs() < f32::EPSILON);
}

#[test]
fn test_fsqrt_s() {
    let mut cpu = setup_fp_cpu();
    let mut mem = FlatMemory::new(0x10000, 0);

    write_fp_f32(&mut cpu, 1, 16.0);

    let instr = RvInstr::FsqrtS { frd: 2, frs1: 1, rm: 0 };
    exec(&mut cpu, &mut mem, instr);

    let result = read_fp_f32(&cpu, 2);
    assert!((result - 4.0).abs() < f32::EPSILON);
}

#[test]
fn test_fmadd_s() {
    let mut cpu = setup_fp_cpu();
    let mut mem = FlatMemory::new(0x10000, 0);

    write_fp_f32(&mut cpu, 1, 2.0);
    write_fp_f32(&mut cpu, 2, 3.0);
    write_fp_f32(&mut cpu, 3, 1.0);

    let instr = RvInstr::FmaddS { frd: 4, frs1: 1, frs2: 2, frs3: 3, rm: 0 };
    exec(&mut cpu, &mut mem, instr);

    let result = read_fp_f32(&cpu, 4);
    assert!((result - 7.0).abs() < f32::EPSILON);
}

#[test]
fn test_fcvt_w_s() {
    let mut cpu = setup_fp_cpu();
    let mut mem = FlatMemory::new(0x10000, 0);

    write_fp_f32(&mut cpu, 1, 42.7);

    let instr = RvInstr::FcvtWS { rd: 2, frs1: 1, rm: 0 };
    exec(&mut cpu, &mut mem, instr);

    assert_eq!(cpu.read_reg(2), 43);
}

#[test]
fn test_fcvt_s_w() {
    let mut cpu = setup_fp_cpu();
    let mut mem = FlatMemory::new(0x10000, 0);

    cpu.write_reg(1, 42);

    let instr = RvInstr::FcvtSW { frd: 1, rs1: 1, rm: 0 };
    exec(&mut cpu, &mut mem, instr);

    let result = read_fp_f32(&cpu, 1);
    assert!((result - 42.0).abs() < f32::EPSILON);
}

#[test]
fn test_fclass_s() {
    let mut cpu = setup_fp_cpu();
    let mut mem = FlatMemory::new(0x10000, 0);

    write_fp_f32(&mut cpu, 1, 1.0);
    let instr = RvInstr::FclassS { rd: 2, frs1: 1 };
    exec(&mut cpu, &mut mem, instr);
    assert_eq!(cpu.read_reg(2), 1 << 6);

    write_fp_f32(&mut cpu, 1, f32::INFINITY);
    exec(&mut cpu, &mut mem, instr);
    assert_eq!(cpu.read_reg(2), 1 << 7);

    write_fp_f32(&mut cpu, 1, f32::NEG_INFINITY);
    exec(&mut cpu, &mut mem, instr);
    assert_eq!(cpu.read_reg(2), 1 << 0);
}

#[test]
fn test_flw_fsw() {
    let mut cpu = setup_fp_cpu();
    let mut mem = FlatMemory::new(0x10000, 0);

    let pi_bits: u32 = std::f32::consts::PI.to_bits();
    mem.store32(0x100, pi_bits).unwrap();

    cpu.write_reg(1, 0x100);
    let instr = RvInstr::Flw { frd: 1, rs1: 1, offset: 0 };
    exec(&mut cpu, &mut mem, instr);
    assert_eq!(cpu.read_fp(1), pi_bits);

    cpu.write_reg(2, 0x200);
    let instr = RvInstr::Fsw { rs1: 2, frs2: 1, offset: 0 };
    exec(&mut cpu, &mut mem, instr);
    assert_eq!(mem.load32(0x200).unwrap(), pi_bits);
}

#[test]
fn test_feq_flt_fle() {
    let mut cpu = setup_fp_cpu();
    let mut mem = FlatMemory::new(0x10000, 0);

    write_fp_f32(&mut cpu, 1, 1.0);
    write_fp_f32(&mut cpu, 2, 2.0);
    write_fp_f32(&mut cpu, 3, 1.0);

    let instr = RvInstr::FeqS { rd: 10, frs1: 1, frs2: 2 };
    exec(&mut cpu, &mut mem, instr);
    assert_eq!(cpu.read_reg(10), 0);

    let instr = RvInstr::FeqS { rd: 10, frs1: 1, frs2: 3 };
    exec(&mut cpu, &mut mem, instr);
    assert_eq!(cpu.read_reg(10), 1);

    let instr = RvInstr::FltS { rd: 10, frs1: 1, frs2: 2 };
    exec(&mut cpu, &mut mem, instr);
    assert_eq!(cpu.read_reg(10), 1);

    let instr = RvInstr::FleS { rd: 10, frs1: 1, frs2: 3 };
    exec(&mut cpu, &mut mem, instr);
    assert_eq!(cpu.read_reg(10), 1);
}

#[test]
fn test_fsgnj() {
    let mut cpu = setup_fp_cpu();
    let mut mem = FlatMemory::new(0x10000, 0);

    write_fp_f32(&mut cpu, 1, 3.0);
    write_fp_f32(&mut cpu, 2, -5.0);

    let instr = RvInstr::FsgnjS { frd: 3, frs1: 1, frs2: 2 };
    exec(&mut cpu, &mut mem, instr);
    let result = read_fp_f32(&cpu, 3);
    assert!((result - (-3.0)).abs() < f32::EPSILON);

    let instr = RvInstr::FsgnjnS { frd: 3, frs1: 1, frs2: 2 };
    exec(&mut cpu, &mut mem, instr);
    let result = read_fp_f32(&cpu, 3);
    assert!((result - 3.0).abs() < f32::EPSILON);

    let instr = RvInstr::FsgnjxS { frd: 3, frs1: 1, frs2: 2 };
    exec(&mut cpu, &mut mem, instr);
    let result = read_fp_f32(&cpu, 3);
    assert!((result - (-3.0)).abs() < f32::EPSILON);
}

#[test]
fn test_fmin_fmax() {
    let mut cpu = setup_fp_cpu();
    let mut mem = FlatMemory::new(0x10000, 0);

    write_fp_f32(&mut cpu, 1, 1.0);
    write_fp_f32(&mut cpu, 2, 5.0);

    let instr = RvInstr::FminS { frd: 3, frs1: 1, frs2: 2 };
    exec(&mut cpu, &mut mem, instr);
    let result = read_fp_f32(&cpu, 3);
    assert!((result - 1.0).abs() < f32::EPSILON);

    let instr = RvInstr::FmaxS { frd: 3, frs1: 1, frs2: 2 };
    exec(&mut cpu, &mut mem, instr);
    let result = read_fp_f32(&cpu, 3);
    assert!((result - 5.0).abs() < f32::EPSILON);
}
