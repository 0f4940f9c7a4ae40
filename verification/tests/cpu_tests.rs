use allude_sim::cpu::csr_def::{CSR_MCAUSE, CSR_MEPC, CSR_MSTATUS, CSR_MTVAL, CSR_MTVEC};
use allude_sim::cpu::{CpuBuilder, CpuCore, CpuState, PrivilegeMode, TrapCause};
use allude_sim::isa::priv_instr::{MRET_ENCODING, WFI_ENCODING};
use allude_sim::memory::{FlatMemory, Memory};

fn write_instr(mem: &mut FlatMemory, addr: u32, instr: u32) {
    mem.store32(addr, instr).unwrap();
}

#[test]
fn test_addi() {
    let mut mem = FlatMemory::new(1024, 0);
    let mut cpu = CpuCore::new(0);

    write_instr(&mut mem, 0, 0x02A00093);
    cpu.step(&mut mem);

    assert_eq!(cpu.read_reg(1), 42);
    assert_eq!(cpu.pc(), 4);
}

#[test]
fn test_add() {
    let mut mem = FlatMemory::new(1024, 0);
    let mut cpu = CpuCore::new(0);

    write_instr(&mut mem, 0, 0x00A00093);
    write_instr(&mut mem, 4, 0x01400113);
    write_instr(&mut mem, 8, 0x002081B3);

    cpu.step(&mut mem);
    cpu.step(&mut mem);
    cpu.step(&mut mem);

    assert_eq!(cpu.read_reg(1), 10);
    assert_eq!(cpu.read_reg(2), 20);
    assert_eq!(cpu.read_reg(3), 30);
}

#[test]
fn test_sub() {
    let mut mem = FlatMemory::new(1024, 0);
    let mut cpu = CpuCore::new(0);

    write_instr(&mut mem, 0, 0x06400093);
    write_instr(&mut mem, 4, 0x01E00113);
    write_instr(&mut mem, 8, 0x402081B3);

    cpu.run(&mut mem, 3);

    assert_eq!(cpu.read_reg(3), 70);
}

#[test]
fn test_lw_sw() {
    let mut mem = FlatMemory::new(1024, 0);
    let mut cpu = CpuCore::new(0);

    write_instr(&mut mem, 0, 0x04200093);
    write_instr(&mut mem, 4, 0x06400113);
    write_instr(&mut mem, 8, 0x00112023);
    write_instr(&mut mem, 12, 0x00012183);

    cpu.run(&mut mem, 4);

    assert_eq!(cpu.read_reg(3), 0x42);
    assert_eq!(mem.load32(100).unwrap(), 0x42);
}

#[test]
fn test_beq_taken() {
    let mut mem = FlatMemory::new(1024, 0);
    let mut cpu = CpuCore::new(0);

    write_instr(&mut mem, 0, 0x00500093);
    write_instr(&mut mem, 4, 0x00500113);
    write_instr(&mut mem, 8, 0x00208463);
    write_instr(&mut mem, 12, 0x00100193);

    cpu.run(&mut mem, 3);

    assert_eq!(cpu.pc(), 16);
    assert_eq!(cpu.read_reg(3), 0);
}

#[test]
fn test_beq_not_taken() {
    let mut mem = FlatMemory::new(1024, 0);
    let mut cpu = CpuCore::new(0);

    write_instr(&mut mem, 0, 0x00500093);
    write_instr(&mut mem, 4, 0x00A00113);
    write_instr(&mut mem, 8, 0x00208463);
    write_instr(&mut mem, 12, 0x00100193);

    cpu.run(&mut mem, 4);

    assert_eq!(cpu.read_reg(3), 1);
}

#[test]
fn test_jal() {
    let mut mem = FlatMemory::new(1024, 0);
    let mut cpu = CpuCore::new(0);

    write_instr(&mut mem, 0, 0x008000EF);

    cpu.step(&mut mem);

    assert_eq!(cpu.read_reg(1), 4);
    assert_eq!(cpu.pc(), 8);
}

#[test]
fn test_lui() {
    let mut mem = FlatMemory::new(1024, 0);
    let mut cpu = CpuCore::new(0);

    write_instr(&mut mem, 0, 0x123450B7);

    cpu.step(&mut mem);

    assert_eq!(cpu.read_reg(1), 0x12345000);
}

#[test]
fn test_auipc() {
    let mut mem = FlatMemory::new(1024, 0);
    let mut cpu = CpuCore::new(0x100);

    write_instr(&mut mem, 0x100, 0x12345097);

    cpu.step(&mut mem);

    assert_eq!(cpu.read_reg(1), 0x100 + 0x12345000);
}

#[test]
fn test_x0_always_zero() {
    let mut mem = FlatMemory::new(1024, 0);
    let mut cpu = CpuCore::new(0);

    write_instr(&mut mem, 0, 0x02A00013);

    cpu.step(&mut mem);

    assert_eq!(cpu.read_reg(0), 0);
}

#[test]
fn test_ecall() {
    let mut mem = FlatMemory::new(1024, 0);
    let mut cpu = CpuCore::new(0);

    cpu.csr_write(0x305, 0x100);

    write_instr(&mut mem, 0, 0x00000073);

    let state = cpu.step(&mut mem);

    assert_eq!(state, CpuState::Running);
    assert_eq!(cpu.pc(), 0x100);
    assert_eq!(cpu.csr_read(0x341), 0);
    assert_eq!(cpu.csr_read(0x342), 11);
}

#[test]
fn test_ebreak() {
    let mut mem = FlatMemory::new(1024, 0);
    let mut cpu = CpuCore::new(0);

    cpu.csr_write(0x305, 0x200);

    write_instr(&mut mem, 0, 0x00100073);

    let state = cpu.step(&mut mem);

    assert_eq!(state, CpuState::Running);
    assert_eq!(cpu.pc(), 0x200);
    assert_eq!(cpu.csr_read(0x341), 0);
    assert_eq!(cpu.csr_read(0x342), 3);
}

#[test]
fn test_shift_instructions() {
    let mut mem = FlatMemory::new(1024, 0);
    let mut cpu = CpuCore::new(0);

    write_instr(&mut mem, 0, 0x01000093);
    write_instr(&mut mem, 4, 0x00209113);
    write_instr(&mut mem, 8, 0x00115193);

    cpu.run(&mut mem, 3);

    assert_eq!(cpu.read_reg(1), 16);
    assert_eq!(cpu.read_reg(2), 64);
    assert_eq!(cpu.read_reg(3), 32);
}

#[test]
fn test_slt() {
    let mut mem = FlatMemory::new(1024, 0);
    let mut cpu = CpuCore::new(0);

    write_instr(&mut mem, 0, 0xFFB00093);
    write_instr(&mut mem, 4, 0x00A00113);
    write_instr(&mut mem, 8, 0x0020A1B3);

    cpu.run(&mut mem, 3);

    assert_eq!(cpu.read_reg(3), 1);
}

#[test]
fn test_simple_loop() {
    let mut mem = FlatMemory::new(1024, 0);
    let mut cpu = CpuCore::new(0);

    cpu.csr_write(0x305, 0x100);

    write_instr(&mut mem, 0, 0x00000093);
    write_instr(&mut mem, 4, 0x00100113);
    write_instr(&mut mem, 8, 0x00400193);
    write_instr(&mut mem, 12, 0x002080B3);
    write_instr(&mut mem, 16, 0x00110113);
    write_instr(&mut mem, 20, 0xFE314CE3);
    write_instr(&mut mem, 24, 0x00000073);

    let mut executed = 0;
    while cpu.pc() != 0x100 && executed < 100 {
        cpu.step(&mut mem);
        executed += 1;
    }

    assert_eq!(cpu.read_reg(1), 6);
    assert_eq!(cpu.pc(), 0x100);
    assert_eq!(cpu.csr_read(0x341), 24);
    assert_eq!(cpu.csr_read(0x342), 11);
    assert!(executed < 100);
}

#[test]
fn test_cpu_builder_basic() {
    let cpu = CpuBuilder::new(0x1000)
        .with_m_extension()
        .build()
        .expect("the configuration builds");

    assert_eq!(cpu.pc(), 0x1000);
    assert_eq!(cpu.state(), CpuState::Running);
}

#[test]
fn test_cpu_builder_with_f_extension() {
    let cpu = CpuBuilder::new(0)
        .with_f_extension()
        .build()
        .expect("the configuration builds");

    let snapshot = cpu.snapshot();
    assert!(snapshot.csr.contains_key(&0x001));
    assert!(snapshot.csr.contains_key(&0x002));
    assert!(snapshot.csr.contains_key(&0x003));
}

#[test]
fn test_cpu_builder_with_v_extension() {
    let cpu = CpuBuilder::new(0)
        .with_v_extension()
        .build()
        .expect("the configuration builds");

    let snapshot = cpu.snapshot();
    assert!(snapshot.csr.contains_key(&0x008));
    assert!(snapshot.csr.contains_key(&0xC20));
    assert!(snapshot.csr.contains_key(&0xC21));
    assert_eq!(snapshot.csr.get(&0xC22), Some(&16));
}

#[test]
fn test_cpu_builder_m_mode_csrs() {
    let cpu = CpuBuilder::new(0)
        .build()
        .expect("the configuration builds");

    let snapshot = cpu.snapshot();
    assert!(snapshot.csr.contains_key(&0x300));
    assert!(snapshot.csr.contains_key(&0x341));
}

#[test]
fn test_cpu_builder_run_program() {
    let mut mem = FlatMemory::new(1024, 0);
    let mut cpu = CpuBuilder::new(0)
        .with_m_extension()
        .build()
        .expect("the configuration builds");

    cpu.csr_write(0x305, 0x100);

    write_instr(&mut mem, 0, 0x02A00093);
    write_instr(&mut mem, 4, 0x00808113);
    write_instr(&mut mem, 8, 0x00000073);

    let mut executed = 0;
    while cpu.pc() != 0x100 && executed < 10 {
        cpu.step(&mut mem);
        executed += 1;
    }

    assert_eq!(cpu.read_reg(1), 42);
    assert_eq!(cpu.read_reg(2), 50);
    assert_eq!(cpu.pc(), 0x100);
    assert_eq!(cpu.csr_read(0x342), 11);
    assert_eq!(executed, 3);
}

#[test]
fn test_rv32im_full_program() {
    let mut mem = FlatMemory::new(1024, 0);
    let mut cpu = CpuBuilder::new(0)
        .with_m_extension()
        .build()
        .expect("the configuration builds");

    cpu.csr_write(0x305, 0x100);

    write_instr(&mut mem, 0, 0x00100093);
    write_instr(&mut mem, 4, 0x00100113);
    write_instr(&mut mem, 8, 0x00600193);

    write_instr(&mut mem, 12, 0x022080B3);

    write_instr(&mut mem, 16, 0x00110113);

    write_instr(&mut mem, 20, 0xFE314CE3);

    write_instr(&mut mem, 24, 0x00000073);

    let mut executed = 0;
    while cpu.pc() != 0x100 && executed < 50 {
        cpu.step(&mut mem);
        executed += 1;
    }

    assert_eq!(cpu.read_reg(1), 120);
    assert_eq!(cpu.read_reg(2), 6);
    assert_eq!(cpu.pc(), 0x100);
    assert_eq!(cpu.csr_read(0x342), 11);
}

#[test]
fn test_rv32im_div_rem() {
    let mut mem = FlatMemory::new(1024, 0);
    let mut cpu = CpuBuilder::new(0)
        .with_m_extension()
        .build()
        .expect("the configuration builds");

    cpu.csr_write(0x305, 0x100);

    write_instr(&mut mem, 0, 0x01100093);
    write_instr(&mut mem, 4, 0x00500113);

    write_instr(&mut mem, 8, 0x0220C1B3);

    write_instr(&mut mem, 12, 0x0220E233);

    write_instr(&mut mem, 16, 0x022181B3);
    write_instr(&mut mem, 16, 0x022182B3);

    write_instr(&mut mem, 20, 0x00428333);

    write_instr(&mut mem, 24, 0x00000073);

    let mut executed = 0;
    while cpu.pc() != 0x100 && executed < 10 {
        cpu.step(&mut mem);
        executed += 1;
    }

    assert_eq!(cpu.read_reg(1), 17);
    assert_eq!(cpu.read_reg(2), 5);
    assert_eq!(cpu.read_reg(3), 3);
    assert_eq!(cpu.read_reg(4), 2);
    assert_eq!(cpu.read_reg(5), 15);
    assert_eq!(cpu.read_reg(6), 17);
    assert_eq!(cpu.pc(), 0x100);
}

#[test]
fn test_rv32im_fibonacci() {
    let mut mem = FlatMemory::new(1024, 0);
    let mut cpu = CpuBuilder::new(0)
        .with_m_extension()
        .build()
        .expect("the configuration builds");

    cpu.csr_write(0x305, 0x100);

    write_instr(&mut mem, 0, 0x00100093);
    write_instr(&mut mem, 4, 0x00100113);
    write_instr(&mut mem, 8, 0x00200193);
    write_instr(&mut mem, 12, 0x00A00213);

    write_instr(&mut mem, 16, 0x002082B3);
    write_instr(&mut mem, 20, 0x00010093);
    write_instr(&mut mem, 24, 0x00028113);
    write_instr(&mut mem, 28, 0x00118193);
    write_instr(&mut mem, 32, 0xFE41C8E3);

    write_instr(&mut mem, 36, 0x00000073);

    let mut executed = 0;
    while cpu.pc() != 0x100 && executed < 100 {
        cpu.step(&mut mem);
        executed += 1;
    }

    assert_eq!(cpu.read_reg(2), 55);
    assert_eq!(cpu.pc(), 0x100);
}

#[test]
fn test_zicsr_basic() {
    let mut mem = FlatMemory::new(1024, 0);
    let mut cpu = CpuBuilder::new(0)
        .with_zicsr_extension()
        .build()
        .expect("the configuration builds");

    write_instr(&mut mem, 0, 0x05500093);

    write_instr(&mut mem, 4, 0x34009173);

    write_instr(&mut mem, 8, 0x340021F3);

    write_instr(&mut mem, 12, 0x00F00213);

    write_instr(&mut mem, 16, 0x340222F3);

    write_instr(&mut mem, 20, 0x34002373);

    write_instr(&mut mem, 24, 0x05000393);

    write_instr(&mut mem, 28, 0x3403B473);

    write_instr(&mut mem, 32, 0x340024F3);

    write_instr(&mut mem, 36, 0x340FD573);

    write_instr(&mut mem, 40, 0x340025F3);

    write_instr(&mut mem, 44, 0x00000073);

    cpu.csr_write(0x305, 0x200);

    let mut executed = 0;
    while cpu.pc() != 0x200 && executed < 20 {
        cpu.step(&mut mem);
        executed += 1;
    }

    assert_eq!(cpu.read_reg(1), 0x55);
    assert_eq!(cpu.read_reg(2), 0);
    assert_eq!(cpu.read_reg(3), 0x55);
    assert_eq!(cpu.read_reg(5), 0x55);
    assert_eq!(cpu.read_reg(6), 0x5F);
    assert_eq!(cpu.read_reg(8), 0x5F);
    assert_eq!(cpu.read_reg(9), 0x0F);
    assert_eq!(cpu.read_reg(10), 0x0F);
    assert_eq!(cpu.read_reg(11), 0x1F);
    assert_eq!(cpu.pc(), 0x200);
}

#[test]
fn test_take_trap_basic() {
    let mut mem = FlatMemory::new(1024, 0);
    let mut cpu = CpuBuilder::new(0x1000)
        .with_zicsr_extension()
        .build()
        .expect("the configuration builds");

    cpu.csr_write(CSR_MTVEC, 0x8000_0000);

    cpu.csr_write(CSR_MSTATUS, 0x8);

    let cause = TrapCause::EcallFromM;
    let tval = 0;

    let pc_before = cpu.pc();
    cpu.take_trap(cause, tval);

    assert_eq!(cpu.csr_read(CSR_MEPC), pc_before);

    assert_eq!(cpu.csr_read(CSR_MCAUSE), 11);

    assert_eq!(cpu.csr_read(CSR_MTVAL), 0);

    let mstatus = cpu.csr_read(CSR_MSTATUS);
    assert_eq!((mstatus >> 7) & 1, 1);
    assert_eq!((mstatus >> 3) & 1, 0);
    assert_eq!((mstatus >> 11) & 3, 3);

    assert_eq!(cpu.pc(), 0x8000_0000);

    assert_eq!(cpu.privilege(), PrivilegeMode::Machine);
}

#[test]
fn test_take_trap_vectored() {
    let mut cpu = CpuBuilder::new(0x1000)
        .with_zicsr_extension()
        .build()
        .expect("the configuration builds");

    cpu.csr_write(CSR_MTVEC, 0x8000_0001);

    cpu.set_pc(0x1000);
    cpu.take_trap(TrapCause::IllegalInstruction, 0xDEADBEEF);
    assert_eq!(cpu.pc(), 0x8000_0000);
    assert_eq!(cpu.csr_read(CSR_MTVAL), 0xDEADBEEF);

    cpu.set_pc(0x2000);
    cpu.take_trap(TrapCause::MachineTimerInterrupt, 0);
    assert_eq!(cpu.pc(), 0x8000_0000 + 4 * 7);
}

#[test]
fn test_mret_basic() {
    let mut mem = FlatMemory::new(4096, 0);
    let mut cpu = CpuBuilder::new(0)
        .with_zicsr_extension()
        .with_priv_extension()
        .build()
        .expect("the configuration builds");

    cpu.csr_write(CSR_MEPC, 0x1000);
    let mstatus = 1 << 7;
    cpu.csr_write(CSR_MSTATUS, mstatus);

    write_instr(&mut mem, 0, MRET_ENCODING);

    cpu.step(&mut mem);

    assert_eq!(cpu.pc(), 0x1000);

    assert_eq!(cpu.privilege(), PrivilegeMode::User);

    let new_mstatus = cpu.csr_read(CSR_MSTATUS);
    assert_eq!((new_mstatus >> 3) & 1, 1);
    assert_eq!((new_mstatus >> 7) & 1, 1);
    assert_eq!((new_mstatus >> 11) & 3, 0);
}

#[test]
fn test_trap_and_return_cycle() {
    let mut mem = FlatMemory::new(0x10000, 0);
    let mut cpu = CpuBuilder::new(0x1000)
        .with_zicsr_extension()
        .with_priv_extension()
        .build()
        .expect("the configuration builds");

    let handler_addr = 0x8000u32;
    cpu.csr_write(CSR_MTVEC, handler_addr);

    cpu.csr_write(CSR_MSTATUS, 1 << 3);

    write_instr(&mut mem, handler_addr, MRET_ENCODING);

    let original_pc = cpu.pc();

    cpu.take_trap(TrapCause::EcallFromM, 0);

    assert_eq!(cpu.pc(), handler_addr);
    assert_eq!(cpu.csr_read(CSR_MEPC), original_pc);
    assert_eq!(cpu.csr_read(CSR_MCAUSE), 11);

    cpu.step(&mut mem);

    assert_eq!(cpu.pc(), original_pc);

    let mstatus = cpu.csr_read(CSR_MSTATUS);
    assert_eq!((mstatus >> 3) & 1, 1);
}

#[test]
fn test_wfi() {
    let mut mem = FlatMemory::new(1024, 0);
    let mut cpu = CpuBuilder::new(0)
        .with_priv_extension()
        .build()
        .expect("the configuration builds");

    write_instr(&mut mem, 0, WFI_ENCODING);

    let state = cpu.step(&mut mem);

    assert_eq!(state, CpuState::WaitForInterrupt);
}
