use allude_sim::cpu::csr_def::{CSR_MCAUSE, CSR_MEPC, CSR_MSCRATCH, CSR_MSTATUS, CSR_MTVAL, CSR_MTVEC};
use allude_sim::cpu::exu::{rv32i, rv32m, zicsr};
use allude_sim::cpu::{CpuBuilder, CpuCore, CpuState, PrivilegeMode, TrapCause};
use allude_sim::isa::priv_instr::{MRET_ENCODING, SRET_ENCODING};
use allude_sim::isa::RvInstr;
use allude_sim::memory::{FlatMemory, Memory};

fn i_type(imm: i32, rs1: u32, funct3: u32, rd: u32, opcode: u32) -> u32 {
    (((imm as u32) & 0xFFF) << 20) | (rs1 << 15) | (funct3 << 12) | (rd << 7) | opcode
}

fn s_type(imm: i32, rs2: u32, rs1: u32, funct3: u32, opcode: u32) -> u32 {
    let imm = imm as u32;
    (((imm >> 5) & 0x7F) << 25) | (rs2 << 20) | (rs1 << 15) | (funct3 << 12) | ((imm & 0x1F) << 7) | opcode
}

fn full_cpu(entry: u32) -> CpuCore {
    CpuBuilder::new(entry)
        .with_m_extension()
        .with_zicsr_extension()
        .with_priv_extension()
        .build()
        .expect("the configuration builds")
}

#[test]
fn x0_ignores_direct_writes() {
    let mut cpu = CpuCore::new(0);
    cpu.write_reg(0, 0xDEAD_BEEF);
    assert_eq!(cpu.read_reg(0), 0);
    assert_eq!(cpu.regs()[0], 0);
}

#[test]
fn x0_is_zero_after_every_kind_of_write() {
    let mut mem = FlatMemory::new(1024, 0);
    let mut cpu = full_cpu(0);
    mem.store32(0x100, 0x1234_5678).unwrap();
    cpu.write_reg(1, 7);
    // lw x0, 0x100(x0); jal x0, 8; mul x0, x1, x1 at 12; csrrs x0, mscratch, x1
    mem.store32(0, i_type(0x100, 0, 2, 0, 0x03)).unwrap();
    mem.store32(4, 0x0080_006F).unwrap();
    mem.store32(12, 0x0210_8033).unwrap();
    mem.store32(16, 0x3400_A073).unwrap();
    for _ in 0..4 {
        assert_eq!(cpu.step(&mut mem), CpuState::Running);
        assert_eq!(cpu.read_reg(0), 0);
    }
    assert_eq!(cpu.pc(), 20);
    assert_eq!(cpu.csr_read(CSR_MSCRATCH), 7);
}

#[test]
fn misaligned_fetch_takes_an_access_fault() {
    let mut mem = FlatMemory::new(1024, 0);
    let mut cpu = full_cpu(0);
    cpu.csr_write(CSR_MTVEC, 0x203);
    cpu.set_pc(0x42);
    let state = cpu.step(&mut mem);
    assert_eq!(state, CpuState::Running);
    assert_eq!(cpu.csr_read(CSR_MCAUSE), 1);
    assert_eq!(cpu.csr_read(CSR_MEPC), 0x42);
    assert_eq!(cpu.csr_read(CSR_MTVAL), 0x42);
    assert_eq!(cpu.pc(), 0x200);
    assert_eq!(cpu.pc() % 4, 0);
}

#[test]
fn fetch_outside_the_memory_takes_an_access_fault() {
    let mut mem = FlatMemory::new(64, 0x1000);
    let mut cpu = full_cpu(0x2000);
    cpu.csr_write(CSR_MTVEC, 0x1000);
    cpu.step(&mut mem);
    assert_eq!(cpu.csr_read(CSR_MCAUSE), TrapCause::InstructionAccessFault.to_cause_value());
    assert_eq!(cpu.csr_read(CSR_MEPC), 0x2000);
    assert_eq!(cpu.pc(), 0x1000);
}

#[test]
fn jalr_can_leave_the_pc_off_a_word_boundary() {
    let mut mem = FlatMemory::new(1024, 0);
    let mut cpu = CpuCore::new(0);
    // jalr x0, 2(x0)
    mem.store32(0, i_type(2, 0, 0, 0, 0x67)).unwrap();
    assert_eq!(cpu.step(&mut mem), CpuState::Running);
    assert_eq!(cpu.pc(), 2);
}

#[test]
fn trap_entry_rewrites_three_status_fields_only() {
    for (privilege, mie) in [
        (PrivilegeMode::User, false),
        (PrivilegeMode::User, true),
        (PrivilegeMode::Supervisor, true),
        (PrivilegeMode::Machine, false),
        (PrivilegeMode::Machine, true),
    ] {
        let mut cpu = full_cpu(0x1000);
        let before = 0xFFFF_E777u32 | if mie { 0x8 } else { 0 };
        cpu.csr_write(CSR_MSTATUS, before);
        cpu.csr_write(CSR_MTVEC, 0x4000);
        cpu.set_privilege(privilege);
        cpu.take_trap_at(TrapCause::LoadAccessFault, 0xABCD, 0x1234);
        let after = cpu.csr_read(CSR_MSTATUS);
        assert_eq!((after >> 11) & 3, privilege.to_bits() as u32);
        assert_eq!((after >> 7) & 1, mie as u32);
        assert_eq!((after >> 3) & 1, 0);
        assert_eq!(after & !0x1888, before & !0x1888);
        assert_eq!(cpu.privilege(), PrivilegeMode::Machine);
        assert_eq!(cpu.csr_read(CSR_MEPC), 0x1234);
        assert_eq!(cpu.csr_read(CSR_MCAUSE), 5);
        assert_eq!(cpu.csr_read(CSR_MTVAL), 0xABCD);
        assert_eq!(cpu.pc(), 0x4000);
    }
}

#[test]
fn mret_restores_from_the_status_fields() {
    for (mpp, mpie, expected) in [
        (0u32, false, PrivilegeMode::User),
        (1, true, PrivilegeMode::Supervisor),
        (2, true, PrivilegeMode::Machine),
        (3, false, PrivilegeMode::Machine),
    ] {
        let mut mem = FlatMemory::new(1024, 0);
        let mut cpu = full_cpu(0);
        let before = 0x0060_0008 | (mpp << 11) | if mpie { 0x80 } else { 0 };
        cpu.csr_write(CSR_MSTATUS, before);
        cpu.csr_write(CSR_MEPC, 0x300);
        mem.store32(0, MRET_ENCODING).unwrap();
        assert_eq!(cpu.step(&mut mem), CpuState::Running);
        let after = cpu.csr_read(CSR_MSTATUS);
        assert_eq!((after >> 3) & 1, mpie as u32);
        assert_eq!((after >> 7) & 1, 1);
        assert_eq!((after >> 11) & 3, 0);
        assert_eq!(after & !0x1888, before & !0x1888);
        assert_eq!(cpu.privilege(), expected);
        assert_eq!(cpu.pc(), 0x300);
    }
}

#[test]
fn sret_mirrors_mret_on_the_supervisor_fields() {
    let mut mem = FlatMemory::new(1024, 0);
    let mut cpu = full_cpu(0);
    cpu.csr_write(0x100, 0x120);
    cpu.csr_write(0x141, 0x80);
    mem.store32(0, SRET_ENCODING).unwrap();
    cpu.step(&mut mem);
    assert_eq!(cpu.csr_read(0x100), 0x22);
    assert_eq!(cpu.privilege(), PrivilegeMode::Supervisor);
    assert_eq!(cpu.pc(), 0x80);
}

#[test]
fn ecall_then_mret_is_a_full_cycle() {
    let mut mem = FlatMemory::new(0x10000, 0);
    let mut cpu = full_cpu(0x1000);
    cpu.csr_write(CSR_MTVEC, 0x8000);
    cpu.csr_write(CSR_MSTATUS, 1 << 3);
    mem.store32(0x1000, 0x0000_0073).unwrap();
    mem.store32(0x8000, MRET_ENCODING).unwrap();

    assert_eq!(cpu.step(&mut mem), CpuState::Running);
    assert_eq!(cpu.pc(), 0x8000);
    assert_eq!(cpu.csr_read(CSR_MEPC), 0x1000);
    assert_eq!(cpu.csr_read(CSR_MCAUSE), 11);
    let mstatus = cpu.csr_read(CSR_MSTATUS);
    assert_eq!((mstatus >> 7) & 1, 1);
    assert_eq!((mstatus >> 3) & 1, 0);
    assert_eq!((mstatus >> 11) & 3, 3);

    assert_eq!(cpu.step(&mut mem), CpuState::Running);
    assert_eq!(cpu.pc(), 0x1000);
    let mstatus = cpu.csr_read(CSR_MSTATUS);
    assert_eq!((mstatus >> 3) & 1, 1);
    assert_eq!((mstatus >> 7) & 1, 1);
    assert_eq!((mstatus >> 11) & 3, 0);
    assert_eq!(cpu.privilege(), PrivilegeMode::Machine);
}

#[test]
fn ecall_cause_follows_the_privilege_mode() {
    for (mode, cause) in [
        (PrivilegeMode::User, 8),
        (PrivilegeMode::Supervisor, 9),
        (PrivilegeMode::Machine, 11),
    ] {
        let mut mem = FlatMemory::new(64, 0);
        let mut cpu = CpuCore::new(0);
        cpu.set_privilege(mode);
        mem.store32(0, 0x0000_0073).unwrap();
        cpu.step(&mut mem);
        assert_eq!(cpu.csr_read(CSR_MCAUSE), cause);
        assert_eq!(cpu.csr_read(CSR_MTVAL), 0);
    }
}

#[test]
fn ebreak_reports_its_own_address() {
    let mut mem = FlatMemory::new(64, 0);
    let mut cpu = CpuCore::new(8);
    mem.store32(8, 0x0010_0073).unwrap();
    cpu.step(&mut mem);
    assert_eq!(cpu.csr_read(CSR_MCAUSE), 3);
    assert_eq!(cpu.csr_read(CSR_MTVAL), 8);
    assert_eq!(cpu.csr_read(CSR_MEPC), 8);
}

#[test]
fn stores_are_read_back_with_the_extension_of_the_load() {
    let mut mem = FlatMemory::new(1024, 0);
    let mut cpu = CpuCore::new(0);
    cpu.write_reg(1, 0x100);
    cpu.write_reg(2, 0x8765_83F1);
    let exec = |cpu: &mut CpuCore, mem: &mut FlatMemory, instr| {
        assert!(rv32i::execute(cpu, mem, instr, 0));
    };
    exec(&mut cpu, &mut mem, RvInstr::Sw { rs1: 1, rs2: 2, offset: 4 });
    exec(&mut cpu, &mut mem, RvInstr::Lw { rd: 3, rs1: 1, offset: 4 });
    assert_eq!(cpu.read_reg(3), 0x8765_83F1);
    exec(&mut cpu, &mut mem, RvInstr::Sh { rs1: 1, rs2: 2, offset: 10 });
    exec(&mut cpu, &mut mem, RvInstr::Lhu { rd: 3, rs1: 1, offset: 10 });
    assert_eq!(cpu.read_reg(3), 0x0000_83F1);
    exec(&mut cpu, &mut mem, RvInstr::Lh { rd: 3, rs1: 1, offset: 10 });
    assert_eq!(cpu.read_reg(3), 0xFFFF_83F1);
    exec(&mut cpu, &mut mem, RvInstr::Sb { rs1: 1, rs2: 2, offset: -1 });
    exec(&mut cpu, &mut mem, RvInstr::Lbu { rd: 3, rs1: 1, offset: -1 });
    assert_eq!(cpu.read_reg(3), 0x0000_00F1);
    exec(&mut cpu, &mut mem, RvInstr::Lb { rd: 3, rs1: 1, offset: -1 });
    assert_eq!(cpu.read_reg(3), 0xFFFF_FFF1);
    assert_eq!(mem.load8(0xFF).unwrap(), 0xF1);
}

#[test]
fn misaligned_accesses_are_split_into_bytes() {
    let mut mem = FlatMemory::new(1024, 0);
    let mut cpu = CpuCore::new(0);
    cpu.write_reg(1, 0x101);
    cpu.write_reg(2, 0xA1B2_C3D4);
    assert!(rv32i::execute(&mut cpu, &mut mem, RvInstr::Sw { rs1: 1, rs2: 2, offset: 0 }, 0));
    assert_eq!(mem.read_bytes(0x101, 4).unwrap(), vec![0xD4, 0xC3, 0xB2, 0xA1]);
    assert!(rv32i::execute(&mut cpu, &mut mem, RvInstr::Lw { rd: 3, rs1: 1, offset: 0 }, 0));
    assert_eq!(cpu.read_reg(3), 0xA1B2_C3D4);
    assert!(rv32i::execute(&mut cpu, &mut mem, RvInstr::Sh { rs1: 1, rs2: 2, offset: 6 }, 0));
    assert!(rv32i::execute(&mut cpu, &mut mem, RvInstr::Lh { rd: 4, rs1: 1, offset: 6 }, 0));
    assert_eq!(cpu.read_reg(4), 0xFFFF_C3D4);
    assert_eq!(cpu.csr_read(CSR_MCAUSE), 0);
}

#[test]
fn a_split_store_stops_at_the_first_refused_byte() {
    let mut mem = FlatMemory::new(0x100, 0);
    let mut cpu = CpuCore::new(0x40);
    cpu.csr_write(CSR_MTVEC, 0x80);
    cpu.write_reg(1, 0xFE);
    cpu.write_reg(2, 0x1122_3344);
    assert!(rv32i::execute(&mut cpu, &mut mem, RvInstr::Sw { rs1: 1, rs2: 2, offset: 1 }, 0x3C));
    assert_eq!(mem.load8(0xFF).unwrap(), 0x44);
    assert_eq!(cpu.csr_read(CSR_MCAUSE), 7);
    assert_eq!(cpu.csr_read(CSR_MTVAL), 0x100);
    assert_eq!(cpu.csr_read(CSR_MEPC), 0x3C);
    assert_eq!(cpu.pc(), 0x80);
}

#[test]
fn an_aligned_access_outside_the_memory_faults_at_its_address() {
    let mut mem = FlatMemory::new(0x100, 0);
    let mut cpu = CpuCore::new(4);
    cpu.write_reg(1, 0x200);
    cpu.write_reg(5, 99);
    assert!(rv32i::execute(&mut cpu, &mut mem, RvInstr::Lw { rd: 5, rs1: 1, offset: 0 }, 0));
    assert_eq!(cpu.read_reg(5), 99);
    assert_eq!(cpu.csr_read(CSR_MCAUSE), 5);
    assert_eq!(cpu.csr_read(CSR_MTVAL), 0x200);
    assert!(rv32i::execute(&mut cpu, &mut mem, RvInstr::Sb { rs1: 1, rs2: 5, offset: 0 }, 0));
    assert_eq!(cpu.csr_read(CSR_MCAUSE), 7);
}

#[test]
fn jal_and_jalr_return_behind_the_call() {
    let mut mem = FlatMemory::new(1024, 0);
    let mut cpu = CpuCore::new(0x10);
    // jal x1, 0x40 at 0x10; jalr x0, 0(x1) at 0x50
    mem.store32(0x10, 0x0400_00EF).unwrap();
    mem.store32(0x50, i_type(0, 1, 0, 0, 0x67)).unwrap();
    cpu.step(&mut mem);
    assert_eq!(cpu.pc(), 0x50);
    assert_eq!(cpu.read_reg(1), 0x14);
    cpu.step(&mut mem);
    assert_eq!(cpu.pc(), 0x14);
}

#[test]
fn jalr_reads_its_base_before_it_writes_the_link() {
    let mut mem = FlatMemory::new(1024, 0);
    let mut cpu = CpuCore::new(0);
    cpu.write_reg(1, 0x81);
    // jalr x1, 4(x1)
    mem.store32(0, i_type(4, 1, 0, 1, 0x67)).unwrap();
    cpu.step(&mut mem);
    assert_eq!(cpu.pc(), 0x84);
    assert_eq!(cpu.read_reg(1), 4);
}

#[test]
fn integer_arithmetic_wraps_and_compares_by_sign() {
    let mut mem = FlatMemory::new(64, 0);
    let mut cpu = CpuCore::new(0);
    cpu.write_reg(1, 0xFFFF_FFFF);
    cpu.write_reg(2, 2);
    let mut run = |instr| {
        assert!(rv32i::execute(&mut cpu, &mut mem, instr, 0));
        cpu.read_reg(3)
    };
    assert_eq!(run(RvInstr::Add { rd: 3, rs1: 1, rs2: 2 }), 1);
    assert_eq!(run(RvInstr::Sub { rd: 3, rs1: 2, rs2: 1 }), 3);
    assert_eq!(run(RvInstr::Slt { rd: 3, rs1: 1, rs2: 2 }), 1);
    assert_eq!(run(RvInstr::Sltu { rd: 3, rs1: 1, rs2: 2 }), 0);
    assert_eq!(run(RvInstr::Slti { rd: 3, rs1: 1, imm: 0 }), 1);
    assert_eq!(run(RvInstr::Sltiu { rd: 3, rs1: 2, imm: -1 }), 1);
    assert_eq!(run(RvInstr::Sra { rd: 3, rs1: 1, rs2: 2 }), 0xFFFF_FFFF);
    assert_eq!(run(RvInstr::Srl { rd: 3, rs1: 1, rs2: 2 }), 0x3FFF_FFFF);
    assert_eq!(run(RvInstr::Srai { rd: 3, rs1: 1, shamt: 31 }), 0xFFFF_FFFF);
    assert_eq!(run(RvInstr::Sll { rd: 3, rs1: 2, rs2: 1 }), 0);
    assert_eq!(run(RvInstr::Xori { rd: 3, rs1: 2, imm: -1 }), 0xFFFF_FFFD);
    assert_eq!(run(RvInstr::Lui { rd: 3, imm: 0x7FFF_F000 }), 0x7FFF_F000);
}

#[test]
fn multiply_and_divide_follow_the_architecture_at_the_edges() {
    let mut cpu = full_cpu(0);
    let mut run = |op: fn(u8, u8, u8) -> RvInstr, a: u32, b: u32| {
        cpu.write_reg(1, a);
        cpu.write_reg(2, b);
        assert!(rv32m::execute(&mut cpu, op(3, 1, 2)));
        cpu.read_reg(3)
    };
    let min = 0x8000_0000u32;
    let neg = |v: i32| v as u32;
    assert_eq!(run(|rd, rs1, rs2| RvInstr::Mul { rd, rs1, rs2 }, 0x1_0001, 0x1_0001), 0x0002_0001);
    assert_eq!(run(|rd, rs1, rs2| RvInstr::Mulh { rd, rs1, rs2 }, neg(-2), 3), 0xFFFF_FFFF);
    assert_eq!(run(|rd, rs1, rs2| RvInstr::Mulh { rd, rs1, rs2 }, min, min), 0x4000_0000);
    assert_eq!(run(|rd, rs1, rs2| RvInstr::Mulhsu { rd, rs1, rs2 }, neg(-1), 0xFFFF_FFFF), 0xFFFF_FFFF);
    assert_eq!(run(|rd, rs1, rs2| RvInstr::Mulhu { rd, rs1, rs2 }, 0xFFFF_FFFF, 0xFFFF_FFFF), 0xFFFF_FFFE);
    assert_eq!(run(|rd, rs1, rs2| RvInstr::Div { rd, rs1, rs2 }, 7, 0), 0xFFFF_FFFF);
    assert_eq!(run(|rd, rs1, rs2| RvInstr::Div { rd, rs1, rs2 }, min, neg(-1)), min);
    assert_eq!(run(|rd, rs1, rs2| RvInstr::Div { rd, rs1, rs2 }, neg(-7), 2), neg(-3));
    assert_eq!(run(|rd, rs1, rs2| RvInstr::Div { rd, rs1, rs2 }, 7, neg(-2)), neg(-3));
    assert_eq!(run(|rd, rs1, rs2| RvInstr::Divu { rd, rs1, rs2 }, 7, 0), 0xFFFF_FFFF);
    assert_eq!(run(|rd, rs1, rs2| RvInstr::Divu { rd, rs1, rs2 }, neg(-7), 2), 0x7FFF_FFFC);
    assert_eq!(run(|rd, rs1, rs2| RvInstr::Rem { rd, rs1, rs2 }, 7, 0), 7);
    assert_eq!(run(|rd, rs1, rs2| RvInstr::Rem { rd, rs1, rs2 }, min, neg(-1)), 0);
    assert_eq!(run(|rd, rs1, rs2| RvInstr::Rem { rd, rs1, rs2 }, neg(-7), 2), neg(-1));
    assert_eq!(run(|rd, rs1, rs2| RvInstr::Rem { rd, rs1, rs2 }, 7, neg(-2)), 1);
    assert_eq!(run(|rd, rs1, rs2| RvInstr::Remu { rd, rs1, rs2 }, 7, 0), 7);
    assert_eq!(run(|rd, rs1, rs2| RvInstr::Remu { rd, rs1, rs2 }, neg(-7), 4), 1);
}

#[test]
fn csr_instructions_write_only_where_their_source_is_not_zero() {
    let mut cpu = full_cpu(0);
    cpu.csr_write(CSR_MSCRATCH, 0xF0);
    cpu.write_reg(1, 0x0F);
    assert!(zicsr::execute(&mut cpu, RvInstr::Csrrs { rd: 2, rs1: 0, csr: 0x7C0 }));
    assert!(!cpu.snapshot().csr.contains_key(&0x7C0));
    assert!(zicsr::execute(&mut cpu, RvInstr::Csrrci { rd: 2, zimm: 0, csr: 0x7C0 }));
    assert!(!cpu.snapshot().csr.contains_key(&0x7C0));
    assert!(zicsr::execute(&mut cpu, RvInstr::Csrrw { rd: 0, rs1: 1, csr: CSR_MSCRATCH }));
    assert_eq!(cpu.csr_read(CSR_MSCRATCH), 0x0F);
    assert!(zicsr::execute(&mut cpu, RvInstr::Csrrsi { rd: 3, zimm: 0x10, csr: CSR_MSCRATCH }));
    assert_eq!(cpu.read_reg(3), 0x0F);
    assert_eq!(cpu.csr_read(CSR_MSCRATCH), 0x1F);
    assert!(zicsr::execute(&mut cpu, RvInstr::Csrrc { rd: 3, rs1: 1, csr: CSR_MSCRATCH }));
    assert_eq!(cpu.read_reg(3), 0x1F);
    assert_eq!(cpu.csr_read(CSR_MSCRATCH), 0x10);
    assert!(zicsr::execute(&mut cpu, RvInstr::Csrrci { rd: 4, zimm: 0x10, csr: CSR_MSCRATCH }));
    assert_eq!(cpu.csr_read(CSR_MSCRATCH), 0);
    assert!(!zicsr::execute(&mut cpu, RvInstr::Ecall));
}

#[test]
fn csr_set_and_clear_use_the_source_as_it_was() {
    let mut cpu = full_cpu(0x40);
    cpu.csr_write(CSR_MSCRATCH, 0x0F);
    cpu.write_reg(5, 0xF0);
    assert!(zicsr::execute(&mut cpu, RvInstr::Csrrs { rd: 5, rs1: 5, csr: CSR_MSCRATCH }));
    assert_eq!(cpu.read_reg(5), 0x0F);
    assert_eq!(cpu.csr_read(CSR_MSCRATCH), 0xFF);
    cpu.write_reg(6, 0x3C);
    assert!(zicsr::execute(&mut cpu, RvInstr::Csrrc { rd: 6, rs1: 6, csr: CSR_MSCRATCH }));
    assert_eq!(cpu.read_reg(6), 0xFF);
    assert_eq!(cpu.csr_read(CSR_MSCRATCH), 0xC3);
    cpu.write_reg(7, 0x11);
    assert!(zicsr::execute(&mut cpu, RvInstr::Csrrw { rd: 7, rs1: 7, csr: CSR_MSCRATCH }));
    assert_eq!(cpu.read_reg(7), 0xC3);
    assert_eq!(cpu.csr_read(CSR_MSCRATCH), 0x11);
    assert_eq!(cpu.pc(), 0x40);
}

#[test]
fn an_unclaimed_word_stops_the_core_without_a_trap() {
    let mut mem = FlatMemory::new(64, 0);
    let mut cpu = CpuCore::new(0);
    mem.store32(0, 0xFFFF_FFFF).unwrap();
    // mul is not part of the base instruction set
    mem.store32(4, 0x0220_80B3).unwrap();
    assert_eq!(cpu.step(&mut mem), CpuState::IllegalInstruction(0xFFFF_FFFF));
    assert_eq!(cpu.csr_read(CSR_MCAUSE), 0);
    assert_eq!(cpu.pc(), 4);
    assert_eq!(cpu.step(&mut mem), CpuState::IllegalInstruction(0xFFFF_FFFF));
    assert_eq!(cpu.pc(), 4);
    cpu.set_state(CpuState::Running);
    assert_eq!(cpu.run(&mut mem, 10), (1, CpuState::IllegalInstruction(0x0220_80B3)));
}

#[test]
fn run_counts_the_steps_it_takes() {
    let mut mem = FlatMemory::new(64, 0);
    let mut cpu = CpuCore::new(0);
    for addr in (0..32).step_by(4) {
        mem.store32(addr, i_type(1, 1, 0, 1, 0x13)).unwrap();
    }
    assert_eq!(cpu.run(&mut mem, 0), (0, CpuState::Running));
    assert_eq!(cpu.run(&mut mem, 5), (5, CpuState::Running));
    assert_eq!(cpu.read_reg(1), 5);
    cpu.set_state(CpuState::Halted);
    assert_eq!(cpu.run(&mut mem, 5), (1, CpuState::Halted));
    assert_eq!(cpu.read_reg(1), 5);
    let _ = s_type(0, 0, 0, 0, 0x23);
}
