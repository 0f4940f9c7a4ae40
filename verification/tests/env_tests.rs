use allude_sim::cpu::{CpuState, PrivilegeMode};
use allude_sim::memory::{AccessSize, MemError, Memory};
use allude_sim::sim_env::image::{assemble, RawHeader, RawSegment, RawSymbol};
use allude_sim::sim_env::{
    ensure_range, len_to_u32, load_segments_into_memory, range_end, ElfInfo, ElfSegment,
    ElfSymbol, IsaExtensions, MemoryRegion, ProgramImage, SimConfig, SimEnv, SimError,
    TestResult, DEFAULT_TEST_STEPS,
};

const TOHOST: u32 = 0x8000_1000;
const FROMHOST: u32 = 0x8000_1040;

fn u_type(imm: u32, rd: u32, opcode: u32) -> u32 {
    (imm & 0xFFFF_F000) | (rd << 7) | opcode
}

fn addi(rd: u32, rs1: u32, imm: i32) -> u32 {
    (((imm as u32) & 0xFFF) << 20) | (rs1 << 15) | (rd << 7) | 0x13
}

fn sw(rs2: u32, rs1: u32, imm: i32) -> u32 {
    let imm = imm as u32;
    (((imm >> 5) & 0x7F) << 25) | (rs2 << 20) | (rs1 << 15) | (2 << 12) | ((imm & 0x1F) << 7) | 0x23
}

fn code(words: &[u32]) -> Vec<u8> {
    words.iter().flat_map(|w| w.to_le_bytes()).collect()
}

/// A program that writes `value` to `tohost` and then loops in place.
fn reporting_program(value: i32) -> Vec<u8> {
    code(&[
        u_type(TOHOST, 5, 0x37), // lui  x5, %hi(tohost)
        addi(6, 0, value),       // addi x6, x0, value
        addi(0, 0, 0),           // nop
        sw(6, 5, 0),             // sw   x6, 0(x5)
        0x0000_006F,             // jal  x0, 0
    ])
}

fn segment(vaddr: u32, data: Vec<u8>, mem_size: usize) -> ElfSegment {
    ElfSegment {
        vaddr,
        paddr: vaddr,
        file_size: data.len(),
        mem_size,
        data,
        executable: true,
        writable: true,
    }
}

fn symbol(name: &str, addr: u32) -> ElfSymbol {
    ElfSymbol { name: name.to_string(), addr, size: 8 }
}

fn image(program: Vec<u8>) -> ElfInfo {
    let size = program.len();
    ElfInfo {
        entry: 0x8000_0000,
        segments: vec![segment(0x8000_0000, program, size), segment(TOHOST, Vec::new(), 0x48)],
        symbols: vec![symbol("tohost", TOHOST), symbol("fromhost", FROMHOST)],
        is_32bit: true,
        is_little_endian: true,
        machine: 0xF3,
    }
}

fn test_env(program: Vec<u8>) -> SimEnv {
    let config = SimConfig::new().with_memory("ram", 0x8000_0000, 0x2000);
    SimEnv::from_image(config, ProgramImage::Elf(image(program))).expect("the image fits")
}

#[test]
fn tohost_values_are_classified() {
    assert_eq!(TestResult::from_tohost(1), TestResult::Pass);
    assert_eq!(TestResult::from_tohost(3), TestResult::Fail(1));
    assert_eq!(TestResult::from_tohost(0x55), TestResult::Fail(0x2A));
    assert_eq!(TestResult::from_tohost(0xFFFF_FFFF), TestResult::Fail(0x7FFF_FFFF));
    assert_eq!(TestResult::from_tohost(0), TestResult::Timeout);
    assert_eq!(TestResult::from_tohost(2), TestResult::Timeout);
    assert_eq!(TestResult::from_tohost(0x8000_0000), TestResult::Timeout);
}

#[test]
fn a_passing_program_is_acknowledged() {
    let mut env = test_env(reporting_program(1));
    assert_eq!(env.tohost_addr, Some(TOHOST));
    assert_eq!(env.fromhost_addr, Some(FROMHOST));
    assert_eq!(env.cpu.pc(), 0x8000_0000);
    let (result, steps) = env.run_isa_test(1000);
    assert_eq!(result, TestResult::Pass);
    assert_eq!(steps, 4);
    assert_eq!(env.instructions_executed, 4);
    assert_eq!(env.memory.load32(TOHOST), Ok(0));
    assert_eq!(env.memory.load32(FROMHOST), Ok(1));
    assert_eq!(env.check_tohost(), None);
    assert_eq!(env.cpu().state(), CpuState::Running);
}

#[test]
fn a_failing_program_names_its_test() {
    let mut env = test_env(reporting_program(2 * 21 + 1));
    assert_eq!(env.run_isa_test(0), (TestResult::Fail(21), 4));
    assert_eq!(env.memory().load32(TOHOST), Ok(0));
    assert_eq!(env.memory().load32(FROMHOST), Ok(43));
}

#[test]
fn an_even_message_ends_the_run_without_a_verdict() {
    let mut env = test_env(reporting_program(6));
    assert_eq!(env.run_isa_test(100), (TestResult::Timeout, 4));
    assert_eq!(env.memory.load32(TOHOST), Ok(0));
    assert_eq!(env.memory.load32(FROMHOST), Ok(6));
}

#[test]
fn a_silent_program_times_out() {
    let mut env = test_env(code(&[0x0000_006F]));
    assert_eq!(env.run_isa_test(25), (TestResult::Timeout, 25));
    assert_eq!(env.instructions_executed, 25);
    assert_eq!(DEFAULT_TEST_STEPS, 1_000_000);
}

#[test]
fn a_stopped_core_ends_the_run() {
    let mut env = test_env(code(&[addi(1, 0, 1), 0xFFFF_FFFF, addi(1, 0, 2)]));
    assert_eq!(env.run_isa_test(25), (TestResult::Timeout, 2));
    assert_eq!(env.cpu.state(), CpuState::IllegalInstruction(0xFFFF_FFFF));
    assert_eq!(env.cpu.read_reg(1), 1);
}

#[test]
fn stale_mailboxes_are_cleared_before_a_run() {
    let mut env = test_env(code(&[0x0000_006F]));
    env.memory_mut().store32(TOHOST, 1).unwrap();
    env.memory_mut().store32(FROMHOST, 9).unwrap();
    assert_eq!(env.run_isa_test(3), (TestResult::Timeout, 3));
    assert_eq!(env.memory.load32(FROMHOST), Ok(0));
    env.memory.store32(TOHOST, 5).unwrap();
    assert_eq!(env.check_tohost(), Some(5));
    assert_eq!(env.memory.load32(TOHOST), Ok(0));
    assert_eq!(env.memory.load32(FROMHOST), Ok(5));
    env.acknowledge_tohost(77);
    assert_eq!(env.memory.load32(FROMHOST), Ok(77));
    env.clear_htif_mailboxes();
    assert_eq!(env.memory.load32(FROMHOST), Ok(0));
}

#[test]
fn without_a_mailbox_the_program_just_runs() {
    let config = SimConfig::new().with_memory_size(64);
    let mut env = SimEnv::from_image(config, ProgramImage::Binary(code(&[addi(1, 0, 5), 0xFFFF_FFFF])))
        .expect("the binary fits");
    assert_eq!(env.tohost_addr, None);
    assert_eq!(env.check_tohost(), None);
    assert_eq!(env.run_isa_test(10), (TestResult::Timeout, 2));
    assert_eq!(env.cpu.read_reg(1), 5);
    assert_eq!(env.instructions_executed, 2);
}

#[test]
fn running_counts_steps_in_the_environment() {
    let config = SimConfig::new().with_memory_size(64).with_max_instructions(3);
    let program = code(&[addi(1, 1, 1), addi(1, 1, 1), addi(1, 1, 1), addi(1, 1, 1), 0x1050_0073]);
    let mut env = SimEnv::from_image(config, ProgramImage::Binary(program)).unwrap();
    assert_eq!(env.run_until_halt(), (3, CpuState::Running));
    assert_eq!(env.run(1), (1, CpuState::Running));
    assert_eq!(env.step(), CpuState::IllegalInstruction(0x1050_0073));
    assert_eq!(env.instructions_executed, 5);
    env.cpu_mut().set_state(CpuState::Running);
    env.cpu_mut().set_pc(0);
    env.config.max_instructions = 0;
    assert_eq!(env.run_until_halt(), (5, CpuState::IllegalInstruction(0x1050_0073)));
    assert_eq!(env.cpu.read_reg(1), 8);
}

#[test]
fn the_entry_address_comes_from_the_configuration_or_the_image() {
    let base = SimConfig::new().with_memory_base(0x400).with_memory_size(0x100);
    let env = SimEnv::from_image(base, ProgramImage::Empty).unwrap();
    assert_eq!(env.cpu.pc(), 0x400);
    assert_eq!(env.cpu.privilege(), PrivilegeMode::Machine);
    let binary = SimConfig::new().with_bin_path("prog.bin", 0x40);
    let env = SimEnv::from_image(binary, ProgramImage::Binary(vec![1, 2, 3])).unwrap();
    assert_eq!(env.cpu.pc(), 0x40);
    assert_eq!(env.config.bin_path.as_deref(), Some("prog.bin"));
    assert_eq!(env.memory.read_bytes(0x40, 4).unwrap(), vec![1, 2, 3, 0]);
    let fixed = SimConfig::new().with_memory("ram", 0x8000_0000, 0x2000).with_entry_pc(0x8000_0010);
    let env = SimEnv::from_image(fixed, ProgramImage::Elf(image(reporting_program(1)))).unwrap();
    assert_eq!(env.cpu.pc(), 0x8000_0010);
}

#[test]
fn an_image_that_does_not_fit_is_refused() {
    let small = SimConfig::new().with_memory("ram", 0x8000_0000, 0x1000);
    match SimEnv::from_image(small, ProgramImage::Elf(image(reporting_program(1)))) {
        Err(SimError::Memory(message)) => assert_eq!(
            message,
            "Memory region 'ram' (0x80000000..0x80001000) cannot fit range 0x80001000..0x80001048"
        ),
        other => panic!("unexpected result {:?}", other.map(|e| e.cpu.pc())),
    }
    let config = SimConfig::new().with_memory_size(4).with_bin_path("b", 2);
    assert!(matches!(
        SimEnv::from_image(config, ProgramImage::Binary(vec![0; 3])),
        Err(SimError::Memory(_))
    ));
}

#[test]
fn ranges_are_checked_in_32_bits() {
    let region = MemoryRegion { name: "rom".to_string(), base: 0x100, size: 0x100 };
    assert!(ensure_range(&region, 0x100, 0x100).is_ok());
    assert!(ensure_range(&region, 0x1FF, 1).is_ok());
    assert!(ensure_range(&region, 0x200, 0).is_ok());
    let message = |r: Result<(), SimError>| match r {
        Err(SimError::Memory(message)) => message,
        other => panic!("unexpected result {:?}", other),
    };
    assert_eq!(
        message(ensure_range(&region, 0xFF, 2)),
        "Memory region 'rom' (0x00000100..0x00000200) cannot fit range 0x000000ff..0x00000101"
    );
    assert_eq!(
        message(ensure_range(&region, 0x1FF, 2)),
        "Memory region 'rom' (0x00000100..0x00000200) cannot fit range 0x000001ff..0x00000201"
    );
    assert_eq!(
        message(ensure_range(&region, 0xFFFF_FFFF, 1)),
        "Address range overflow: start=0xffffffff, len=1"
    );
    let top = MemoryRegion { name: "top".to_string(), base: 0xFFFF_FF00, size: 0x100 };
    assert_eq!(
        message(ensure_range(&top, 0xFFFF_FF00, 1)),
        "Address range overflow: start=0xffffff00, len=256"
    );
    assert_eq!(range_end(0x10, 0x20).unwrap(), 0x30);
    assert_eq!(range_end(0xFFFF_FFFE, 1).unwrap(), 0xFFFF_FFFF);
    assert!(range_end(0xFFFF_FFFE, 2).is_err());
    assert_eq!(len_to_u32(0xFFFF_FFFF).unwrap(), 0xFFFF_FFFF);
    assert_eq!(MemoryRegion::default().size, 64 * 1024);
}

#[test]
fn sizes_beyond_32_bits_are_refused() {
    let huge = 0x1_0000_0000u64 as usize;
    if huge != 0 {
        match len_to_u32(huge) {
            Err(SimError::Memory(message)) => {
                assert_eq!(message, "Size 4294967296 exceeds 32-bit address space")
            }
            other => panic!("unexpected result {:?}", other),
        }
        assert!(range_end(0, huge).is_err());
    }
}

#[test]
fn segments_are_copied_and_their_rest_is_zeroed() {
    let region = MemoryRegion { name: "ram".to_string(), base: 0x100, size: 0x40 };
    let mut memory = allude_sim::memory::FlatMemory::new(0x40, 0x100);
    memory.fill(0x100, 0x40, 0xEE).unwrap();
    let segments = vec![
        segment(0x104, vec![1, 2, 3], 8),
        segment(0x120, Vec::new(), 0),
        segment(0x130, vec![7, 8], 2),
    ];
    load_segments_into_memory(&mut memory, &region, &segments).unwrap();
    assert_eq!(
        memory.read_bytes(0x100, 0x10).unwrap(),
        vec![0xEE, 0xEE, 0xEE, 0xEE, 1, 2, 3, 0, 0, 0, 0, 0, 0xEE, 0xEE, 0xEE, 0xEE]
    );
    assert_eq!(memory.read_bytes(0x12E, 6).unwrap(), vec![0xEE, 0xEE, 7, 8, 0xEE, 0xEE]);
    let outside = vec![segment(0x100, vec![5], 1), segment(0x13F, vec![6, 6], 2)];
    assert!(matches!(
        load_segments_into_memory(&mut memory, &region, &outside),
        Err(SimError::Memory(_))
    ));
    assert_eq!(memory.load8(0x100), Ok(5));
    assert_eq!(memory.load8(0x13F), Ok(0xEE));
}

#[test]
fn the_address_range_spans_all_segments() {
    let mut info = image(reporting_program(1));
    assert_eq!(info.address_range(), Some((0x8000_0000, 0x8000_1048)));
    assert_eq!(info.find_symbol("tohost"), Some(TOHOST));
    assert_eq!(info.find_symbol("fromhost"), Some(FROMHOST));
    assert_eq!(info.find_symbol("tohos"), None);
    info.symbols.insert(0, symbol("tohost", 0x10));
    assert_eq!(info.find_symbol("tohost"), Some(0x10));
    info.segments.clear();
    assert_eq!(info.address_range(), None);
}

#[test]
fn an_environment_is_sized_to_its_image() {
    let env = SimEnv::from_elf_info("test.elf", image(reporting_program(1))).unwrap();
    assert_eq!(env.config.memory.base, 0x8000_0000);
    assert_eq!(env.config.memory.size, 0x1_0000);
    assert_eq!(env.config.memory.name, "ram");
    assert_eq!(env.config.elf_path.as_deref(), Some("test.elf"));
    assert_eq!(env.cpu.pc(), 0x8000_0000);
    let mut large = image(reporting_program(1));
    large.segments.push(segment(0x8002_0000, vec![1], 2));
    let env = SimEnv::from_elf_info("large.elf", large).unwrap();
    assert_eq!(env.config.memory.size, 0x2_1000);
    assert_eq!(env.memory.load8(0x8002_0000), Ok(1));
    let mut empty = image(Vec::new());
    empty.segments.clear();
    match SimEnv::from_elf_info("empty.elf", empty) {
        Err(SimError::ElfParse(message)) => assert_eq!(message, "No loadable segments"),
        other => panic!("unexpected result {:?}", other.map(|e| e.cpu.pc())),
    }
}

#[test]
fn a_reset_starts_over() {
    let mut env = test_env(reporting_program(1));
    assert_eq!(env.run_isa_test(10), (TestResult::Pass, 4));
    env.memory.store32(0x8000_0100, 0xAAAA_AAAA).unwrap();
    env.reset_with(ProgramImage::Elf(image(reporting_program(3)))).unwrap();
    assert_eq!(env.instructions_executed, 0);
    assert_eq!(env.cpu.pc(), 0x8000_0000);
    assert_eq!(env.cpu.read_reg(6), 0);
    assert_eq!(env.memory.load32(0x8000_0100), Ok(0xAAAA_AAAA));
    assert_eq!(env.memory.load32(FROMHOST), Ok(0));
    assert_eq!(env.run_isa_test(10), (TestResult::Fail(1), 4));
    env.reset_with(ProgramImage::Empty).unwrap();
    assert_eq!(env.tohost_addr, Some(TOHOST));
    assert_eq!(env.cpu.pc(), 0x8000_0000);
    assert!(matches!(
        env.reset_with(ProgramImage::Binary(vec![0; 0x3000])),
        Err(SimError::Memory(_))
    ));
    assert_eq!(env.memory.size(), 0x2000);
}

#[test]
fn isa_strings_are_read_letter_by_letter() {
    let parse = |s: &str| IsaExtensions::from_str(s).unwrap();
    assert_eq!(parse(""), IsaExtensions::rv32i());
    assert_eq!(parse("rv32i"), IsaExtensions::rv32i());
    assert_eq!(parse("RV32IM"), IsaExtensions::rv32im());
    assert_eq!(parse("rv32g"), IsaExtensions::rv32g());
    assert_eq!(parse("rv64imf_zicsr"), IsaExtensions { m: true, f: true, zicsr: true, ..IsaExtensions::rv32i() });
    assert_eq!(parse("rv32rv64d"), IsaExtensions { f: true, d: true, zicsr: true, ..IsaExtensions::rv32i() });
    assert_eq!(parse("rv64rv32"), IsaExtensions { v: true, ..IsaExtensions::rv32i() });
    assert_eq!(parse("rv3"), IsaExtensions { v: true, ..IsaExtensions::rv32i() });
    assert_eq!(parse("imfv"), IsaExtensions { m: true, f: true, v: true, zicsr: true, ..IsaExtensions::rv32i() });
    assert_eq!(parse("ac_xq"), IsaExtensions::rv32i());
    assert_eq!(parse("rv32\u{212A}m"), IsaExtensions::rv32im());
    assert_eq!(IsaExtensions::default(), IsaExtensions::rv32i());
    let config = SimConfig::new().with_isa("rv32imfc").unwrap().with_verbose(true);
    assert_eq!(config.extensions, IsaExtensions { priv_instr: false, ..IsaExtensions::rv32imfc() });
    assert!(config.verbose);
    assert_eq!(SimConfig::default().extensions, IsaExtensions::rv32im());
    assert_eq!(SimConfig::new().with_elf_path("a.elf").elf_path.as_deref(), Some("a.elf"));
}

#[test]
fn environment_errors_are_spelled_out() {
    let text = |e: SimError| e.to_string();
    assert_eq!(text(SimError::Io("gone".to_string())), "IO error: gone");
    assert_eq!(text(SimError::ElfParse("bad".to_string())), "ELF parse error: bad");
    assert_eq!(text(SimError::Config("odd".to_string())), "Config error: odd");
    assert_eq!(text(SimError::Memory("full".to_string())), "Memory error: full");
    assert_eq!(text(SimError::CpuConfig("clash".to_string())), "CPU config error: clash");
    let converted = SimError::from(MemError::Unaligned { addr: 2, access: AccessSize::Word });
    assert_eq!(text(converted), "Memory error: Unaligned Word access at 0x00000002");
}

#[test]
fn cores_are_built_for_every_set_of_extensions() {
    let cpu = SimEnv::build_cpu(&IsaExtensions::rv32g(), 0x20).unwrap();
    assert_eq!(cpu.pc(), 0x20);
    assert!(cpu.has_fp());
    let snapshot = cpu.snapshot();
    assert!(snapshot.vec.is_none());
    assert_eq!(snapshot.csr.get(&0x003), Some(&0));
    let vector = SimEnv::build_cpu(&IsaExtensions { v: true, ..IsaExtensions::rv32i() }, 0).unwrap();
    assert!(!vector.has_fp());
    assert_eq!(vector.snapshot().vec.map(|v| v.len()), Some(32));
}

fn header() -> RawHeader {
    RawHeader { machine: 243, is_32bit: true, little_endian: true, entry: 0x1_8000_0040 }
}

fn raw_segment(kind: u32, vaddr: u64, flags: u32, data: Result<Vec<u8>, String>) -> RawSegment {
    RawSegment { kind, vaddr, paddr: vaddr + 0x1000, file_size: 3, mem_size: 0x10, flags, data }
}

fn raw_symbol(name: Option<&str>, value: u64) -> RawSymbol {
    RawSymbol { name: name.map(|n| n.to_string()), value, size: 0x1_0000_0008 }
}

#[test]
fn an_image_is_assembled_from_loadable_segments_and_mailbox_symbols() {
    let segments = vec![
        raw_segment(6, 0x34, 4, Err("no data".to_string())),
        raw_segment(1, 0x1_8000_0000, 5, Ok(vec![1, 2, 3])),
        raw_segment(2, 0x5000, 6, Ok(vec![9])),
        raw_segment(1, 0x8000_2000, 2, Ok(Vec::new())),
    ];
    let symbols = vec![
        raw_symbol(Some("tohost"), 0),
        raw_symbol(Some("_start"), 0x8000_0000),
        raw_symbol(None, 0x8000_0004),
        raw_symbol(Some("fromhost"), 0x1_8000_1040),
        raw_symbol(Some("tohost"), 0x8000_1000),
        raw_symbol(Some("tohost2"), 0x8000_1008),
    ];
    let info = assemble(Ok(header()), segments, symbols).expect("the image is well formed");
    assert_eq!(info.entry, 0x8000_0040);
    assert_eq!(info.machine, 0xF3);
    assert!(info.is_32bit && info.is_little_endian);
    assert_eq!(info.segments.len(), 2);
    let first = &info.segments[0];
    assert_eq!((first.vaddr, first.paddr), (0x8000_0000, 0x8000_1000));
    assert_eq!((first.file_size, first.mem_size), (3, 0x10));
    assert_eq!(first.data, vec![1, 2, 3]);
    assert!(first.executable && !first.writable);
    let second = &info.segments[1];
    assert_eq!(second.vaddr, 0x8000_2000);
    assert!(!second.executable && second.writable);
    let names: Vec<(&str, u32, u32)> =
        info.symbols.iter().map(|s| (s.name.as_str(), s.addr, s.size)).collect();
    assert_eq!(names, vec![("fromhost", 0x8000_1040, 8), ("tohost", 0x8000_1000, 8)]);
}

#[test]
fn an_image_is_refused_for_its_header_or_an_unreadable_segment() {
    let refuse = |header, segments| match assemble(header, segments, Vec::new()) {
        Err(SimError::ElfParse(message)) => message,
        other => panic!("unexpected result {:?}", other.map(|i| i.entry)),
    };
    assert_eq!(
        refuse(Err("Invalid Magic Bytes".to_string()), Vec::new()),
        "Failed to parse ELF: Invalid Magic Bytes"
    );
    assert_eq!(
        refuse(Ok(RawHeader { machine: 0x3E, ..header() }), Vec::new()),
        "Not a RISC-V ELF (machine type: 0x0000003e, expected 0x000000f3)"
    );
    assert_eq!(
        refuse(Ok(RawHeader { is_32bit: false, ..header() }), Vec::new()),
        "Only 32-bit ELF is supported"
    );
    let segments = vec![
        raw_segment(1, 0, 0, Ok(vec![1])),
        raw_segment(1, 8, 0, Err("first".to_string())),
        raw_segment(1, 16, 0, Err("second".to_string())),
    ];
    assert_eq!(refuse(Ok(header()), segments), "Failed to read segment data: first");
    let big_endian = assemble(Ok(RawHeader { little_endian: false, ..header() }), Vec::new(), Vec::new());
    assert!(!big_endian.unwrap().is_little_endian);
}

#[test]
fn an_environment_from_an_elf_image_is_freshly_reset() {
    let mut info = image(reporting_program(1));
    info.segments[1] = segment(TOHOST, vec![0xAB; 0x48], 0x48);
    let env = SimEnv::from_elf_info("test.elf", info).unwrap();
    assert_eq!(env.instructions_executed, 0);
    assert_eq!(env.config.extensions, IsaExtensions::rv32im());
    assert_eq!(env.config.entry_pc, None);
    assert_eq!(env.config.bin_path, None);
    assert_eq!(env.config.max_instructions, 0);
    assert_eq!(env.tohost_addr, Some(TOHOST));
    assert_eq!(env.fromhost_addr, Some(FROMHOST));
    assert_eq!(env.memory.load32(0x8000_0000), Ok(u_type(TOHOST, 5, 0x37)));
    assert_eq!(env.memory.load32(0x8000_000C), Ok(sw(6, 5, 0)));
    assert_eq!(env.memory.load32(0x8000_0014), Ok(0));
    assert_eq!(env.memory.load32(TOHOST), Ok(0));
    assert_eq!(env.memory.load32(TOHOST + 4), Ok(0xABAB_ABAB));
    assert_eq!(env.memory.load32(FROMHOST), Ok(0));
    assert_eq!(env.memory.load32(FROMHOST + 4), Ok(0xABAB_ABAB));
    assert_eq!(env.cpu.state(), CpuState::Running);
    assert_eq!(env.cpu.privilege(), PrivilegeMode::Machine);
    for reg in 0..32 {
        assert_eq!(env.cpu.read_reg(reg), 0);
    }
}

#[test]
fn a_resumed_test_run_leaves_the_mailboxes_as_they_are() {
    let mut env = test_env(reporting_program(1));
    env.memory.store32(FROMHOST, 0x55).unwrap();
    assert_eq!(env.resume_isa_test(0), (TestResult::Timeout, 0));
    assert_eq!(env.resume_isa_test(2), (TestResult::Timeout, 2));
    assert_eq!(env.memory.load32(FROMHOST), Ok(0x55));
    assert_eq!(env.instructions_executed, 2);
    assert_eq!(env.resume_isa_test(10), (TestResult::Pass, 2));
    assert_eq!(env.memory.load32(TOHOST), Ok(0));
    assert_eq!(env.memory.load32(FROMHOST), Ok(1));
    assert_eq!(env.instructions_executed, 4);
    let mut env = test_env(reporting_program(1));
    env.memory.store32(FROMHOST, 0x55).unwrap();
    assert_eq!(env.run_isa_test(2), (TestResult::Timeout, 2));
    assert_eq!(env.memory.load32(FROMHOST), Ok(0));
}
