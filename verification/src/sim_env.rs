//! The simulation environment: one core bound to one memory, the program
//! image loaded into it, and the host-target mailbox by which a program
//! reports how it ended.
pub mod image;
pub mod laws;

use crate::cpu::builder::{reset_csrs, CpuBuilder};
use crate::cpu::status::{zeroed_vectors, ArchState};
use crate::cpu::trap::PrivilegeMode;
use crate::isa::priv_instr::{is_priv_decoder, priv_table};
use crate::isa::rv32f::{is_rv32f_decoder, rv32f_table};
use crate::isa::rv32i::is_rv32i_decoder;
use crate::isa::rv32m::{is_rv32m_decoder, rv32m_table};
use crate::isa::zicsr::{is_zicsr_decoder, zicsr_table};
use crate::isa::IsaExtension;
use crate::cpu::{spec_run, spec_step, steps, CoreState, CpuCore, CpuState};
use crate::isa::config::BuildError;
use crate::isa::instr_def::TableDrivenDecoder;
use crate::memory::{AccessSize, FlatMemory, MemError, Memory, Region};
use crate::text::{decimal_digits, hex_digits, push_decimal, push_hex, str_eq};
use vstd::prelude::*;
use vstd::string::{StrSliceExecFns, StringExecFns};

verus! {

/// The number of steps that an ISA test may take where the caller names no
/// limit.
pub const DEFAULT_TEST_STEPS: u64 = 1_000_000;

/// Why an environment could not be set up.
#[derive(Debug)]
pub enum SimError {
    /// A file could not be read.
    Io(String),
    /// The program image is not a 32-bit RISC-V ELF.
    ElfParse(String),
    /// The configuration is inconsistent.
    Config(String),
    /// The program does not fit the memory.
    Memory(String),
    /// The core's instruction set cannot be built.
    CpuConfig(String),
}

impl SimError {
    /// The error as text: what kind of error it is, and its message.
    pub open spec fn spec_text(self) -> Seq<char> {
        match self {
            SimError::Io(message) => "IO error: "@ + message@,
            SimError::ElfParse(message) => "ELF parse error: "@ + message@,
            SimError::Config(message) => "Config error: "@ + message@,
            SimError::Memory(message) => "Memory error: "@ + message@,
            SimError::CpuConfig(message) => "CPU config error: "@ + message@,
        }
    }

    /// The error's message.
    pub open spec fn message(self) -> Seq<char> {
        match self {
            SimError::Io(message) => message@,
            SimError::ElfParse(message) => message@,
            SimError::Config(message) => message@,
            SimError::Memory(message) => message@,
            SimError::CpuConfig(message) => message@,
        }
    }

    /// The error as text.
    pub fn to_string(&self) -> (r: String)
        ensures
            r@ == self.spec_text(),
    {
        let (mut text, message) = match self {
            SimError::Io(message) => (String::from_str("IO error: "), message),
            SimError::ElfParse(message) => (String::from_str("ELF parse error: "), message),
            SimError::Config(message) => (String::from_str("Config error: "), message),
            SimError::Memory(message) => (String::from_str("Memory error: "), message),
            SimError::CpuConfig(message) => (String::from_str("CPU config error: "), message),
        };
        text.append(message.as_str());
        text
    }
}

impl vstd::std_specs::convert::FromSpecImpl<MemError> for SimError {
    open spec fn obeys_from_spec() -> bool {
        false
    }

    open spec fn from_spec(error: MemError) -> SimError {
        arbitrary()
    }
}

impl From<MemError> for SimError {
    /// The refused memory access as an environment error, with the access
    /// error's text as its message.
    fn from(error: MemError) -> (r: SimError)
        ensures
            r is Memory,
            r.message() == error.spec_text(),
    {
        SimError::Memory(error.to_string())
    }
}

/// The extensions of a core.
#[derive(Debug, Clone, Copy, PartialEq, Eq)]
pub struct IsaExtensions {
    /// Integer multiplication and division.
    pub m: bool,
    /// Single-precision floating point.
    pub f: bool,
    /// Double-precision floating point.
    pub d: bool,
    /// Vectors.
    pub v: bool,
    /// Control and status register instructions.
    pub zicsr: bool,
    /// Privileged instructions.
    pub priv_instr: bool,
}

/// The lower-case form of an ASCII letter; every other character is itself.
pub open spec fn ascii_lower(c: char) -> char {
    if 'A' <= c <= 'Z' {
        ((c as u8) + 32) as char
    } else {
        c
    }
}

/// Whether the characters of `chars` from `at` on begin with `prefix`, the
/// case of ASCII letters ignored.
pub open spec fn has_prefix(chars: Seq<char>, at: int, prefix: Seq<char>) -> bool {
    &&& 0 <= at
    &&& at + prefix.len() <= chars.len()
    &&& forall|i: int| 0 <= i < prefix.len() ==> ascii_lower(#[trigger] chars[at + i]) == prefix[i]
}

/// The index behind the prefixes `rv32` and `rv64`, each skipped once where
/// present, in this order.
pub open spec fn letters_start(chars: Seq<char>) -> int {
    let first = if has_prefix(chars, 0, seq!['r', 'v', '3', '2']) {
        4
    } else {
        0int
    };
    if has_prefix(chars, first, seq!['r', 'v', '6', '4']) {
        first + 4
    } else {
        first
    }
}

impl IsaExtensions {
    /// No extension.
    pub open spec fn spec_rv32i() -> IsaExtensions {
        IsaExtensions { m: false, f: false, d: false, v: false, zicsr: false, priv_instr: false }
    }

    /// The extensions with those that the letter `c` stands for added: `m`
    /// for M; `f` for F and Zicsr; `d` for F, D and Zicsr; `v` for V; `g`
    /// for M, F, D, Zicsr and the privileged instructions.  Every other
    /// character adds nothing.
    pub open spec fn with_letter(self, c: char) -> IsaExtensions {
        let c = ascii_lower(c);
        if c == 'm' {
            IsaExtensions { m: true, ..self }
        } else if c == 'f' {
            IsaExtensions { f: true, zicsr: true, ..self }
        } else if c == 'd' {
            IsaExtensions { f: true, d: true, zicsr: true, ..self }
        } else if c == 'v' {
            IsaExtensions { v: true, ..self }
        } else if c == 'g' {
            IsaExtensions { m: true, f: true, d: true, zicsr: true, priv_instr: true, ..self }
        } else {
            self
        }
    }

    /// The extensions that the letters `chars[from..to]` stand for, added to
    /// `self`.
    pub open spec fn with_letters(self, chars: Seq<char>, from: int, to: int) -> IsaExtensions
        decreases to - from,
    {
        if from >= to {
            self
        } else {
            self.with_letters(chars, from, to - 1).with_letter(chars[to - 1])
        }
    }

    /// The extensions that an ISA string names: those of its letters behind
    /// the prefixes `rv32` and `rv64`.
    pub open spec fn spec_from_str(chars: Seq<char>) -> IsaExtensions {
        Self::spec_rv32i().with_letters(chars, letters_start(chars), chars.len() as int)
    }

    /// The base integer instruction set alone.
    pub fn rv32i() -> (r: Self)
        ensures
            r == Self::spec_rv32i(),
    {
        IsaExtensions { m: false, f: false, d: false, v: false, zicsr: false, priv_instr: false }
    }

    /// The base with M.
    pub fn rv32im() -> (r: Self)
        ensures
            r == (IsaExtensions { m: true, ..Self::spec_rv32i() }),
    {
        IsaExtensions { m: true, f: false, d: false, v: false, zicsr: false, priv_instr: false }
    }

    /// The base with M, F, Zicsr and the privileged instructions.
    pub fn rv32imfc() -> (r: Self)
        ensures
            r == (IsaExtensions {
                m: true,
                f: true,
                zicsr: true,
                priv_instr: true,
                ..Self::spec_rv32i()
            }),
    {
        IsaExtensions { m: true, f: true, d: false, v: false, zicsr: true, priv_instr: true }
    }

    /// The base with M, F, D, Zicsr and the privileged instructions.
    pub fn rv32g() -> (r: Self)
        ensures
            r == (IsaExtensions {
                m: true,
                f: true,
                d: true,
                zicsr: true,
                priv_instr: true,
                ..Self::spec_rv32i()
            }),
    {
        IsaExtensions { m: true, f: true, d: true, v: false, zicsr: true, priv_instr: true }
    }

    /// Whether `s` has `prefix` at character `at`, the case of ASCII letters
    /// ignored; `prefix` is `rv` followed by the two digits.
    fn prefix_at(s: &str, len: usize, at: usize, tens: char, ones: char) -> (r: bool)
        requires
            len == s@.len(),
            at <= len,
            '0' <= tens <= '9',
            '0' <= ones <= '9',
        ensures
            r == has_prefix(s@, at as int, seq!['r', 'v', tens, ones]),
    {
        if len - at < 4 {
            return false;
        }
        let (c0, c1, c2, c3) = (
            s.get_char(at),
            s.get_char(at + 1),
            s.get_char(at + 2),
            s.get_char(at + 3),
        );
        proof {
            lemma_ascii_lower();
        }
        let r = (c0 == 'r' || c0 == 'R') && (c1 == 'v' || c1 == 'V') && c2 == tens && c3 == ones;
        proof {
            let prefix = seq!['r', 'v', tens, ones];
            if r {
                assert forall|i: int| 0 <= i < prefix.len() implies ascii_lower(
                    #[trigger] s@[at + i],
                ) == prefix[i] by {
                    if i == 0 {
                    } else if i == 1 {
                    } else if i == 2 {
                    } else {
                    }
                }
            } else {
                if has_prefix(s@, at as int, prefix) {
                    assert(ascii_lower(s@[at + 0]) == prefix[0]);
                    assert(ascii_lower(s@[at + 1]) == prefix[1]);
                    assert(ascii_lower(s@[at + 2]) == prefix[2]);
                    assert(ascii_lower(s@[at + 3]) == prefix[3]);
                }
            }
        }
        r
    }

    /// Reads an ISA string such as `rv32imf`, `rv32gc` or `imfv`.  Every
    /// string is accepted; characters that name no extension are skipped.
    pub fn from_str(s: &str) -> (r: Result<Self, SimError>)
        ensures
            r matches Ok(ext) && ext == Self::spec_from_str(s@),
    {
        let len = s.unicode_len();
        let mut at: usize = 0;
        if Self::prefix_at(s, len, at, '3', '2') {
            at = 4;
        }
        if Self::prefix_at(s, len, at, '6', '4') {
            at = at + 4;
        }
        let start = at;
        let mut ext = Self::rv32i();
        while at < len
            invariant
                len == s@.len(),
                start == letters_start(s@),
                start <= at <= len,
                ext == Self::spec_rv32i().with_letters(s@, start as int, at as int),
            decreases len - at,
        {
            let c = s.get_char(at);
            proof {
                lemma_ascii_lower();
            }
            if c == 'm' || c == 'M' {
                ext.m = true;
            } else if c == 'f' || c == 'F' {
                ext.f = true;
                ext.zicsr = true;
            } else if c == 'd' || c == 'D' {
                ext.f = true;
                ext.d = true;
                ext.zicsr = true;
            } else if c == 'v' || c == 'V' {
                ext.v = true;
            } else if c == 'g' || c == 'G' {
                ext.m = true;
                ext.f = true;
                ext.d = true;
                ext.zicsr = true;
                ext.priv_instr = true;
            }
            at += 1;
        }
        Ok(ext)
    }
}

/// The lower-case form of the letters that an ISA string is read by.
proof fn lemma_ascii_lower()
    ensures
        forall|c: char|
            #![trigger ascii_lower(c)]
            {
                &&& (ascii_lower(c) == 'r' <==> c == 'r' || c == 'R')
                &&& (ascii_lower(c) == 'v' <==> c == 'v' || c == 'V')
                &&& (ascii_lower(c) == 'm' <==> c == 'm' || c == 'M')
                &&& (ascii_lower(c) == 'f' <==> c == 'f' || c == 'F')
                &&& (ascii_lower(c) == 'd' <==> c == 'd' || c == 'D')
                &&& (ascii_lower(c) == 'g' <==> c == 'g' || c == 'G')
                &&& ('0' <= c <= '9' ==> ascii_lower(c) == c)
                &&& ('0' <= ascii_lower(c) <= '9' ==> ascii_lower(c) == c)
            },
{
}

impl Default for IsaExtensions {
    fn default() -> (r: Self)
        ensures
            r == Self::spec_rv32i(),
    {
        IsaExtensions::rv32i()
    }
}

/// Where a memory lies and how large it is.
#[derive(Debug)]
pub struct MemoryRegion {
    /// A label, for reports.
    pub name: String,
    /// The address of the first byte.
    pub base: u32,
    /// The number of bytes.
    pub size: usize,
}

/// A memory region as a mathematical value.
pub struct MemoryRegionView {
    pub name: Seq<char>,
    pub base: u32,
    pub size: usize,
}

impl View for MemoryRegion {
    type V = MemoryRegionView;

    open spec fn view(&self) -> MemoryRegionView {
        MemoryRegionView { name: self.name@, base: self.base, size: self.size }
    }
}

impl Default for MemoryRegion {
    fn default() -> (r: Self)
        ensures
            r.name@ == "ram"@,
            r.base == 0,
            r.size == 0x1_0000,
    {
        MemoryRegion { name: String::from_str("ram"), base: 0, size: 64 * 1024 }
    }
}

/// What to simulate, and how.
#[derive(Debug)]
pub struct SimConfig {
    /// The ELF file to load, if any.
    pub elf_path: Option<String>,
    /// The raw binary to load, if no ELF file is named.
    pub bin_path: Option<String>,
    /// Where the raw binary is loaded.
    pub bin_load_addr: u32,
    /// The entry address, where the image's own is not to be used.
    pub entry_pc: Option<u32>,
    /// The memory.
    pub memory: MemoryRegion,
    /// The extensions of the core.
    pub extensions: IsaExtensions,
    /// The most instructions to execute; zero for no limit.
    pub max_instructions: u64,
    /// Whether to stop at a trap.
    pub stop_on_trap: bool,
    /// Whether to report progress.
    pub verbose: bool,
}

impl Default for SimConfig {
    fn default() -> (r: Self)
        ensures
            r.elf_path.is_none() && r.bin_path.is_none() && r.entry_pc.is_none(),
            r.bin_load_addr == 0 && r.max_instructions == 0,
            r.memory.base == 0 && r.memory.size == 0x1_0000 && r.memory.name@ == "ram"@,
            r.extensions == (IsaExtensions { m: true, ..IsaExtensions::spec_rv32i() }),
            !r.stop_on_trap && !r.verbose,
    {
        SimConfig {
            elf_path: None,
            bin_path: None,
            bin_load_addr: 0,
            entry_pc: None,
            memory: MemoryRegion::default(),
            extensions: IsaExtensions::rv32im(),
            max_instructions: 0,
            stop_on_trap: false,
            verbose: false,
        }
    }
}

impl SimConfig {
    /// The default configuration: 64 KiB of memory at address 0, the base
    /// instruction set with M, no program.
    pub fn new() -> (r: Self)
        ensures
            r.elf_path.is_none() && r.bin_path.is_none() && r.entry_pc.is_none(),
            r.bin_load_addr == 0 && r.max_instructions == 0,
            r.memory.base == 0 && r.memory.size == 0x1_0000 && r.memory.name@ == "ram"@,
            r.extensions == (IsaExtensions { m: true, ..IsaExtensions::spec_rv32i() }),
            !r.stop_on_trap && !r.verbose,
    {
        SimConfig::default()
    }

    /// Names the ELF file to load.
    pub fn with_elf_path(self, path: &str) -> (r: Self)
        ensures
            r.elf_path matches Some(p) && p@ == path@,
            r == (SimConfig { elf_path: r.elf_path, ..self }),
    {
        let mut config = self;
        config.elf_path = Some(String::from_str(path));
        config
    }

    /// Names the raw binary to load and the address to load it at.
    pub fn with_bin_path(self, path: &str, load_addr: u32) -> (r: Self)
        ensures
            r.bin_path matches Some(p) && p@ == path@,
            r == (SimConfig { bin_path: r.bin_path, bin_load_addr: load_addr, ..self }),
    {
        let mut config = self;
        config.bin_path = Some(String::from_str(path));
        config.bin_load_addr = load_addr;
        config
    }

    /// Sets the entry address.
    pub fn with_entry_pc(self, pc: u32) -> (r: Self)
        ensures
            r == (SimConfig { entry_pc: Some(pc), ..self }),
    {
        let mut config = self;
        config.entry_pc = Some(pc);
        config
    }

    /// Sets the size of the memory.
    pub fn with_memory_size(self, size: usize) -> (r: Self)
        ensures
            r == (SimConfig { memory: MemoryRegion { size, ..self.memory }, ..self }),
    {
        let mut config = self;
        config.memory.size = size;
        config
    }

    /// Sets the base address of the memory.
    pub fn with_memory_base(self, base: u32) -> (r: Self)
        ensures
            r == (SimConfig { memory: MemoryRegion { base, ..self.memory }, ..self }),
    {
        let mut config = self;
        config.memory.base = base;
        config
    }

    /// Sets the memory.
    pub fn with_memory(self, name: &str, base: u32, size: usize) -> (r: Self)
        ensures
            r.memory.name@ == name@ && r.memory.base == base && r.memory.size == size,
            r == (SimConfig { memory: r.memory, ..self }),
    {
        let mut config = self;
        config.memory = MemoryRegion { name: String::from_str(name), base, size };
        config
    }

    /// Sets the extensions of the core.
    pub fn with_extensions(self, ext: IsaExtensions) -> (r: Self)
        ensures
            r == (SimConfig { extensions: ext, ..self }),
    {
        let mut config = self;
        config.extensions = ext;
        config
    }

    /// Sets the extensions of the core from an ISA string.
    pub fn with_isa(self, isa: &str) -> (r: Result<Self, SimError>)
        ensures
            r matches Ok(config) && config == (SimConfig {
                extensions: IsaExtensions::spec_from_str(isa@),
                ..self
            }),
    {
        let mut config = self;
        match IsaExtensions::from_str(isa) {
            Ok(ext) => {
                config.extensions = ext;
                Ok(config)
            },
            Err(e) => Err(e),
        }
    }

    /// Sets the most instructions to execute.
    pub fn with_max_instructions(self, max: u64) -> (r: Self)
        ensures
            r == (SimConfig { max_instructions: max, ..self }),
    {
        let mut config = self;
        config.max_instructions = max;
        config
    }

    /// Sets whether progress is reported.
    pub fn with_verbose(self, verbose: bool) -> (r: Self)
        ensures
            r == (SimConfig { verbose, ..self }),
    {
        let mut config = self;
        config.verbose = verbose;
        config
    }
}

/// A loadable segment of a program image.
#[derive(Debug)]
pub struct ElfSegment {
    /// Virtual address.
    pub vaddr: u32,
    /// Physical address.
    pub paddr: u32,
    /// The number of bytes that the image holds for the segment.
    pub file_size: usize,
    /// The number of bytes that the segment takes in memory.
    pub mem_size: usize,
    /// The bytes that the image holds.
    pub data: Vec<u8>,
    /// Whether the segment may be executed.
    pub executable: bool,
    /// Whether the segment may be written.
    pub writable: bool,
}

/// A named address of a program image.
#[derive(Debug)]
pub struct ElfSymbol {
    pub name: String,
    pub addr: u32,
    pub size: u32,
}

/// What the loader hands on of a program image.
#[derive(Debug)]
pub struct ElfInfo {
    /// The entry address.
    pub entry: u32,
    /// The loadable segments.
    pub segments: Vec<ElfSegment>,
    /// The symbols of the mailbox.
    pub symbols: Vec<ElfSymbol>,
    /// Whether the image is a 32-bit one.
    pub is_32bit: bool,
    /// Whether the image is little-endian.
    pub is_little_endian: bool,
    /// The machine type; 0xF3 for RISC-V.
    pub machine: u16,
}

/// The address of the first of `symbols`, from index `from` on, whose name
/// is `name`.
pub open spec fn symbol_addr(symbols: Seq<ElfSymbol>, name: Seq<char>, from: int) -> Option<u32>
    decreases symbols.len() - from,
{
    if from < 0 || from >= symbols.len() {
        None
    } else if symbols[from].name@ == name {
        Some(symbols[from].addr)
    } else {
        symbol_addr(symbols, name, from + 1)
    }
}

/// The least start address of the first `n` of `segments`.
pub open spec fn least_start(segments: Seq<ElfSegment>, n: nat) -> u32
    decreases n,
{
    if n <= 1 {
        segments[0].vaddr
    } else if segments[n - 1].vaddr < least_start(segments, (n - 1) as nat) {
        segments[n - 1].vaddr
    } else {
        least_start(segments, (n - 1) as nat)
    }
}

/// The address behind a segment, modulo `2^32`.
pub open spec fn segment_end(segment: ElfSegment) -> u32 {
    ((segment.vaddr + segment.mem_size) % 0x1_0000_0000) as u32
}

/// The greatest end address of the first `n` of `segments`.
pub open spec fn greatest_end(segments: Seq<ElfSegment>, n: nat) -> u32
    decreases n,
{
    if n <= 1 {
        segment_end(segments[0])
    } else if segment_end(segments[n - 1]) > greatest_end(segments, (n - 1) as nat) {
        segment_end(segments[n - 1])
    } else {
        greatest_end(segments, (n - 1) as nat)
    }
}

impl ElfInfo {
    /// The address of the first symbol named `name`.
    pub fn find_symbol(&self, name: &str) -> (r: Option<u32>)
        ensures
            r == symbol_addr(self.symbols@, name@, 0),
    {
        let mut i: usize = 0;
        while i < self.symbols.len()
            invariant
                i <= self.symbols@.len(),
                symbol_addr(self.symbols@, name@, 0) == symbol_addr(self.symbols@, name@, i as int),
            decreases self.symbols@.len() - i,
        {
            if str_eq(self.symbols[i].name.as_str(), name) {
                return Some(self.symbols[i].addr);
            }
            i += 1;
        }
        None
    }

    /// The least start address and the greatest end address of the
    /// segments, an end address being taken modulo `2^32`; `None` where
    /// there is no segment.
    pub fn address_range(&self) -> (r: Option<(u32, u32)>)
        ensures
            r == (if self.segments@.len() == 0 {
                None
            } else {
                Some(
                    (
                        least_start(self.segments@, self.segments@.len()),
                        greatest_end(self.segments@, self.segments@.len()),
                    ),
                )
            }),
    {
        if self.segments.len() == 0 {
            return None;
        }
        let mut min_addr = self.segments[0].vaddr;
        let mut max_addr = end_of(&self.segments[0]);
        let mut i: usize = 1;
        while i < self.segments.len()
            invariant
                1 <= i <= self.segments@.len(),
                min_addr == least_start(self.segments@, i as nat),
                max_addr == greatest_end(self.segments@, i as nat),
            decreases self.segments@.len() - i,
        {
            if self.segments[i].vaddr < min_addr {
                min_addr = self.segments[i].vaddr;
            }
            let end = end_of(&self.segments[i]);
            if end > max_addr {
                max_addr = end;
            }
            i += 1;
        }
        Some((min_addr, max_addr))
    }
}

/// The address behind `segment`, modulo `2^32`.
fn end_of(segment: &ElfSegment) -> (r: u32)
    ensures
        r == segment_end(*segment),
{
    let size = ((segment.mem_size as u64) % 0x1_0000_0000) as u32;
    segment.vaddr.wrapping_add(size)
}

/// The address behind the `len` bytes from `addr` on; `None` where it is
/// not a 32-bit address.
pub open spec fn spec_range_end(addr: u32, len: usize) -> Option<u32> {
    if addr + len <= u32::MAX {
        Some((addr + len) as u32)
    } else {
        None
    }
}

/// Whether the `len` bytes from `addr` on lie inside the region of `size`
/// bytes at `base`, both ranges ending at a 32-bit address.
pub open spec fn range_fits(base: u32, size: usize, addr: u32, len: usize) -> bool {
    base + size <= u32::MAX && addr + len <= u32::MAX && base <= addr && addr + len <= base + size
}

/// The message for a size that is no 32-bit number.
pub open spec fn size_message(len: usize) -> Seq<char> {
    "Size "@ + decimal_digits(len as nat) + " exceeds 32-bit address space"@
}

/// The message for a range that does not end at a 32-bit address.
pub open spec fn overflow_message(addr: u32, len: usize) -> Seq<char> {
    "Address range overflow: start=0x"@ + hex_digits(addr, false) + ", len="@ + decimal_digits(
        len as nat,
    )
}

/// The message for a range that does not lie inside a region.
pub open spec fn fit_message(region: MemoryRegionView, region_end: u32, addr: u32, end: u32) -> Seq<
    char,
> {
    "Memory region '"@ + region.name + "' (0x"@ + hex_digits(region.base, false) + "..0x"@
        + hex_digits(region_end, false) + ") cannot fit range 0x"@ + hex_digits(addr, false)
        + "..0x"@ + hex_digits(end, false)
}

/// The message of the error with which a range check fails.
pub open spec fn range_message(region: MemoryRegionView, addr: u32, len: usize) -> Seq<char> {
    if region.size > u32::MAX {
        size_message(region.size)
    } else if region.base + region.size > u32::MAX {
        overflow_message(region.base, region.size)
    } else if len > u32::MAX {
        size_message(len)
    } else if addr + len > u32::MAX {
        overflow_message(addr, len)
    } else {
        fit_message(region, (region.base + region.size) as u32, addr, (addr + len) as u32)
    }
}

/// `len` as a 32-bit number.
pub fn len_to_u32(len: usize) -> (r: Result<u32, SimError>)
    ensures
        match r {
            Ok(n) => n == len,
            Err(e) => len > u32::MAX && e is Memory && e.message() == size_message(len),
        },
{
    if len <= 0xFFFF_FFFF {
        Ok(len as u32)
    } else {
        let mut message = String::from_str("Size ");
        push_decimal(&mut message, len as u64);
        message.append(" exceeds 32-bit address space");
        assert(message@ =~= size_message(len));
        Err(SimError::Memory(message))
    }
}

/// The address behind the `len` bytes from `addr` on.
pub fn range_end(addr: u32, len: usize) -> (r: Result<u32, SimError>)
    ensures
        match r {
            Ok(end) => spec_range_end(addr, len) == Some(end),
            Err(e) => spec_range_end(addr, len).is_none() && e is Memory && e.message() == (if len
                > u32::MAX {
                size_message(len)
            } else {
                overflow_message(addr, len)
            }),
        },
{
    let len_u32 = match len_to_u32(len) {
        Ok(n) => n,
        Err(e) => {
            return Err(e);
        },
    };
    match addr.checked_add(len_u32) {
        Some(end) => Ok(end),
        None => {
            let mut message = String::from_str("Address range overflow: start=0x");
            push_hex(&mut message, addr, false);
            message.append(", len=");
            push_decimal(&mut message, len as u64);
            assert(message@ =~= overflow_message(addr, len));
            Err(SimError::Memory(message))
        },
    }
}

/// Checks that the `len` bytes from `addr` on lie inside `region`.
pub fn ensure_range(region: &MemoryRegion, addr: u32, len: usize) -> (r: Result<(), SimError>)
    ensures
        r.is_ok() <==> range_fits(region.base, region.size, addr, len),
        r matches Err(e) ==> e is Memory && e.message() == range_message(region@, addr, len),
{
    let region_end = match range_end(region.base, region.size) {
        Ok(end) => end,
        Err(e) => {
            return Err(e);
        },
    };
    let target_end = match range_end(addr, len) {
        Ok(end) => end,
        Err(e) => {
            return Err(e);
        },
    };
    if addr < region.base || target_end > region_end {
        let mut message = String::from_str("Memory region '");
        message.append(region.name.as_str());
        message.append("' (0x");
        push_hex(&mut message, region.base, false);
        message.append("..0x");
        push_hex(&mut message, region_end, false);
        message.append(") cannot fit range 0x");
        push_hex(&mut message, addr, false);
        message.append("..0x");
        push_hex(&mut message, target_end, false);
        assert(message@ =~= fit_message(region@, region_end, addr, target_end));
        return Err(SimError::Memory(message));
    }
    Ok(())
}

/// The message of the error with which loading `segment` into `m` fails, if
/// it does: the segment does not lie inside the region of `size` bytes at
/// `base` that is named `name`, or the memory refuses a write.
pub open spec fn segment_refusal(m: Region, region: MemoryRegionView, segment: ElfSegment) -> Option<
    Seq<char>,
> {
    if !range_fits(region.base, region.size, segment.vaddr, segment.mem_size) {
        Some(range_message(region, segment.vaddr, segment.mem_size))
    } else if segment.mem_size == 0 {
        None
    } else if segment.data@.len() > 0 && !m.covers(segment.vaddr, segment.data@.len()) {
        Some(m.out_of_range(segment.vaddr, AccessSize::Byte).spec_text())
    } else if segment.mem_size <= segment.file_size {
        None
    } else if !m.covers(
        (segment.vaddr + segment.file_size) as u32,
        (segment.mem_size - segment.file_size) as nat,
    ) {
        Some(
            m.out_of_range((segment.vaddr + segment.file_size) as u32, AccessSize::Byte).spec_text(),
        )
    } else {
        None
    }
}

/// The message of the error with which loading the first `n` of `segments`
/// in order fails, if it does: that of the first segment that fails.
pub open spec fn segments_refusal(
    m: Region,
    region: MemoryRegionView,
    segments: Seq<ElfSegment>,
    n: nat,
) -> Option<Seq<char>>
    decreases n,
{
    if n == 0 {
        None
    } else {
        match segments_refusal(m, region, segments, (n - 1) as nat) {
            Some(message) => Some(message),
            None => match with_segments(m, region.base, region.size, segments, (n - 1) as nat) {
                Some(loaded) => segment_refusal(loaded, region, segments[n - 1]),
                None => None,
            },
        }
    }
}

/// The memory after `segment` was loaded: the bytes of the image at the
/// segment's address, and zeros behind the first `file_size` bytes up to
/// `mem_size`.  `None` where the segment does not lie inside the region of
/// `size` bytes at `base`, or where the memory refuses a write.
pub open spec fn with_segment(m: Region, base: u32, size: usize, segment: ElfSegment) -> Option<
    Region,
> {
    if !range_fits(base, size, segment.vaddr, segment.mem_size) {
        None
    } else if segment.mem_size == 0 {
        Some(m)
    } else if segment.data@.len() > 0 && !m.covers(segment.vaddr, segment.data@.len()) {
        None
    } else {
        let copied = if segment.data@.len() > 0 {
            m.write(segment.vaddr, segment.data@)
        } else {
            m
        };
        if segment.mem_size <= segment.file_size {
            Some(copied)
        } else if !copied.covers(
            (segment.vaddr + segment.file_size) as u32,
            (segment.mem_size - segment.file_size) as nat,
        ) {
            None
        } else {
            Some(
                copied.write(
                    (segment.vaddr + segment.file_size) as u32,
                    Seq::new((segment.mem_size - segment.file_size) as nat, |i: int| 0u8),
                ),
            )
        }
    }
}

/// The memory after the first `n` of `segments` were loaded in order;
/// `None` where one of them could not be.
pub open spec fn with_segments(
    m: Region,
    base: u32,
    size: usize,
    segments: Seq<ElfSegment>,
    n: nat,
) -> Option<Region>
    decreases n,
{
    if n == 0 {
        Some(m)
    } else {
        match with_segments(m, base, size, segments, (n - 1) as nat) {
            Some(loaded) => with_segment(loaded, base, size, segments[n - 1]),
            None => None,
        }
    }
}

/// The error that reports a refused memory access while loading.
fn load_error(error: MemError) -> (r: SimError)
    ensures
        r is Memory,
        r.message() == error.spec_text(),
{
    SimError::Memory(error.to_string())
}

/// Loads one segment into `memory`.
fn load_segment(memory: &mut FlatMemory, region: &MemoryRegion, segment: &ElfSegment) -> (r: Result<
    (),
    SimError,
>)
    ensures
        final(memory)@.base == old(memory)@.base,
        final(memory)@.bytes.len() == old(memory)@.bytes.len(),
        match r {
            Ok(()) => with_segment(old(memory)@, region.base, region.size, *segment) == Some(
                final(memory)@,
            ),
            Err(e) => with_segment(old(memory)@, region.base, region.size, *segment).is_none()
                && e is Memory && segment_refusal(old(memory)@, region@, *segment) == Some(
                e.message(),
            ),
        },
{
    match ensure_range(region, segment.vaddr, segment.mem_size) {
        Ok(()) => {},
        Err(e) => {
            return Err(e);
        },
    }
    if segment.mem_size == 0 {
        return Ok(());
    }
    match memory.write_bytes(segment.vaddr, segment.data.as_slice()) {
        Ok(()) => {},
        Err(e) => {
            return Err(load_error(e));
        },
    }
    if segment.mem_size > segment.file_size {
        let bss_start = match range_end(segment.vaddr, segment.file_size) {
            Ok(start) => start,
            Err(e) => {
                return Err(e);
            },
        };
        let bss_size = segment.mem_size - segment.file_size;
        match memory.fill(bss_start, bss_size, 0) {
            Ok(()) => {},
            Err(e) => {
                return Err(load_error(e));
            },
        }
    }
    Ok(())
}

/// Loads `segments` into `memory` in order: each segment's bytes are copied
/// to its address and the rest of its memory size is zeroed.  Loading stops
/// at the first segment that does not lie inside `region`.
pub fn load_segments_into_memory(
    memory: &mut FlatMemory,
    region: &MemoryRegion,
    segments: &[ElfSegment],
) -> (r: Result<(), SimError>)
    ensures
        final(memory)@.base == old(memory)@.base,
        final(memory)@.bytes.len() == old(memory)@.bytes.len(),
        match r {
            Ok(()) => with_segments(
                old(memory)@,
                region.base,
                region.size,
                segments@,
                segments@.len(),
            ) == Some(final(memory)@),
            Err(e) => with_segments(
                old(memory)@,
                region.base,
                region.size,
                segments@,
                segments@.len(),
            ).is_none() && e is Memory && segments_refusal(
                old(memory)@,
                region@,
                segments@,
                segments@.len(),
            ) == Some(e.message()),
        },
{
    let mut i: usize = 0;
    while i < segments.len()
        invariant
            i <= segments@.len(),
            memory@.base == old(memory)@.base,
            memory@.bytes.len() == old(memory)@.bytes.len(),
            with_segments(old(memory)@, region.base, region.size, segments@, i as nat) == Some(
                memory@,
            ),
            segments_refusal(old(memory)@, region@, segments@, i as nat).is_none(),
        decreases segments@.len() - i,
    {
        match load_segment(memory, region, &segments[i]) {
            Ok(()) => {},
            Err(e) => {
                proof {
                    lemma_segments_fail(
                        old(memory)@,
                        region@,
                        segments@,
                        (i + 1) as nat,
                        segments@.len(),
                    );
                }
                return Err(e);
            },
        }
        i += 1;
    }
    Ok(())
}

/// Once a segment could not be loaded, no longer prefix can be, and the
/// message stays that of the first failure.
proof fn lemma_segments_fail(
    m: Region,
    region: MemoryRegionView,
    segments: Seq<ElfSegment>,
    n: nat,
    total: nat,
)
    requires
        n <= total,
        with_segments(m, region.base, region.size, segments, n).is_none(),
        segments_refusal(m, region, segments, n).is_some(),
    ensures
        with_segments(m, region.base, region.size, segments, total).is_none(),
        segments_refusal(m, region, segments, total) == segments_refusal(m, region, segments, n),
    decreases total - n,
{
    if n < total {
        lemma_segments_fail(m, region, segments, n + 1, total);
    }
}

/// How an ISA test ended.
#[derive(Debug, Clone, Copy, PartialEq, Eq)]
pub enum TestResult {
    /// The program reported success.
    Pass,
    /// The program reported the failure of the test with this number.
    Fail(u32),
    /// The program reported nothing that the mailbox protocol defines.
    Timeout,
}

impl TestResult {
    /// What a value that the program wrote to `tohost` says: 1 is success;
    /// any other odd value is the failure of test `value / 2`; anything else
    /// says nothing.
    pub open spec fn spec_from_tohost(value: u32) -> TestResult {
        if value == 1 {
            TestResult::Pass
        } else if value % 2 == 1 {
            TestResult::Fail(value / 2)
        } else {
            TestResult::Timeout
        }
    }

    /// Classifies a value that the program wrote to `tohost`.
    pub fn from_tohost(value: u32) -> (r: Self)
        ensures
            r == Self::spec_from_tohost(value),
    {
        if value == 1 {
            TestResult::Pass
        } else if value % 2 == 1 {
            TestResult::Fail(value / 2)
        } else {
            TestResult::Timeout
        }
    }
}

} // verus!

verus! {

/// The program that an environment starts with.
#[derive(Debug)]
pub enum ProgramImage {
    /// No program: the memory stays zeroed.
    Empty,
    /// A parsed ELF image.
    Elf(ElfInfo),
    /// A raw binary, loaded at the configuration's load address.
    Binary(Vec<u8>),
}

/// The state of an environment as a mathematical value.
pub struct EnvState {
    /// The core.
    pub core: CoreState,
    /// The memory.
    pub mem: Region,
    /// The number of steps taken, modulo `2^64`.
    pub executed: u64,
    /// The address of the `tohost` mailbox.
    pub tohost: Option<u32>,
    /// The address of the `fromhost` mailbox.
    pub fromhost: Option<u32>,
}

/// `m` after an attempt to store the word `value` at `addr`, where there is
/// an address.
pub open spec fn posted(m: Region, addr: Option<u32>, value: u32) -> Region {
    match addr {
        Some(a) => m.store32(a, value),
        None => m,
    }
}

impl EnvState {
    /// The state with both mailboxes zeroed.
    pub open spec fn cleared(self) -> EnvState {
        EnvState { mem: posted(posted(self.mem, self.tohost, 0), self.fromhost, 0), ..self }
    }

    /// The state after `value` was acknowledged: `tohost` zeroed, `value`
    /// copied to `fromhost`.
    #[verifier::opaque]
    pub open spec fn acknowledged(self, value: u32) -> EnvState {
        EnvState { mem: posted(posted(self.mem, self.tohost, 0), self.fromhost, value), ..self }
    }

    /// The value that the program has written to `tohost`: the word there,
    /// where it can be read and is not zero.
    #[verifier::opaque]
    pub open spec fn message(self) -> Option<u32> {
        match self.tohost {
            Some(addr) => match self.mem.load32(addr) {
                Ok(value) => if value != 0 {
                    Some(value)
                } else {
                    None
                },
                Err(_) => None,
            },
            None => None,
        }
    }

    /// The state after a poll of the mailbox: a message is acknowledged.
    pub open spec fn polled(self) -> EnvState {
        match self.message() {
            Some(value) => self.acknowledged(value),
            None => self,
        }
    }

    /// The state after one step of the core.
    #[verifier::opaque]
    pub open spec fn stepped(self, decoders: Seq<TableDrivenDecoder>) -> EnvState {
        let after = spec_step(self.core, self.mem, decoders);
        EnvState {
            core: after.0,
            mem: after.1,
            executed: self.executed.wrapping_add(1),
            ..self
        }
    }

    /// The state after at most `max` steps of the core.
    pub open spec fn ran(self, decoders: Seq<TableDrivenDecoder>, max: u64) -> EnvState {
        let after = spec_run(self.core, self.mem, decoders, max as nat);
        EnvState {
            core: after.1,
            mem: after.2,
            executed: self.executed.wrapping_add(after.0 as u64),
            ..self
        }
    }

    /// The result, the number of steps taken and the state after a test run
    /// of at most `max` steps.
    ///
    /// After each step the mailbox is polled.  A message ends the run with
    /// the result that it stands for.  The run also ends, as timed out,
    /// after a step that leaves the core not running or waiting for the
    /// outcome of a floating-point operation, and when no step is left.
    pub open spec fn tested(self, decoders: Seq<TableDrivenDecoder>, max: nat) -> (
        TestResult,
        nat,
        EnvState,
    )
        decreases max,
    {
        if max == 0 {
            (TestResult::Timeout, 0, self)
        } else {
            let after = self.stepped(decoders);
            match after.message() {
                Some(value) => (TestResult::spec_from_tohost(value), 1, after.polled()),
                None => if !steps(after.core) {
                    (TestResult::Timeout, 1, after)
                } else {
                    let rest = after.tested(decoders, (max - 1) as nat);
                    (rest.0, rest.1 + 1, rest.2)
                },
            }
        }
    }
}

/// Whether `s` is the state of a core with the extensions `ext` after reset,
/// about to start at `entry_pc`: every register zero, the floating-point and
/// the vector register file present where their extension is enabled, the
/// CSRs of the enabled groups at their reset values, machine mode.
pub open spec fn reset_core(ext: IsaExtensions, entry_pc: u32, s: CoreState) -> bool {
    &&& s.pc == entry_pc
    &&& s.state == CpuState::Running
    &&& s.pending.is_none()
    &&& s.arch.regs == ArchState::reset().regs
    &&& s.arch.privilege == PrivilegeMode::Machine
    &&& s.arch.csrs == reset_csrs(ext.f, ext.v, true, false)
    &&& s.arch.fp == (if ext.f {
        Some(Seq::new(32, |i: int| 0u32))
    } else {
        None
    })
    &&& match s.arch.vec {
        Some(vec) => ext.v && zeroed_vectors(vec),
        None => !ext.v,
    }
}

/// Whether `decoders` are the decoders of a core with the extensions `ext`:
/// those of the base, M, F, Zicsr and the privileged instructions, in this
/// order, as far as each is enabled.
pub open spec fn core_decoders(ext: IsaExtensions, decoders: Seq<TableDrivenDecoder>) -> bool {
    let m: int = if ext.m {
        1
    } else {
        0
    };
    let f: int = if ext.f {
        1
    } else {
        0
    };
    let z: int = if ext.zicsr {
        1
    } else {
        0
    };
    let p: int = if ext.priv_instr {
        1
    } else {
        0
    };
    &&& decoders.len() == 1 + m + f + z + p
    &&& is_rv32i_decoder(decoders[0])
    &&& ext.m ==> is_rv32m_decoder(decoders[1])
    &&& ext.f ==> is_rv32f_decoder(decoders[1 + m])
    &&& ext.zicsr ==> is_zicsr_decoder(decoders[1 + m + f])
    &&& ext.priv_instr ==> is_priv_decoder(decoders[1 + m + f + z])
}

/// The limit of a test run: the caller's, or the default where the caller
/// names none.
pub open spec fn test_limit(max_instructions: u64) -> u64 {
    if max_instructions > 0 {
        max_instructions
    } else {
        DEFAULT_TEST_STEPS
    }
}

/// One core, one memory, and the mailbox addresses of the loaded program.
pub struct SimEnv {
    /// The core.
    pub cpu: CpuCore,
    /// The memory.
    pub memory: FlatMemory,
    /// The configuration that the environment was made from.
    pub config: SimConfig,
    /// The number of steps taken.
    pub instructions_executed: u64,
    /// The address of the `tohost` mailbox.
    pub tohost_addr: Option<u32>,
    /// The address of the `fromhost` mailbox.
    pub fromhost_addr: Option<u32>,
}

impl View for SimEnv {
    type V = EnvState;

    open spec fn view(&self) -> EnvState {
        EnvState {
            core: self.cpu@,
            mem: self.memory@,
            executed: self.instructions_executed,
            tohost: self.tohost_addr,
            fromhost: self.fromhost_addr,
        }
    }
}

/// The entry address of an environment: the configured one; else that of
/// the ELF image, the load address of the binary, or the base of the memory.
pub open spec fn image_entry(config: SimConfig, image: ProgramImage) -> u32 {
    match config.entry_pc {
        Some(pc) => pc,
        None => match image {
            ProgramImage::Empty => config.memory.base,
            ProgramImage::Elf(elf) => elf.entry,
            ProgramImage::Binary(_) => config.bin_load_addr,
        },
    }
}

/// The memory of an environment before the mailboxes are cleared: zeroed,
/// with the image loaded; `None` where the image does not fit.
pub open spec fn image_memory(config: SimConfig, image: ProgramImage) -> Option<Region> {
    let zeroed = Region {
        base: config.memory.base,
        bytes: Seq::new(config.memory.size as nat, |i: int| 0u8),
    };
    match image {
        ProgramImage::Empty => Some(zeroed),
        ProgramImage::Elf(elf) => with_segments(
            zeroed,
            config.memory.base,
            config.memory.size,
            elf.segments@,
            elf.segments@.len(),
        ),
        ProgramImage::Binary(data) => if !range_fits(
            config.memory.base,
            config.memory.size,
            config.bin_load_addr,
            data@.len() as usize,
        ) {
            None
        } else if data@.len() == 0 {
            Some(zeroed)
        } else {
            Some(zeroed.write(config.bin_load_addr, data@))
        },
    }
}

/// The memory `m` with `image` loaded over it; `None` where the image does
/// not fit the configured region or the memory.
pub open spec fn reloaded(m: Region, config: SimConfig, image: ProgramImage) -> Option<Region> {
    match image {
        ProgramImage::Empty => Some(m),
        ProgramImage::Elf(elf) => with_segments(
            m,
            config.memory.base,
            config.memory.size,
            elf.segments@,
            elf.segments@.len(),
        ),
        ProgramImage::Binary(data) => if !range_fits(
            config.memory.base,
            config.memory.size,
            config.bin_load_addr,
            data@.len() as usize,
        ) {
            None
        } else if data@.len() == 0 {
            Some(m)
        } else if !m.covers(config.bin_load_addr, data@.len()) {
            None
        } else {
            Some(m.write(config.bin_load_addr, data@))
        },
    }
}

/// The size of the memory for an image whose segments span the addresses
/// from `base` to `end`: the span rounded up to a multiple of 4 KiB, and at
/// least 64 KiB.
pub open spec fn image_size(base: u32, end: u32) -> usize {
    let rounded = end.wrapping_sub(base).wrapping_add(0xFFF) & !0xFFFu32;
    if rounded < 0x1_0000 {
        0x1_0000
    } else {
        rounded as usize
    }
}

/// The message of the error with which `image` is refused as a program for
/// the memory `m` of `config`, if it is.
pub open spec fn image_refusal(m: Region, config: SimConfig, image: ProgramImage) -> Option<
    Seq<char>,
> {
    match image {
        ProgramImage::Empty => None,
        ProgramImage::Elf(elf) => segments_refusal(
            m,
            config.memory@,
            elf.segments@,
            elf.segments@.len(),
        ),
        ProgramImage::Binary(data) => if !range_fits(
            config.memory.base,
            config.memory.size,
            config.bin_load_addr,
            data@.len() as usize,
        ) {
            Some(range_message(config.memory@, config.bin_load_addr, data@.len() as usize))
        } else if data@.len() > 0 && !m.covers(config.bin_load_addr, data@.len()) {
            Some(m.out_of_range(config.bin_load_addr, AccessSize::Byte).spec_text())
        } else {
            None
        },
    }
}

/// The address of the mailbox named `name` in the image.
pub open spec fn image_symbol(image: ProgramImage, name: Seq<char>) -> Option<u32> {
    match image {
        ProgramImage::Elf(elf) => symbol_addr(elf.symbols@, name, 0),
        _ => None,
    }
}

impl SimEnv {
    /// The environment's invariant: that of its core.
    pub open spec fn wf(&self) -> bool {
        self.cpu.wf()
    }

    /// Sets up an environment from a configuration and the program that was
    /// read for it.
    ///
    /// The memory is zeroed and the image loaded; the core starts at the
    /// entry address; the mailbox addresses are those of the image's
    /// `tohost` and `fromhost` symbols, and both mailboxes are zeroed.
    pub fn from_image(config: SimConfig, image: ProgramImage) -> (r: Result<Self, SimError>)
        ensures
            r.is_ok() <==> image_memory(config, image).is_some(),
            match r {
                Ok(env) => {
                    &&& env.wf()
                    &&& env.config == config
                    &&& env@.executed == 0
                    &&& env@.tohost == image_symbol(image, "tohost"@)
                    &&& env@.fromhost == image_symbol(image, "fromhost"@)
                    &&& (image_memory(config, image) matches Some(m) && env@.mem == posted(
                        posted(m, env@.tohost, 0),
                        env@.fromhost,
                        0,
                    ))
                    &&& reset_core(config.extensions, image_entry(config, image), env@.core)
                    &&& core_decoders(config.extensions, env.cpu.decoders())
                },
                Err(e) => e is Memory && image_refusal(
                    Region {
                        base: config.memory.base,
                        bytes: Seq::new(config.memory.size as nat, |i: int| 0u8),
                    },
                    config,
                    image,
                ) == Some(e.message()),
            },
    {
        let mut memory = FlatMemory::new(config.memory.size, config.memory.base);
        let mut entry_pc = match config.entry_pc {
            Some(pc) => pc,
            None => config.memory.base,
        };
        let mut tohost_addr: Option<u32> = None;
        let mut fromhost_addr: Option<u32> = None;
        match &image {
            ProgramImage::Empty => {},
            ProgramImage::Elf(elf) => {
                tohost_addr = elf.find_symbol("tohost");
                fromhost_addr = elf.find_symbol("fromhost");
                match load_segments_into_memory(
                    &mut memory,
                    &config.memory,
                    elf.segments.as_slice(),
                ) {
                    Ok(()) => {},
                    Err(e) => {
                        return Err(e);
                    },
                }
                if config.entry_pc.is_none() {
                    entry_pc = elf.entry;
                }
            },
            ProgramImage::Binary(data) => {
                match ensure_range(&config.memory, config.bin_load_addr, data.len()) {
                    Ok(()) => {},
                    Err(e) => {
                        return Err(e);
                    },
                }
                match memory.write_bytes(config.bin_load_addr, data.as_slice()) {
                    Ok(()) => {},
                    Err(e) => {
                        return Err(load_error(e));
                    },
                }
                if config.entry_pc.is_none() {
                    entry_pc = config.bin_load_addr;
                }
            },
        }
        let cpu = match Self::build_cpu(&config.extensions, entry_pc) {
            Ok(cpu) => cpu,
            Err(e) => {
                return Err(e);
            },
        };
        let mut env = SimEnv {
            cpu,
            memory,
            config,
            instructions_executed: 0,
            tohost_addr,
            fromhost_addr,
        };
        env.clear_htif_mailboxes();
        Ok(env)
    }

    /// Sets up an environment for the ELF image `elf` that was read from
    /// `path`: with the default configuration, but a memory named `ram`
    /// that starts at the least segment address and has the size of the
    /// image's address range, rounded up to whole pages and at least 64 KiB.
    pub fn from_elf_info(path: &str, elf: ElfInfo) -> (r: Result<Self, SimError>)
        ensures
            elf.segments@.len() == 0 ==> (r matches Err(e) && e is ElfParse && e.message()
                == "No loadable segments"@),
            elf.segments@.len() > 0 ==> {
                let base = least_start(elf.segments@, elf.segments@.len());
                let end = greatest_end(elf.segments@, elf.segments@.len());
                &&& r.is_ok() <==> with_segments(
                    Region {
                        base,
                        bytes: Seq::new(image_size(base, end) as nat, |i: int| 0u8),
                    },
                    base,
                    image_size(base, end),
                    elf.segments@,
                    elf.segments@.len(),
                ).is_some()
                &&& r matches Ok(env) ==> {
                    let ext = IsaExtensions { m: true, ..IsaExtensions::spec_rv32i() };
                    &&& env.wf()
                    &&& env.config.memory.base == base
                    &&& env.config.memory.size == image_size(base, end)
                    &&& env.config.memory.name@ == "ram"@
                    &&& (env.config.elf_path matches Some(p) && p@ == path@)
                    &&& env.config.bin_path.is_none() && env.config.entry_pc.is_none()
                    &&& env.config.bin_load_addr == 0 && env.config.max_instructions == 0
                    &&& env.config.extensions == ext
                    &&& !env.config.stop_on_trap && !env.config.verbose
                    &&& env@.executed == 0
                    &&& env@.tohost == symbol_addr(elf.symbols@, "tohost"@, 0)
                    &&& env@.fromhost == symbol_addr(elf.symbols@, "fromhost"@, 0)
                    &&& (with_segments(
                        Region {
                            base,
                            bytes: Seq::new(image_size(base, end) as nat, |i: int| 0u8),
                        },
                        base,
                        image_size(base, end),
                        elf.segments@,
                        elf.segments@.len(),
                    ) matches Some(m) && env@.mem == posted(
                        posted(m, env@.tohost, 0),
                        env@.fromhost,
                        0,
                    ))
                    &&& reset_core(ext, elf.entry, env@.core)
                    &&& core_decoders(ext, env.cpu.decoders())
                }
                &&& r matches Err(e) ==> e is Memory && segments_refusal(
                    Region {
                        base,
                        bytes: Seq::new(image_size(base, end) as nat, |i: int| 0u8),
                    },
                    MemoryRegionView { name: "ram"@, base, size: image_size(base, end) },
                    elf.segments@,
                    elf.segments@.len(),
                ) == Some(e.message())
            },
    {
        let (min_addr, max_addr) = match elf.address_range() {
            Some(range) => range,
            None => {
                return Err(SimError::ElfParse(String::from_str("No loadable segments")));
            },
        };
        let rounded = max_addr.wrapping_sub(min_addr).wrapping_add(0xFFF) & !0xFFFu32;
        let mem_size = if rounded < 0x1_0000 {
            0x1_0000usize
        } else {
            rounded as usize
        };
        let config = SimConfig::new().with_elf_path(path).with_memory("ram", min_addr, mem_size);
        Self::from_image(config, ProgramImage::Elf(elf))
    }

    /// Resets the environment and loads `image` over the memory as it is:
    /// the core is built anew at the configured entry address, else at that
    /// of the image; no step has been taken; an ELF image sets the mailbox
    /// addresses; both mailboxes are zeroed.
    ///
    /// On an error the core is reset and the memory keeps its place and
    /// size; what was loaded before the error stays loaded.
    pub fn reset_with(&mut self, image: ProgramImage) -> (r: Result<(), SimError>)
        ensures
            final(self).wf(),
            final(self).config == old(self).config,
            final(self)@.executed == 0,
            final(self)@.mem.base == old(self)@.mem.base,
            final(self)@.mem.bytes.len() == old(self)@.mem.bytes.len(),
            core_decoders(old(self).config.extensions, final(self).cpu.decoders()),
            reset_core(old(self).config.extensions, final(self)@.core.pc, final(self)@.core),
            r.is_ok() <==> reloaded(old(self)@.mem, old(self).config, image).is_some(),
            r matches Err(e) ==> e is Memory && image_refusal(
                old(self)@.mem,
                old(self).config,
                image,
            ) == Some(e.message()),
            r.is_ok() ==> {
                &&& final(self)@.core.pc == image_entry(old(self).config, image)
                &&& final(self)@.tohost == (if image is Elf {
                    image_symbol(image, "tohost"@)
                } else {
                    old(self)@.tohost
                })
                &&& final(self)@.fromhost == (if image is Elf {
                    image_symbol(image, "fromhost"@)
                } else {
                    old(self)@.fromhost
                })
                &&& final(self)@.mem == posted(
                    posted(
                        reloaded(old(self)@.mem, old(self).config, image).unwrap(),
                        final(self)@.tohost,
                        0,
                    ),
                    final(self)@.fromhost,
                    0,
                )
            },
    {
        let entry_pc = match self.config.entry_pc {
            Some(pc) => pc,
            None => self.config.memory.base,
        };
        self.instructions_executed = 0;
        match Self::build_cpu(&self.config.extensions, entry_pc) {
            Ok(cpu) => {
                self.cpu = cpu;
            },
            Err(_) => {},
        }
        match &image {
            ProgramImage::Empty => {},
            ProgramImage::Elf(elf) => {
                self.tohost_addr = elf.find_symbol("tohost");
                self.fromhost_addr = elf.find_symbol("fromhost");
                match load_segments_into_memory(
                    &mut self.memory,
                    &self.config.memory,
                    elf.segments.as_slice(),
                ) {
                    Ok(()) => {},
                    Err(e) => {
                        return Err(e);
                    },
                }
                if self.config.entry_pc.is_none() {
                    self.cpu.set_pc(elf.entry);
                }
            },
            ProgramImage::Binary(data) => {
                match ensure_range(&self.config.memory, self.config.bin_load_addr, data.len()) {
                    Ok(()) => {},
                    Err(e) => {
                        return Err(e);
                    },
                }
                match self.memory.write_bytes(self.config.bin_load_addr, data.as_slice()) {
                    Ok(()) => {},
                    Err(e) => {
                        return Err(load_error(e));
                    },
                }
                if self.config.entry_pc.is_none() {
                    self.cpu.set_pc(self.config.bin_load_addr);
                }
            },
        }
        self.clear_htif_mailboxes();
        Ok(())
    }

    /// Builds a core with the extensions `ext` that starts at `entry_pc`.
    /// The result is never an error.
    pub fn build_cpu(ext: &IsaExtensions, entry_pc: u32) -> (r: Result<CpuCore, SimError>)
        ensures
            r matches Ok(cpu) && cpu.wf() && reset_core(*ext, entry_pc, cpu@) && core_decoders(
                *ext,
                cpu.decoders(),
            ),
    {
        let mut builder = CpuBuilder::new(entry_pc);
        if ext.m {
            let ghost before = builder.isa();
            builder = builder.with_m_extension();
            proof {
                before.lemma_enabled(builder.isa(), IsaExtension::RV32M, rv32m_table(), IsaExtension::RV32F);
                before.lemma_enabled(builder.isa(), IsaExtension::RV32M, rv32m_table(), IsaExtension::Zicsr);
                before.lemma_enabled(builder.isa(), IsaExtension::RV32M, rv32m_table(), IsaExtension::Priv);
            }
        }
        if ext.f {
            let ghost before = builder.isa();
            builder = builder.with_f_extension();
            proof {
                before.lemma_enabled(builder.isa(), IsaExtension::RV32F, rv32f_table(), IsaExtension::RV32M);
                before.lemma_enabled(builder.isa(), IsaExtension::RV32F, rv32f_table(), IsaExtension::Zicsr);
                before.lemma_enabled(builder.isa(), IsaExtension::RV32F, rv32f_table(), IsaExtension::Priv);
            }
        }
        if ext.v {
            builder = builder.with_v_extension();
        }
        if ext.zicsr {
            let ghost before = builder.isa();
            builder = builder.with_zicsr_extension();
            proof {
                before.lemma_enabled(builder.isa(), IsaExtension::Zicsr, zicsr_table(), IsaExtension::RV32M);
                before.lemma_enabled(builder.isa(), IsaExtension::Zicsr, zicsr_table(), IsaExtension::RV32F);
                before.lemma_enabled(builder.isa(), IsaExtension::Zicsr, zicsr_table(), IsaExtension::Priv);
            }
        }
        if ext.priv_instr {
            let ghost before = builder.isa();
            builder = builder.with_priv_extension();
            proof {
                before.lemma_enabled(builder.isa(), IsaExtension::Priv, priv_table(), IsaExtension::RV32M);
                before.lemma_enabled(builder.isa(), IsaExtension::Priv, priv_table(), IsaExtension::RV32F);
                before.lemma_enabled(builder.isa(), IsaExtension::Priv, priv_table(), IsaExtension::Zicsr);
            }
        }
        assert(builder.isa().has(IsaExtension::RV32M) == ext.m);
        assert(builder.isa().has(IsaExtension::RV32F) == ext.f);
        assert(builder.isa().has(IsaExtension::Zicsr) == ext.zicsr);
        assert(builder.isa().has(IsaExtension::Priv) == ext.priv_instr);
        assert(builder.isa().customs().len() == 0);
        match builder.build() {
            Ok(cpu) => Ok(cpu),
            Err(_) => Err(SimError::CpuConfig(String::from_str("ISA conflicts detected"))),
        }
    }

    /// Steps the core once.
    pub fn step(&mut self) -> (r: CpuState)
        requires
            old(self).wf(),
        ensures
            final(self).wf(),
            final(self).cpu.decoders() == old(self).cpu.decoders(),
            final(self).config == old(self).config,
            final(self)@ == old(self)@.stepped(old(self).cpu.decoders()),
            r == final(self)@.core.state,
    {
        proof {
            reveal(EnvState::stepped);
        }
        let state = self.cpu.step(&mut self.memory);
        self.instructions_executed = self.instructions_executed.wrapping_add(1);
        state
    }

    /// Steps the core at most `max_instructions` times; returns the number
    /// of steps taken and what the core is doing afterwards.
    pub fn run(&mut self, max_instructions: u64) -> (r: (u64, CpuState))
        requires
            old(self).wf(),
        ensures
            final(self).wf(),
            final(self).cpu.decoders() == old(self).cpu.decoders(),
            final(self).config == old(self).config,
            final(self)@ == old(self)@.ran(old(self).cpu.decoders(), max_instructions),
            r.0 == spec_run(
                old(self)@.core,
                old(self)@.mem,
                old(self).cpu.decoders(),
                max_instructions as nat,
            ).0,
            r.1 == final(self)@.core.state,
    {
        let (executed, state) = self.cpu.run(&mut self.memory, max_instructions);
        self.instructions_executed = self.instructions_executed.wrapping_add(executed);
        (executed, state)
    }

    /// Runs until the core stops or the configured number of instructions
    /// was executed; a configured number of zero stands for no limit.
    pub fn run_until_halt(&mut self) -> (r: (u64, CpuState))
        requires
            old(self).wf(),
        ensures
            final(self).wf(),
            final(self).cpu.decoders() == old(self).cpu.decoders(),
            final(self).config == old(self).config,
            final(self)@ == old(self)@.ran(
                old(self).cpu.decoders(),
                if old(self).config.max_instructions > 0 {
                    old(self).config.max_instructions
                } else {
                    u64::MAX
                },
            ),
            r.1 == final(self)@.core.state,
    {
        let max = if self.config.max_instructions > 0 {
            self.config.max_instructions
        } else {
            u64::MAX
        };
        self.run(max)
    }

    /// The core.
    pub fn cpu(&self) -> (r: &CpuCore)
        ensures
            *r == self.cpu,
    {
        &self.cpu
    }

    /// The core, to change it.
    pub fn cpu_mut(&mut self) -> (r: &mut CpuCore)
        ensures
            *r == old(self).cpu,
            *final(self) == (SimEnv { cpu: *final(r), ..*old(self) }),
    {
        &mut self.cpu
    }

    /// The memory.
    pub fn memory(&self) -> (r: &FlatMemory)
        ensures
            *r == self.memory,
    {
        &self.memory
    }

    /// The memory, to change it.
    pub fn memory_mut(&mut self) -> (r: &mut FlatMemory)
        ensures
            *r == old(self).memory,
            *final(self) == (SimEnv { memory: *final(r), ..*old(self) }),
    {
        &mut self.memory
    }

    /// Polls the mailbox: a value other than zero in `tohost` is
    /// acknowledged and returned.
    pub fn check_tohost(&mut self) -> (r: Option<u32>)
        requires
            old(self).wf(),
        ensures
            final(self).wf(),
            final(self).cpu == old(self).cpu,
            final(self).config == old(self).config,
            r == old(self)@.message(),
            final(self)@ == old(self)@.polled(),
    {
        proof {
            reveal(EnvState::message);
        }
        match self.tohost_addr {
            Some(addr) => match self.memory.load32(addr) {
                Ok(value) => {
                    if value != 0 {
                        self.acknowledge_tohost(value);
                        return Some(value);
                    }
                },
                Err(_) => {},
            },
            None => {},
        }
        None
    }

    /// Zeroes both mailboxes.
    pub fn clear_htif_mailboxes(&mut self)
        ensures
            final(self).cpu == old(self).cpu,
            final(self).config == old(self).config,
            final(self)@ == old(self)@.cleared(),
    {
        match self.tohost_addr {
            Some(addr) => {
                let _ = self.memory.store32(addr, 0);
            },
            None => {},
        }
        match self.fromhost_addr {
            Some(addr) => {
                let _ = self.memory.store32(addr, 0);
            },
            None => {},
        }
    }

    /// Acknowledges the message `value`: zeroes `tohost` and copies `value`
    /// to `fromhost`.
    pub fn acknowledge_tohost(&mut self, value: u32)
        ensures
            final(self).cpu == old(self).cpu,
            final(self).config == old(self).config,
            final(self)@ == old(self)@.acknowledged(value),
    {
        proof {
            reveal(EnvState::acknowledged);
        }
        match self.tohost_addr {
            Some(addr) => {
                let _ = self.memory.store32(addr, 0);
            },
            None => {},
        }
        match self.fromhost_addr {
            Some(addr) => {
                let _ = self.memory.store32(addr, value);
            },
            None => {},
        }
    }

    /// Runs an ISA test for at most `max_instructions` steps, or for the
    /// default number where `max_instructions` is zero; returns how it ended
    /// and the number of steps taken.
    ///
    /// Without a `tohost` mailbox the program is run and the test times out.
    /// Else both mailboxes are zeroed and the program is stepped, the
    /// mailbox being polled after each step.
    pub fn run_isa_test(&mut self, max_instructions: u64) -> (r: (TestResult, u64))
        requires
            old(self).wf(),
        ensures
            final(self).wf(),
            final(self).cpu.decoders() == old(self).cpu.decoders(),
            final(self).config == old(self).config,
            old(self)@.tohost.is_none() ==> {
                &&& final(self)@ == old(self)@.ran(
                    old(self).cpu.decoders(),
                    test_limit(max_instructions),
                )
                &&& r.0 == TestResult::Timeout
                &&& r.1 == spec_run(
                    old(self)@.core,
                    old(self)@.mem,
                    old(self).cpu.decoders(),
                    test_limit(max_instructions) as nat,
                ).0
            },
            old(self)@.tohost.is_some() ==> {
                let outcome = old(self)@.cleared().tested(
                    old(self).cpu.decoders(),
                    test_limit(max_instructions) as nat,
                );
                &&& r.0 == outcome.0
                &&& r.1 == outcome.1
                &&& final(self)@ == outcome.2
            },
    {
        let max = if max_instructions > 0 {
            max_instructions
        } else {
            DEFAULT_TEST_STEPS
        };
        if self.tohost_addr.is_none() {
            let (executed, _) = self.run(max);
            return (TestResult::Timeout, executed);
        }
        self.clear_htif_mailboxes();
        self.resume_isa_test(max)
    }

    /// Goes on with an ISA test for at most `max_instructions` steps: the
    /// program is stepped and the mailbox polled after each step, as in
    /// `run_isa_test`, but the mailboxes are left as they are and zero steps
    /// are zero steps.  This is how a test run is taken up again after it
    /// stopped on a floating-point request and the request was answered.
    pub fn resume_isa_test(&mut self, max_instructions: u64) -> (r: (TestResult, u64))
        requires
            old(self).wf(),
        ensures
            final(self).wf(),
            final(self).cpu.decoders() == old(self).cpu.decoders(),
            final(self).config == old(self).config,
            ({
                let outcome = old(self)@.tested(
                    old(self).cpu.decoders(),
                    max_instructions as nat,
                );
                &&& r.0 == outcome.0
                &&& r.1 == outcome.1
                &&& final(self)@ == outcome.2
            }),
    {
        let max = max_instructions;
        let ghost start = self@;
        let ghost decoders = self.cpu.decoders();
        let mut taken: u64 = 0;
        while taken < max
            invariant
                self.wf(),
                self.cpu.decoders() == decoders,
                decoders == old(self).cpu.decoders(),
                start == old(self)@,
                max == max_instructions,
                self.config == old(self).config,
                taken <= max,
                ({
                    let rest = self@.tested(decoders, (max - taken) as nat);
                    start.tested(decoders, max as nat) == (rest.0, (rest.1 + taken) as nat, rest.2)
                }),
                taken > 0 ==> steps(self@.core),
            decreases max - taken,
        {
            let ghost before = self@;
            let _ = self.step();
            let ghost after = self@;
            taken += 1;
            assert(after == before.stepped(decoders));
            match self.check_tohost() {
                Some(value) => {
                    assert(before.tested(decoders, (max - taken + 1) as nat) == (
                        TestResult::spec_from_tohost(value),
                        1nat,
                        after.polled(),
                    ));
                    return (TestResult::from_tohost(value), taken);
                },
                None => {
                    assert(self@ == after);
                },
            }
            let stopped = match self.cpu.state() {
                CpuState::Running => self.cpu.pending().is_some(),
                _ => true,
            };
            if stopped {
                assert(before.tested(decoders, (max - taken + 1) as nat) == (
                    TestResult::Timeout,
                    1nat,
                    after,
                ));
                return (TestResult::Timeout, taken);
            }
            assert(before.tested(decoders, (max - taken + 1) as nat) == ({
                let rest = after.tested(decoders, (max - taken) as nat);
                (rest.0, rest.1 + 1, rest.2)
            }));
        }
        (TestResult::Timeout, taken)
    }
}

} // verus!
