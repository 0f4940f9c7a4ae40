//! Reading a program image.
//!
//! The bytes of an ELF file are parsed by the `elf` crate.  What it finds is
//! taken over as plain values, from which the loader's view of the image is
//! assembled: the entry address, the loadable segments and the two mailbox
//! symbols.
use super::{ElfInfo, ElfSegment, ElfSymbol, SimError};
use crate::text::{hex_digits, push_hex, str_eq};
use elf::endian::AnyEndian;
use elf::file::Class;
use elf::ElfBytes;
use vstd::prelude::*;
use vstd::string::StringExecFns;

verus! {

/// The machine type of RISC-V.
pub const EM_RISCV: u16 = 243;

/// The type of a loadable segment.
pub const PT_LOAD: u32 = 1;

/// The flag of an executable segment.
pub const PF_X: u32 = 1;

/// The flag of a writable segment.
pub const PF_W: u32 = 2;

/// What the file header says.
#[derive(Debug, Clone, Copy, PartialEq, Eq)]
pub struct RawHeader {
    /// The machine type.
    pub machine: u16,
    /// Whether the file is of the 32-bit class.
    pub is_32bit: bool,
    /// Whether the file is little-endian.
    pub little_endian: bool,
    /// The entry address.
    pub entry: u64,
}

/// A program header, with the bytes that the file holds for its segment or
/// the text of the error that getting them gave.
#[derive(Debug)]
pub struct RawSegment {
    pub kind: u32,
    pub vaddr: u64,
    pub paddr: u64,
    pub file_size: u64,
    pub mem_size: u64,
    pub flags: u32,
    pub data: Result<Vec<u8>, String>,
}

/// An entry of the symbol table, with its name where the string table
/// holds one.
#[derive(Debug)]
pub struct RawSymbol {
    pub name: Option<String>,
    pub value: u64,
    pub size: u64,
}

/// A raw segment as a mathematical value.
pub struct RawSegmentView {
    pub kind: u32,
    pub vaddr: u64,
    pub paddr: u64,
    pub file_size: u64,
    pub mem_size: u64,
    pub flags: u32,
    pub data: Result<Seq<u8>, Seq<char>>,
}

/// A raw symbol as a mathematical value.
pub struct RawSymbolView {
    pub name: Option<Seq<char>>,
    pub value: u64,
    pub size: u64,
}

impl View for RawSegment {
    type V = RawSegmentView;

    open spec fn view(&self) -> RawSegmentView {
        RawSegmentView {
            kind: self.kind,
            vaddr: self.vaddr,
            paddr: self.paddr,
            file_size: self.file_size,
            mem_size: self.mem_size,
            flags: self.flags,
            data: match self.data {
                Ok(bytes) => Ok(bytes@),
                Err(text) => Err(text@),
            },
        }
    }
}

impl View for RawSymbol {
    type V = RawSymbolView;

    open spec fn view(&self) -> RawSymbolView {
        RawSymbolView {
            name: match self.name {
                Some(name) => Some(name@),
                None => None,
            },
            value: self.value,
            size: self.size,
        }
    }
}

/// What `ElfBytes::minimal_parse` makes of the header of `data`: the header,
/// or the text of the parse error.
pub uninterp spec fn elf_header(data: Seq<u8>) -> Result<RawHeader, Seq<char>>;

/// The program headers that the segment table of `data` yields, in order,
/// each with the result of `ElfBytes::segment_data`.
pub uninterp spec fn elf_segments(data: Seq<u8>) -> Seq<RawSegmentView>;

/// The entries that the symbol table of `data` yields, in order, each with
/// its name from the table's string table.
pub uninterp spec fn elf_symbols(data: Seq<u8>) -> Seq<RawSymbolView>;

/// Parses the file header.
///
/// Wraps `elf::ElfBytes::<AnyEndian>::minimal_parse`.  The result depends on
/// the bytes alone; the contract gives it a name and claims nothing else.
#[verifier::external_body]
fn read_header(data: &[u8]) -> (r: Result<RawHeader, String>)
    ensures
        match r {
            Ok(header) => elf_header(data@) == Ok::<RawHeader, Seq<char>>(header),
            Err(text) => elf_header(data@) == Err::<RawHeader, Seq<char>>(text@),
        },
{
    let file = ElfBytes::<AnyEndian>::minimal_parse(data).map_err(|e| e.to_string())?;
    Ok(RawHeader {
        machine: file.ehdr.e_machine,
        is_32bit: match file.ehdr.class {
            Class::ELF32 => true,
            Class::ELF64 => false,
        },
        little_endian: match file.ehdr.endianness {
            AnyEndian::Little => true,
            AnyEndian::Big => false,
        },
        entry: file.ehdr.e_entry,
    })
}

/// Lists the program headers with their segments' bytes.
///
/// Wraps `elf::ElfBytes::segments` and `elf::ElfBytes::segment_data`; the
/// list is empty where the file does not parse or has no segment table.  The
/// result depends on the bytes alone; the contract gives it a name and
/// claims nothing else.
#[verifier::external_body]
fn read_segments(data: &[u8]) -> (r: Vec<RawSegment>)
    ensures
        r@.len() == elf_segments(data@).len(),
        forall|i: int| 0 <= i < r@.len() ==> (#[trigger] r@[i])@ == elf_segments(data@)[i],
{
    let Ok(file) = ElfBytes::<AnyEndian>::minimal_parse(data) else { return Vec::new() };
    let Some(table) = file.segments() else { return Vec::new() };
    table.iter().map(|p| RawSegment {
        kind: p.p_type,
        vaddr: p.p_vaddr,
        paddr: p.p_paddr,
        file_size: p.p_filesz,
        mem_size: p.p_memsz,
        flags: p.p_flags,
        data: file.segment_data(&p).map(|d| d.to_vec()).map_err(|e| e.to_string()),
    }).collect()
}

/// Lists the entries of the symbol table with their names.
///
/// Wraps `elf::ElfBytes::symbol_table` and `elf::string_table::StringTable::get`;
/// the list is empty where the file does not parse or has no symbol table,
/// and an entry has no name where the string table yields none.  The result
/// depends on the bytes alone; the contract gives it a name and claims
/// nothing else.
#[verifier::external_body]
fn read_symbols(data: &[u8]) -> (r: Vec<RawSymbol>)
    ensures
        r@.len() == elf_symbols(data@).len(),
        forall|i: int| 0 <= i < r@.len() ==> (#[trigger] r@[i])@ == elf_symbols(data@)[i],
{
    let Ok(file) = ElfBytes::<AnyEndian>::minimal_parse(data) else { return Vec::new() };
    let Ok(Some((table, names))) = file.symbol_table() else { return Vec::new() };
    table.iter().map(|s| RawSymbol {
        name: names.get(s.st_name as usize).ok().map(|n| n.to_string()),
        value: s.st_value,
        size: s.st_size,
    }).collect()
}

/// The low 32 bits of `value`.
pub open spec fn low_word(value: u64) -> u32 {
    (value % 0x1_0000_0000) as u32
}

/// `value` as a size: itself where it is one, else its low bits.
pub open spec fn as_size(value: u64) -> usize {
    value as usize
}

/// The low 32 bits of `value`.
fn truncate(value: u64) -> (r: u32)
    ensures
        r == low_word(value),
{
    (value % 0x1_0000_0000) as u32
}

/// `value` as a size.
fn size_of(value: u64) -> (r: usize)
    ensures
        r == as_size(value),
{
    #[verifier::truncate]
    (value as usize)
}

/// The loadable segment that a raw segment of the loadable type stands
/// for, whose bytes are `data`.
pub open spec fn segment_of(raw: RawSegmentView, segment: ElfSegment) -> bool {
    &&& raw.data == Ok::<Seq<u8>, Seq<char>>(segment.data@)
    &&& segment.vaddr == low_word(raw.vaddr)
    &&& segment.paddr == low_word(raw.paddr)
    &&& segment.file_size == as_size(raw.file_size)
    &&& segment.mem_size == as_size(raw.mem_size)
    &&& segment.executable == (raw.flags & PF_X != 0)
    &&& segment.writable == (raw.flags & PF_W != 0)
}

/// Whether a raw symbol is one of the mailbox: it has an address other than
/// zero and is named `tohost` or `fromhost`.
pub open spec fn is_mailbox(raw: RawSymbolView) -> bool {
    raw.value != 0 && (raw.name == Some("tohost"@) || raw.name == Some("fromhost"@))
}

/// The mailbox symbol that a raw symbol stands for.
pub open spec fn symbol_of(raw: RawSymbolView, symbol: ElfSymbol) -> bool {
    &&& raw.name == Some(symbol.name@)
    &&& symbol.addr == low_word(raw.value)
    &&& symbol.size == low_word(raw.size)
}

/// The positions of the loadable segments among the first `n` of `raw`.
pub open spec fn loadable(raw: Seq<RawSegmentView>, n: nat) -> Seq<int>
    decreases n,
{
    if n == 0 {
        Seq::empty()
    } else if raw[n - 1].kind == PT_LOAD {
        loadable(raw, (n - 1) as nat).push(n - 1)
    } else {
        loadable(raw, (n - 1) as nat)
    }
}

/// The positions of the mailbox symbols among the first `n` of `raw`.
pub open spec fn mailbox(raw: Seq<RawSymbolView>, n: nat) -> Seq<int>
    decreases n,
{
    if n == 0 {
        Seq::empty()
    } else if is_mailbox(raw[n - 1]) {
        mailbox(raw, (n - 1) as nat).push(n - 1)
    } else {
        mailbox(raw, (n - 1) as nat)
    }
}

/// The position of the first loadable segment whose bytes could not be got.
pub open spec fn first_unreadable(raw: Seq<RawSegmentView>, from: int) -> Option<int>
    decreases raw.len() - from,
{
    if from < 0 || from >= raw.len() {
        None
    } else if raw[from].kind == PT_LOAD && raw[from].data.is_err() {
        Some(from)
    } else {
        first_unreadable(raw, from + 1)
    }
}

/// The message of the error with which an image is refused, if it is: the
/// header does not parse; the machine is not RISC-V; the file is not of the
/// 32-bit class; the bytes of a loadable segment could not be got.
pub open spec fn refusal(
    header: Result<RawHeader, Seq<char>>,
    segments: Seq<RawSegmentView>,
) -> Option<Seq<char>> {
    match header {
        Err(text) => Some("Failed to parse ELF: "@ + text),
        Ok(h) => if h.machine != EM_RISCV {
            Some(
                "Not a RISC-V ELF (machine type: 0x"@ + hex_digits(h.machine as u32, false)
                    + ", expected 0x"@ + hex_digits(EM_RISCV as u32, false) + ")"@,
            )
        } else if !h.is_32bit {
            Some("Only 32-bit ELF is supported"@)
        } else {
            match first_unreadable(segments, 0) {
                Some(i) => Some("Failed to read segment data: "@ + segments[i].data->Err_0),
                None => None,
            }
        },
    }
}

/// Whether `info` is the image that the raw values stand for: the header's
/// entry address and machine, the loadable segments in order, and the
/// mailbox symbols in order.
pub open spec fn assembled(
    header: RawHeader,
    segments: Seq<RawSegmentView>,
    symbols: Seq<RawSymbolView>,
    info: ElfInfo,
) -> bool {
    let chosen = loadable(segments, segments.len());
    let named = mailbox(symbols, symbols.len());
    &&& info.entry == low_word(header.entry)
    &&& info.machine == header.machine
    &&& info.is_32bit == header.is_32bit
    &&& info.is_little_endian == header.little_endian
    &&& info.segments@.len() == chosen.len()
    &&& forall|k: int|
        0 <= k < chosen.len() ==> segment_of(segments[chosen[k]], #[trigger] info.segments@[k])
    &&& info.symbols@.len() == named.len()
    &&& forall|k: int|
        0 <= k < named.len() ==> symbol_of(symbols[named[k]], #[trigger] info.symbols@[k])
}

/// The error that refuses an image.
fn refused(lead: &str, detail: &str) -> (r: SimError)
    ensures
        r is ElfParse,
        r.message() == lead@ + detail@,
{
    let mut message = String::from_str(lead);
    message.append(detail);
    SimError::ElfParse(message)
}

/// Once a loadable segment is unreadable, the first unreadable one is found
/// from every earlier position on.
proof fn lemma_first_unreadable(raw: Seq<RawSegmentView>, from: int, at: int)
    requires
        0 <= from <= at < raw.len(),
        raw[at].kind == PT_LOAD && raw[at].data.is_err(),
        forall|j: int| from <= j < at ==> !(raw[j].kind == PT_LOAD && raw[j].data.is_err()),
    ensures
        first_unreadable(raw, from) == Some(at),
    decreases at - from,
{
    if from < at {
        lemma_first_unreadable(raw, from + 1, at);
    }
}

/// Where no loadable segment is unreadable, none is found.
proof fn lemma_all_readable(raw: Seq<RawSegmentView>, from: int)
    requires
        0 <= from,
        forall|j: int| from <= j < raw.len() ==> !(raw[j].kind == PT_LOAD && raw[j].data.is_err()),
    ensures
        first_unreadable(raw, from).is_none(),
    decreases raw.len() - from,
{
    if from < raw.len() {
        lemma_all_readable(raw, from + 1);
    }
}

/// Assembles the loader's view of an image from what the parser found.
///
/// The image is refused where the header did not parse, the machine is not
/// RISC-V, the file is not of the 32-bit class, or the bytes of a loadable
/// segment could not be got.  Else every loadable segment and every mailbox
/// symbol is taken over, addresses and sizes cut to 32 bits.
pub fn assemble(
    header: Result<RawHeader, String>,
    segments: Vec<RawSegment>,
    symbols: Vec<RawSymbol>,
) -> (r: Result<ElfInfo, SimError>)
    ensures
        ({
            let head = match header {
                Ok(h) => Ok::<RawHeader, Seq<char>>(h),
                Err(text) => Err::<RawHeader, Seq<char>>(text@),
            };
            let raw_segments = Seq::new(segments@.len(), |i: int| segments@[i]@);
            let raw_symbols = Seq::new(symbols@.len(), |i: int| symbols@[i]@);
            match r {
                Ok(info) => refusal(head, raw_segments).is_none() && assembled(
                    header->Ok_0,
                    raw_segments,
                    raw_symbols,
                    info,
                ),
                Err(e) => e is ElfParse && refusal(head, raw_segments) == Some(e.message()),
            }
        }),
{
    let ghost raw_segments = Seq::new(segments@.len(), |i: int| segments@[i]@);
    let ghost raw_symbols = Seq::new(symbols@.len(), |i: int| symbols@[i]@);
    let head = match header {
        Ok(head) => head,
        Err(text) => {
            return Err(refused("Failed to parse ELF: ", text.as_str()));
        },
    };
    if head.machine != EM_RISCV {
        let mut message = String::from_str("Not a RISC-V ELF (machine type: 0x");
        push_hex(&mut message, head.machine as u32, false);
        message.append(", expected 0x");
        push_hex(&mut message, EM_RISCV as u32, false);
        message.append(")");
        assert(message@ =~= "Not a RISC-V ELF (machine type: 0x"@ + hex_digits(
            head.machine as u32,
            false,
        ) + ", expected 0x"@ + hex_digits(EM_RISCV as u32, false) + ")"@);
        return Err(SimError::ElfParse(message));
    }
    if !head.is_32bit {
        proof {
            reveal_strlit("");
            assert("Only 32-bit ELF is supported"@ + ""@ =~= "Only 32-bit ELF is supported"@);
        }
        return Err(refused("Only 32-bit ELF is supported", ""));
    }
    let mut loaded: Vec<ElfSegment> = Vec::new();
    let mut pending = segments;
    let ghost total = pending@.len();
    while pending.len() > 0
        invariant
            header == Ok::<RawHeader, String>(head),
            head.machine == EM_RISCV,
            head.is_32bit,
            raw_segments == Seq::new(segments@.len(), |i: int| segments@[i]@),
            raw_segments.len() == total,
            pending@.len() <= total,
            forall|i: int|
                0 <= i < pending@.len() ==> (#[trigger] pending@[i])@ == raw_segments[total
                    - pending@.len() + i],
            forall|j: int|
                0 <= j < total - pending@.len() ==> !(raw_segments[j].kind == PT_LOAD
                    && raw_segments[j].data.is_err()),
            loaded@.len() == loadable(raw_segments, (total - pending@.len()) as nat).len(),
            forall|k: int|
                0 <= k < loaded@.len() ==> segment_of(
                    raw_segments[loadable(raw_segments, (total - pending@.len()) as nat)[k]],
                    #[trigger] loaded@[k],
                ),
        decreases pending@.len(),
    {
        let raw = pending.remove(0);
        let ghost at = total - pending@.len() - 1;
        assert(raw@ == raw_segments[at]);
        if raw.kind == PT_LOAD {
            let data = match raw.data {
                Ok(data) => data,
                Err(text) => {
                    proof {
                        lemma_first_unreadable(raw_segments, 0, at);
                    }
                    return Err(refused("Failed to read segment data: ", text.as_str()));
                },
            };
            loaded.push(
                ElfSegment {
                    vaddr: truncate(raw.vaddr),
                    paddr: truncate(raw.paddr),
                    file_size: size_of(raw.file_size),
                    mem_size: size_of(raw.mem_size),
                    data,
                    executable: (raw.flags & PF_X) != 0,
                    writable: (raw.flags & PF_W) != 0,
                },
            );
        }
    }
    proof {
        lemma_all_readable(raw_segments, 0);
    }
    let mut named: Vec<ElfSymbol> = Vec::new();
    let mut rest = symbols;
    let ghost count = rest@.len();
    while rest.len() > 0
        invariant
            raw_symbols.len() == count,
            rest@.len() <= count,
            forall|i: int|
                0 <= i < rest@.len() ==> (#[trigger] rest@[i])@ == raw_symbols[count - rest@.len()
                    + i],
            named@.len() == mailbox(raw_symbols, (count - rest@.len()) as nat).len(),
            forall|k: int|
                0 <= k < named@.len() ==> symbol_of(
                    raw_symbols[mailbox(raw_symbols, (count - rest@.len()) as nat)[k]],
                    #[trigger] named@[k],
                ),
        decreases rest@.len(),
    {
        let raw = rest.remove(0);
        let ghost at = count - rest@.len() - 1;
        assert(raw@ == raw_symbols[at]);
        if raw.value != 0 {
            match raw.name {
                Some(name) => {
                    if str_eq(name.as_str(), "tohost") || str_eq(name.as_str(), "fromhost") {
                        named.push(
                            ElfSymbol {
                                name,
                                addr: truncate(raw.value),
                                size: truncate(raw.size),
                            },
                        );
                    }
                },
                None => {},
            }
        }
    }
    Ok(
        ElfInfo {
            entry: truncate(head.entry),
            segments: loaded,
            symbols: named,
            is_32bit: head.is_32bit,
            is_little_endian: head.little_endian,
            machine: head.machine,
        },
    )
}

impl ElfInfo {
    /// Parses the bytes of an ELF file.
    ///
    /// The result is what `assemble` makes of the header, the segments and
    /// the symbols that the parser finds in `data`.
    pub fn parse_bytes(data: &[u8]) -> (r: Result<ElfInfo, SimError>)
        ensures
            match r {
                Ok(info) => refusal(elf_header(data@), elf_segments(data@)).is_none() && assembled(
                    elf_header(data@)->Ok_0,
                    elf_segments(data@),
                    elf_symbols(data@),
                    info,
                ),
                Err(e) => e is ElfParse && refusal(elf_header(data@), elf_segments(data@)) == Some(
                    e.message(),
                ),
            },
    {
        let header = read_header(data);
        let segments = read_segments(data);
        let symbols = read_symbols(data);
        proof {
            assert(Seq::new(segments@.len(), |i: int| segments@[i]@) =~= elf_segments(data@));
            assert(Seq::new(symbols@.len(), |i: int| symbols@[i]@) =~= elf_symbols(data@));
        }
        assemble(header, segments, symbols)
    }
}

} // verus!
