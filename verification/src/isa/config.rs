//! Configuration of the instruction set: which extensions are enabled, which
//! of their encodings conflict, and the registry built from them.
use super::classes::{
    base_class, csr_class, encodings_conflict, float_class, lemma_classes_apart, muldiv_class,
    privileged_class,
};
use super::decoder::{
    blocked, claims, occupied, opcode_conflict, refused_with, registrable, DecoderRegistry,
    InstrDecoder, RegisterError,
};
use super::fields::{
    OP_AUIPC, OP_BRANCH, OP_IMM, OP_JAL, OP_JALR, OP_LOAD, OP_LUI, OP_MISC_MEM, OP_REG, OP_STORE,
    OP_SYSTEM,
};
use super::instr_def::{InstrDef, TableDrivenDecoder};
use super::priv_instr::{
    is_priv_decoder, priv_decoder, priv_instrs, priv_opcodes_spec, priv_table,
};
use super::rv32f::{
    is_rv32f_decoder, rv32f_decoder, rv32f_instrs, rv32f_opcodes_spec, rv32f_table, OP_FP,
    OP_LOAD_FP, OP_MADD, OP_MSUB, OP_NMADD, OP_NMSUB, OP_STORE_FP,
};
use super::rv32i::{
    is_rv32i_decoder, rv32i_decoder, rv32i_instrs, rv32i_opcodes_spec, rv32i_table,
};
use super::rv32m::{
    is_rv32m_decoder, rv32m_decoder, rv32m_instrs, rv32m_opcodes_spec, rv32m_table,
};
use super::zicsr::{
    is_zicsr_decoder, zicsr_decoder, zicsr_instrs, zicsr_opcodes_spec, zicsr_table,
};
use crate::text::{
    ascending, decimal_digits, hex_digits, push_decimal, push_hex, sort_names, str_eq,
};
use vstd::string::StringExecFns;
use vstd::prelude::*;

verus! {

/// An instruction-set extension.
#[derive(Debug, Clone, Copy, PartialEq, Eq, Hash)]
pub enum IsaExtension {
    /// The base integer instruction set; always enabled.
    RV32I,
    /// Integer multiplication and division.
    RV32M,
    /// Atomic memory operations.
    RV32A,
    /// Single-precision floating point.
    RV32F,
    /// Double-precision floating point.
    RV32D,
    /// Compressed instructions.
    RV32C,
    /// Control and status register instructions.
    Zicsr,
    /// Privileged instructions.
    Priv,
    /// A non-standard extension, by name.
    Custom(&'static str),
}

impl IsaExtension {
    /// Whether the two values name the same extension: the same standard
    /// extension, or custom extensions of the same name.
    pub open spec fn spec_same(self, other: IsaExtension) -> bool {
        match (self, other) {
            (IsaExtension::Custom(a), IsaExtension::Custom(b)) => a@ == b@,
            (IsaExtension::RV32I, IsaExtension::RV32I) => true,
            (IsaExtension::RV32M, IsaExtension::RV32M) => true,
            (IsaExtension::RV32A, IsaExtension::RV32A) => true,
            (IsaExtension::RV32F, IsaExtension::RV32F) => true,
            (IsaExtension::RV32D, IsaExtension::RV32D) => true,
            (IsaExtension::RV32C, IsaExtension::RV32C) => true,
            (IsaExtension::Zicsr, IsaExtension::Zicsr) => true,
            (IsaExtension::Priv, IsaExtension::Priv) => true,
            _ => false,
        }
    }

    /// The extension's part of an ISA string: `RV32I` for the base, one
    /// letter for a standard extension, an underscore and the name for
    /// `Zicsr` and `Priv`, `X` and the name for a custom extension.
    pub open spec fn spec_text(self) -> Seq<char> {
        match self {
            IsaExtension::RV32I => "RV32I"@,
            IsaExtension::RV32M => "M"@,
            IsaExtension::RV32A => "A"@,
            IsaExtension::RV32F => "F"@,
            IsaExtension::RV32D => "D"@,
            IsaExtension::RV32C => "C"@,
            IsaExtension::Zicsr => "_Zicsr"@,
            IsaExtension::Priv => "_Priv"@,
            IsaExtension::Custom(name) => "X"@ + name@,
        }
    }

    /// The name of the variant, with the name of a custom extension in
    /// quotes and parentheses behind it.
    pub open spec fn spec_label(self) -> Seq<char> {
        match self {
            IsaExtension::RV32I => "RV32I"@,
            IsaExtension::RV32M => "RV32M"@,
            IsaExtension::RV32A => "RV32A"@,
            IsaExtension::RV32F => "RV32F"@,
            IsaExtension::RV32D => "RV32D"@,
            IsaExtension::RV32C => "RV32C"@,
            IsaExtension::Zicsr => "Zicsr"@,
            IsaExtension::Priv => "Priv"@,
            IsaExtension::Custom(name) => "Custom(\""@ + name@ + "\")"@,
        }
    }

    /// The extension's part of an ISA string.
    pub fn to_string(&self) -> (r: String)
        ensures
            r@ == self.spec_text(),
    {
        match self {
            IsaExtension::RV32I => String::from_str("RV32I"),
            IsaExtension::RV32M => String::from_str("M"),
            IsaExtension::RV32A => String::from_str("A"),
            IsaExtension::RV32F => String::from_str("F"),
            IsaExtension::RV32D => String::from_str("D"),
            IsaExtension::RV32C => String::from_str("C"),
            IsaExtension::Zicsr => String::from_str("_Zicsr"),
            IsaExtension::Priv => String::from_str("_Priv"),
            IsaExtension::Custom(name) => {
                let mut text = String::from_str("X");
                text.append(name);
                text
            },
        }
    }

    /// Appends the name of the variant to `out`.
    fn push_label(&self, out: &mut String)
        ensures
            final(out)@ == old(out)@ + self.spec_label(),
    {
        match self {
            IsaExtension::RV32I => out.append("RV32I"),
            IsaExtension::RV32M => out.append("RV32M"),
            IsaExtension::RV32A => out.append("RV32A"),
            IsaExtension::RV32F => out.append("RV32F"),
            IsaExtension::RV32D => out.append("RV32D"),
            IsaExtension::RV32C => out.append("RV32C"),
            IsaExtension::Zicsr => out.append("Zicsr"),
            IsaExtension::Priv => out.append("Priv"),
            IsaExtension::Custom(name) => {
                out.append("Custom(\"");
                out.append(name);
                out.append("\")");
                assert(out@ =~= old(out)@ + self.spec_label());
            },
        }
    }

    /// Whether the two values name the same extension.
    pub fn same(&self, other: &IsaExtension) -> (r: bool)
        ensures
            r == self.spec_same(*other),
    {
        match (self, other) {
            (IsaExtension::Custom(a), IsaExtension::Custom(b)) => str_eq(a, b),
            (IsaExtension::RV32I, IsaExtension::RV32I) => true,
            (IsaExtension::RV32M, IsaExtension::RV32M) => true,
            (IsaExtension::RV32A, IsaExtension::RV32A) => true,
            (IsaExtension::RV32F, IsaExtension::RV32F) => true,
            (IsaExtension::RV32D, IsaExtension::RV32D) => true,
            (IsaExtension::RV32C, IsaExtension::RV32C) => true,
            (IsaExtension::Zicsr, IsaExtension::Zicsr) => true,
            (IsaExtension::Priv, IsaExtension::Priv) => true,
            _ => false,
        }
    }
}

/// The encoding of one instruction, with the extension it belongs to.
#[derive(Debug, Clone, Copy)]
pub struct InstrSignature {
    pub extension: IsaExtension,
    pub name: &'static str,
    pub mask: u32,
    pub match_val: u32,
}

impl InstrSignature {
    /// The signature of table entry `def` as part of `extension`.
    pub open spec fn spec_from_def(def: InstrDef, extension: IsaExtension) -> InstrSignature {
        InstrSignature { extension, name: def.name, mask: def.mask, match_val: def.match_val }
    }

    /// The two encodings agree on every bit that both inspect.
    pub open spec fn spec_conflicts_with(self, other: InstrSignature) -> bool {
        self.match_val & (self.mask & other.mask) == other.match_val & (self.mask & other.mask)
    }

    /// A word that matches both signatures, where they are well formed and
    /// conflict.
    pub open spec fn example_word(self, other: InstrSignature) -> u32 {
        (self.match_val & self.mask) | (other.match_val & other.mask)
    }

    /// A signature from its parts.
    pub fn new(extension: IsaExtension, name: &'static str, mask: u32, match_val: u32) -> (r: Self)
        ensures
            r == (InstrSignature { extension, name, mask, match_val }),
    {
        InstrSignature { extension, name, mask, match_val }
    }

    /// The signature of a table entry.
    pub fn from_def(def: &InstrDef, extension: IsaExtension) -> (r: Self)
        ensures
            r == Self::spec_from_def(*def, extension),
    {
        InstrSignature { extension, name: def.name, mask: def.mask, match_val: def.match_val }
    }

    /// Whether the two signatures conflict.
    pub fn conflicts_with(&self, other: &InstrSignature) -> (r: bool)
        ensures
            r == self.spec_conflicts_with(*other),
    {
        let common_mask = self.mask & other.mask;
        (self.match_val & common_mask) == (other.match_val & common_mask)
    }
}

/// Two signatures of distinct extensions that conflict, with a word that
/// both claim.
#[derive(Debug, Clone, Copy)]
pub struct ConflictInfo {
    pub instr1: InstrSignature,
    pub instr2: InstrSignature,
    pub example_raw: u32,
}

impl ConflictInfo {
    /// The report as text: both signatures as extension and name, and the
    /// example word in upper-case hexadecimal.
    pub open spec fn spec_text(self) -> Seq<char> {
        "冲突: "@ + self.instr1.extension.spec_text() + ":"@ + self.instr1.name@ + " 与 "@
            + self.instr2.extension.spec_text() + ":"@ + self.instr2.name@ + " (示例: 0x"@
            + hex_digits(self.example_raw, true) + ")"@
    }

    /// Appends the report to `out`.
    fn push_text(&self, out: &mut String)
        ensures
            final(out)@ == old(out)@ + self.spec_text(),
    {
        out.append("冲突: ");
        out.append(self.instr1.extension.to_string().as_str());
        out.append(":");
        out.append(self.instr1.name);
        out.append(" 与 ");
        out.append(self.instr2.extension.to_string().as_str());
        out.append(":");
        out.append(self.instr2.name);
        out.append(" (示例: 0x");
        push_hex(out, self.example_raw, true);
        out.append(")");
        assert(out@ =~= old(out)@ + self.spec_text());
    }

    /// The report as text.
    pub fn to_string(&self) -> (r: String)
        ensures
            r@ == self.spec_text(),
    {
        let mut text = String::from_str("");
        proof {
            reveal_strlit("");
        }
        self.push_text(&mut text);
        assert(text@ =~= self.spec_text());
        text
    }
}

/// The reports of `conflicts[from..]`, one to a line, each line indented and
/// marked with a dash.
pub open spec fn conflict_lines(conflicts: Seq<ConflictInfo>, from: int) -> Seq<char>
    decreases conflicts.len() - from,
{
    if from < 0 || from >= conflicts.len() {
        Seq::empty()
    } else {
        "  - "@ + conflicts[from].spec_text() + "\n"@ + conflict_lines(conflicts, from + 1)
    }
}

/// The custom extensions among the first `n` of `exts`, by name, in order.
pub open spec fn custom_names(exts: Seq<IsaExtension>, n: nat) -> Seq<&'static str>
    decreases n,
{
    if n == 0 {
        Seq::empty()
    } else {
        match exts[n - 1] {
            IsaExtension::Custom(name) => custom_names(exts, (n - 1) as nat).push(name),
            _ => custom_names(exts, (n - 1) as nat),
        }
    }
}

/// The names `names[from..]`, each behind `_X`.
pub open spec fn custom_part(names: Seq<&'static str>, from: int) -> Seq<char>
    decreases names.len() - from,
{
    if from < 0 || from >= names.len() {
        Seq::empty()
    } else {
        "_X"@ + names[from]@ + custom_part(names, from + 1)
    }
}

/// The letter of the standard extension `ext` where `exts` holds it.
pub open spec fn letter_of(exts: Seq<IsaExtension>, ext: IsaExtension) -> Seq<char> {
    if holds(exts, ext) {
        ext.spec_text()
    } else {
        Seq::empty()
    }
}

/// The labels of `exts[from..]`, separated by a comma and a space.
pub open spec fn label_list(exts: Seq<IsaExtension>, from: int) -> Seq<char>
    decreases exts.len() - from,
{
    if from < 0 || from >= exts.len() {
        Seq::empty()
    } else if from + 1 == exts.len() {
        exts[from].spec_label()
    } else {
        exts[from].spec_label() + ", "@ + label_list(exts, from + 1)
    }
}

/// Whether two signatures are reported: they belong to distinct extensions
/// and their encodings conflict.
pub open spec fn reported(a: InstrSignature, b: InstrSignature) -> bool {
    !a.extension.spec_same(b.extension) && a.spec_conflicts_with(b)
}

/// The report of the pair `(a, b)`.
pub open spec fn report_of(a: InstrSignature, b: InstrSignature) -> ConflictInfo {
    ConflictInfo { instr1: a, instr2: b, example_raw: a.example_word(b) }
}

/// The reports of signature `i` against the signatures from `j` on.
pub open spec fn row_conflicts(sigs: Seq<InstrSignature>, i: int, j: int) -> Seq<ConflictInfo>
    decreases sigs.len() - j,
{
    if j < 0 || j >= sigs.len() {
        Seq::empty()
    } else if reported(sigs[i], sigs[j]) {
        seq![report_of(sigs[i], sigs[j])] + row_conflicts(sigs, i, j + 1)
    } else {
        row_conflicts(sigs, i, j + 1)
    }
}

/// The reports of every pair `(i, j)` with `from <= i < j`, ordered by `i`,
/// then by `j`.
pub open spec fn conflicts_from(sigs: Seq<InstrSignature>, from: int) -> Seq<ConflictInfo>
    decreases sigs.len() - from,
{
    if from < 0 || from >= sigs.len() {
        Seq::empty()
    } else {
        row_conflicts(sigs, from, from + 1) + conflicts_from(sigs, from + 1)
    }
}

/// The reports of every pair of signatures of distinct extensions that
/// conflict, ordered by the first signature's position, then by the
/// second's.
pub open spec fn conflicts_of(sigs: Seq<InstrSignature>) -> Seq<ConflictInfo> {
    conflicts_from(sigs, 0)
}

/// No two signatures of distinct extensions conflict.
pub open spec fn conflict_free(sigs: Seq<InstrSignature>) -> bool {
    forall|i: int, j: int| 0 <= i < j < sigs.len() ==> !reported(#[trigger] sigs[i], #[trigger] sigs[j])
}

/// A row of reports is empty exactly where its signature conflicts with none
/// of the later ones.
pub proof fn lemma_row_empty(sigs: Seq<InstrSignature>, i: int, j: int)
    requires
        0 <= i < sigs.len(),
        0 <= j,
    ensures
        row_conflicts(sigs, i, j).len() == 0 <==> forall|k: int|
            j <= k < sigs.len() ==> !reported(sigs[i], #[trigger] sigs[k]),
    decreases sigs.len() - j,
{
    if j < sigs.len() {
        lemma_row_empty(sigs, i, j + 1);
        if reported(sigs[i], sigs[j]) {
            assert(row_conflicts(sigs, i, j).len() > 0);
        }
    }
}

/// The list of reports is empty exactly where the signatures are free of
/// conflicts.
pub proof fn lemma_conflicts_empty(sigs: Seq<InstrSignature>, from: int)
    requires
        0 <= from,
    ensures
        conflicts_from(sigs, from).len() == 0 <==> forall|i: int, j: int|
            from <= i < j < sigs.len() ==> !reported(#[trigger] sigs[i], #[trigger] sigs[j]),
    decreases sigs.len() - from,
{
    if from < sigs.len() {
        lemma_conflicts_empty(sigs, from + 1);
        lemma_row_empty(sigs, from, from + 1);
        if conflicts_from(sigs, from).len() == 0 {
            assert forall|i: int, j: int| from <= i < j < sigs.len() implies !reported(
                #[trigger] sigs[i],
                #[trigger] sigs[j],
            ) by {
                if i == from {
                    assert(!reported(sigs[from], sigs[j]));
                }
            }
        }
    }
}

/// Among signatures that are free of conflicts, no word is claimed by two
/// signatures of distinct extensions.
pub proof fn lemma_conflict_free_claims_once(sigs: Seq<InstrSignature>, raw: u32, i: int, j: int)
    requires
        conflict_free(sigs),
        0 <= i < j < sigs.len(),
        !sigs[i].extension.spec_same(sigs[j].extension),
    ensures
        !(raw & sigs[i].mask == sigs[i].match_val && raw & sigs[j].mask == sigs[j].match_val),
{
    let (am, av, bm, bv) = (sigs[i].mask, sigs[i].match_val, sigs[j].mask, sigs[j].match_val);
    assert(!reported(sigs[i], sigs[j]));
    assert((raw & am == av && raw & bm == bv) ==> (av & (am & bm) == bv & (am & bm)))
        by (bit_vector);
}

/// Whether `sig` belongs to a built-in extension and lies in the
/// extension's encoding class.
pub open spec fn builtin_signature(sig: InstrSignature) -> bool {
    match sig.extension {
        IsaExtension::RV32I => base_class(sig.mask, sig.match_val),
        IsaExtension::RV32M => muldiv_class(sig.mask, sig.match_val),
        IsaExtension::RV32F => float_class(sig.mask, sig.match_val),
        IsaExtension::Zicsr => csr_class(sig.mask, sig.match_val),
        IsaExtension::Priv => privileged_class(sig.mask, sig.match_val),
        _ => false,
    }
}

/// Signatures of the built-in extensions, each in the class of its
/// extension, are free of conflicts.
pub proof fn lemma_builtin_conflict_free(sigs: Seq<InstrSignature>)
    requires
        forall|i: int| 0 <= i < sigs.len() ==> builtin_signature(#[trigger] sigs[i]),
    ensures
        conflict_free(sigs),
{
    assert forall|i: int, j: int| 0 <= i < j < sigs.len() implies !reported(
        #[trigger] sigs[i],
        #[trigger] sigs[j],
    ) by {
        let (a, b) = (sigs[i], sigs[j]);
        lemma_classes_apart(a.mask, a.match_val, b.mask, b.match_val);
        lemma_classes_apart(b.mask, b.match_val, a.mask, a.match_val);
        assert(a.spec_conflicts_with(b) == encodings_conflict(
            a.mask,
            a.match_val,
            b.mask,
            b.match_val,
        ));
    }
}

/// The signatures of a table's entries as part of `extension`.
pub open spec fn signatures_of(table: Seq<InstrDef>, extension: IsaExtension) -> Seq<
    InstrSignature,
> {
    Seq::new(table.len(), |i: int| InstrSignature::spec_from_def(table[i], extension))
}

/// A decoder that was added by name, with the signatures declared for it.
pub struct CustomDecoder {
    pub extension: IsaExtension,
    pub decoder: TableDrivenDecoder,
    pub signatures: Vec<InstrSignature>,
}

/// Why no registry was built.
#[derive(Debug)]
pub enum BuildError {
    /// Signatures of distinct extensions conflict.
    Conflicts(Vec<ConflictInfo>),
    /// A decoder could not be registered.
    Registration(RegisterError),
}

/// The opcodes under which the base integer decoder stands.
proof fn lemma_rv32i_claims(d: TableDrivenDecoder, op: u32)
    requires
        is_rv32i_decoder(d),
    ensures
        claims(d, op) <==> (op == OP_LUI || op == OP_AUIPC || op == OP_JAL || op == OP_JALR || op
            == OP_BRANCH || op == OP_LOAD || op == OP_STORE || op == OP_MISC_MEM || op == OP_IMM
            || op == OP_REG || op == OP_SYSTEM),
{
    let ops = rv32i_opcodes_spec();
    assert(ops.len() == 11);
    if op == OP_LUI || op == OP_AUIPC || op == OP_JAL || op == OP_JALR || op == OP_BRANCH || op
        == OP_LOAD || op == OP_STORE || op == OP_MISC_MEM || op == OP_IMM || op == OP_REG || op
        == OP_SYSTEM {
        let k: int = if op == OP_LUI {
            0
        } else if op == OP_AUIPC {
            1
        } else if op == OP_JAL {
            2
        } else if op == OP_JALR {
            3
        } else if op == OP_BRANCH {
            4
        } else if op == OP_LOAD {
            5
        } else if op == OP_STORE {
            6
        } else if op == OP_MISC_MEM {
            7
        } else if op == OP_IMM {
            8
        } else if op == OP_REG {
            9
        } else {
            10
        };
        assert(ops[k] == op);
    }
}

/// The opcodes under which a built-in decoder other than the base integer
/// decoder stands.
proof fn lemma_extension_claims(d: TableDrivenDecoder, op: u32)
    ensures
        is_rv32m_decoder(d) ==> (claims(d, op) <==> op == OP_REG),
        is_zicsr_decoder(d) ==> (claims(d, op) <==> op == OP_SYSTEM),
        is_priv_decoder(d) ==> (claims(d, op) <==> op == OP_SYSTEM),
        is_rv32f_decoder(d) ==> (claims(d, op) <==> (op == OP_LOAD_FP || op == OP_STORE_FP || op
            == OP_MADD || op == OP_MSUB || op == OP_NMSUB || op == OP_NMADD || op == OP_FP)),
{
    if is_rv32m_decoder(d) && op == OP_REG {
        assert(rv32m_opcodes_spec()[0] == op);
    }
    if is_zicsr_decoder(d) && op == OP_SYSTEM {
        assert(zicsr_opcodes_spec()[0] == op);
    }
    if is_priv_decoder(d) && op == OP_SYSTEM {
        assert(priv_opcodes_spec()[0] == op);
    }
    if is_rv32f_decoder(d) {
        let ops = rv32f_opcodes_spec();
        assert(ops.len() == 7);
        let k: int = if op == OP_LOAD_FP {
            0
        } else if op == OP_STORE_FP {
            1
        } else if op == OP_MADD {
            2
        } else if op == OP_MSUB {
            3
        } else if op == OP_NMSUB {
            4
        } else if op == OP_NMADD {
            5
        } else {
            6
        };
        if op == OP_LOAD_FP || op == OP_STORE_FP || op == OP_MADD || op == OP_MSUB || op
            == OP_NMSUB || op == OP_NMADD || op == OP_FP {
            assert(ops[k] == op);
        }
    }
}

/// `decs` is the base integer decoder followed by built-in decoders.
spec fn builtin_prefix(decs: Seq<TableDrivenDecoder>) -> bool {
    &&& decs.len() >= 1
    &&& is_rv32i_decoder(decs[0])
    &&& forall|i: int|
        1 <= i < decs.len() ==> is_rv32m_decoder(#[trigger] decs[i]) || is_rv32f_decoder(decs[i])
            || is_zicsr_decoder(decs[i]) || is_priv_decoder(decs[i])
}

/// The M decoder may join built-in decoders: every decoder under its opcode
/// shares.
proof fn lemma_shares(decs: Seq<TableDrivenDecoder>, new: TableDrivenDecoder)
    requires
        builtin_prefix(decs),
        is_rv32m_decoder(new),
    ensures
        registrable(decs, new),
{
    assert forall|k: int| 0 <= k < rv32m_opcodes_spec().len() implies !opcode_conflict(
        decs,
        true,
        #[trigger] rv32m_opcodes_spec()[k],
    ) by {
        let op = rv32m_opcodes_spec()[k];
        assert forall|i: int| 0 <= i < decs.len() && claims(#[trigger] decs[i], op) implies decs[i].spec_allow_opcode_overlap(
        ) by {
            lemma_extension_claims(decs[i], op);
        }
    }
}

/// No built-in decoder but the floating-point one stands under a
/// floating-point opcode.
proof fn lemma_fp_opcodes_free(decs: Seq<TableDrivenDecoder>, op: u32)
    requires
        builtin_prefix(decs),
        forall|i: int| 0 <= i < decs.len() ==> !is_rv32f_decoder(#[trigger] decs[i]),
        op == OP_LOAD_FP || op == OP_STORE_FP || op == OP_MADD || op == OP_MSUB || op == OP_NMSUB
            || op == OP_NMADD || op == OP_FP,
    ensures
        !occupied(decs, op),
{
    assert forall|i: int| 0 <= i < decs.len() implies !claims(#[trigger] decs[i], op) by {
        if i == 0 {
            lemma_rv32i_claims(decs[i], op);
        } else {
            lemma_extension_claims(decs[i], op);
        }
    }
}

/// Every built-in decoder under the system opcode shares it.
proof fn lemma_system_shared(decs: Seq<TableDrivenDecoder>)
    requires
        builtin_prefix(decs),
    ensures
        !blocked(decs, OP_SYSTEM),
{
    assert forall|i: int| 0 <= i < decs.len() && claims(#[trigger] decs[i], OP_SYSTEM) implies decs[i].spec_allow_opcode_overlap(
    ) by {
        lemma_extension_claims(decs[i], OP_SYSTEM);
    }
}

/// The set of enabled extensions with their signatures.
///
/// The set is kept as a list, in the order in which the extensions were
/// enabled, and an extension that is enabled already is not added again:
/// membership is then decided by `same`, of which the contracts can speak,
/// and not by a hash of the extension.
pub struct IsaConfig {
    extensions: Vec<IsaExtension>,
    custom_decoders: Vec<CustomDecoder>,
    signatures: Vec<InstrSignature>,
}

/// Whether `exts` holds an extension that is the same as `ext`.
pub open spec fn holds(exts: Seq<IsaExtension>, ext: IsaExtension) -> bool {
    exists|i: int| 0 <= i < exts.len() && (#[trigger] exts[i]).spec_same(ext)
}

/// A sequence with one more extension holds what it held, and that
/// extension.
pub proof fn lemma_holds_push(exts: Seq<IsaExtension>, added: IsaExtension, ext: IsaExtension)
    ensures
        holds(exts.push(added), ext) == (holds(exts, ext) || added.spec_same(ext)),
{
    let longer = exts.push(added);
    if holds(exts, ext) {
        let i = choose|i: int| 0 <= i < exts.len() && (#[trigger] exts[i]).spec_same(ext);
        assert(longer[i].spec_same(ext));
    }
    if added.spec_same(ext) {
        assert(longer[exts.len() as int].spec_same(ext));
    }
    if holds(longer, ext) {
        let i = choose|i: int| 0 <= i < longer.len() && (#[trigger] longer[i]).spec_same(ext);
        if i < exts.len() {
            assert(exts[i].spec_same(ext));
        }
    }
}

/// The decoders after an attempt to register every decoder of `plan`, from
/// index `from` on, behind `decs`.  A decoder that may not join is left out.
pub open spec fn register_each(
    decs: Seq<TableDrivenDecoder>,
    plan: Seq<TableDrivenDecoder>,
    from: int,
) -> Seq<TableDrivenDecoder>
    decreases plan.len() - from,
{
    if from < 0 || from >= plan.len() {
        decs
    } else if registrable(decs, plan[from]) {
        register_each(decs.push(plan[from]), plan, from + 1)
    } else {
        register_each(decs, plan, from + 1)
    }
}

/// Whether the decoders of `plan` before index `at` join `decs` in turn and
/// the decoder at `at` is then refused with `error`.
pub open spec fn refused_at(
    decs: Seq<TableDrivenDecoder>,
    plan: Seq<TableDrivenDecoder>,
    at: int,
    error: RegisterError,
) -> bool {
    &&& 0 <= at < plan.len()
    &&& forall|k: int| 0 <= k < at ==> registrable(decs + plan.take(k), #[trigger] plan[k])
    &&& refused_with(decs + plan.take(at), plan[at], error)
}

/// Whether every decoder of `plan`, from index `from` on, may join in turn.
pub open spec fn all_registrable(
    decs: Seq<TableDrivenDecoder>,
    plan: Seq<TableDrivenDecoder>,
    from: int,
) -> bool
    decreases plan.len() - from,
{
    if from < 0 || from >= plan.len() {
        true
    } else {
        registrable(decs, plan[from]) && all_registrable(decs.push(plan[from]), plan, from + 1)
    }
}

impl IsaConfig {
    /// The enabled extensions, in the order in which they were enabled.
    pub closed spec fn extensions(&self) -> Seq<IsaExtension> {
        self.extensions@
    }

    /// The signatures of all enabled extensions.
    pub closed spec fn signatures(&self) -> Seq<InstrSignature> {
        self.signatures@
    }

    /// The custom decoders, in the order in which they were added.
    pub closed spec fn customs(&self) -> Seq<TableDrivenDecoder> {
        Seq::new(self.custom_decoders@.len(), |i: int| self.custom_decoders@[i].decoder)
    }

    /// The configuration's invariant: where no custom decoder was added,
    /// every signature belongs to a built-in extension and lies in the
    /// extension's encoding class.
    pub closed spec fn wf(&self) -> bool {
        self.custom_decoders@.len() == 0 ==> forall|i: int|
            0 <= i < self.signatures@.len() ==> builtin_signature(#[trigger] self.signatures@[i])
    }

    /// A configuration without custom decoders is free of conflicts.
    pub proof fn lemma_builtins_conflict_free(&self)
        requires
            self.wf(),
            self.customs().len() == 0,
        ensures
            conflict_free(self.signatures()),
    {
        lemma_builtin_conflict_free(self.signatures());
    }

    /// Whether `ext` is enabled.
    pub open spec fn has(&self, ext: IsaExtension) -> bool {
        holds(self.extensions(), ext)
    }

    /// Enabling a standard extension enables that extension and no other.
    pub proof fn lemma_enabled(
        &self,
        result: IsaConfig,
        ext: IsaExtension,
        table: Seq<InstrDef>,
        other: IsaExtension,
    )
        requires
            self.enabled(result, ext, table),
            !(ext is Custom),
        ensures
            result.has(other) == (self.has(other) || other == ext),
            result.has(ext),
    {
        lemma_holds_push(self.extensions(), ext, other);
        lemma_holds_push(self.extensions(), ext, ext);
    }

    /// The configuration with `ext` enabled and its table's signatures
    /// added, unless `ext` was enabled already.
    pub open spec fn enabled(&self, result: IsaConfig, ext: IsaExtension, table: Seq<InstrDef>) -> bool {
        &&& result.customs() == self.customs()
        &&& if self.has(ext) {
            result.extensions() == self.extensions() && result.signatures() == self.signatures()
        } else {
            result.extensions() == self.extensions().push(ext) && result.signatures()
                == self.signatures() + signatures_of(table, ext)
        }
    }

    /// Whether `ext` is among `self.extensions`.
    fn contains(&self, ext: &IsaExtension) -> (r: bool)
        ensures
            r == self.has(*ext),
    {
        let mut i: usize = 0;
        while i < self.extensions.len()
            invariant
                i <= self.extensions.len(),
                forall|j: int| 0 <= j < i ==> !(#[trigger] self.extensions@[j]).spec_same(*ext),
            decreases self.extensions.len() - i,
        {
            if self.extensions[i].same(ext) {
                return true;
            }
            i += 1;
        }
        false
    }

    /// Enables `ext`; returns whether it was new.
    fn insert(&mut self, ext: IsaExtension) -> (r: bool)
        ensures
            r == !old(self).has(ext),
            final(self).signatures == old(self).signatures,
            final(self).custom_decoders == old(self).custom_decoders,
            final(self).extensions() == (if r {
                old(self).extensions().push(ext)
            } else {
                old(self).extensions()
            }),
    {
        if self.contains(&ext) {
            false
        } else {
            self.extensions.push(ext);
            true
        }
    }

    /// Appends the signatures of `table` as part of `ext`.
    fn add_signatures(&mut self, table: &Vec<InstrDef>, ext: IsaExtension)
        ensures
            final(self).extensions == old(self).extensions,
            final(self).custom_decoders == old(self).custom_decoders,
            final(self).signatures@ == old(self).signatures@ + signatures_of(table@, ext),
    {
        let mut i: usize = 0;
        while i < table.len()
            invariant
                i <= table.len(),
                self.extensions == old(self).extensions,
                self.custom_decoders == old(self).custom_decoders,
                self.signatures@ == old(self).signatures@ + signatures_of(table@, ext).take(
                    i as int,
                ),
            decreases table.len() - i,
        {
            self.signatures.push(InstrSignature::from_def(&table[i], ext));
            assert(signatures_of(table@, ext).take(i as int + 1) == signatures_of(table@, ext).take(
                i as int,
            ).push(InstrSignature::spec_from_def(table@[i as int], ext)));
            i += 1;
        }
        assert(signatures_of(table@, ext).take(table@.len() as int) == signatures_of(table@, ext));
    }

    /// Enables `ext` with the signatures of `table`, unless it is enabled.
    fn enable(self, ext: IsaExtension, table: Vec<InstrDef>) -> (r: Self)
        requires
            self.wf(),
            forall|i: int|
                0 <= i < table@.len() ==> builtin_signature(
                    InstrSignature::spec_from_def(#[trigger] table@[i], ext),
                ),
        ensures
            r.wf(),
            self.enabled(r, ext, table@),
    {
        let mut config = self;
        if config.insert(ext) {
            config.add_signatures(&table, ext);
        }
        config
    }

    /// The configuration of the base integer instruction set alone.
    pub fn new() -> (r: Self)
        ensures
            r.wf(),
            forall|ext: IsaExtension| r.has(ext) == (ext == IsaExtension::RV32I),
            r.extensions() == seq![IsaExtension::RV32I],
            r.signatures() == signatures_of(rv32i_table(), IsaExtension::RV32I),
            r.customs() == Seq::<TableDrivenDecoder>::empty(),
    {
        proof {
            super::rv32i::lemma_table_class();
        }
        let mut config = IsaConfig {
            extensions: Vec::new(),
            custom_decoders: Vec::new(),
            signatures: Vec::new(),
        };
        config.extensions.push(IsaExtension::RV32I);
        let table = rv32i_instrs();
        config.add_signatures(&table, IsaExtension::RV32I);
        assert(config.customs() == Seq::<TableDrivenDecoder>::empty());
        assert(config.signatures() == signatures_of(rv32i_table(), IsaExtension::RV32I));
        assert forall|ext: IsaExtension| config.has(ext) == (ext == IsaExtension::RV32I) by {
            if ext == IsaExtension::RV32I {
                assert(config.extensions()[0].spec_same(ext));
            }
        }
        config
    }

    /// Enables the M extension.
    pub fn with_m_extension(self) -> (r: Self)
        requires
            self.wf(),
        ensures
            r.wf(),
            self.enabled(r, IsaExtension::RV32M, rv32m_table()),
    {
        proof {
            super::rv32m::lemma_table_class();
        }
        self.enable(IsaExtension::RV32M, rv32m_instrs())
    }

    /// Enables the F extension.
    pub fn with_f_extension(self) -> (r: Self)
        requires
            self.wf(),
        ensures
            r.wf(),
            self.enabled(r, IsaExtension::RV32F, rv32f_table()),
    {
        proof {
            super::rv32f::lemma_table_class();
        }
        self.enable(IsaExtension::RV32F, rv32f_instrs())
    }

    /// Enables the Zicsr extension.
    pub fn with_zicsr_extension(self) -> (r: Self)
        requires
            self.wf(),
        ensures
            r.wf(),
            self.enabled(r, IsaExtension::Zicsr, zicsr_table()),
    {
        proof {
            super::zicsr::lemma_table_class();
        }
        self.enable(IsaExtension::Zicsr, zicsr_instrs())
    }

    /// Enables the privileged instructions.
    pub fn with_priv_extension(self) -> (r: Self)
        requires
            self.wf(),
        ensures
            r.wf(),
            self.enabled(r, IsaExtension::Priv, priv_table()),
    {
        proof {
            super::priv_instr::lemma_table_class();
        }
        self.enable(IsaExtension::Priv, priv_instrs())
    }

    /// Adds a decoder for `extension`, with the signatures that stand for
    /// its instructions in conflict detection.
    pub fn with_custom_decoder(
        self,
        extension: IsaExtension,
        decoder: TableDrivenDecoder,
        signatures: Vec<InstrSignature>,
    ) -> (r: Self)
        ensures
            r.wf(),
            r.extensions() == (if self.has(extension) {
                self.extensions()
            } else {
                self.extensions().push(extension)
            }),
            r.signatures() == self.signatures() + signatures@,
            r.customs() == self.customs().push(decoder),
    {
        let mut config = self;
        let _ = config.insert(extension);
        let mut i: usize = 0;
        while i < signatures.len()
            invariant
                i <= signatures.len(),
                config.extensions() == (if self.has(extension) {
                    self.extensions()
                } else {
                    self.extensions().push(extension)
                }),
                config.custom_decoders == self.custom_decoders,
                config.signatures@ == self.signatures@ + signatures@.take(i as int),
            decreases signatures.len() - i,
        {
            config.signatures.push(signatures[i]);
            assert(signatures@.take(i as int + 1) == signatures@.take(i as int).push(
                signatures@[i as int],
            ));
            i += 1;
        }
        assert(signatures@.take(signatures@.len() as int) == signatures@);
        config.custom_decoders.push(CustomDecoder { extension, decoder, signatures });
        assert(config.customs() == self.customs().push(decoder));
        config
    }

    /// Lists every pair of signatures of distinct extensions that conflict,
    /// ordered by the first signature's position, then by the second's.
    pub fn detect_conflicts(&self) -> (r: Vec<ConflictInfo>)
        ensures
            r@ == conflicts_from(self.signatures(), 0),
            r@.len() == 0 <==> conflict_free(self.signatures()),
    {
        let mut conflicts: Vec<ConflictInfo> = Vec::new();
        let n = self.signatures.len();
        let mut i: usize = 0;
        while i < n
            invariant
                n == self.signatures@.len(),
                i <= n,
                conflicts@ + conflicts_from(self.signatures@, i as int) == conflicts_from(
                    self.signatures@,
                    0,
                ),
            decreases n - i,
        {
            let sig1 = self.signatures[i];
            let ghost before = conflicts@;
            let mut j: usize = i + 1;
            while j < n
                invariant
                    n == self.signatures@.len(),
                    i < n,
                    i + 1 <= j <= n,
                    sig1 == self.signatures@[i as int],
                    conflicts@ + row_conflicts(self.signatures@, i as int, j as int) == before
                        + row_conflicts(self.signatures@, i as int, i + 1),
                decreases n - j,
            {
                let sig2 = self.signatures[j];
                let ghost acc = conflicts@;
                if !sig1.extension.same(&sig2.extension) && sig1.conflicts_with(&sig2) {
                    let example = (sig1.match_val & sig1.mask) | (sig2.match_val & sig2.mask);
                    conflicts.push(ConflictInfo { instr1: sig1, instr2: sig2, example_raw: example });
                    assert(conflicts@ + row_conflicts(self.signatures@, i as int, j + 1) =~= acc
                        + (seq![report_of(sig1, sig2)] + row_conflicts(
                        self.signatures@,
                        i as int,
                        j + 1,
                    )));
                }
                j += 1;
            }
            assert(conflicts@ =~= before + row_conflicts(self.signatures@, i as int, i + 1));
            assert(conflicts@ + conflicts_from(self.signatures@, i + 1) =~= before + (row_conflicts(
                self.signatures@,
                i as int,
                i + 1,
            ) + conflicts_from(self.signatures@, i + 1)));
            i += 1;
        }
        proof {
            assert(conflicts@ =~= conflicts@ + conflicts_from(self.signatures@, n as int));
            lemma_conflicts_empty(self.signatures@, 0);
        }
        conflicts
    }

    /// Whether the configuration is free of conflicts.
    pub fn is_valid(&self) -> (r: bool)
        ensures
            r == conflict_free(self.signatures()),
    {
        self.detect_conflicts().len() == 0
    }

    /// Whether `base` is the sequence of built-in decoders that this
    /// configuration registers: the base integer decoder, then those of M,
    /// F, Zicsr and, where `with_priv` holds, the privileged instructions, as
    /// far as each is enabled.
    pub open spec fn base_decoders(&self, base: Seq<TableDrivenDecoder>, with_priv: bool) -> bool {
        let m: int = if self.has(IsaExtension::RV32M) {
            1
        } else {
            0
        };
        let f: int = if self.has(IsaExtension::RV32F) {
            1
        } else {
            0
        };
        let z: int = if self.has(IsaExtension::Zicsr) {
            1
        } else {
            0
        };
        let p: int = if with_priv && self.has(IsaExtension::Priv) {
            1
        } else {
            0
        };
        &&& base.len() == 1 + m + f + z + p
        &&& is_rv32i_decoder(base[0])
        &&& m == 1 ==> is_rv32m_decoder(base[1])
        &&& f == 1 ==> is_rv32f_decoder(base[1 + m])
        &&& z == 1 ==> is_zicsr_decoder(base[1 + m + f])
        &&& p == 1 ==> is_priv_decoder(base[1 + m + f + z])
    }

    /// Registers the built-in decoders of the enabled extensions.  None of
    /// them is ever refused.
    fn register_builtins(&self, with_priv: bool) -> (r: DecoderRegistry)
        ensures
            r.wf(),
            self.base_decoders(r@, with_priv),
    {
        let mut registry = DecoderRegistry::new();
        let base = rv32i_decoder();
        let outcome = registry.register(base);
        assert(outcome.is_ok());
        if self.contains(&IsaExtension::RV32M) {
            let decoder = rv32m_decoder();
            proof {
                lemma_shares(registry@, decoder);
            }
            let outcome = registry.register(decoder);
            assert(outcome.is_ok());
        }
        if self.contains(&IsaExtension::RV32F) {
            let decoder = rv32f_decoder();
            proof {
                assert forall|k: int| 0 <= k < rv32f_opcodes_spec().len() implies !occupied(
                    registry@,
                    #[trigger] rv32f_opcodes_spec()[k],
                ) by {
                    lemma_fp_opcodes_free(registry@, rv32f_opcodes_spec()[k]);
                }
            }
            let outcome = registry.register(decoder);
            assert(outcome.is_ok());
        }
        if self.contains(&IsaExtension::Zicsr) {
            let decoder = zicsr_decoder();
            proof {
                lemma_system_shared(registry@);
            }
            let outcome = registry.register(decoder);
            assert(outcome.is_ok());
        }
        if with_priv && self.contains(&IsaExtension::Priv) {
            let decoder = priv_decoder();
            proof {
                lemma_system_shared(registry@);
            }
            let outcome = registry.register(decoder);
            assert(outcome.is_ok());
        }
        registry
    }

    /// The registry of the built-in decoders alone.
    pub(crate) fn register_base(&self) -> (r: DecoderRegistry)
        ensures
            r.wf(),
            self.base_decoders(r@, true),
    {
        self.register_builtins(true)
    }

    /// Whether `outcome`, the decoders of the registry built or the error, is
    /// what building a registry from this configuration comes to.
    ///
    /// Signatures of distinct extensions that conflict give the list of the
    /// conflicts.  Else the built-in decoders of the enabled extensions are
    /// registered in the order I, M, F, Zicsr, privileged, which never fails,
    /// and after them the custom decoders in the order in which they were
    /// added; the first that the registry refuses gives the error with which
    /// it is refused.
    pub open spec fn spec_build(
        &self,
        outcome: Result<Seq<TableDrivenDecoder>, BuildError>,
    ) -> bool {
        match outcome {
            Ok(decoders) => {
                let n = decoders.len() - self.customs().len();
                &&& conflict_free(self.signatures())
                &&& n >= 1
                &&& self.base_decoders(decoders.take(n), true)
                &&& decoders.skip(n) == self.customs()
                &&& all_registrable(decoders.take(n), self.customs(), 0)
            },
            Err(BuildError::Conflicts(conflicts)) => {
                &&& !conflict_free(self.signatures())
                &&& conflicts@ == conflicts_from(self.signatures(), 0)
            },
            Err(BuildError::Registration(error)) => {
                &&& conflict_free(self.signatures())
                &&& exists|base: Seq<TableDrivenDecoder>, at: int|
                    self.base_decoders(base, true) && #[trigger] refused_at(
                        base,
                        self.customs(),
                        at,
                        error,
                    )
            },
        }
    }

    /// Builds the registry of the enabled extensions.  A configuration
    /// without custom decoders always builds.
    pub fn build(self) -> (r: Result<DecoderRegistry, BuildError>)
        requires
            self.wf(),
        ensures
            self.customs().len() == 0 ==> r.is_ok(),
            r matches Ok(registry) ==> registry.wf(),
            self.spec_build(
                match r {
                    Ok(registry) => Ok(registry@),
                    Err(e) => Err(e),
                },
            ),
    {
        let conflicts = self.detect_conflicts();
        proof {
            if self.customs().len() == 0 {
                self.lemma_builtins_conflict_free();
            }
        }
        if conflicts.len() > 0 {
            return Err(BuildError::Conflicts(conflicts));
        }
        let mut registry = self.register_builtins(true);
        let ghost base = registry@;
        let ghost customs = self.customs();
        let ghost base_ok = self.base_decoders(base, true);
        let mut pending = self.custom_decoders;
        let ghost total = pending@.len();
        assert(registry@ == base + customs.take(0));
        while pending.len() > 0
            invariant
                registry.wf(),
                conflict_free(self.signatures()),
                base_ok,
                base_ok == self.base_decoders(base, true),
                customs == self.customs(),
                total == customs.len(),
                pending@.len() <= total,
                registry@ == base + customs.take(total - pending@.len()),
                forall|i: int|
                    0 <= i < pending@.len() ==> (#[trigger] pending@[i]).decoder == customs[total
                        - pending@.len() + i],
                all_registrable(base, customs, 0) == all_registrable(
                    registry@,
                    customs,
                    total - pending@.len(),
                ),
                forall|k: int|
                    0 <= k < total - pending@.len() ==> registrable(
                        base + customs.take(k),
                        #[trigger] customs[k],
                    ),
            decreases pending@.len(),
        {
            let entry = pending.remove(0);
            let ghost k = total - pending@.len() - 1;
            assert(entry.decoder == customs[k]);
            let ghost before = registry@;
            match registry.register(entry.decoder) {
                Ok(()) => {
                    assert(customs.take(k + 1) == customs.take(k).push(customs[k]));
                    assert(registry@ == base + customs.take(k + 1));
                },
                Err(e) => {
                    assert(refused_at(base, customs, k, e));
                    return Err(BuildError::Registration(e));
                },
            }
        }
        proof {
            assert(customs.take(total as int) == customs);
            assert(registry@.take(base.len() as int) == base);
            assert(registry@.skip(base.len() as int) == customs);
        }
        Ok(registry)
    }

    /// Builds a registry without looking for conflicts: the built-in
    /// decoders in the order I, M, F, Zicsr, then each custom decoder that
    /// the registry accepts.
    pub fn build_unchecked(self) -> (r: DecoderRegistry)
        ensures
            r.wf(),
            exists|base: Seq<TableDrivenDecoder>|
                self.base_decoders(base, false) && r@ == register_each(base, self.customs(), 0),
    {
        let mut registry = self.register_builtins(false);
        let ghost base = registry@;
        let ghost customs = self.customs();
        let mut pending = self.custom_decoders;
        let ghost total = pending@.len();
        while pending.len() > 0
            invariant
                registry.wf(),
                total == customs.len(),
                pending@.len() <= total,
                forall|i: int|
                    0 <= i < pending@.len() ==> (#[trigger] pending@[i]).decoder == customs[total
                        - pending@.len() + i],
                register_each(base, customs, 0) == register_each(
                    registry@,
                    customs,
                    total - pending@.len(),
                ),
            decreases pending@.len(),
        {
            let entry = pending.remove(0);
            let ghost k = total - pending@.len() - 1;
            assert(entry.decoder == customs[k]);
            let _ = registry.register(entry.decoder);
        }
        registry
    }

    /// Whether `text` is the ISA string of the configuration: `RV32`, the
    /// letters of the enabled extensions among M, A, F, D and C in this
    /// order, and the custom extensions by ascending name, each behind `_X`.
    pub open spec fn is_isa_string(&self, text: Seq<char>) -> bool {
        exists|names: Seq<&'static str>|
            {
                &&& ascending(names)
                &&& names.to_multiset() == custom_names(
                    self.extensions(),
                    self.extensions().len(),
                ).to_multiset()
                &&& text == "RV32"@ + letter_of(self.extensions(), IsaExtension::RV32M)
                    + letter_of(self.extensions(), IsaExtension::RV32A) + letter_of(
                    self.extensions(),
                    IsaExtension::RV32F,
                ) + letter_of(self.extensions(), IsaExtension::RV32D) + letter_of(
                    self.extensions(),
                    IsaExtension::RV32C,
                ) + #[trigger] custom_part(names, 0)
            }
    }

    /// Appends the letter of `ext` to `out` where `ext` is enabled.
    fn push_letter(&self, out: &mut String, ext: IsaExtension)
        ensures
            final(out)@ == old(out)@ + letter_of(self.extensions(), ext),
    {
        if self.contains(&ext) {
            out.append(ext.to_string().as_str());
        } else {
            assert(out@ =~= old(out)@ + Seq::<char>::empty());
        }
    }

    /// The ISA string of the configuration, such as `RV32IM`.
    pub fn isa_string(&self) -> (r: String)
        ensures
            self.is_isa_string(r@),
    {
        let mut text = String::from_str("RV32");
        self.push_letter(&mut text, IsaExtension::RV32M);
        self.push_letter(&mut text, IsaExtension::RV32A);
        self.push_letter(&mut text, IsaExtension::RV32F);
        self.push_letter(&mut text, IsaExtension::RV32D);
        self.push_letter(&mut text, IsaExtension::RV32C);
        let mut custom: Vec<&'static str> = Vec::new();
        let mut i: usize = 0;
        while i < self.extensions.len()
            invariant
                i <= self.extensions@.len(),
                custom@ == custom_names(self.extensions@, i as nat),
            decreases self.extensions@.len() - i,
        {
            match self.extensions[i] {
                IsaExtension::Custom(name) => custom.push(name),
                _ => {},
            }
            i += 1;
        }
        let names = sort_names(custom);
        let ghost head = text@;
        let mut k: usize = 0;
        while k < names.len()
            invariant
                k <= names@.len(),
                text@ + custom_part(names@, k as int) == head + custom_part(names@, 0),
            decreases names@.len() - k,
        {
            let ghost before = text@;
            text.append("_X");
            text.append(names[k]);
            assert(text@ + custom_part(names@, k + 1) =~= before + ("_X"@ + names@[k as int]@
                + custom_part(names@, k + 1)));
            k += 1;
        }
        assert(text@ =~= text@ + custom_part(names@, names@.len() as int));
        text
    }

    /// The text of a summary whose ISA string is `isa`: that string, the
    /// labels of the enabled extensions, the number of signatures, and the
    /// conflicts found or that there is none.
    pub open spec fn summary_text(&self, isa: Seq<char>) -> Seq<char> {
        let conflicts = conflicts_of(self.signatures());
        "ISA: "@ + isa + "\n"@ + "扩展: {"@ + label_list(self.extensions(), 0) + "}\n"@
            + "指令签名数: "@ + decimal_digits(self.signatures().len()) + "\n"@ + (if conflicts.len()
            == 0 {
            "状态: ✓ 无冲突\n"@
        } else {
            "状态: ✗ "@ + decimal_digits(conflicts.len()) + " 个冲突\n"@ + conflict_lines(
                conflicts,
                0,
            )
        })
    }

    /// A summary of the configuration.
    pub fn summary(&self) -> (r: String)
        ensures
            exists|isa: Seq<char>| self.is_isa_string(isa) && r@ == self.summary_text(isa),
    {
        let isa = self.isa_string();
        let mut text = String::from_str("ISA: ");
        text.append(isa.as_str());
        text.append("\n");
        text.append("扩展: {");
        let ghost head = text@;
        let mut i: usize = 0;
        while i < self.extensions.len()
            invariant
                i <= self.extensions@.len(),
                text@ + label_list(self.extensions@, i as int) == head + label_list(
                    self.extensions@,
                    0,
                ),
            decreases self.extensions@.len() - i,
        {
            let ghost before = text@;
            self.extensions[i].push_label(&mut text);
            if i + 1 < self.extensions.len() {
                text.append(", ");
                assert(text@ + label_list(self.extensions@, i + 1) =~= before + (
                self.extensions@[i as int].spec_label() + ", "@ + label_list(
                    self.extensions@,
                    i + 1,
                )));
            } else {
                assert(text@ + label_list(self.extensions@, i + 1) =~= before
                    + self.extensions@[i as int].spec_label());
            }
            i += 1;
        }
        assert(text@ =~= text@ + label_list(self.extensions@, self.extensions@.len() as int));
        text.append("}\n");
        text.append("指令签名数: ");
        push_decimal(&mut text, self.signatures.len() as u64);
        text.append("\n");
        let conflicts = self.detect_conflicts();
        if conflicts.len() == 0 {
            text.append("状态: ✓ 无冲突\n");
        } else {
            text.append("状态: ✗ ");
            push_decimal(&mut text, conflicts.len() as u64);
            text.append(" 个冲突\n");
            let ghost lead = text@;
            let mut k: usize = 0;
            while k < conflicts.len()
                invariant
                    k <= conflicts@.len(),
                    text@ + conflict_lines(conflicts@, k as int) == lead + conflict_lines(
                        conflicts@,
                        0,
                    ),
                decreases conflicts@.len() - k,
            {
                let ghost before = text@;
                text.append("  - ");
                conflicts[k].push_text(&mut text);
                text.append("\n");
                assert(text@ + conflict_lines(conflicts@, k + 1) =~= before + ("  - "@
                    + conflicts@[k as int].spec_text() + "\n"@ + conflict_lines(
                    conflicts@,
                    k + 1,
                )));
                k += 1;
            }
            assert(text@ =~= text@ + conflict_lines(conflicts@, conflicts@.len() as int));
        }
        assert(text@ =~= self.summary_text(isa@));
        text
    }

    /// The enabled extensions.
    pub fn enabled_extensions(&self) -> (r: &Vec<IsaExtension>)
        ensures
            r@ == self.extensions(),
    {
        &self.extensions
    }
}

impl Default for IsaConfig {
    fn default() -> (r: Self)
        ensures
            r.wf(),
            r.extensions() == seq![IsaExtension::RV32I],
            r.signatures() == signatures_of(rv32i_table(), IsaExtension::RV32I),
            r.customs() == Seq::<TableDrivenDecoder>::empty(),
    {
        IsaConfig::new()
    }
}

} // verus!
