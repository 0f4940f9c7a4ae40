//! The M extension: integer multiplication and division.
use super::fields::OP_REG;
use super::instr_def::{r_match, spec_r_match, InstrDef, InstrKind, TableDrivenDecoder, R_TYPE_MASK};
use super::classes::muldiv_class;
use vstd::prelude::*;

verus! {

/// The instruction table of the extension, in lookup order.
pub open spec fn rv32m_table() -> Seq<InstrDef> {
    seq![
        InstrDef { name: "MUL", mask: R_TYPE_MASK, match_val: spec_r_match(0b0000001, 0b000, OP_REG), kind: InstrKind::Mul },
        InstrDef { name: "MULH", mask: R_TYPE_MASK, match_val: spec_r_match(0b0000001, 0b001, OP_REG), kind: InstrKind::Mulh },
        InstrDef { name: "MULHSU", mask: R_TYPE_MASK, match_val: spec_r_match(0b0000001, 0b010, OP_REG), kind: InstrKind::Mulhsu },
        InstrDef { name: "MULHU", mask: R_TYPE_MASK, match_val: spec_r_match(0b0000001, 0b011, OP_REG), kind: InstrKind::Mulhu },
        InstrDef { name: "DIV", mask: R_TYPE_MASK, match_val: spec_r_match(0b0000001, 0b100, OP_REG), kind: InstrKind::Div },
        InstrDef { name: "DIVU", mask: R_TYPE_MASK, match_val: spec_r_match(0b0000001, 0b101, OP_REG), kind: InstrKind::Divu },
        InstrDef { name: "REM", mask: R_TYPE_MASK, match_val: spec_r_match(0b0000001, 0b110, OP_REG), kind: InstrKind::Rem },
        InstrDef { name: "REMU", mask: R_TYPE_MASK, match_val: spec_r_match(0b0000001, 0b111, OP_REG), kind: InstrKind::Remu },
    ]
}

/// The primary opcodes of the extension.
pub open spec fn rv32m_opcodes_spec() -> Seq<u32> {
    seq![OP_REG]
}

/// Whether `d` is the decoder of this extension.
pub open spec fn is_rv32m_decoder(d: TableDrivenDecoder) -> bool {
    &&& d.label()@ == "RV32M"@
    &&& d.table() == rv32m_table()
    &&& d.opcode_list() == Some(rv32m_opcodes_spec())
    &&& d.overlap_allowed() == true
}

/// Builds the instruction table.
pub fn rv32m_instrs() -> (r: Vec<InstrDef>)
    ensures
        r@ == rv32m_table(),
{
    let table = vec![
        InstrDef::new("MUL", R_TYPE_MASK, r_match(0b0000001, 0b000, OP_REG), InstrKind::Mul),
        InstrDef::new("MULH", R_TYPE_MASK, r_match(0b0000001, 0b001, OP_REG), InstrKind::Mulh),
        InstrDef::new("MULHSU", R_TYPE_MASK, r_match(0b0000001, 0b010, OP_REG), InstrKind::Mulhsu),
        InstrDef::new("MULHU", R_TYPE_MASK, r_match(0b0000001, 0b011, OP_REG), InstrKind::Mulhu),
        InstrDef::new("DIV", R_TYPE_MASK, r_match(0b0000001, 0b100, OP_REG), InstrKind::Div),
        InstrDef::new("DIVU", R_TYPE_MASK, r_match(0b0000001, 0b101, OP_REG), InstrKind::Divu),
        InstrDef::new("REM", R_TYPE_MASK, r_match(0b0000001, 0b110, OP_REG), InstrKind::Rem),
        InstrDef::new("REMU", R_TYPE_MASK, r_match(0b0000001, 0b111, OP_REG), InstrKind::Remu),
    ];
    assert(table@ =~= rv32m_table());
    table
}

/// Lists the primary opcodes of the extension.
pub fn rv32m_opcodes() -> (r: Vec<u32>)
    ensures
        r@ == rv32m_opcodes_spec(),
{
    let ops = vec![OP_REG];
    assert(ops@ =~= rv32m_opcodes_spec());
    ops
}

/// Builds the decoder of the extension.
pub fn rv32m_decoder() -> (r: TableDrivenDecoder)
    ensures
        is_rv32m_decoder(r),
{
    TableDrivenDecoder::new("RV32M", rv32m_instrs(), Some(rv32m_opcodes()), true)
}

/// Every row of the table lies in the encoding class of the extension.
proof fn lemma_rows()
    by (bit_vector)
    ensures
        muldiv_class(R_TYPE_MASK, spec_r_match(0b0000001, 0b000, OP_REG)),
        muldiv_class(R_TYPE_MASK, spec_r_match(0b0000001, 0b001, OP_REG)),
        muldiv_class(R_TYPE_MASK, spec_r_match(0b0000001, 0b010, OP_REG)),
        muldiv_class(R_TYPE_MASK, spec_r_match(0b0000001, 0b011, OP_REG)),
        muldiv_class(R_TYPE_MASK, spec_r_match(0b0000001, 0b100, OP_REG)),
        muldiv_class(R_TYPE_MASK, spec_r_match(0b0000001, 0b101, OP_REG)),
        muldiv_class(R_TYPE_MASK, spec_r_match(0b0000001, 0b110, OP_REG)),
        muldiv_class(R_TYPE_MASK, spec_r_match(0b0000001, 0b111, OP_REG)),
{
}

/// Every entry of the table lies in the encoding class of the extension.
pub proof fn lemma_table_class()
    ensures
        forall|i: int|
            0 <= i < rv32m_table().len() ==> muldiv_class(
                (#[trigger] rv32m_table()[i]).mask,
                rv32m_table()[i].match_val,
            ),
{
    lemma_rows();
}

/// The decoder of the extension is well formed: its entries are, and each
/// lies under one of the decoder's opcodes.
pub proof fn lemma_decoder_wf(d: TableDrivenDecoder)
    requires
        is_rv32m_decoder(d),
    ensures
        d.wf(),
{
    lemma_table_class();
    let ops = rv32m_opcodes_spec();
    assert forall|i: int| 0 <= i < d.table().len() implies {
        &&& (#[trigger] d.table()[i]).wf()
        &&& d.table()[i].mask & 0x7F == 0x7F
        &&& ops.contains(d.table()[i].match_val & 0x7F)
    } by {
        let op = d.table()[i].match_val & 0x7F;
        if op == OP_REG {
            assert(ops[0] == op);
        }
    }
}

} // verus!
