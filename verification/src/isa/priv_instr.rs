//! The privileged instructions: trap return and wait for interrupt.
use super::fields::OP_SYSTEM;
use super::instr_def::{InstrDef, InstrKind, TableDrivenDecoder, EXACT_MASK};
use super::classes::privileged_class;
use vstd::prelude::*;

verus! {

/// The word that is `MRET`.
pub const MRET_ENCODING: u32 = 0x30200073;

/// The word that is `SRET`.
pub const SRET_ENCODING: u32 = 0x10200073;

/// The word that is `WFI`.
pub const WFI_ENCODING: u32 = 0x10500073;

/// The instruction table of the extension, in lookup order.
pub open spec fn priv_table() -> Seq<InstrDef> {
    seq![
        InstrDef { name: "MRET", mask: EXACT_MASK, match_val: MRET_ENCODING, kind: InstrKind::Mret },
        InstrDef { name: "SRET", mask: EXACT_MASK, match_val: SRET_ENCODING, kind: InstrKind::Sret },
        InstrDef { name: "WFI", mask: EXACT_MASK, match_val: WFI_ENCODING, kind: InstrKind::Wfi },
    ]
}

/// The primary opcodes of the extension.
pub open spec fn priv_opcodes_spec() -> Seq<u32> {
    seq![OP_SYSTEM]
}

/// Whether `d` is the decoder of this extension.
pub open spec fn is_priv_decoder(d: TableDrivenDecoder) -> bool {
    &&& d.label()@ == "Priv"@
    &&& d.table() == priv_table()
    &&& d.opcode_list() == Some(priv_opcodes_spec())
    &&& d.overlap_allowed() == true
}

/// Builds the instruction table.
pub fn priv_instrs() -> (r: Vec<InstrDef>)
    ensures
        r@ == priv_table(),
{
    let table = vec![
        InstrDef::new("MRET", EXACT_MASK, MRET_ENCODING, InstrKind::Mret),
        InstrDef::new("SRET", EXACT_MASK, SRET_ENCODING, InstrKind::Sret),
        InstrDef::new("WFI", EXACT_MASK, WFI_ENCODING, InstrKind::Wfi),
    ];
    assert(table@ =~= priv_table());
    table
}

/// Lists the primary opcodes of the extension.
pub fn priv_opcodes() -> (r: Vec<u32>)
    ensures
        r@ == priv_opcodes_spec(),
{
    let ops = vec![OP_SYSTEM];
    assert(ops@ =~= priv_opcodes_spec());
    ops
}

/// Builds the decoder of the extension.
pub fn priv_decoder() -> (r: TableDrivenDecoder)
    ensures
        is_priv_decoder(r),
{
    TableDrivenDecoder::new("Priv", priv_instrs(), Some(priv_opcodes()), true)
}

/// Every row of the table lies in the encoding class of the extension.
proof fn lemma_rows()
    by (bit_vector)
    ensures
        privileged_class(EXACT_MASK, MRET_ENCODING),
        privileged_class(EXACT_MASK, SRET_ENCODING),
        privileged_class(EXACT_MASK, WFI_ENCODING),
{
}

/// Every entry of the table lies in the encoding class of the extension.
pub proof fn lemma_table_class()
    ensures
        forall|i: int|
            0 <= i < priv_table().len() ==> privileged_class(
                (#[trigger] priv_table()[i]).mask,
                priv_table()[i].match_val,
            ),
{
    lemma_rows();
}

/// The decoder of the extension is well formed: its entries are, and each
/// lies under one of the decoder's opcodes.
pub proof fn lemma_decoder_wf(d: TableDrivenDecoder)
    requires
        is_priv_decoder(d),
    ensures
        d.wf(),
{
    lemma_table_class();
    let ops = priv_opcodes_spec();
    assert forall|i: int| 0 <= i < d.table().len() implies {
        &&& (#[trigger] d.table()[i]).wf()
        &&& d.table()[i].mask & 0x7F == 0x7F
        &&& ops.contains(d.table()[i].match_val & 0x7F)
    } by {
        let op = d.table()[i].match_val & 0x7F;
        if op == OP_SYSTEM {
            assert(ops[0] == op);
        }
    }
}

} // verus!
