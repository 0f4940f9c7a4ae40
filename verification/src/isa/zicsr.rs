//! The Zicsr extension: reading and writing control and status registers.
use super::fields::OP_SYSTEM;
use super::instr_def::{i_match, spec_i_match, InstrDef, InstrKind, TableDrivenDecoder, I_TYPE_MASK};
use super::classes::csr_class;
use vstd::prelude::*;

verus! {

pub const CSR_CYCLE: u16 = 0xC00;

pub const CSR_TIME: u16 = 0xC01;

pub const CSR_INSTRET: u16 = 0xC02;

pub const CSR_CYCLEH: u16 = 0xC80;

pub const CSR_TIMEH: u16 = 0xC81;

pub const CSR_INSTRETH: u16 = 0xC82;

pub const CSR_MVENDORID: u16 = 0xF11;

pub const CSR_MARCHID: u16 = 0xF12;

pub const CSR_MIMPID: u16 = 0xF13;

pub const CSR_MHARTID: u16 = 0xF14;

pub const CSR_MSTATUS: u16 = 0x300;

pub const CSR_MISA: u16 = 0x301;

pub const CSR_MEDELEG: u16 = 0x302;

pub const CSR_MIDELEG: u16 = 0x303;

pub const CSR_MIE: u16 = 0x304;

pub const CSR_MTVEC: u16 = 0x305;

pub const CSR_MCOUNTEREN: u16 = 0x306;

pub const CSR_MSCRATCH: u16 = 0x340;

pub const CSR_MEPC: u16 = 0x341;

pub const CSR_MCAUSE: u16 = 0x342;

pub const CSR_MTVAL: u16 = 0x343;

pub const CSR_MIP: u16 = 0x344;

pub const CSR_SSTATUS: u16 = 0x100;

pub const CSR_SIE: u16 = 0x104;

pub const CSR_STVEC: u16 = 0x105;

pub const CSR_SCOUNTEREN: u16 = 0x106;

pub const CSR_SSCRATCH: u16 = 0x140;

pub const CSR_SEPC: u16 = 0x141;

pub const CSR_SCAUSE: u16 = 0x142;

pub const CSR_STVAL: u16 = 0x143;

pub const CSR_SIP: u16 = 0x144;

pub const CSR_SATP: u16 = 0x180;

/// The instruction table of the extension, in lookup order.
pub open spec fn zicsr_table() -> Seq<InstrDef> {
    seq![
        InstrDef { name: "CSRRW", mask: I_TYPE_MASK, match_val: spec_i_match(0b001, OP_SYSTEM), kind: InstrKind::Csrrw },
        InstrDef { name: "CSRRS", mask: I_TYPE_MASK, match_val: spec_i_match(0b010, OP_SYSTEM), kind: InstrKind::Csrrs },
        InstrDef { name: "CSRRC", mask: I_TYPE_MASK, match_val: spec_i_match(0b011, OP_SYSTEM), kind: InstrKind::Csrrc },
        InstrDef { name: "CSRRWI", mask: I_TYPE_MASK, match_val: spec_i_match(0b101, OP_SYSTEM), kind: InstrKind::Csrrwi },
        InstrDef { name: "CSRRSI", mask: I_TYPE_MASK, match_val: spec_i_match(0b110, OP_SYSTEM), kind: InstrKind::Csrrsi },
        InstrDef { name: "CSRRCI", mask: I_TYPE_MASK, match_val: spec_i_match(0b111, OP_SYSTEM), kind: InstrKind::Csrrci },
    ]
}

/// The primary opcodes of the extension.
pub open spec fn zicsr_opcodes_spec() -> Seq<u32> {
    seq![OP_SYSTEM]
}

/// Whether `d` is the decoder of this extension.
pub open spec fn is_zicsr_decoder(d: TableDrivenDecoder) -> bool {
    &&& d.label()@ == "Zicsr"@
    &&& d.table() == zicsr_table()
    &&& d.opcode_list() == Some(zicsr_opcodes_spec())
    &&& d.overlap_allowed() == true
}

/// Builds the instruction table.
pub fn zicsr_instrs() -> (r: Vec<InstrDef>)
    ensures
        r@ == zicsr_table(),
{
    let table = vec![
        InstrDef::new("CSRRW", I_TYPE_MASK, i_match(0b001, OP_SYSTEM), InstrKind::Csrrw),
        InstrDef::new("CSRRS", I_TYPE_MASK, i_match(0b010, OP_SYSTEM), InstrKind::Csrrs),
        InstrDef::new("CSRRC", I_TYPE_MASK, i_match(0b011, OP_SYSTEM), InstrKind::Csrrc),
        InstrDef::new("CSRRWI", I_TYPE_MASK, i_match(0b101, OP_SYSTEM), InstrKind::Csrrwi),
        InstrDef::new("CSRRSI", I_TYPE_MASK, i_match(0b110, OP_SYSTEM), InstrKind::Csrrsi),
        InstrDef::new("CSRRCI", I_TYPE_MASK, i_match(0b111, OP_SYSTEM), InstrKind::Csrrci),
    ];
    assert(table@ =~= zicsr_table());
    table
}

/// Lists the primary opcodes of the extension.
pub fn zicsr_opcodes() -> (r: Vec<u32>)
    ensures
        r@ == zicsr_opcodes_spec(),
{
    let ops = vec![OP_SYSTEM];
    assert(ops@ =~= zicsr_opcodes_spec());
    ops
}

/// Builds the decoder of the extension.
pub fn zicsr_decoder() -> (r: TableDrivenDecoder)
    ensures
        is_zicsr_decoder(r),
{
    TableDrivenDecoder::new("Zicsr", zicsr_instrs(), Some(zicsr_opcodes()), true)
}

/// Every row of the table lies in the encoding class of the extension.
proof fn lemma_rows()
    by (bit_vector)
    ensures
        csr_class(I_TYPE_MASK, spec_i_match(0b001, OP_SYSTEM)),
        csr_class(I_TYPE_MASK, spec_i_match(0b010, OP_SYSTEM)),
        csr_class(I_TYPE_MASK, spec_i_match(0b011, OP_SYSTEM)),
        csr_class(I_TYPE_MASK, spec_i_match(0b101, OP_SYSTEM)),
        csr_class(I_TYPE_MASK, spec_i_match(0b110, OP_SYSTEM)),
        csr_class(I_TYPE_MASK, spec_i_match(0b111, OP_SYSTEM)),
{
}

/// Every entry of the table lies in the encoding class of the extension.
pub proof fn lemma_table_class()
    ensures
        forall|i: int|
            0 <= i < zicsr_table().len() ==> csr_class(
                (#[trigger] zicsr_table()[i]).mask,
                zicsr_table()[i].match_val,
            ),
{
    lemma_rows();
}

/// The decoder of the extension is well formed: its entries are, and each
/// lies under one of the decoder's opcodes.
pub proof fn lemma_decoder_wf(d: TableDrivenDecoder)
    requires
        is_zicsr_decoder(d),
    ensures
        d.wf(),
{
    lemma_table_class();
    let ops = zicsr_opcodes_spec();
    assert forall|i: int| 0 <= i < d.table().len() implies {
        &&& (#[trigger] d.table()[i]).wf()
        &&& d.table()[i].mask & 0x7F == 0x7F
        &&& ops.contains(d.table()[i].match_val & 0x7F)
    } by {
        let op = d.table()[i].match_val & 0x7F;
        if op == OP_SYSTEM {
            assert(ops[0] == op);
        }
    }
}

} // verus!
