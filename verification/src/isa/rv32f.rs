//! The F extension: single-precision floating point.
use super::fields::lemma_field_ranges;
use super::instr_def::{InstrDef, InstrKind, TableDrivenDecoder};
use super::classes::float_class;
use vstd::prelude::*;

verus! {

/// Opcode of the floating-point loads.
pub const OP_LOAD_FP: u32 = 0b0000111;

/// Opcode of the floating-point stores.
pub const OP_STORE_FP: u32 = 0b0100111;

/// Opcode of `FMADD`.
pub const OP_MADD: u32 = 0b1000011;

/// Opcode of `FMSUB`.
pub const OP_MSUB: u32 = 0b1000111;

/// Opcode of `FNMSUB`.
pub const OP_NMSUB: u32 = 0b1001011;

/// Opcode of `FNMADD`.
pub const OP_NMADD: u32 = 0b1001111;

/// Opcode of the floating-point computations.
pub const OP_FP: u32 = 0b1010011;

/// Mask of the R4 format: opcode and format.
pub const R4_TYPE_MASK: u32 = 0x0600007F;

/// Mask of the floating-point R format: opcode and funct7.
pub const FP_R_TYPE_MASK: u32 = 0xFE00007F;

pub const FADD_S: u32 = 0b0000000;

pub const FSUB_S: u32 = 0b0000100;

pub const FMUL_S: u32 = 0b0001000;

pub const FDIV_S: u32 = 0b0001100;

pub const FSQRT_S: u32 = 0b0101100;

/// Sign injection; funct3 selects the variant.
pub const FSGNJ_S: u32 = 0b0010000;

/// Minimum and maximum; funct3 selects the variant.
pub const FMINMAX_S: u32 = 0b0010100;

/// Float to integer; rs2 selects the signedness.
pub const FCVT_W_S: u32 = 0b1100000;

/// Move to the integer file, and classify.
pub const FMV_X_W: u32 = 0b1110000;

/// Comparisons; funct3 selects the relation.
pub const FCMP_S: u32 = 0b1010000;

/// Integer to float; rs2 selects the signedness.
pub const FCVT_S_W: u32 = 0b1101000;

pub const FMV_W_X: u32 = 0b1111000;

/// The match value of an R4-format instruction: format and opcode in their
/// places.
pub open spec fn spec_r4_match(fmt: u32, opcode: u32) -> u32 {
    (fmt << 25) | opcode
}

/// The match value of a floating-point R-format instruction: funct7 and
/// opcode in their places.
pub open spec fn spec_fp_r_match(funct7: u32, opcode: u32) -> u32 {
    (funct7 << 25) | opcode
}

/// Match value of an R4-format instruction.
pub fn r4_match(fmt: u32, opcode: u32) -> (r: u32)
    ensures
        r == spec_r4_match(fmt, opcode),
{
    (fmt << 25) | opcode
}

/// Match value of a floating-point R-format instruction.
pub fn fp_r_match(funct7: u32, opcode: u32) -> (r: u32)
    ensures
        r == spec_fp_r_match(funct7, opcode),
{
    (funct7 << 25) | opcode
}

/// Bits `[31:27]`: the third source register of the R4 format.
pub open spec fn spec_rs3(raw: u32) -> u8 {
    ((raw >> 27) & 0x1F) as u8
}

/// Bits `[14:12]`: the rounding mode.
pub open spec fn spec_rm(raw: u32) -> u8 {
    ((raw >> 12) & 0x7) as u8
}

/// Bits `[26:25]`: the floating-point format.
pub open spec fn spec_fmt(raw: u32) -> u8 {
    ((raw >> 25) & 0x3) as u8
}

/// Extracts the third source register of a fused multiply-add.
pub fn rs3(raw: u32) -> (r: u8)
    ensures
        r == spec_rs3(raw),
        r < 32,
{
    proof {
        lemma_field_ranges(raw);
    }
    ((raw >> 27) & 0x1F) as u8
}

/// Extracts the rounding-mode field.
pub fn rm(raw: u32) -> (r: u8)
    ensures
        r == spec_rm(raw),
        r < 8,
{
    proof {
        lemma_field_ranges(raw);
    }
    ((raw >> 12) & 0x7) as u8
}

/// Extracts the format field.
pub fn fmt(raw: u32) -> (r: u8)
    ensures
        r == spec_fmt(raw),
        r < 4,
{
    proof {
        lemma_field_ranges(raw);
    }
    ((raw >> 25) & 0x3) as u8
}

/// The rounding mode that an instruction's `rm` field selects.
#[derive(Debug, Clone, Copy, PartialEq, Eq)]
pub enum RoundingMode {
    /// Round to nearest, ties to even.
    Rne,
    /// Round towards zero.
    Rtz,
    /// Round down.
    Rdn,
    /// Round up.
    Rup,
    /// Round to nearest, ties to the larger magnitude.
    Rmm,
    /// Take the mode from the `frm` field of `fcsr`.
    Dyn,
}

impl vstd::std_specs::convert::FromSpecImpl<u8> for RoundingMode {
    open spec fn obeys_from_spec() -> bool {
        true
    }

    /// Field values 0 to 4 select a static mode; every other value stands
    /// for the dynamic mode.
    open spec fn from_spec(val: u8) -> RoundingMode {
        if val == 0 {
            RoundingMode::Rne
        } else if val == 1 {
            RoundingMode::Rtz
        } else if val == 2 {
            RoundingMode::Rdn
        } else if val == 3 {
            RoundingMode::Rup
        } else if val == 4 {
            RoundingMode::Rmm
        } else {
            RoundingMode::Dyn
        }
    }
}

impl From<u8> for RoundingMode {
    fn from(val: u8) -> (r: Self) {
        match val {
            0b000 => RoundingMode::Rne,
            0b001 => RoundingMode::Rtz,
            0b010 => RoundingMode::Rdn,
            0b011 => RoundingMode::Rup,
            0b100 => RoundingMode::Rmm,
            _ => RoundingMode::Dyn,
        }
    }
}

/// The instruction table of the extension, in lookup order.
pub open spec fn rv32f_table() -> Seq<InstrDef> {
    seq![
        InstrDef { name: "FLW", mask: 0x0000707F, match_val: (0b010u32 << 12) | OP_LOAD_FP, kind: InstrKind::Flw },
        InstrDef { name: "FSW", mask: 0x0000707F, match_val: (0b010u32 << 12) | OP_STORE_FP, kind: InstrKind::Fsw },
        InstrDef { name: "FMADD.S", mask: R4_TYPE_MASK, match_val: spec_r4_match(0b00, OP_MADD), kind: InstrKind::FmaddS },
        InstrDef { name: "FMSUB.S", mask: R4_TYPE_MASK, match_val: spec_r4_match(0b00, OP_MSUB), kind: InstrKind::FmsubS },
        InstrDef { name: "FNMSUB.S", mask: R4_TYPE_MASK, match_val: spec_r4_match(0b00, OP_NMSUB), kind: InstrKind::FnmsubS },
        InstrDef { name: "FNMADD.S", mask: R4_TYPE_MASK, match_val: spec_r4_match(0b00, OP_NMADD), kind: InstrKind::FnmaddS },
        InstrDef { name: "FADD.S", mask: FP_R_TYPE_MASK, match_val: spec_fp_r_match(FADD_S, OP_FP), kind: InstrKind::FaddS },
        InstrDef { name: "FSUB.S", mask: FP_R_TYPE_MASK, match_val: spec_fp_r_match(FSUB_S, OP_FP), kind: InstrKind::FsubS },
        InstrDef { name: "FMUL.S", mask: FP_R_TYPE_MASK, match_val: spec_fp_r_match(FMUL_S, OP_FP), kind: InstrKind::FmulS },
        InstrDef { name: "FDIV.S", mask: FP_R_TYPE_MASK, match_val: spec_fp_r_match(FDIV_S, OP_FP), kind: InstrKind::FdivS },
        InstrDef { name: "FSQRT.S", mask: 0xFFF0007F, match_val: spec_fp_r_match(FSQRT_S, OP_FP), kind: InstrKind::FsqrtS },
        InstrDef { name: "FSGNJ.S", mask: 0xFE00707F, match_val: spec_fp_r_match(FSGNJ_S, OP_FP) | (0b000u32 << 12), kind: InstrKind::FsgnjS },
        InstrDef { name: "FSGNJN.S", mask: 0xFE00707F, match_val: spec_fp_r_match(FSGNJ_S, OP_FP) | (0b001u32 << 12), kind: InstrKind::FsgnjnS },
        InstrDef { name: "FSGNJX.S", mask: 0xFE00707F, match_val: spec_fp_r_match(FSGNJ_S, OP_FP) | (0b010u32 << 12), kind: InstrKind::FsgnjxS },
        InstrDef { name: "FMIN.S", mask: 0xFE00707F, match_val: spec_fp_r_match(FMINMAX_S, OP_FP) | (0b000u32 << 12), kind: InstrKind::FminS },
        InstrDef { name: "FMAX.S", mask: 0xFE00707F, match_val: spec_fp_r_match(FMINMAX_S, OP_FP) | (0b001u32 << 12), kind: InstrKind::FmaxS },
        InstrDef { name: "FEQ.S", mask: 0xFE00707F, match_val: spec_fp_r_match(FCMP_S, OP_FP) | (0b010u32 << 12), kind: InstrKind::FeqS },
        InstrDef { name: "FLT.S", mask: 0xFE00707F, match_val: spec_fp_r_match(FCMP_S, OP_FP) | (0b001u32 << 12), kind: InstrKind::FltS },
        InstrDef { name: "FLE.S", mask: 0xFE00707F, match_val: spec_fp_r_match(FCMP_S, OP_FP) | (0b000u32 << 12), kind: InstrKind::FleS },
        InstrDef { name: "FCVT.W.S", mask: 0xFFF0007F, match_val: spec_fp_r_match(FCVT_W_S, OP_FP), kind: InstrKind::FcvtWS },
        InstrDef { name: "FCVT.WU.S", mask: 0xFFF0007F, match_val: spec_fp_r_match(FCVT_W_S, OP_FP) | (1u32 << 20), kind: InstrKind::FcvtWuS },
        InstrDef { name: "FCVT.S.W", mask: 0xFFF0007F, match_val: spec_fp_r_match(FCVT_S_W, OP_FP), kind: InstrKind::FcvtSW },
        InstrDef { name: "FCVT.S.WU", mask: 0xFFF0007F, match_val: spec_fp_r_match(FCVT_S_W, OP_FP) | (1u32 << 20), kind: InstrKind::FcvtSWu },
        InstrDef { name: "FMV.X.W", mask: 0xFFF0707F, match_val: spec_fp_r_match(FMV_X_W, OP_FP) | (0b000u32 << 12), kind: InstrKind::FmvXW },
        InstrDef { name: "FCLASS.S", mask: 0xFFF0707F, match_val: spec_fp_r_match(FMV_X_W, OP_FP) | (0b001u32 << 12), kind: InstrKind::FclassS },
        InstrDef { name: "FMV.W.X", mask: 0xFFF0707F, match_val: spec_fp_r_match(FMV_W_X, OP_FP) | (0b000u32 << 12), kind: InstrKind::FmvWX },
    ]
}

/// The primary opcodes of the extension.
pub open spec fn rv32f_opcodes_spec() -> Seq<u32> {
    seq![OP_LOAD_FP, OP_STORE_FP, OP_MADD, OP_MSUB, OP_NMSUB, OP_NMADD, OP_FP]
}

/// Whether `d` is the decoder of this extension.
pub open spec fn is_rv32f_decoder(d: TableDrivenDecoder) -> bool {
    &&& d.label()@ == "RV32F"@
    &&& d.table() == rv32f_table()
    &&& d.opcode_list() == Some(rv32f_opcodes_spec())
    &&& d.overlap_allowed() == false
}

/// Builds the instruction table.
pub fn rv32f_instrs() -> (r: Vec<InstrDef>)
    ensures
        r@ == rv32f_table(),
{
    let table = vec![
        InstrDef::new("FLW", 0x0000707F, (0b010u32 << 12) | OP_LOAD_FP, InstrKind::Flw),
        InstrDef::new("FSW", 0x0000707F, (0b010u32 << 12) | OP_STORE_FP, InstrKind::Fsw),
        InstrDef::new("FMADD.S", R4_TYPE_MASK, r4_match(0b00, OP_MADD), InstrKind::FmaddS),
        InstrDef::new("FMSUB.S", R4_TYPE_MASK, r4_match(0b00, OP_MSUB), InstrKind::FmsubS),
        InstrDef::new("FNMSUB.S", R4_TYPE_MASK, r4_match(0b00, OP_NMSUB), InstrKind::FnmsubS),
        InstrDef::new("FNMADD.S", R4_TYPE_MASK, r4_match(0b00, OP_NMADD), InstrKind::FnmaddS),
        InstrDef::new("FADD.S", FP_R_TYPE_MASK, fp_r_match(FADD_S, OP_FP), InstrKind::FaddS),
        InstrDef::new("FSUB.S", FP_R_TYPE_MASK, fp_r_match(FSUB_S, OP_FP), InstrKind::FsubS),
        InstrDef::new("FMUL.S", FP_R_TYPE_MASK, fp_r_match(FMUL_S, OP_FP), InstrKind::FmulS),
        InstrDef::new("FDIV.S", FP_R_TYPE_MASK, fp_r_match(FDIV_S, OP_FP), InstrKind::FdivS),
        InstrDef::new("FSQRT.S", 0xFFF0007F, fp_r_match(FSQRT_S, OP_FP), InstrKind::FsqrtS),
        InstrDef::new("FSGNJ.S", 0xFE00707F, fp_r_match(FSGNJ_S, OP_FP) | (0b000u32 << 12), InstrKind::FsgnjS),
        InstrDef::new("FSGNJN.S", 0xFE00707F, fp_r_match(FSGNJ_S, OP_FP) | (0b001u32 << 12), InstrKind::FsgnjnS),
        InstrDef::new("FSGNJX.S", 0xFE00707F, fp_r_match(FSGNJ_S, OP_FP) | (0b010u32 << 12), InstrKind::FsgnjxS),
        InstrDef::new("FMIN.S", 0xFE00707F, fp_r_match(FMINMAX_S, OP_FP) | (0b000u32 << 12), InstrKind::FminS),
        InstrDef::new("FMAX.S", 0xFE00707F, fp_r_match(FMINMAX_S, OP_FP) | (0b001u32 << 12), InstrKind::FmaxS),
        InstrDef::new("FEQ.S", 0xFE00707F, fp_r_match(FCMP_S, OP_FP) | (0b010u32 << 12), InstrKind::FeqS),
        InstrDef::new("FLT.S", 0xFE00707F, fp_r_match(FCMP_S, OP_FP) | (0b001u32 << 12), InstrKind::FltS),
        InstrDef::new("FLE.S", 0xFE00707F, fp_r_match(FCMP_S, OP_FP) | (0b000u32 << 12), InstrKind::FleS),
        InstrDef::new("FCVT.W.S", 0xFFF0007F, fp_r_match(FCVT_W_S, OP_FP), InstrKind::FcvtWS),
        InstrDef::new("FCVT.WU.S", 0xFFF0007F, fp_r_match(FCVT_W_S, OP_FP) | (1u32 << 20), InstrKind::FcvtWuS),
        InstrDef::new("FCVT.S.W", 0xFFF0007F, fp_r_match(FCVT_S_W, OP_FP), InstrKind::FcvtSW),
        InstrDef::new("FCVT.S.WU", 0xFFF0007F, fp_r_match(FCVT_S_W, OP_FP) | (1u32 << 20), InstrKind::FcvtSWu),
        InstrDef::new("FMV.X.W", 0xFFF0707F, fp_r_match(FMV_X_W, OP_FP) | (0b000u32 << 12), InstrKind::FmvXW),
        InstrDef::new("FCLASS.S", 0xFFF0707F, fp_r_match(FMV_X_W, OP_FP) | (0b001u32 << 12), InstrKind::FclassS),
        InstrDef::new("FMV.W.X", 0xFFF0707F, fp_r_match(FMV_W_X, OP_FP) | (0b000u32 << 12), InstrKind::FmvWX),
    ];
    assert(table@ =~= rv32f_table());
    table
}

/// Lists the primary opcodes of the extension.
pub fn rv32f_opcodes() -> (r: Vec<u32>)
    ensures
        r@ == rv32f_opcodes_spec(),
{
    let ops = vec![OP_LOAD_FP, OP_STORE_FP, OP_MADD, OP_MSUB, OP_NMSUB, OP_NMADD, OP_FP];
    assert(ops@ =~= rv32f_opcodes_spec());
    ops
}

/// Builds the decoder of the extension.
pub fn rv32f_decoder() -> (r: TableDrivenDecoder)
    ensures
        is_rv32f_decoder(r),
{
    TableDrivenDecoder::new("RV32F", rv32f_instrs(), Some(rv32f_opcodes()), false)
}

/// Every row of the table lies in the encoding class of the extension.
proof fn lemma_rows()
    by (bit_vector)
    ensures
        float_class(0x0000707F, (0b010u32 << 12) | OP_LOAD_FP),
        float_class(0x0000707F, (0b010u32 << 12) | OP_STORE_FP),
        float_class(R4_TYPE_MASK, spec_r4_match(0b00, OP_MADD)),
        float_class(R4_TYPE_MASK, spec_r4_match(0b00, OP_MSUB)),
        float_class(R4_TYPE_MASK, spec_r4_match(0b00, OP_NMSUB)),
        float_class(R4_TYPE_MASK, spec_r4_match(0b00, OP_NMADD)),
        float_class(FP_R_TYPE_MASK, spec_fp_r_match(FADD_S, OP_FP)),
        float_class(FP_R_TYPE_MASK, spec_fp_r_match(FSUB_S, OP_FP)),
        float_class(FP_R_TYPE_MASK, spec_fp_r_match(FMUL_S, OP_FP)),
        float_class(FP_R_TYPE_MASK, spec_fp_r_match(FDIV_S, OP_FP)),
        float_class(0xFFF0007F, spec_fp_r_match(FSQRT_S, OP_FP)),
        float_class(0xFE00707F, spec_fp_r_match(FSGNJ_S, OP_FP) | (0b000u32 << 12)),
        float_class(0xFE00707F, spec_fp_r_match(FSGNJ_S, OP_FP) | (0b001u32 << 12)),
        float_class(0xFE00707F, spec_fp_r_match(FSGNJ_S, OP_FP) | (0b010u32 << 12)),
        float_class(0xFE00707F, spec_fp_r_match(FMINMAX_S, OP_FP) | (0b000u32 << 12)),
        float_class(0xFE00707F, spec_fp_r_match(FMINMAX_S, OP_FP) | (0b001u32 << 12)),
        float_class(0xFE00707F, spec_fp_r_match(FCMP_S, OP_FP) | (0b010u32 << 12)),
        float_class(0xFE00707F, spec_fp_r_match(FCMP_S, OP_FP) | (0b001u32 << 12)),
        float_class(0xFE00707F, spec_fp_r_match(FCMP_S, OP_FP) | (0b000u32 << 12)),
        float_class(0xFFF0007F, spec_fp_r_match(FCVT_W_S, OP_FP)),
        float_class(0xFFF0007F, spec_fp_r_match(FCVT_W_S, OP_FP) | (1u32 << 20)),
        float_class(0xFFF0007F, spec_fp_r_match(FCVT_S_W, OP_FP)),
        float_class(0xFFF0007F, spec_fp_r_match(FCVT_S_W, OP_FP) | (1u32 << 20)),
        float_class(0xFFF0707F, spec_fp_r_match(FMV_X_W, OP_FP) | (0b000u32 << 12)),
        float_class(0xFFF0707F, spec_fp_r_match(FMV_X_W, OP_FP) | (0b001u32 << 12)),
        float_class(0xFFF0707F, spec_fp_r_match(FMV_W_X, OP_FP) | (0b000u32 << 12)),
{
}

/// Every entry of the table lies in the encoding class of the extension.
pub proof fn lemma_table_class()
    ensures
        forall|i: int|
            0 <= i < rv32f_table().len() ==> float_class(
                (#[trigger] rv32f_table()[i]).mask,
                rv32f_table()[i].match_val,
            ),
{
    lemma_rows();
}

/// The decoder of the extension is well formed: its entries are, and each
/// lies under one of the decoder's opcodes.
pub proof fn lemma_decoder_wf(d: TableDrivenDecoder)
    requires
        is_rv32f_decoder(d),
    ensures
        d.wf(),
{
    lemma_table_class();
    let ops = rv32f_opcodes_spec();
    assert forall|i: int| 0 <= i < d.table().len() implies {
        &&& (#[trigger] d.table()[i]).wf()
        &&& d.table()[i].mask & 0x7F == 0x7F
        &&& ops.contains(d.table()[i].match_val & 0x7F)
    } by {
        let op = d.table()[i].match_val & 0x7F;
        if op == OP_LOAD_FP {
            assert(ops[0] == op);
        } else if op == OP_STORE_FP {
            assert(ops[1] == op);
        } else if op == OP_MADD {
            assert(ops[2] == op);
        } else if op == OP_MSUB {
            assert(ops[3] == op);
        } else if op == OP_NMSUB {
            assert(ops[4] == op);
        } else if op == OP_NMADD {
            assert(ops[5] == op);
        } else {
            assert(ops[6] == op);
        }
    }
}

} // verus!
