//! What holds of every registry of table-driven decoders.
use super::decoder::{claims, decodes, first_decoding, lemma_first_decoding, registry_decode};
use super::decoder::InstrDecoder;
use super::fields::spec_opcode;
use super::instr::{DecodedInstr, RvInstr};
use super::instr_def::{first_match, lemma_first_match, table_decode, InstrDef, TableDrivenDecoder};
use vstd::prelude::*;

verus! {

/// Whether entry `e` of decoder `d` claims `raw`.
pub open spec fn entry_matches(decs: Seq<TableDrivenDecoder>, d: int, e: int, raw: u32) -> bool {
    &&& 0 <= d < decs.len()
    &&& 0 <= e < decs[d].table().len()
    &&& decs[d].table()[e].spec_matches(raw)
}

/// An entry that inspects the whole opcode field claims only words of its
/// own opcode.
proof fn lemma_match_fixes_opcode(entry: InstrDef, raw: u32)
    requires
        entry.mask & 0x7F == 0x7F,
        entry.spec_matches(raw),
    ensures
        spec_opcode(raw) == entry.match_val & 0x7F,
{
    let (mask, value) = (entry.mask, entry.match_val);
    assert((mask & 0x7F == 0x7F && raw & mask == value) ==> raw & 0x7F == value & 0x7F)
        by (bit_vector);
}

/// A well-formed decoder stands under the opcode of every word that one of
/// its entries claims.
pub proof fn lemma_claims_own_words(decoder: TableDrivenDecoder, e: int, raw: u32)
    requires
        decoder.wf(),
        0 <= e < decoder.table().len(),
        decoder.table()[e].spec_matches(raw),
    ensures
        claims(decoder, spec_opcode(raw)),
{
    if decoder.opcode_list().is_some() {
        lemma_match_fixes_opcode(decoder.table()[e], raw);
    }
}

/// Every instruction that a table decodes has five-bit register indices and
/// shift amounts.
pub proof fn lemma_decoded_wf(decs: Seq<TableDrivenDecoder>, raw: u32)
    ensures
        registry_decode(decs, raw).instr.wf(),
{
    lemma_first_decoding(decs, raw, 0);
    match first_decoding(decs, raw, 0) {
        Some(d) => {
            lemma_first_match(decs[d].table(), raw, 0);
            let e = first_match(decs[d].table(), raw, 0).unwrap();
            decs[d].table()[e].kind.lemma_build_wf(raw);
        },
        None => {},
    }
}

/// A word that exactly one entry of all registered decoders claims is
/// decoded by that entry.
pub proof fn lemma_unique_match_decides(decs: Seq<TableDrivenDecoder>, raw: u32, d: int, e: int)
    requires
        entry_matches(decs, d, e, raw),
        decs[d].wf(),
        forall|d2: int, e2: int| #[trigger]
            entry_matches(decs, d2, e2, raw) ==> d2 == d && e2 == e,
    ensures
        registry_decode(decs, raw) == decs[d].table()[e].spec_decode(raw),
{
    lemma_claims_own_words(decs[d], e, raw);
    lemma_first_match(decs[d].table(), raw, 0);
    match first_match(decs[d].table(), raw, 0) {
        Some(found) => {
            assert(entry_matches(decs, d, found, raw));
        },
        None => {},
    }
    assert(decodes(decs[d], raw));
    lemma_first_decoding(decs, raw, 0);
    let first = first_decoding(decs, raw, 0).unwrap();
    if first != d {
        lemma_first_match(decs[first].table(), raw, 0);
        let found = first_match(decs[first].table(), raw, 0).unwrap();
        assert(entry_matches(decs, first, found, raw));
    }
}

/// A word that no entry of any registered decoder claims decodes to the
/// illegal instruction that carries the word.
pub proof fn lemma_unclaimed_is_illegal(decs: Seq<TableDrivenDecoder>, raw: u32)
    requires
        forall|d: int, e: int| !#[trigger] entry_matches(decs, d, e, raw),
    ensures
        registry_decode(decs, raw) == (DecodedInstr { raw, instr: RvInstr::Illegal { raw } }),
{
    lemma_first_decoding(decs, raw, 0);
    match first_decoding(decs, raw, 0) {
        Some(d) => {
            lemma_first_match(decs[d].table(), raw, 0);
            let found = first_match(decs[d].table(), raw, 0).unwrap();
            assert(entry_matches(decs, d, found, raw));
        },
        None => {},
    }
}

} // verus!
