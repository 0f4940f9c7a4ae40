//! The decoder interface and the registry of decoders.
//!
//! The registry keeps its decoders in registration order and, for each of
//! the 128 primary opcodes, the list of decoders that stand under it.  A
//! word is decoded by the first decoder under its opcode that claims it.
use super::fields::{lemma_field_ranges, spec_opcode};
use super::instr::{DecodedInstr, RvInstr};
use super::instr_def::TableDrivenDecoder;
use super::rv32i::{is_rv32i_decoder, rv32i_decoder};
use vstd::prelude::*;

verus! {

/// A decoder of one instruction-set extension.
pub trait InstrDecoder {
    /// What the decoder makes of `raw`; `None` where it does not claim it.
    spec fn spec_decode(&self, raw: u32) -> Option<DecodedInstr>;

    /// The primary opcodes that the decoder declares; `None` for a wildcard.
    spec fn spec_handled_opcodes(&self) -> Option<Seq<u32>>;

    /// Whether the decoder accepts other decoders on its opcodes.
    spec fn spec_allow_opcode_overlap(&self) -> bool;

    /// The characters of the decoder's label.
    spec fn spec_name(&self) -> Seq<char>;

    /// The decoder's label.
    fn name(&self) -> (r: &str)
        ensures
            r@ == self.spec_name(),
    ;

    /// Tries to decode `raw`.
    fn decode(&self, raw: u32) -> (r: Option<DecodedInstr>)
        ensures
            r == self.spec_decode(raw),
            r matches Some(d) ==> d.instr.wf(),
    ;

    /// The primary opcodes that the decoder handles, `None` for all of them.
    fn handled_opcodes(&self) -> (r: Option<&[u32]>)
        ensures
            match r {
                Some(ops) => self.spec_handled_opcodes() == Some(ops@),
                None => self.spec_handled_opcodes().is_none(),
            },
    ;

    /// Whether the decoder may share an opcode with other decoders.
    fn allow_opcode_overlap(&self) -> (r: bool)
        ensures
            r == self.spec_allow_opcode_overlap(),
    ;
}

/// Why a decoder was not registered.
#[derive(Debug, Clone, Copy, PartialEq, Eq)]
pub enum RegisterError {
    /// The decoder declares `opcode`, which is occupied, and either side
    /// refuses to share it.
    OpcodeTaken { opcode: u32 },
    /// A wildcard decoder met an occupied registry that it may not share.
    WildcardOverlap,
}

/// Whether decoder `d` stands under the primary opcode `op`.
pub open spec fn claims<D: InstrDecoder>(d: D, op: u32) -> bool {
    match d.spec_handled_opcodes() {
        Some(ops) => ops.contains(op),
        None => true,
    }
}

/// Whether decoder `d` stands under the opcode of `raw` and decodes it.
pub open spec fn decodes<D: InstrDecoder>(d: D, raw: u32) -> bool {
    claims(d, spec_opcode(raw)) && d.spec_decode(raw).is_some()
}

/// Some registered decoder stands under `op`.
pub open spec fn occupied<D: InstrDecoder>(decs: Seq<D>, op: u32) -> bool {
    exists|i: int| 0 <= i < decs.len() && claims(#[trigger] decs[i], op)
}

/// Some registered decoder under `op` refuses to share it.
pub open spec fn blocked<D: InstrDecoder>(decs: Seq<D>, op: u32) -> bool {
    exists|i: int|
        0 <= i < decs.len() && claims(#[trigger] decs[i], op)
            && !decs[i].spec_allow_opcode_overlap()
}

/// Registering a decoder with the given overlap permission on `op` would
/// create an ambiguity.
pub open spec fn opcode_conflict<D: InstrDecoder>(decs: Seq<D>, allow: bool, op: u32) -> bool {
    op < 128 && occupied(decs, op) && (blocked(decs, op) || !allow)
}

/// Whether `new` may join the decoders `decs`.
///
/// A decoder with an opcode list may, where none of its opcodes is in
/// conflict.  A wildcard may, where no opcode is occupied, or where no
/// registered decoder refuses to share and the wildcard shares too.
pub open spec fn registrable<D: InstrDecoder>(decs: Seq<D>, new: D) -> bool {
    match new.spec_handled_opcodes() {
        Some(ops) => forall|k: int|
            0 <= k < ops.len() ==> !opcode_conflict(
                decs,
                new.spec_allow_opcode_overlap(),
                #[trigger] ops[k],
            ),
        None => (forall|op: u32| op < 128 ==> !#[trigger] occupied(decs, op)) || ((forall|op: u32|
            op < 128 ==> !#[trigger] blocked(decs, op)) && new.spec_allow_opcode_overlap()),
    }
}

/// Whether `error` is the error with which `new` is refused by the decoders
/// `decs`: for a decoder with an opcode list, the first opcode of the list
/// that is in conflict; for a wildcard, the overlap.
pub open spec fn refused_with<D: InstrDecoder>(decs: Seq<D>, new: D, error: RegisterError) -> bool {
    &&& !registrable(decs, new)
    &&& match (new.spec_handled_opcodes(), error) {
        (Some(ops), RegisterError::OpcodeTaken { opcode }) => exists|k: int|
            0 <= k < ops.len() && #[trigger] ops[k] == opcode && opcode_conflict(
                decs,
                new.spec_allow_opcode_overlap(),
                opcode,
            ) && forall|j: int|
                0 <= j < k ==> !opcode_conflict(
                    decs,
                    new.spec_allow_opcode_overlap(),
                    #[trigger] ops[j],
                ),
        (None, RegisterError::WildcardOverlap) => true,
        _ => false,
    }
}

/// The first decoder from index `from` on that stands under the opcode of
/// `raw` and decodes it.
pub open spec fn first_decoding<D: InstrDecoder>(decs: Seq<D>, raw: u32, from: int) -> Option<int>
    decreases decs.len() - from,
{
    if from < 0 || from >= decs.len() {
        None
    } else if decodes(decs[from], raw) {
        Some(from)
    } else {
        first_decoding(decs, raw, from + 1)
    }
}

/// What a sequence of decoders makes of `raw`: the result of the first
/// decoder, in registration order, that stands under the word's opcode and
/// claims the word; the illegal instruction where there is none.
pub open spec fn registry_decode<D: InstrDecoder>(decs: Seq<D>, raw: u32) -> DecodedInstr {
    match first_decoding(decs, raw, 0) {
        Some(i) => decs[i].spec_decode(raw).unwrap(),
        None => DecodedInstr { raw, instr: RvInstr::Illegal { raw } },
    }
}

/// `first_decoding` skips decoders that do not decode the word.
pub proof fn lemma_first_decoding_skip<D: InstrDecoder>(decs: Seq<D>, raw: u32, from: int, to: int)
    requires
        0 <= from <= to <= decs.len(),
        forall|j: int| from <= j < to ==> !decodes(#[trigger] decs[j], raw),
    ensures
        first_decoding(decs, raw, from) == first_decoding(decs, raw, to),
    decreases to - from,
{
    if from < to {
        lemma_first_decoding_skip(decs, raw, from + 1, to);
    }
}

/// `first_decoding` returns a decoder that decodes the word, preceded by none
/// that does; it returns nothing only where no decoder decodes the word.
pub proof fn lemma_first_decoding<D: InstrDecoder>(decs: Seq<D>, raw: u32, from: int)
    requires
        0 <= from,
    ensures
        match first_decoding(decs, raw, from) {
            Some(i) => from <= i < decs.len() && decodes(decs[i], raw) && forall|j: int|
                from <= j < i ==> !decodes(#[trigger] decs[j], raw),
            None => forall|j: int| from <= j < decs.len() ==> !decodes(#[trigger] decs[j], raw),
        },
    decreases decs.len() - from,
{
    if from < decs.len() && !decodes(decs[from], raw) {
        lemma_first_decoding(decs, raw, from + 1);
    }
}

/// A set of decoders, indexed by primary opcode.
pub struct DecoderRegistry<D: InstrDecoder = TableDrivenDecoder> {
    decoders: Vec<D>,
    opcode_map: Vec<Vec<usize>>,
}

impl<D: InstrDecoder> DecoderRegistry<D> {
    /// The registered decoders, in registration order.
    pub closed spec fn view(&self) -> Seq<D> {
        self.decoders@
    }

    /// The bucket of opcode `op` as a sequence of decoder indices.
    spec fn bucket(&self, op: int) -> Seq<usize> {
        self.opcode_map@[op]@
    }

    /// The opcode index agrees with the decoders: each of the 128 buckets
    /// lists, in ascending order, exactly the decoders that stand under its
    /// opcode.
    pub closed spec fn wf(&self) -> bool {
        &&& self.opcode_map@.len() == 128
        &&& forall|op: int, k: int|
            0 <= op < 128 && 0 <= k < self.bucket(op).len() ==> {
                &&& (#[trigger] self.bucket(op)[k]) < self.decoders@.len()
                &&& claims(self.decoders@[self.bucket(op)[k] as int], op as u32)
            }
        &&& forall|op: int, k1: int, k2: int|
            0 <= op < 128 && 0 <= k1 <= k2 < self.bucket(op).len() ==> (
            #[trigger] self.bucket(op)[k1]) <= (#[trigger] self.bucket(op)[k2])
        &&& forall|op: int, i: int|
            0 <= op < 128 && 0 <= i < self.decoders@.len() && #[trigger] claims(
                self.decoders@[i],
                op as u32,
            ) ==> exists|k: int|
                0 <= k < self.bucket(op).len() && (#[trigger] self.bucket(op)[k]) == i
    }

    /// What the registry decodes `raw` to.
    pub open spec fn spec_decode(&self, raw: u32) -> DecodedInstr {
        registry_decode(self@, raw)
    }

    /// A registry without decoders.
    pub fn new() -> (r: Self)
        ensures
            r.wf(),
            r@ == Seq::<D>::empty(),
    {
        let mut opcode_map: Vec<Vec<usize>> = Vec::new();
        let mut op: usize = 0;
        while op < 128
            invariant
                op <= 128,
                opcode_map@.len() == op,
                forall|i: int| 0 <= i < op ==> (#[trigger] opcode_map@[i])@.len() == 0,
            decreases 128 - op,
        {
            opcode_map.push(Vec::new());
            op += 1;
        }
        DecoderRegistry { decoders: Vec::new(), opcode_map }
    }

    /// Whether a registered decoder under `op` refuses to share it.
    fn bucket_blocked(&self, op: usize) -> (r: bool)
        requires
            self.wf(),
            op < 128,
        ensures
            r == blocked(self@, op as u32),
    {
        let mut k: usize = 0;
        while k < self.opcode_map[op].len()
            invariant
                self.wf(),
                op < 128,
                k <= self.bucket(op as int).len(),
                forall|j: int|
                    0 <= j < k ==> self.decoders@[(#[trigger] self.bucket(
                        op as int,
                    )[j]) as int].spec_allow_opcode_overlap(),
            decreases self.bucket(op as int).len() - k,
        {
            let idx = self.opcode_map[op][k];
            if !self.decoders[idx].allow_opcode_overlap() {
                assert(claims(self@[idx as int], op as u32));
                return true;
            }
            k += 1;
        }
        assert(!blocked(self@, op as u32)) by {
            if blocked(self@, op as u32) {
                let i = choose|i: int|
                    0 <= i < self@.len() && claims(#[trigger] self@[i], op as u32)
                        && !self@[i].spec_allow_opcode_overlap();
                let k0 = choose|k0: int|
                    0 <= k0 < self.bucket(op as int).len() && (#[trigger] self.bucket(
                        op as int,
                    )[k0]) == i;
                assert(self.decoders@[self.bucket(op as int)[k0] as int].spec_allow_opcode_overlap(
                ));
            }
        }
        false
    }

    /// Whether a registered decoder stands under `op`.
    fn bucket_occupied(&self, op: usize) -> (r: bool)
        requires
            self.wf(),
            op < 128,
        ensures
            r == occupied(self@, op as u32),
    {
        let r = self.opcode_map[op].len() > 0;
        proof {
            if r {
                let i = self.bucket(op as int)[0];
                assert(claims(self@[i as int], op as u32));
            } else if occupied(self@, op as u32) {
                let i = choose|i: int| 0 <= i < self@.len() && claims(#[trigger] self@[i], op as u32);
                let k0 = choose|k0: int|
                    0 <= k0 < self.bucket(op as int).len() && (#[trigger] self.bucket(
                        op as int,
                    )[k0]) == i;
            }
        }
        r
    }

    /// Registers `decoder` behind the decoders already present, unless that
    /// would make an opcode ambiguous.
    ///
    /// On an error the registry is unchanged.  For a decoder with an opcode
    /// list the error names the first opcode of the list that is in conflict.
    pub fn register(&mut self, decoder: D) -> (r: Result<(), RegisterError>)
        requires
            old(self).wf(),
        ensures
            final(self).wf(),
            r.is_ok() <==> registrable(old(self)@, decoder),
            r.is_ok() ==> final(self)@ == old(self)@.push(decoder),
            r.is_err() ==> final(self)@ == old(self)@,
            r matches Err(error) ==> refused_with(old(self)@, decoder, error),
    {
        let idx = self.decoders.len();
        let allow = decoder.allow_opcode_overlap();
        match decoder.handled_opcodes() {
            Some(ops) => {
                let mut k: usize = 0;
                while k < ops.len()
                    invariant
                        self.wf(),
                        *self == *old(self),
                        allow == decoder.spec_allow_opcode_overlap(),
                        decoder.spec_handled_opcodes() == Some(ops@),
                        k <= ops.len(),
                        forall|j: int|
                            0 <= j < k ==> !opcode_conflict(self@, allow, #[trigger] ops@[j]),
                    decreases ops.len() - k,
                {
                    let op = ops[k];
                    if op < 128 && self.bucket_occupied(op as usize) && (self.bucket_blocked(
                        op as usize,
                    ) || !allow) {
                        proof {
                            let listed = decoder.spec_handled_opcodes().unwrap();
                            assert(listed[k as int] == op);
                            assert(opcode_conflict(
                                old(self)@,
                                decoder.spec_allow_opcode_overlap(),
                                listed[k as int],
                            ));
                        }
                        return Err(RegisterError::OpcodeTaken { opcode: op });
                    }
                    k += 1;
                }
            },
            None => {
                let mut any_occupied = false;
                let mut any_blocked = false;
                let mut op: usize = 0;
                while op < 128
                    invariant
                        self.wf(),
                        *self == *old(self),
                        op <= 128,
                        any_occupied <==> exists|o: u32| o < op && #[trigger] occupied(self@, o),
                        any_blocked <==> exists|o: u32| o < op && #[trigger] blocked(self@, o),
                    decreases 128 - op,
                {
                    if self.bucket_occupied(op) {
                        any_occupied = true;
                    }
                    if self.bucket_blocked(op) {
                        any_blocked = true;
                    }
                    op += 1;
                }
                if any_occupied && (any_blocked || !allow) {
                    return Err(RegisterError::WildcardOverlap);
                }
            },
        }
        self.decoders.push(decoder);
        let ghost before = *old(self);
        match self.decoders[idx].handled_opcodes() {
            Some(ops) => {
                let mut k: usize = 0;
                while k < ops.len()
                    invariant
                        before.wf(),
                        idx == before.decoders@.len(),
                        self.decoders@ == before.decoders@.push(decoder),
                        decoder.spec_handled_opcodes() == Some(ops@),
                        k <= ops.len(),
                        self.opcode_map@.len() == 128,
                        forall|op: int|
                            0 <= op < 128 ==> {
                                &&& before.bucket(op).len() <= (#[trigger] self.bucket(op)).len()
                                &&& ((before.bucket(op).len() < self.bucket(op).len())
                                    <==> ops@.take(k as int).contains(op as u32))
                            },
                        forall|op: int, j: int|
                            0 <= op < 128 && 0 <= j < self.bucket(op).len() ==> (
                            #[trigger] self.bucket(op)[j]) == (if j < before.bucket(op).len() {
                                before.bucket(op)[j]
                            } else {
                                idx
                            }),
                    decreases ops.len() - k,
                {
                    let op = ops[k];
                    assert(ops@.take(k as int + 1) =~= ops@.take(k as int).push(op));
                    let ghost head = *self;
                    if op < 128 {
                        self.opcode_map[op as usize].push(idx);
                    }
                    assert(forall|o: int|
                        0 <= o < 128 ==> (#[trigger] self.bucket(o)) == (if o == op {
                            head.bucket(o).push(idx)
                        } else {
                            head.bucket(o)
                        }));
                    assert forall|o: int| 0 <= o < 128 implies {
                        &&& before.bucket(o).len() <= (#[trigger] self.bucket(o)).len()
                        &&& ((before.bucket(o).len() < self.bucket(o).len()) <==> ops@.take(
                            k as int + 1,
                        ).contains(o as u32))
                    } by {
                        if ops@.take(k as int).contains(o as u32) {
                            let w = choose|w: int|
                                0 <= w < k && ops@.take(k as int)[w] == o as u32;
                            assert(ops@.take(k as int + 1)[w] == o as u32);
                        }
                        if o == op {
                            assert(ops@.take(k as int + 1)[k as int] == op);
                        }
                    }
                    k += 1;
                }
                proof {
                    assert(ops@.take(ops@.len() as int) =~= ops@);
                }
            },
            None => {
                let mut op: usize = 0;
                while op < 128
                    invariant
                        before.wf(),
                        idx == before.decoders@.len(),
                        self.decoders@ == before.decoders@.push(decoder),
                        decoder.spec_handled_opcodes().is_none(),
                        op <= 128,
                        self.opcode_map@.len() == 128,
                        forall|o: int|
                            0 <= o < 128 ==> (#[trigger] self.bucket(o)) == (if o < op {
                                before.bucket(o).push(idx)
                            } else {
                                before.bucket(o)
                            }),
                    decreases 128 - op,
                {
                    let ghost head = *self;
                    self.opcode_map[op].push(idx);
                    assert(forall|o: int|
                        0 <= o < 128 ==> (#[trigger] self.bucket(o)) == (if o == op {
                            head.bucket(o).push(idx)
                        } else {
                            head.bucket(o)
                        }));
                    op += 1;
                }
            },
        }
        proof {
            assert forall|op: int, i: int|
                0 <= op < 128 && 0 <= i < self.decoders@.len() && #[trigger] claims(
                    self.decoders@[i],
                    op as u32,
                ) implies exists|k: int|
                0 <= k < self.bucket(op).len() && (#[trigger] self.bucket(op)[k]) == i by {
                if i < idx {
                    assert(claims(before.decoders@[i], op as u32));
                    let k = choose|k: int|
                        0 <= k < before.bucket(op).len() && (#[trigger] before.bucket(op)[k]) == i;
                    assert(self.bucket(op)[k] == i);
                } else {
                    let k = before.bucket(op).len() as int;
                    assert(self.bucket(op)[k] == i);
                }
            }
        }
        Ok(())
    }

    /// Decodes `raw`: the decoders under its opcode are tried in
    /// registration order and the first to claim the word decides; a word
    /// that none claims is illegal.
    pub fn decode(&self, raw: u32) -> (r: DecodedInstr)
        requires
            self.wf(),
        ensures
            r == self.spec_decode(raw),
            r.raw == raw || first_decoding(self@, raw, 0).is_some(),
            r.instr.wf(),
    {
        let opcode = raw & 0x7F;
        proof {
            lemma_field_ranges(raw);
        }
        let bucket = &self.opcode_map[opcode as usize];
        let mut k: usize = 0;
        let ghost mut bound: int = 0;
        while k < bucket.len()
            invariant
                self.wf(),
                opcode == spec_opcode(raw),
                opcode < 128,
                bucket@ == self.bucket(opcode as int),
                k <= bucket@.len(),
                0 <= bound <= self@.len(),
                k > 0 ==> bound == bucket@[k - 1] + 1,
                k == 0 ==> bound == 0,
                forall|j: int| 0 <= j < bound ==> !decodes(#[trigger] self@[j], raw),
            decreases bucket@.len() - k,
        {
            let idx = bucket[k];
            proof {
                assert(self.bucket(opcode as int)[k as int] == idx);
                assert forall|j: int| bound <= j < idx implies !claims(
                    #[trigger] self@[j],
                    opcode,
                ) by {
                    if claims(self@[j], opcode) {
                        let p = choose|p: int|
                            0 <= p < self.bucket(opcode as int).len() && (#[trigger] self.bucket(
                                opcode as int,
                            )[p]) == j;
                        if p < k {
                            assert(self.bucket(opcode as int)[p] <= self.bucket(opcode as int)[k
                                - 1]);
                        } else {
                            assert(self.bucket(opcode as int)[k as int] <= self.bucket(
                                opcode as int,
                            )[p]);
                        }
                    }
                }
            }
            match self.decoders[idx].decode(raw) {
                Some(decoded) => {
                    proof {
                        assert(claims(self@[idx as int], opcode));
                        lemma_first_decoding_skip(self@, raw, 0, idx as int);
                    }
                    return decoded;
                },
                None => {},
            }
            proof {
                bound = idx + 1;
            }
            k += 1;
        }
        proof {
            assert forall|j: int| bound <= j < self@.len() implies !claims(
                #[trigger] self@[j],
                opcode,
            ) by {
                if claims(self@[j], opcode) {
                    let p = choose|p: int|
                        0 <= p < self.bucket(opcode as int).len() && (#[trigger] self.bucket(
                            opcode as int,
                        )[p]) == j;
                    assert(self.bucket(opcode as int)[p] <= self.bucket(opcode as int)[k - 1]);
                }
            }
            lemma_first_decoding_skip(self@, raw, 0, self@.len() as int);
        }
        DecodedInstr { raw, instr: RvInstr::Illegal { raw } }
    }

    /// The number of registered decoders.
    pub fn decoder_count(&self) -> (r: usize)
        ensures
            r == self@.len(),
    {
        self.decoders.len()
    }

    /// The labels of the registered decoders, in registration order.
    pub fn decoder_names(&self) -> (r: Vec<&str>)
        ensures
            r@.len() == self@.len(),
            forall|i: int| 0 <= i < r@.len() ==> (#[trigger] r@[i])@ == self@[i].spec_name(),
    {
        let mut names: Vec<&str> = Vec::new();
        let mut i: usize = 0;
        while i < self.decoders.len()
            invariant
                i <= self.decoders.len(),
                names@.len() == i,
                forall|j: int| 0 <= j < i ==> (#[trigger] names@[j])@ == self@[j].spec_name(),
            decreases self.decoders.len() - i,
        {
            names.push(self.decoders[i].name());
            i += 1;
        }
        names
    }
}

impl DecoderRegistry<TableDrivenDecoder> {
    /// A registry that holds the base integer decoder.
    pub fn with_rv32i() -> (r: Self)
        ensures
            r.wf(),
            r@.len() == 1,
            is_rv32i_decoder(r@[0]),
    {
        let mut registry = DecoderRegistry::new();
        let _ = registry.register(rv32i_decoder());
        registry
    }
}

impl Default for DecoderRegistry<TableDrivenDecoder> {
    fn default() -> (r: Self)
        ensures
            r.wf(),
            r@.len() == 1,
            is_rv32i_decoder(r@[0]),
    {
        DecoderRegistry::with_rv32i()
    }
}

} // verus!
