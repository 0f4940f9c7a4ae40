//! What holds of every test run.
use super::{EnvState, TestResult};
use crate::cpu::laws::{lemma_step_keeps_extent, same_extent};
use crate::cpu::steps;
use crate::isa::instr_def::TableDrivenDecoder;
use crate::memory::{lemma_store_load, AccessSize, MemError};
use vstd::prelude::*;

verus! {

impl EnvState {
    /// The state after `n` steps of the core, with no poll in between.
    pub open spec fn stepped_times(self, decoders: Seq<TableDrivenDecoder>, n: nat) -> EnvState
        decreases n,
    {
        if n == 0 {
            self
        } else {
            self.stepped(decoders).stepped_times(decoders, (n - 1) as nat)
        }
    }
}

/// Each step counts once: after `n` steps the count of steps has grown by
/// `n`, modulo `2^64`; the mailboxes are where they were, and the memory
/// has kept its place and size.
pub proof fn lemma_steps_are_counted(s: EnvState, decoders: Seq<TableDrivenDecoder>, n: nat)
    ensures
        s.stepped_times(decoders, n).executed == (s.executed + n) % 0x1_0000_0000_0000_0000,
        s.stepped_times(decoders, n).tohost == s.tohost,
        s.stepped_times(decoders, n).fromhost == s.fromhost,
        same_extent(s.stepped_times(decoders, n).mem, s.mem),
    decreases n,
{
    reveal(EnvState::stepped);
    if n > 0 {
        let next = s.stepped(decoders);
        lemma_step_keeps_extent(s.core, s.mem, decoders);
        lemma_steps_are_counted(next, decoders, (n - 1) as nat);
        assert(next.executed == (s.executed + 1) % 0x1_0000_0000_0000_0000);
        assert((next.executed + (n - 1)) % 0x1_0000_0000_0000_0000 == (s.executed + n)
            % 0x1_0000_0000_0000_0000) by {
            if s.executed + 1 > u64::MAX {
                vstd::arithmetic::div_mod::lemma_mod_add_multiples_vanish(
                    next.executed + (n - 1),
                    0x1_0000_0000_0000_0000,
                );
            }
        }
    }
}

/// An acknowledged message leaves `tohost` reading zero, unless `fromhost`
/// is the same word, and `fromhost` reading the message, where there is such
/// a word in the memory; nothing but the memory changes.
pub proof fn lemma_acknowledged_mailboxes(s: EnvState, value: u32)
    requires
        s.message().is_some(),
    ensures
        s.acknowledged(value) == (EnvState { mem: s.acknowledged(value).mem, ..s }),
        s.tohost matches Some(t) && (s.fromhost != s.tohost ==> s.acknowledged(value).mem.load32(t)
            == Ok::<u32, MemError>(0)),
        match s.fromhost {
            Some(f) => s.mem.load32(f) is Ok ==> s.acknowledged(value).mem.load32(f) == Ok::<
                u32,
                MemError,
            >(value),
            None => true,
        },
{
    reveal(EnvState::acknowledged);
    reveal(EnvState::message);
    let t = s.tohost->Some_0;
    let zeroed = s.mem.store32(t, 0);
    lemma_store_load(s.mem, t, 0);
    assert(zeroed.load32(t) == Ok::<u32, MemError>(0));
    match s.fromhost {
        Some(f) => {
            lemma_store_load(zeroed, f, value);
            if zeroed.refusal(f, AccessSize::Word).is_none() && f != t {
                assert(f % 4 == 0 && t % 4 == 0);
                assert(f + 4 <= t || t + 4 <= f);
            }
        },
        None => {},
    }
}

/// A program that writes to `tohost` for the first time in its `k`-th step,
/// and keeps running until then, ends a test run of `k` steps or more in
/// that step, with the result that the written value stands for: the run
/// passes where the value is 1.  The message is acknowledged: afterwards
/// `tohost` reads zero, unless `fromhost` is the same word, and `fromhost`
/// reads the value, where there is such a word in the memory.  The count of
/// steps has grown by `k`, modulo `2^64`.
///
/// A test run starts from the state with both mailboxes zeroed, so `s` is
/// that state.
pub proof fn lemma_test_ends_at_first_message(
    s: EnvState,
    decoders: Seq<TableDrivenDecoder>,
    k: nat,
    max: nat,
    value: u32,
)
    requires
        1 <= k <= max,
        forall|i: nat|
            1 <= i < k ==> (#[trigger] s.stepped_times(decoders, i)).message().is_none() && steps(
                s.stepped_times(decoders, i).core,
            ),
        s.stepped_times(decoders, k).message() == Some(value),
    ensures
        s.tested(decoders, max) == (
            TestResult::spec_from_tohost(value),
            k,
            s.stepped_times(decoders, k).acknowledged(value),
        ),
        value == 1 ==> s.tested(decoders, max).0 == TestResult::Pass,
        s.tested(decoders, max).2.executed == (s.executed + k) % 0x1_0000_0000_0000_0000,
        ({
            let end = s.tested(decoders, max).2;
            &&& s.tohost matches Some(t) && (s.fromhost != s.tohost ==> end.mem.load32(t) == Ok::<
                u32,
                MemError,
            >(0))
            &&& match s.fromhost {
                Some(f) => s.mem.load32(f) is Ok ==> end.mem.load32(f) == Ok::<u32, MemError>(
                    value,
                ),
                None => true,
            }
        }),
    decreases k,
{
    let after = s.stepped(decoders);
    assert(s.stepped_times(decoders, 1) == after.stepped_times(decoders, 0));
    assert(after.stepped_times(decoders, 0) == after);
    lemma_steps_are_counted(s, decoders, k);
    lemma_acknowledged_mailboxes(s.stepped_times(decoders, k), value);
    if k > 1 {
        assert(s.stepped_times(decoders, 1).message().is_none());
        assert forall|i: nat| 1 <= i < k - 1 implies (#[trigger] after.stepped_times(
            decoders,
            i,
        )).message().is_none() && steps(after.stepped_times(decoders, i).core) by {
            assert(s.stepped_times(decoders, i + 1) == after.stepped_times(decoders, i));
        }
        assert(s.stepped_times(decoders, k) == after.stepped_times(decoders, (k - 1) as nat));
        lemma_test_ends_at_first_message(after, decoders, (k - 1) as nat, (max - 1) as nat, value);
    }
}

} // verus!
