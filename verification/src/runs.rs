//! Whole-run consequences of the step functions.
//!
//! A run of the walker is a sequence of reported outcomes, each
//! answering the request the walker actually made in the state the
//! previous outcomes led to. The lemmas here lift the per-step laws of
//! [`crate::laws`] to every such run, however long and whatever the
//! driver reports: with hidden filtering on, nothing hidden is ever
//! yielded; every yield is a non-directory, and a regular file when
//! `file_only` is on; and nothing at all follows end of sequence.

use vstd::multiset::Multiset;
use vstd::prelude::*;

use crate::laws::hidden_filter_ok;
use crate::walker::EntryKind;
use crate::walker::KindOutcome;
use crate::walker::OpenOutcome;
use crate::walker::ReadOutcomeView;
use crate::walker::StepView;
use crate::walker::WalkerView;
use crate::walker::spec_hidden;

verus! {

/// One reported outcome, of whichever of the three requests.
pub enum Outcome {
    Read(ReadOutcomeView),
    Kind(KindOutcome),
    Open(OpenOutcome),
}

/// Whether this outcome answers the request the walker made in this
/// state.
pub open spec fn outcome_enabled(w: WalkerView, out: Outcome) -> bool {
    match out {
        Outcome::Read(_) => w.read_enabled(),
        Outcome::Kind(_) => w.kind_enabled(),
        Outcome::Open(_) => w.open_enabled(),
    }
}

/// One step of the machine on one reported outcome.
pub open spec fn outcome_step(w: WalkerView, out: Outcome) -> (WalkerView, StepView) {
    match out {
        Outcome::Read(o) => w.read_step(o),
        Outcome::Kind(o) => w.kind_step(o),
        Outcome::Open(o) => w.open_step(o),
    }
}

/// A trace is faithful to a starting state when each of its outcomes
/// answers the request pending in the state the previous outcomes led
/// to — exactly the traces a driver of the real machine can produce.
pub open spec fn faithful(w: WalkerView, trace: Seq<Outcome>) -> bool
    decreases trace.len(),
{
    trace.len() > 0 ==> outcome_enabled(w, trace.first()) && faithful(
        outcome_step(w, trace.first()).0,
        trace.drop_first(),
    )
}

/// Everything the machine yields along a trace, in order: the name and
/// kind of each produced entry.
pub open spec fn yields(w: WalkerView, trace: Seq<Outcome>) -> Seq<(Seq<u8>, EntryKind)>
    decreases trace.len(),
{
    if trace.len() == 0 {
        Seq::empty()
    } else {
        let stepped = outcome_step(w, trace.first());
        let rest = yields(stepped.0, trace.drop_first());
        match stepped.1 {
            StepView::Yield(name, kind) => seq![(name, kind)] + rest,
            _ => rest,
        }
    }
}

/// With hidden filtering on, no run of the walker ever yields an entry
/// whose name begins with `.`: the per-step invariant that nothing
/// hidden is ever pending makes every yield along every faithful trace
/// non-hidden.
pub proof fn lemma_no_hidden_yield_in_any_run(w: WalkerView, trace: Seq<Outcome>)
    requires
        w.filter_hidden_files,
        hidden_filter_ok(w),
        faithful(w, trace),
    ensures
        forall|i: int|
            0 <= i < yields(w, trace).len() ==> !spec_hidden((#[trigger] yields(w, trace)[i]).0),
    decreases trace.len(),
{
    if trace.len() > 0 {
        let stepped = outcome_step(w, trace.first());
        let rest = yields(stepped.0, trace.drop_first());
        match trace.first() {
            Outcome::Read(o) => {
                assert(hidden_filter_ok(w.read_step(o).0));
            },
            Outcome::Kind(o) => {
                assert(hidden_filter_ok(w.kind_step(o).0));
            },
            Outcome::Open(o) => {
                assert(hidden_filter_ok(w.open_step(o).0));
            },
        }
        lemma_no_hidden_yield_in_any_run(stepped.0, trace.drop_first());
        match stepped.1 {
            StepView::Yield(name, kind) => {
                assert(!spec_hidden(name));
                assert(yields(w, trace) == seq![(name, kind)] + rest);
                assert forall|i: int| 0 <= i < yields(w, trace).len() implies !spec_hidden(
                    (#[trigger] yields(w, trace)[i]).0,
                ) by {
                    if i == 0 {
                        assert(yields(w, trace)[0] == (name, kind));
                    } else {
                        assert(yields(w, trace)[i] == rest[i - 1]);
                    }
                }
            },
            _ => {
                assert(yields(w, trace) == rest);
            },
        }
    }
}

/// Along any faithful trace, every yielded entry is a non-directory —
/// directories are descended into, never yielded — and with `file_only`
/// on, every yielded entry is a regular file.
pub proof fn lemma_yield_kinds_in_any_run(w: WalkerView, trace: Seq<Outcome>)
    requires
        faithful(w, trace),
    ensures
        forall|i: int|
            0 <= i < yields(w, trace).len() ==> !((#[trigger] yields(w, trace)[i]).1
                is Directory),
        w.file_only ==> forall|i: int|
            0 <= i < yields(w, trace).len() ==> (#[trigger] yields(w, trace)[i]).1
                is RegularFile,
    decreases trace.len(),
{
    if trace.len() > 0 {
        let stepped = outcome_step(w, trace.first());
        lemma_yield_kinds_in_any_run(stepped.0, trace.drop_first());
    }
}

/// The names of the raw entries successfully read along a trace, in
/// order.
pub open spec fn entry_reads(trace: Seq<Outcome>) -> Seq<Seq<u8>>
    decreases trace.len(),
{
    if trace.len() == 0 {
        Seq::empty()
    } else {
        let rest = entry_reads(trace.drop_first());
        match trace.first() {
            Outcome::Read(ReadOutcomeView::Entry(name)) => seq![name] + rest,
            _ => rest,
        }
    }
}

/// One when an entry is pending classification or descent, zero while
/// scanning: the number of reads the walker holds but has not resolved.
pub open spec fn pending_count(w: WalkerView) -> int {
    if w.phase is Scan {
        0int
    } else {
        1int
    }
}

/// No raw entry is yielded more than once: along any faithful trace the
/// number of yielded entries never exceeds the number of raw entries
/// read (plus the one already pending at the start). Reading each real
/// file once therefore yields it at most once.
pub proof fn lemma_at_most_one_yield_per_read(w: WalkerView, trace: Seq<Outcome>)
    requires
        faithful(w, trace),
    ensures
        yields(w, trace).len() <= entry_reads(trace).len() + pending_count(w),
    decreases trace.len(),
{
    if trace.len() > 0 {
        let stepped = outcome_step(w, trace.first());
        lemma_at_most_one_yield_per_read(stepped.0, trace.drop_first());
    }
}

/// The multiset of names a trace yields.
pub open spec fn yield_names(w: WalkerView, trace: Seq<Outcome>) -> Multiset<Seq<u8>>
    decreases trace.len(),
{
    if trace.len() == 0 {
        Multiset::empty()
    } else {
        let stepped = outcome_step(w, trace.first());
        let rest = yield_names(stepped.0, trace.drop_first());
        match stepped.1 {
            StepView::Yield(name, _) => rest.insert(name),
            _ => rest,
        }
    }
}

/// The multiset of raw entry names successfully read along a trace.
pub open spec fn read_names(trace: Seq<Outcome>) -> Multiset<Seq<u8>>
    decreases trace.len(),
{
    if trace.len() == 0 {
        Multiset::empty()
    } else {
        let rest = read_names(trace.drop_first());
        match trace.first() {
            Outcome::Read(ReadOutcomeView::Entry(name)) => rest.insert(name),
            _ => rest,
        }
    }
}

/// The name pending at the start of a trace, as a multiset: it was read
/// before the trace began and may still be yielded once.
pub open spec fn pending_names(w: WalkerView) -> Multiset<Seq<u8>> {
    if w.phase is Scan {
        Multiset::empty()
    } else {
        Multiset::empty().insert(w.pending())
    }
}

/// Every yielded name is the name of a raw entry that was actually read,
/// and no read is yielded twice: along any faithful trace, the multiset
/// of yielded names is contained in the multiset of names read plus the
/// entry pending at the start. A driver whose listings report each real
/// entry exactly once therefore sees each yielded at most once, and
/// never sees a name it did not read.
pub proof fn lemma_yields_within_reads(w: WalkerView, trace: Seq<Outcome>)
    requires
        faithful(w, trace),
    ensures
        yield_names(w, trace).subset_of(read_names(trace).add(pending_names(w))),
    decreases trace.len(),
{
    broadcast use vstd::multiset::group_multiset_axioms;

    if trace.len() > 0 {
        let stepped = outcome_step(w, trace.first());
        lemma_yields_within_reads(stepped.0, trace.drop_first());
    }
}

/// Whether this outcome classifies the pending entry as one the walker
/// must yield under this configuration: a known non-directory kind, and
/// a regular file when `file_only` is on.
pub open spec fn yielding_kind(file_only: bool, out: Outcome) -> bool {
    &&& out matches Outcome::Kind(KindOutcome::Known(kind))
    &&& !(kind is Directory)
    &&& !file_only || kind is RegularFile
}

/// How many outcomes of a trace classify an entry as yieldable.
pub open spec fn count_yielding(file_only: bool, trace: Seq<Outcome>) -> int
    decreases trace.len(),
{
    if trace.len() == 0 {
        0int
    } else {
        (if yielding_kind(file_only, trace.first()) {
            1int
        } else {
            0int
        }) + count_yielding(file_only, trace.drop_first())
    }
}

/// Exactly one yield per yieldable classification: along any faithful
/// trace, the number of yielded entries equals the number of kind
/// reports that classify an entry as yieldable under the walker's
/// configuration — no such entry is dropped, and nothing else is ever
/// yielded. A driver whose listings report each real entry once and
/// whose kind queries answer truthfully therefore receives exactly the
/// real files, with `file_only` on, exactly the regular ones.
pub proof fn lemma_one_yield_per_yielding_kind(w: WalkerView, trace: Seq<Outcome>)
    requires
        faithful(w, trace),
    ensures
        yields(w, trace).len() == count_yielding(w.file_only, trace),
    decreases trace.len(),
{
    if trace.len() > 0 {
        let stepped = outcome_step(w, trace.first());
        lemma_one_yield_per_yielding_kind(stepped.0, trace.drop_first());
    }
}

/// After end of sequence nothing more can happen: from a finished walker
/// the only faithful trace is the empty one, so nothing is ever yielded
/// again — the sequence does not resurrect.
pub proof fn lemma_nothing_after_end(w: WalkerView, trace: Seq<Outcome>)
    requires
        w.is_finished(),
        faithful(w, trace),
    ensures
        trace.len() == 0,
        yields(w, trace) == Seq::<(Seq<u8>, EntryKind)>::empty(),
{
}

} // verus!
