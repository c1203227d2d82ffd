//! General properties of the traversal, proved once and for all over
//! the walker's mathematical image ([`WalkerView`]) and its three step
//! functions, which the executable transitions follow exactly.

use vstd::prelude::*;

use crate::walker::EntryKind;
use crate::walker::KindOutcome;
use crate::walker::OpenOutcome;
use crate::walker::PhaseView;
use crate::walker::ReadOutcomeView;
use crate::walker::Request;
use crate::walker::StepView;
use crate::walker::WalkError;
use crate::walker::WalkerView;
use crate::walker::spec_hidden;

verus! {

/// With the hidden filter on, no entry ever awaits a kind query or a
/// descent under a hidden name: hidden entries are dropped before either
/// step, so in particular a hidden directory is never opened and nothing
/// under it is ever reached.
pub open spec fn hidden_filter_ok(w: WalkerView) -> bool {
    w.filter_hidden_files && !(w.phase is Scan) ==> !spec_hidden(w.pending())
}

/// End of sequence is terminal: a finished walker answers every request
/// with `Done`, and no step is enabled that could advance it, so further
/// advances keep signalling end of sequence — the walk never resurrects.
pub proof fn lemma_end_of_sequence_is_terminal(w: WalkerView)
    requires
        w.is_finished(),
    ensures
        w.request() == Request::Done,
        !w.read_enabled(),
        !w.kind_enabled(),
        !w.open_enabled(),
{
}

/// An empty listing at the bottom of the stack ends the walk at once:
/// reporting its exhaustion finishes the walker without yielding an
/// entry and without surfacing an error. In particular, walking an empty
/// root directory signals end of sequence immediately and error-free.
pub proof fn lemma_empty_root_ends_immediately(w: WalkerView)
    requires
        w.read_enabled(),
        w.stack.len() == 1,
    ensures
        w.read_step(ReadOutcomeView::End).0.is_finished(),
        w.read_step(ReadOutcomeView::End).1 == StepView::Continue,
        w.read_step(ReadOutcomeView::End).0.request() == Request::Done,
{
}

/// With the hidden filter on, an entry whose name begins with `.` is
/// skipped outright: the walker is left exactly as it was — no yield, no
/// error, no kind query, no descent — and keeps scanning the same
/// listing.
pub proof fn lemma_hidden_entry_skipped(w: WalkerView, name: Seq<u8>)
    requires
        w.read_enabled(),
        w.filter_hidden_files,
        spec_hidden(name),
    ensures
        w.read_step(ReadOutcomeView::Entry(name)).0 == w,
        w.read_step(ReadOutcomeView::Entry(name)).1 == StepView::Continue,
{
}

/// The hidden-filter guarantee is an invariant: every step of the
/// machine preserves [`hidden_filter_ok`], and a fresh walker satisfies
/// it. Since the stack only grows by opening the pending entry's
/// listing, a hidden subdirectory is never descended into.
pub proof fn lemma_hidden_never_pending(w: WalkerView)
    requires
        hidden_filter_ok(w),
    ensures
        forall|out: ReadOutcomeView| hidden_filter_ok(#[trigger] w.read_step(out).0),
        forall|out: KindOutcome| hidden_filter_ok(#[trigger] w.kind_step(out).0),
        forall|out: OpenOutcome| hidden_filter_ok(#[trigger] w.open_step(out).0),
        forall|root: u64| hidden_filter_ok(#[trigger] WalkerView::init(root)),
{
}

/// While an entry is pending, the listing it was read from is still on
/// the stack: a fresh walker satisfies this, and every step preserves
/// it. It justifies assuming a non-empty stack wherever a kind or open
/// outcome is reported.
pub open spec fn listing_open_while_pending(w: WalkerView) -> bool {
    !(w.phase is Scan) ==> w.stack.len() > 0
}

/// Preservation of [`listing_open_while_pending`] by every step of the
/// machine, from every state in which the step may be reported.
pub proof fn lemma_listing_open_while_pending(w: WalkerView)
    requires
        listing_open_while_pending(w),
    ensures
        forall|out: ReadOutcomeView|
            w.read_enabled() ==> listing_open_while_pending(#[trigger] w.read_step(out).0),
        forall|out: KindOutcome|
            w.kind_enabled() ==> listing_open_while_pending(#[trigger] w.kind_step(out).0),
        forall|out: OpenOutcome| listing_open_while_pending(#[trigger] w.open_step(out).0),
        forall|root: u64| listing_open_while_pending(#[trigger] WalkerView::init(root)),
{
}

/// The stack never grows while reading or classifying; it grows only
/// when a subdirectory listing is reported open, and then by exactly the
/// new handle on top. Together with [`lemma_hidden_never_pending`] this
/// pins descent down: the only way into a subdirectory is a successful
/// open of a pending — hence non-hidden, directory-classified — entry.
pub proof fn lemma_descent_only_by_open(w: WalkerView)
    requires
        w.stack.len() > 0,
    ensures
        forall|out: ReadOutcomeView| (#[trigger] w.read_step(out)).0.stack.len() <= w.stack.len(),
        forall|out: KindOutcome| (#[trigger] w.kind_step(out)).0.stack == w.stack,
        w.open_step(OpenOutcome::Failed).0.stack == w.stack,
        forall|handle: u64|
            (#[trigger] w.open_step(OpenOutcome::Opened(handle))).0.stack == w.stack.push(handle),
{
}

/// With `file_only` off, every entry whose kind is not a directory is
/// yielded, whatever special kind it is, tagged with exactly the
/// reported kind; the walker then resumes scanning the same listing.
pub proof fn lemma_every_kind_yielded(w: WalkerView, kind: EntryKind)
    requires
        w.kind_enabled(),
        !w.file_only,
        !(kind is Directory),
    ensures
        w.kind_step(KindOutcome::Known(kind)).1 == StepView::Yield(w.pending(), kind),
        w.kind_step(KindOutcome::Known(kind)).0.phase is Scan,
        w.kind_step(KindOutcome::Known(kind)).0.stack == w.stack,
{
}

/// With `file_only` on, a regular file is always yielded and any other
/// non-directory kind is silently skipped; a directory is never yielded
/// under either setting — it moves to the descend phase instead.
pub proof fn lemma_file_only_filter(w: WalkerView)
    requires
        w.kind_enabled(),
        w.file_only,
    ensures
        w.kind_step(KindOutcome::Known(EntryKind::RegularFile)).1 == StepView::Yield(
            w.pending(),
            EntryKind::RegularFile,
        ),
        w.kind_step(KindOutcome::Known(EntryKind::Other)).1 == StepView::Continue,
        w.kind_step(KindOutcome::Known(EntryKind::Other)).0.phase is Scan,
        w.kind_step(KindOutcome::Known(EntryKind::Directory)).1 == StepView::Continue,
        w.kind_step(KindOutcome::Known(EntryKind::Directory)).0.phase is Descend,
{
}

/// A failed descent skips exactly the blocked subtree: the error is
/// surfaced as `DescendError`, the stack and both flags are unchanged,
/// and the walker resumes scanning the parent listing, so every sibling
/// and ancestor entry is still reached.
pub proof fn lemma_descend_failure_skips_subtree(w: WalkerView)
    requires
        w.open_enabled(),
        w.stack.len() > 0,
    ensures
        w.open_step(OpenOutcome::Failed).1 == StepView::Fail(WalkError::DescendError),
        w.open_step(OpenOutcome::Failed).0 == (WalkerView { phase: PhaseView::Scan, ..w }),
        w.open_step(OpenOutcome::Failed).0.read_enabled(),
{
}

/// Per-step error transparency: a failed listing read leaves the walker
/// exactly where it was (the same listing is re-queried on the next
/// advance, so repeated identical failures are the caller's to break
/// off), while a failed kind query drops only the pending entry and
/// resumes with its siblings. Every error is surfaced, never swallowed.
pub proof fn lemma_error_recovery(w: WalkerView)
    ensures
        w.read_step(ReadOutcomeView::Failed).0 == w,
        w.read_step(ReadOutcomeView::Failed).1 == StepView::Fail(WalkError::ListingReadError),
        w.kind_step(KindOutcome::Failed).0 == (WalkerView { phase: PhaseView::Scan, ..w }),
        w.kind_step(KindOutcome::Failed).1 == StepView::Fail(WalkError::MetadataError),
{
}

/// The configuration is immutable during traversal: no step changes
/// either flag.
pub proof fn lemma_configuration_immutable(w: WalkerView)
    ensures
        forall|out: ReadOutcomeView|
            (#[trigger] w.read_step(out)).0.filter_hidden_files == w.filter_hidden_files
                && w.read_step(out).0.file_only == w.file_only,
        forall|out: KindOutcome|
            (#[trigger] w.kind_step(out)).0.filter_hidden_files == w.filter_hidden_files
                && w.kind_step(out).0.file_only == w.file_only,
        forall|out: OpenOutcome|
            (#[trigger] w.open_step(out)).0.filter_hidden_files == w.filter_hidden_files
                && w.open_step(out).0.file_only == w.file_only,
{
}

} // verus!
