//! The traversal state machine.
//!
//! A [`FileWalker`] owns an ordered stack of directory-listing handles
//! (index 0 is the root's listing, the last is the directory currently
//! being scanned) and two configuration flags. It is driven by a loop
//! that asks [`FileWalker::request`] which filesystem operation to
//! perform next, performs it, and reports the outcome through
//! [`FileWalker::on_read`], [`FileWalker::on_kind`] or
//! [`FileWalker::on_open`]. Each report advances the machine by one
//! internal step and says whether an entry was produced, an error was
//! surfaced, or the traversal should simply keep going.
//!
//! Sibling order follows whatever order the listing reads are reported
//! in: the walker sorts nothing and guarantees no order over siblings.
//! The configuration flags are meant to be set before consumption
//! begins; changing them mid-traversal is not supported.

use vstd::prelude::*;

verus! {

/// Classification of a filesystem entry, as far as the traversal cares:
/// a directory (descended into, never yielded), a regular file, or
/// anything else (symlink, pipe, socket, device).
#[derive(Clone, Copy, Debug, PartialEq, Eq, PartialOrd, Ord, Structural)]
pub enum EntryKind {
    Directory,
    RegularFile,
    Other,
}

/// The errors a traversal can surface. All but `RootUnavailable` are
/// per-step: they abort nothing, and the walk continues on the next
/// advance.
#[derive(Clone, Copy, Debug, PartialEq, Eq, Structural)]
pub enum WalkError {
    /// The root itself could not be listed when the walk was set up.
    RootUnavailable,
    /// Reading the next raw entry from an open listing failed. The
    /// listing is left as the failed read left it and is re-queried on
    /// the next advance.
    ListingReadError,
    /// Determining an entry's kind failed. The entry is neither yielded
    /// nor descended into; the walk continues with its siblings.
    MetadataError,
    /// Opening a discovered subdirectory's listing failed. That whole
    /// subtree is skipped; the walk continues with its siblings.
    DescendError,
}

/// Outcome of reading one raw entry from the top-of-stack listing.
#[derive(Debug)]
pub enum ReadOutcome {
    /// A child was read; the payload is its name, as bytes.
    Entry(Vec<u8>),
    /// The listing is exhausted.
    End,
    /// The read itself failed.
    Failed,
}

/// Outcome of querying the pending entry's kind.
#[derive(Clone, Copy, Debug, PartialEq, Eq, Structural)]
pub enum KindOutcome {
    Known(EntryKind),
    Failed,
}

/// Outcome of opening the pending entry as a directory listing. The
/// payload of `Opened` is the handle the driver chose for the new
/// listing.
#[derive(Clone, Copy, Debug, PartialEq, Eq, Structural)]
pub enum OpenOutcome {
    Opened(u64),
    Failed,
}

/// The filesystem operation the walker wants performed next.
#[derive(Clone, Copy, Debug, PartialEq, Eq, Structural)]
pub enum Request {
    /// Read the next raw entry from the listing with this handle (always
    /// the top of the stack).
    ReadNext(u64),
    /// Query the kind of the pending entry.
    QueryKind,
    /// Open the pending entry, a directory, as a new listing.
    OpenSubdir,
    /// End of sequence: every reachable entry has been visited.
    Done,
}

/// What one reported outcome produced.
#[derive(Debug)]
pub enum Step {
    /// Internal progress only; ask for the next request and keep going.
    Continue,
    /// An entry is produced to the consumer: its name and its kind.
    Yield(Vec<u8>, EntryKind),
    /// An error is surfaced to the consumer for this one advance.
    Fail(WalkError),
}

/// Where the walker stands between two reported outcomes.
#[derive(Debug)]
pub enum Phase {
    /// About to read the next raw entry from the top-of-stack listing.
    Scan,
    /// An entry with this name was read and awaits its kind query.
    Classify(Vec<u8>),
    /// The pending entry with this name is a directory and awaits the
    /// opening of its listing.
    Descend(Vec<u8>),
}

/// Mathematical image of a [`Phase`].
pub enum PhaseView {
    Scan,
    Classify(Seq<u8>),
    Descend(Seq<u8>),
}

/// Mathematical image of a [`ReadOutcome`].
pub enum ReadOutcomeView {
    Entry(Seq<u8>),
    End,
    Failed,
}

/// Mathematical image of a [`Step`].
pub enum StepView {
    Continue,
    Yield(Seq<u8>, EntryKind),
    Fail(WalkError),
}

/// Mathematical image of a [`FileWalker`]: the handle stack as a
/// sequence, the phase over byte sequences, and the two flags.
#[verifier::ext_equal]
pub struct WalkerView {
    pub stack: Seq<u64>,
    pub phase: PhaseView,
    pub filter_hidden_files: bool,
    pub file_only: bool,
}

/// A name marks its entry hidden when its first byte is an ASCII dot.
pub open spec fn spec_hidden(name: Seq<u8>) -> bool {
    name.len() > 0 && name[0] == 0x2Eu8
}

impl View for Phase {
    type V = PhaseView;

    open spec fn view(&self) -> PhaseView {
        match self {
            Phase::Scan => PhaseView::Scan,
            Phase::Classify(name) => PhaseView::Classify(name@),
            Phase::Descend(name) => PhaseView::Descend(name@),
        }
    }
}

impl View for ReadOutcome {
    type V = ReadOutcomeView;

    open spec fn view(&self) -> ReadOutcomeView {
        match self {
            ReadOutcome::Entry(name) => ReadOutcomeView::Entry(name@),
            ReadOutcome::End => ReadOutcomeView::End,
            ReadOutcome::Failed => ReadOutcomeView::Failed,
        }
    }
}

impl View for Step {
    type V = StepView;

    open spec fn view(&self) -> StepView {
        match self {
            Step::Continue => StepView::Continue,
            Step::Yield(name, kind) => StepView::Yield(name@, *kind),
            Step::Fail(error) => StepView::Fail(*error),
        }
    }
}

impl WalkerView {
    /// The walker a fresh [`FileWalker::open`] produces: one listing on
    /// the stack (the root's) and both filters off.
    pub open spec fn init(root: u64) -> WalkerView {
        WalkerView {
            stack: seq![root],
            phase: PhaseView::Scan,
            filter_hidden_files: false,
            file_only: false,
        }
    }

    /// Terminal state: the stack is empty and nothing is pending. Once
    /// here, the walker signals end of sequence forever.
    pub open spec fn is_finished(self) -> bool {
        self.stack.len() == 0 && self.phase is Scan
    }

    /// The name of the entry awaiting a kind query or a descent.
    pub open spec fn pending(self) -> Seq<u8> {
        match self.phase {
            PhaseView::Scan => Seq::empty(),
            PhaseView::Classify(name) => name,
            PhaseView::Descend(name) => name,
        }
    }

    /// A read outcome may be reported only while scanning a non-empty
    /// stack: there must be a listing the read came from.
    pub open spec fn read_enabled(self) -> bool {
        self.phase is Scan && self.stack.len() > 0
    }

    /// A kind outcome may be reported only for a pending classification.
    pub open spec fn kind_enabled(self) -> bool {
        self.phase is Classify
    }

    /// An open outcome may be reported only for a pending descent.
    pub open spec fn open_enabled(self) -> bool {
        self.phase is Descend
    }

    /// The operation the walker asks its driver for, in each state.
    pub open spec fn request(self) -> Request {
        match self.phase {
            PhaseView::Scan => if self.stack.len() == 0 {
                Request::Done
            } else {
                Request::ReadNext(self.stack.last())
            },
            PhaseView::Classify(_) => Request::QueryKind,
            PhaseView::Descend(_) => Request::OpenSubdir,
        }
    }

    /// One step on a read outcome: a hidden entry is skipped outright
    /// when the hidden filter is on, any other entry moves to
    /// classification, an exhausted listing is popped (ascending back to
    /// the parent, or finishing the walk when it was the last), and a
    /// failed read changes nothing and surfaces `ListingReadError`.
    pub open spec fn read_step(self, out: ReadOutcomeView) -> (WalkerView, StepView)
        recommends
            self.read_enabled(),
    {
        match out {
            ReadOutcomeView::Entry(name) => if self.filter_hidden_files && spec_hidden(name) {
                (self, StepView::Continue)
            } else {
                (WalkerView { phase: PhaseView::Classify(name), ..self }, StepView::Continue)
            },
            ReadOutcomeView::End => (
                WalkerView { stack: self.stack.drop_last(), ..self },
                StepView::Continue,
            ),
            ReadOutcomeView::Failed => (self, StepView::Fail(WalkError::ListingReadError)),
        }
    }

    /// One step on a kind outcome: a directory moves to the descend
    /// phase, a regular file is always yielded, any other kind is
    /// yielded exactly when `file_only` is off, and a failed query drops
    /// the pending entry and surfaces `MetadataError`.
    pub open spec fn kind_step(self, out: KindOutcome) -> (WalkerView, StepView)
        recommends
            self.kind_enabled(),
    {
        match out {
            KindOutcome::Known(kind) => if kind is Directory {
                (WalkerView { phase: PhaseView::Descend(self.pending()), ..self }, StepView::Continue)
            } else if self.file_only && !(kind is RegularFile) {
                (WalkerView { phase: PhaseView::Scan, ..self }, StepView::Continue)
            } else {
                (
                    WalkerView { phase: PhaseView::Scan, ..self },
                    StepView::Yield(self.pending(), kind),
                )
            },
            KindOutcome::Failed => (
                WalkerView { phase: PhaseView::Scan, ..self },
                StepView::Fail(WalkError::MetadataError),
            ),
        }
    }

    /// One step on an open outcome: a successful open pushes the new
    /// listing (descending into the subdirectory), a failed open leaves
    /// the stack alone and surfaces `DescendError`, so that whole
    /// subtree is skipped and scanning resumes with the siblings.
    pub open spec fn open_step(self, out: OpenOutcome) -> (WalkerView, StepView)
        recommends
            self.open_enabled(),
    {
        match out {
            OpenOutcome::Opened(handle) => (
                WalkerView { stack: self.stack.push(handle), phase: PhaseView::Scan, ..self },
                StepView::Continue,
            ),
            OpenOutcome::Failed => (
                WalkerView { phase: PhaseView::Scan, ..self },
                StepView::Fail(WalkError::DescendError),
            ),
        }
    }
}

/// Iterator over the entries in a directory and its subdirectories,
/// as a pull-based state machine over listing handles.
pub struct FileWalker {
    /// `stack` holds one handle per open listing; the last element
    /// always refers to the directory currently being scanned.
    pub stack: Vec<u64>,
    /// Where the walker stands between two reported outcomes.
    pub phase: Phase,
    /// When true, entries whose name begins with `.` are skipped
    /// entirely: a hidden file is not yielded, a hidden directory is
    /// neither yielded nor descended into.
    pub filter_hidden_files: bool,
    /// When true, only regular files are yielded; directories are still
    /// descended into, and other kinds are silently skipped.
    pub file_only: bool,
}

impl View for FileWalker {
    type V = WalkerView;

    open spec fn view(&self) -> WalkerView {
        WalkerView {
            stack: self.stack@,
            phase: self.phase@,
            filter_hidden_files: self.filter_hidden_files,
            file_only: self.file_only,
        }
    }
}

/// Byte-level test for the hidden-name marker, a leading dot.
pub fn is_hidden_name(name: &Vec<u8>) -> (r: bool)
    ensures
        r == spec_hidden(name@),
{
    name.len() > 0 && name[0] == 0x2E
}

impl FileWalker {
    /// Starts a walk over the root directory whose already-open listing
    /// the driver registered under `root`: the stack holds exactly that
    /// listing and both filters are off. (When the root itself cannot be
    /// listed, no walker exists; the driver reports
    /// [`WalkError::RootUnavailable`] instead.)
    pub fn open(root: u64) -> (w: FileWalker)
        ensures
            w@ == WalkerView::init(root),
    {
        let mut stack: Vec<u64> = Vec::new();
        stack.push(root);
        let w = FileWalker { stack, phase: Phase::Scan, filter_hidden_files: false, file_only: false };
        proof {
            assert(w@.stack =~= seq![root]);
            assert(w@ =~= WalkerView::init(root));
        }
        w
    }

    /// Filter out hidden files and directories. Set before consumption
    /// begins; only the flag changes.
    pub fn filter_hidden_items(self, flag: bool) -> (w: FileWalker)
        ensures
            w@ == (WalkerView { filter_hidden_files: flag, ..self@ }),
    {
        FileWalker { filter_hidden_files: flag, ..self }
    }

    /// Yield regular files only, filtering out pipes, sockets, devices
    /// and symlinks. Set before consumption begins; only the flag
    /// changes.
    pub fn file_only(self, flag: bool) -> (w: FileWalker)
        ensures
            w@ == (WalkerView { file_only: flag, ..self@ }),
    {
        FileWalker { file_only: flag, ..self }
    }

    /// The operation the driver should perform next. `Done` is the
    /// end-of-sequence signal: it is answered whenever the stack is
    /// empty, so repeated calls after exhaustion keep signalling it.
    pub fn request(&self) -> (r: Request)
        ensures
            r == self@.request(),
    {
        match &self.phase {
            Phase::Scan => {
                if self.stack.len() == 0 {
                    Request::Done
                } else {
                    Request::ReadNext(self.stack[self.stack.len() - 1])
                }
            },
            Phase::Classify(_) => Request::QueryKind,
            Phase::Descend(_) => Request::OpenSubdir,
        }
    }

    /// Report the outcome of the requested listing read. The machine
    /// advances exactly as [`WalkerView::read_step`] says.
    pub fn on_read(&mut self, out: ReadOutcome) -> (step: Step)
        requires
            old(self)@.read_enabled(),
        ensures
            final(self)@ == old(self)@.read_step(out@).0,
            step@ == old(self)@.read_step(out@).1,
    {
        match out {
            ReadOutcome::Entry(name) => {
                if self.filter_hidden_files && is_hidden_name(&name) {
                    Step::Continue
                } else {
                    self.phase = Phase::Classify(name);
                    Step::Continue
                }
            },
            ReadOutcome::End => {
                let _exhausted = self.stack.pop();
                Step::Continue
            },
            ReadOutcome::Failed => Step::Fail(WalkError::ListingReadError),
        }
    }

    /// Report the outcome of the requested kind query. The machine
    /// advances exactly as [`WalkerView::kind_step`] says.
    pub fn on_kind(&mut self, out: KindOutcome) -> (step: Step)
        requires
            old(self)@.kind_enabled(),
        ensures
            final(self)@ == old(self)@.kind_step(out).0,
            step@ == old(self)@.kind_step(out).1,
    {
        let mut pending = Phase::Scan;
        core::mem::swap(&mut self.phase, &mut pending);
        match pending {
            Phase::Classify(name) => match out {
                KindOutcome::Known(kind) => match kind {
                    EntryKind::Directory => {
                        self.phase = Phase::Descend(name);
                        Step::Continue
                    },
                    EntryKind::RegularFile => Step::Yield(name, kind),
                    EntryKind::Other => {
                        if self.file_only {
                            Step::Continue
                        } else {
                            Step::Yield(name, kind)
                        }
                    },
                },
                KindOutcome::Failed => Step::Fail(WalkError::MetadataError),
            },
            // The precondition puts the walker in the classify phase, so
            // nothing else can have been swapped out.
            _ => vstd::pervasive::unreached(),
        }
    }

    /// Report the outcome of the requested subdirectory open. The
    /// machine advances exactly as [`WalkerView::open_step`] says.
    pub fn on_open(&mut self, out: OpenOutcome) -> (step: Step)
        requires
            old(self)@.open_enabled(),
        ensures
            final(self)@ == old(self)@.open_step(out).0,
            step@ == old(self)@.open_step(out).1,
    {
        self.phase = Phase::Scan;
        match out {
            OpenOutcome::Opened(handle) => {
                self.stack.push(handle);
                Step::Continue
            },
            OpenOutcome::Failed => Step::Fail(WalkError::DescendError),
        }
    }
}

} // verus!
