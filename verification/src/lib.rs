//! A lazy, depth-first directory-traversal state machine.
//!
//! The walker keeps a stack of open directory-listing handles and decides,
//! from each filesystem event it is fed, whether to descend into a
//! subdirectory, yield an entry, surface a per-step error, or finish.
//! It performs no I/O itself: a driver performs the read, metadata and
//! open calls that [`walker::FileWalker::request`] asks for and reports
//! each outcome back, so the traversal logic is verified independently of
//! the filesystem it runs against.

pub mod laws;
pub mod runs;
pub mod walker;
