use vstd::prelude::*;

verus! {

/// Errors that the fuzzing core reports to its caller.
#[derive(Debug, Clone, Copy, PartialEq, Eq, Structural)]
pub enum FuzzError {
    /// An edge index at or past the capacity of a coverage state.
    EdgeOutOfRange { edge: usize, capacity: usize },
    /// A queued testcase carries no edge-index list.
    MissingMetadata,
    /// A corpus entry has no measured execution time.
    MissingExecTime { index: usize },
    /// The power schedule was asked to average over an empty corpus.
    EmptyCorpus,
    /// A corpus index past the end of the corpus.
    NoSuchTestcase { index: usize },
    /// The command line names no target binary.
    MissingTarget,
    /// The configuration names no emulator binary.
    MissingQemuPath,
    /// The configured map size is not a usable number.
    InvalidMapSize,
}

} // verus!
