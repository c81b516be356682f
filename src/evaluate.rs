use vstd::prelude::*;

use crate::coverage::{as_ints, decode_map};
use crate::error::FuzzError;
use crate::feedback::{all_seen, BitmapFeedback};
use crate::feedback_state::{has_unseen_edge, mark_seen, path_in_range, CoverageFeedbackState};

verus! {

/// How one execution of the target ended.
#[derive(Debug, Clone, Copy, PartialEq, Eq, Structural)]
pub enum ExitKind {
    /// The target ran to completion.
    Clean,
    /// The target, or the emulator running it, died.
    Crash,
}

/// What became of one execution.
#[derive(Debug)]
pub enum Verdict {
    /// Nothing new: the execution is dropped.
    Discarded,
    /// New coverage: the input enters the queue with these edge indices.
    Corpus(Vec<usize>),
    /// A crash on a new path: the input is kept as a solution with these
    /// edge indices.
    Solution(Vec<usize>),
}

/// Every edge index encoded by `map` lies below `capacity`.
pub open spec fn map_in_range(map: Seq<u8>, capacity: int) -> bool {
    forall|j: int| 0 <= j < decode_map(map).len() ==> #[trigger] decode_map(map)[j] < capacity
}

/// Some edge index encoded by `map` is not set in `seen`.
pub open spec fn map_has_new_edge(seen: Seq<bool>, map: Seq<u8>) -> bool {
    exists|j: int| 0 <= j < decode_map(map).len() && !seen[#[trigger] decode_map(map)[j]]
}

pub proof fn lemma_decoded_path(cov: Seq<usize>, map: Seq<u8>, seen: Seq<bool>)
    requires
        as_ints(cov) == decode_map(map),
    ensures
        path_in_range(cov, seen.len() as int) == map_in_range(map, seen.len() as int),
        path_in_range(cov, seen.len() as int) ==> has_unseen_edge(seen, cov) == map_has_new_edge(seen, map),
{
    assert forall|j: int| 0 <= j < cov.len() implies cov[j] as int == #[trigger] decode_map(map)[j] by {
        assert(as_ints(cov)[j] == cov[j] as int);
    }
    if path_in_range(cov, seen.len() as int) {
        if has_unseen_edge(seen, cov) {
            let j = choose|j: int| 0 <= j < cov.len() && !seen[cov[j] as int];
            assert(!seen[decode_map(map)[j]]);
        }
        if map_has_new_edge(seen, map) {
            let j = choose|j: int| 0 <= j < decode_map(map).len() && !seen[#[trigger] decode_map(map)[j]];
            assert(!seen[cov[j] as int]);
        }
    }
    if map_in_range(map, seen.len() as int) {
        assert forall|j: int| 0 <= j < cov.len() implies (#[trigger] cov[j] as int) < seen.len() by {
            assert(decode_map(map)[j] < seen.len());
        }
    }
}

/// The crash side of the objective: whether an execution that ended with
/// `exit_kind` and left `map` is a new solution. A clean run is not, and
/// leaves `feedback` with no current coverage; a crash is when its path
/// holds an edge that `crash_state` has not recorded.
pub fn is_solution(
    exit_kind: ExitKind,
    feedback: &mut BitmapFeedback,
    crash_state: &CoverageFeedbackState,
    map: &[u8],
) -> (r: Result<bool, FuzzError>)
    requires
        map@.len() * 8 <= usize::MAX,
    ensures
        exit_kind == ExitKind::Clean ==> r == Ok::<bool, FuzzError>(false) && final(feedback).coverage().len() == 0,
        exit_kind == ExitKind::Crash ==> as_ints(final(feedback).coverage()) == decode_map(map@),
        r is Err <==> exit_kind == ExitKind::Crash && !map_in_range(map@, crash_state@.len() as int),
        r is Err ==> r matches Err(FuzzError::EdgeOutOfRange { .. }),
        r matches Ok(b) ==> b == (exit_kind == ExitKind::Crash && map_has_new_edge(crash_state@, map@)),
{
    if exit_kind == ExitKind::Clean {
        feedback.discard_metadata();
        return Ok(false);
    }
    let r = feedback.is_interesting(crash_state, map);
    proof {
        lemma_decoded_path(feedback.coverage(), map@, crash_state@);
    }
    r
}

/// The queue side: whether an execution that ended with `exit_kind` and
/// left `map` enters the queue. A crash does not, and leaves `feedback`
/// with no current coverage; a clean run does when its path holds an edge
/// that `queue_state` has not recorded.
pub fn is_corpus_candidate(
    exit_kind: ExitKind,
    feedback: &mut BitmapFeedback,
    queue_state: &CoverageFeedbackState,
    map: &[u8],
) -> (r: Result<bool, FuzzError>)
    requires
        map@.len() * 8 <= usize::MAX,
    ensures
        exit_kind == ExitKind::Crash ==> r == Ok::<bool, FuzzError>(false) && final(feedback).coverage().len() == 0,
        exit_kind == ExitKind::Clean ==> as_ints(final(feedback).coverage()) == decode_map(map@),
        r is Err <==> exit_kind == ExitKind::Clean && !map_in_range(map@, queue_state@.len() as int),
        r is Err ==> r matches Err(FuzzError::EdgeOutOfRange { .. }),
        r matches Ok(b) ==> b == (exit_kind == ExitKind::Clean && map_has_new_edge(queue_state@, map@)),
{
    if exit_kind == ExitKind::Crash {
        feedback.discard_metadata();
        return Ok(false);
    }
    let r = feedback.is_interesting(queue_state, map);
    proof {
        lemma_decoded_path(feedback.coverage(), map@, queue_state@);
    }
    r
}

/// Decides what becomes of an execution that ended with `exit_kind`
/// and left `map` as its coverage bitmap.
///
/// A crash whose path holds an edge never seen in a crash before is a
/// solution, recorded in `crash_state`. A clean run whose path holds an
/// edge never seen before enters the queue, recorded in `queue_state`.
/// Anything else is discarded and changes neither state.
pub fn evaluate_execution(
    exit_kind: ExitKind,
    map: &[u8],
    queue_feedback: &mut BitmapFeedback,
    queue_state: &mut CoverageFeedbackState,
    crash_feedback: &mut BitmapFeedback,
    crash_state: &mut CoverageFeedbackState,
) -> (r: Result<Verdict, FuzzError>)
    requires
        map@.len() * 8 <= usize::MAX,
        old(queue_state).wf(),
        old(crash_state).wf(),
    ensures
        final(queue_state).wf(),
        final(crash_state).wf(),
        r is Err <==> (exit_kind == ExitKind::Crash && !map_in_range(map@, old(crash_state)@.len() as int))
            || (exit_kind == ExitKind::Clean && !map_in_range(map@, old(queue_state)@.len() as int)),
        r is Err ==> r matches Err(FuzzError::EdgeOutOfRange { .. }),
        r matches Ok(v) ==> (v is Solution <==> exit_kind == ExitKind::Crash && map_has_new_edge(
            old(crash_state)@,
            map@,
        )),
        r matches Ok(v) ==> (v is Corpus <==> exit_kind == ExitKind::Clean && map_has_new_edge(
            old(queue_state)@,
            map@,
        )),
        r matches Ok(Verdict::Solution(list)) ==> {
            &&& as_ints(list@) == decode_map(map@)
            &&& final(crash_state)@ == mark_seen(old(crash_state)@, list@)
            &&& all_seen(final(crash_state)@, list@)
            &&& final(queue_state)@ == old(queue_state)@
        },
        r matches Ok(Verdict::Corpus(list)) ==> {
            &&& as_ints(list@) == decode_map(map@)
            &&& final(queue_state)@ == mark_seen(old(queue_state)@, list@)
            &&& all_seen(final(queue_state)@, list@)
            &&& final(crash_state)@ == old(crash_state)@
        },
        r matches Ok(Verdict::Discarded) ==> final(queue_state)@ == old(queue_state)@
            && final(crash_state)@ == old(crash_state)@,
{
    let solution = is_solution(exit_kind, crash_feedback, crash_state, map);
    match solution {
        Err(e) => {
            return Err(e);
        },
        Ok(true) => {
            queue_feedback.discard_metadata();
            proof {
                lemma_decoded_path(crash_feedback.coverage(), map@, crash_state@);
            }
            let list = crash_feedback.append_metadata(crash_state);
            return match list {
                Ok(list) => Ok(Verdict::Solution(list)),
                Err(e) => Err(e),
            };
        },
        Ok(false) => {},
    }
    let corpus = is_corpus_candidate(exit_kind, queue_feedback, queue_state, map);
    match corpus {
        Err(e) => Err(e),
        Ok(true) => {
            crash_feedback.discard_metadata();
            proof {
                lemma_decoded_path(queue_feedback.coverage(), map@, queue_state@);
            }
            let list = queue_feedback.append_metadata(queue_state);
            match list {
                Ok(list) => Ok(Verdict::Corpus(list)),
                Err(e) => Err(e),
            }
        },
        Ok(false) => {
            queue_feedback.discard_metadata();
            crash_feedback.discard_metadata();
            Ok(Verdict::Discarded)
        },
    }
}

} // verus!
