use vstd::prelude::*;

use crate::coverage::{as_ints, decode_map, decode_prefix, push_byte_edges};
use crate::error::FuzzError;
use crate::feedback_state::{has_unseen_edge, mark_seen, path_in_range, CoverageFeedbackState};
use crate::path_hash::{path_hash, spec_path_hash};

verus! {

/// Every index of `path` is set in `seen`.
pub open spec fn all_seen(seen: Seq<bool>, path: Seq<usize>) -> bool {
    forall|j: int| 0 <= j < path.len() ==> seen[#[trigger] path[j] as int]
}

pub proof fn lemma_mark_seen_covers_path(seen: Seq<bool>, path: Seq<usize>)
    requires
        path_in_range(path, seen.len() as int),
    ensures
        all_seen(mark_seen(seen, path), path),
{
    assert forall|j: int| 0 <= j < path.len() implies mark_seen(seen, path)[#[trigger] path[j] as int] by {
        assert(path.contains(path[j]));
        assert(path[j] as int as usize == path[j]);
    }
}

/// Decodes the coverage bitmap of the last execution into edge indices
/// and asks a [`CoverageFeedbackState`] whether any of them is new.
///
/// The state is updated only by [`BitmapFeedback::append_metadata`],
/// once the execution is accepted: two feedbacks may read the same
/// bitmap, and marking the edges early would hide their newness from
/// the second one.
pub struct BitmapFeedback {
    name: String,
    observer_name: String,
    feedback_state_name: String,
    current_coverage: Vec<usize>,
    current_path_hash: u64,
}

impl BitmapFeedback {
    /// Edge indices decoded from the last bitmap that was examined.
    pub closed spec fn coverage(&self) -> Seq<usize> {
        self.current_coverage@
    }

    /// Hash of [`Self::coverage`], as computed by the last examination.
    pub closed spec fn hash_spec(&self) -> u64 {
        self.current_path_hash
    }

    /// Name of this feedback.
    pub closed spec fn name_spec(&self) -> Seq<char> {
        self.name@
    }

    /// Name of the observer whose map this feedback reads.
    pub closed spec fn observer_name_spec(&self) -> Seq<char> {
        self.observer_name@
    }

    /// Name of the feedback state this feedback consults.
    pub closed spec fn feedback_state_name_spec(&self) -> Seq<char> {
        self.feedback_state_name@
    }

    /// A feedback whose observer and feedback state share its name.
    pub fn new(name: &str) -> (f: Self)
        ensures
            f.coverage().len() == 0,
            f.name_spec() == name@,
            f.observer_name_spec() == name@,
            f.feedback_state_name_spec() == name@,
    {
        BitmapFeedback {
            name: name.to_string(),
            observer_name: name.to_string(),
            feedback_state_name: name.to_string(),
            current_coverage: Vec::new(),
            current_path_hash: 0,
        }
    }

    /// A feedback reading the observer and the feedback state of the
    /// given names.
    pub fn new_with_names(observer_name: &str, feedback_state_name: &str, name: &str) -> (f: Self)
        ensures
            f.coverage().len() == 0,
            f.name_spec() == name@,
            f.observer_name_spec() == observer_name@,
            f.feedback_state_name_spec() == feedback_state_name@,
    {
        BitmapFeedback {
            name: name.to_string(),
            observer_name: observer_name.to_string(),
            feedback_state_name: feedback_state_name.to_string(),
            current_coverage: Vec::new(),
            current_path_hash: 0,
        }
    }

    /// Name of this feedback, used for the statistics it reports.
    pub fn name(&self) -> (n: &str)
        ensures
            n@ == self.name_spec(),
    {
        self.name.as_str()
    }

    /// Name of the observer whose map this feedback reads.
    pub fn observer_name(&self) -> (n: &str)
        ensures
            n@ == self.observer_name_spec(),
    {
        self.observer_name.as_str()
    }

    /// Name of the feedback state this feedback consults.
    pub fn feedback_state_name(&self) -> (n: &str)
        ensures
            n@ == self.feedback_state_name_spec(),
    {
        self.feedback_state_name.as_str()
    }

    /// Edge indices decoded from the last bitmap that was examined.
    pub fn current_coverage(&self) -> (c: &Vec<usize>)
        ensures
            c@ == self.coverage(),
    {
        &self.current_coverage
    }

    /// Path hash of the last examined bitmap.
    pub fn current_path_hash(&self) -> (h: u64)
        ensures
            h == self.hash_spec(),
    {
        self.current_path_hash
    }

    fn visit_coverage_byte(&mut self, map: &[u8], byte_index: usize)
        requires
            byte_index < map@.len(),
            map@.len() * 8 <= usize::MAX,
        ensures
            as_ints(final(self).coverage()) == as_ints(old(self).coverage()) + crate::coverage::byte_edges(
                map@[byte_index as int],
                byte_index as int,
            ),
            final(self).hash_spec() == old(self).hash_spec(),
    {
        push_byte_edges(&mut self.current_coverage, map, byte_index);
    }

    fn calculate_path_hash(&mut self)
        ensures
            final(self).coverage() == old(self).coverage(),
            final(self).hash_spec() == spec_path_hash(old(self).coverage()),
    {
        self.current_path_hash = path_hash(self.current_coverage.as_slice());
    }

    /// Decodes `map` into this feedback's current coverage and reports
    /// whether it holds an edge that `state` has not recorded. Fails
    /// when an edge lies past the state's capacity.
    pub fn is_interesting(&mut self, state: &CoverageFeedbackState, map: &[u8]) -> (r: Result<bool, FuzzError>)
        requires
            map@.len() * 8 <= usize::MAX,
        ensures
            as_ints(final(self).coverage()) == decode_map(map@),
            final(self).hash_spec() == spec_path_hash(final(self).coverage()),
            r is Err <==> !path_in_range(final(self).coverage(), state@.len() as int),
            r is Err ==> r matches Err(FuzzError::EdgeOutOfRange { .. }),
            r matches Ok(b) ==> b == has_unseen_edge(state@, final(self).coverage()),
    {
        self.current_coverage.clear();
        assert(as_ints(self.current_coverage@) =~= decode_prefix(map@, 0));
        let size = map.len();
        let mut i: usize = 0;
        while i < size
            invariant
                size == map@.len(),
                i <= size,
                map@.len() * 8 <= usize::MAX,
                as_ints(self.coverage()) == decode_prefix(map@, i as int),
            decreases size - i,
        {
            self.visit_coverage_byte(map, i);
            i = i + 1;
        }
        let interesting = state.is_path_interesting(self.current_coverage.as_slice());
        self.calculate_path_hash();
        interesting
    }

    /// Records the current coverage in `state` and hands it out as the
    /// accepted testcase's edge-index list, leaving the current coverage
    /// empty. Fails, changing nothing, when an edge lies past the
    /// state's capacity.
    pub fn append_metadata(&mut self, state: &mut CoverageFeedbackState) -> (r: Result<Vec<usize>, FuzzError>)
        requires
            old(state).wf(),
        ensures
            final(state).wf(),
            final(state).label() == old(state).label(),
            r is Err <==> !path_in_range(old(self).coverage(), old(state)@.len() as int),
            r is Err ==> r matches Err(FuzzError::EdgeOutOfRange { .. }),
            r matches Ok(list) ==> {
                &&& list@ == old(self).coverage()
                &&& final(state)@ == mark_seen(old(state)@, list@)
                &&& all_seen(final(state)@, list@)
                &&& final(self).coverage().len() == 0
            },
            r is Err ==> final(state)@ == old(state)@ && final(self).coverage() == old(self).coverage(),
            final(self).hash_spec() == old(self).hash_spec(),
    {
        let marked = state.mark_path(self.current_coverage.as_slice());
        match marked {
            Err(e) => Err(e),
            Ok(()) => {
                proof {
                    lemma_mark_seen_covers_path(old(state)@, self.current_coverage@);
                }
                let mut list: Vec<usize> = Vec::new();
                core::mem::swap(&mut list, &mut self.current_coverage);
                Ok(list)
            },
        }
    }

    /// Forgets the current coverage of an execution that was not kept.
    pub fn discard_metadata(&mut self)
        ensures
            final(self).coverage().len() == 0,
            final(self).hash_spec() == old(self).hash_spec(),
    {
        self.current_coverage.clear();
    }
}

} // verus!
