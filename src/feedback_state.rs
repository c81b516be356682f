use vstd::prelude::*;

use crate::error::FuzzError;

verus! {

/// Number of `true` entries in `s`.
pub open spec fn count_true(s: Seq<bool>) -> nat
    decreases s.len(),
{
    if s.len() == 0 {
        0
    } else {
        count_true(s.drop_last()) + if s.last() {
            1nat
        } else {
            0nat
        }
    }
}

/// Whether every index of `path` lies below `capacity`.
pub open spec fn path_in_range(path: Seq<usize>, capacity: int) -> bool {
    forall|j: int| 0 <= j < path.len() ==> (path[j] as int) < capacity
}

/// Whether some index of `path` is not yet set in `seen`.
pub open spec fn has_unseen_edge(seen: Seq<bool>, path: Seq<usize>) -> bool {
    exists|j: int| 0 <= j < path.len() && !seen[path[j] as int]
}

/// `seen` with every index of `path` set.
pub open spec fn mark_seen(seen: Seq<bool>, path: Seq<usize>) -> Seq<bool> {
    Seq::new(seen.len(), |i: int| seen[i] || path.contains(i as usize))
}

/// Marking the same path a second time changes nothing: the seen flags,
/// and with them the count, are those after the first marking.
pub proof fn lemma_mark_path_idempotent(seen: Seq<bool>, path: Seq<usize>)
    ensures
        mark_seen(mark_seen(seen, path), path) == mark_seen(seen, path),
        count_true(mark_seen(mark_seen(seen, path), path)) == count_true(mark_seen(seen, path)),
{
    assert(mark_seen(mark_seen(seen, path), path) =~= mark_seen(seen, path));
}

pub proof fn lemma_count_true_bound(s: Seq<bool>)
    ensures
        count_true(s) <= s.len(),
    decreases s.len(),
{
    if s.len() > 0 {
        lemma_count_true_bound(s.drop_last());
    }
}

pub proof fn lemma_count_true_update(s: Seq<bool>, i: int, v: bool)
    requires
        0 <= i < s.len(),
    ensures
        count_true(s.update(i, v)) + (if s[i] { 1int } else { 0int }) == count_true(s) + (if v { 1int } else { 0int }),
    decreases s.len(),
{
    let t = s.update(i, v);
    if i == s.len() - 1 {
        assert(t.drop_last() =~= s.drop_last());
    } else {
        assert(t.drop_last() =~= s.drop_last().update(i, v));
        lemma_count_true_update(s.drop_last(), i, v);
    }
}

pub proof fn lemma_count_true_all_false(n: nat)
    ensures
        count_true(Seq::new(n, |i: int| false)) == 0,
    decreases n,
{
    if n > 0 {
        assert(Seq::new(n, |i: int| false).drop_last() =~= Seq::new((n - 1) as nat, |i: int| false));
        lemma_count_true_all_false((n - 1) as nat);
    }
}

/// Every coverage edge ever recorded, one flag per edge index, with the
/// number of flags set.
pub struct CoverageFeedbackState {
    /// Name identifier of this instance.
    pub name: String,
    all_time_coverage: Vec<bool>,
    count: u64,
}

impl View for CoverageFeedbackState {
    type V = Seq<bool>;

    /// One flag per edge index: whether that edge has been recorded.
    closed spec fn view(&self) -> Seq<bool> {
        self.all_time_coverage@
    }
}

impl CoverageFeedbackState {
    /// The recorded count of set flags.
    pub closed spec fn count_spec(&self) -> nat {
        self.count as nat
    }

    /// The name of this instance.
    pub closed spec fn label(&self) -> Seq<char> {
        self.name@
    }

    /// The count always equals the number of flags that are set.
    pub open spec fn wf(&self) -> bool {
        self.count_spec() == count_true(self@)
    }

    /// A state of `map_size` edges, none of them seen.
    pub fn new(name: &str, map_size: usize) -> (s: Self)
        ensures
            s.wf(),
            s@ == Seq::new(map_size as nat, |i: int| false),
            s.label() == name@,
    {
        let all_time_coverage = vec![false; map_size];
        proof {
            assert(all_time_coverage@ =~= Seq::new(map_size as nat, |i: int| false));
            lemma_count_true_all_false(map_size as nat);
        }
        CoverageFeedbackState { name: name.to_string(), all_time_coverage, count: 0 }
    }

    /// Number of edges this state can hold.
    pub fn capacity(&self) -> (n: usize)
        ensures
            n == self@.len(),
    {
        self.all_time_coverage.len()
    }

    fn seen_edge(&self, edge: usize) -> (r: Result<bool, FuzzError>)
        ensures
            (edge as int) < self@.len() ==> r == Ok::<bool, FuzzError>(self@[edge as int]),
            (edge as int) >= self@.len() ==> r == Err::<bool, FuzzError>(
                FuzzError::EdgeOutOfRange { edge, capacity: self@.len() as usize },
            ),
    {
        if edge >= self.all_time_coverage.len() {
            return Err(FuzzError::EdgeOutOfRange { edge, capacity: self.all_time_coverage.len() });
        }
        Ok(self.all_time_coverage[edge])
    }

    /// The first index of `path` at or past the capacity, if any.
    fn first_out_of_range(&self, path: &[usize]) -> (r: Option<usize>)
        ensures
            r is None <==> path_in_range(path@, self@.len() as int),
            r is Some ==> path@.contains(r->0) && (r->0 as int) >= self@.len(),
    {
        let mut j: usize = 0;
        while j < path.len()
            invariant
                j <= path@.len(),
                forall|k: int| 0 <= k < j ==> (#[trigger] path@[k] as int) < self@.len(),
            decreases path@.len() - j,
        {
            if path[j] >= self.all_time_coverage.len() {
                return Some(path[j]);
            }
            j = j + 1;
        }
        None
    }

    /// Whether `path` holds an edge index that was never recorded.
    /// Fails when an index lies at or past the capacity.
    pub fn is_path_interesting(&self, path: &[usize]) -> (r: Result<bool, FuzzError>)
        ensures
            r is Err <==> !path_in_range(path@, self@.len() as int),
            r is Err ==> r matches Err(FuzzError::EdgeOutOfRange { .. }),
            r matches Err(FuzzError::EdgeOutOfRange { edge, capacity }) ==> path@.contains(edge)
                && capacity == self@.len() && (edge as int) >= capacity,
            r matches Ok(b) ==> b == has_unseen_edge(self@, path@),
    {
        if let Some(edge) = self.first_out_of_range(path) {
            return Err(FuzzError::EdgeOutOfRange { edge, capacity: self.all_time_coverage.len() });
        }
        let mut j: usize = 0;
        while j < path.len()
            invariant
                j <= path@.len(),
                path_in_range(path@, self@.len() as int),
                forall|k: int| 0 <= k < j ==> self@[#[trigger] path@[k] as int],
            decreases path@.len() - j,
        {
            let seen = self.seen_edge(path[j]);
            if let Ok(false) = seen {
                return Ok(true);
            }
            j = j + 1;
        }
        Ok(false)
    }

    /// Records every edge of `path` as seen, counting the edges that
    /// were new. Fails, and changes nothing, when an index lies at or
    /// past the capacity.
    pub fn mark_path(&mut self, path: &[usize]) -> (r: Result<(), FuzzError>)
        requires
            old(self).wf(),
        ensures
            final(self).wf(),
            final(self).label() == old(self).label(),
            r is Err <==> !path_in_range(path@, old(self)@.len() as int),
            r is Err ==> r matches Err(FuzzError::EdgeOutOfRange { .. }),
            r matches Err(FuzzError::EdgeOutOfRange { edge, capacity }) ==> path@.contains(edge)
                && capacity == old(self)@.len() && (edge as int) >= capacity,
            r is Ok ==> final(self)@ == mark_seen(old(self)@, path@),
            r is Err ==> final(self)@ == old(self)@,
    {
        if let Some(edge) = self.first_out_of_range(path) {
            return Err(FuzzError::EdgeOutOfRange { edge, capacity: self.all_time_coverage.len() });
        }
        let ghost start = self@;
        let mut j: usize = 0;
        while j < path.len()
            invariant
                j <= path@.len(),
                path_in_range(path@, start.len() as int),
                self.wf(),
                self.name == old(self).name,
                self@ == mark_seen(start, path@.subrange(0, j as int)),
            decreases path@.len() - j,
        {
            let edge = path[j];
            let cap = self.all_time_coverage.len();
            assert(cap as int <= u64::MAX);
            let ghost before = self@;
            if !self.all_time_coverage[edge] {
                proof {
                    lemma_count_true_update(before, edge as int, true);
                    lemma_count_true_bound(before.update(edge as int, true));
                }
                self.count = self.count + 1;
            }
            self.all_time_coverage.set(edge, true);
            proof {
                if before[edge as int] {
                    assert(before.update(edge as int, true) =~= before);
                }
                let prev = path@.subrange(0, j as int);
                let next = path@.subrange(0, j + 1);
                assert(next =~= prev.push(edge));
                assert forall|i: int| 0 <= i < self@.len() implies self@[i] == mark_seen(start, next)[i] by {
                    assert(next[j as int] == edge);
                    if prev.contains(i as usize) {
                        let w = choose|w: int| 0 <= w < prev.len() && prev[w] == i as usize;
                        assert(next[w] == i as usize);
                    }
                    if next.contains(i as usize) && i != edge as int {
                        let w = choose|w: int| 0 <= w < next.len() && next[w] == i as usize;
                        assert(w != j as int);
                        assert(prev[w] == next[w]);
                    }
                }
                assert(self@ =~= mark_seen(start, next));
            }
            j = j + 1;
        }
        assert(path@.subrange(0, j as int) =~= path@);
        Ok(())
    }

    /// Records edge `index` as seen; returns whether it had been seen
    /// before. Fails, changing nothing, when it lies past the capacity.
    pub fn check_if_seen_and_mark(&mut self, index: usize) -> (r: Result<bool, FuzzError>)
        requires
            old(self).wf(),
        ensures
            final(self).wf(),
            final(self).label() == old(self).label(),
            (index as int) >= old(self)@.len() <==> r == Err::<bool, FuzzError>(
                FuzzError::EdgeOutOfRange { edge: index, capacity: old(self)@.len() as usize },
            ),
            (index as int) >= old(self)@.len() ==> final(self)@ == old(self)@,
            (index as int) < old(self)@.len() ==> r == Ok::<bool, FuzzError>(old(self)@[index as int])
                && final(self)@ == old(self)@.update(index as int, true),
    {
        let cap = self.all_time_coverage.len();
        if index >= cap {
            return Err(FuzzError::EdgeOutOfRange { edge: index, capacity: cap });
        }
        if self.all_time_coverage[index] {
            proof {
                assert(self@.update(index as int, true) =~= self@);
            }
            return Ok(true);
        }
        proof {
            lemma_count_true_update(self@, index as int, true);
            lemma_count_true_bound(self@.update(index as int, true));
            assert(cap as int <= u64::MAX);
        }
        self.all_time_coverage.set(index, true);
        self.count = self.count + 1;
        Ok(false)
    }

    /// Total number of edges ever recorded.
    pub fn get_all_time_count(&self) -> (n: u64)
        requires
            self.wf(),
        ensures
            n == count_true(self@),
    {
        self.count
    }
}

} // verus!
