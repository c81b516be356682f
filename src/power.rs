use vstd::prelude::*;
use vstd::arithmetic::div_mod::{lemma_div_is_ordered, lemma_div_multiples_vanish, lemma_fundamental_div_mod_converse};
use vstd::arithmetic::power2::{lemma_pow2_adds, lemma_pow2_pos, lemma_pow2_unfold, pow2};
use std::collections::HashMap;

use crate::testcase::Testcase;

verus! {

/// Dampening divisor of the power schedule.
pub const POWER_BETA: u64 = 100;

/// `x` clamped to the range of an iteration count: at least 1, at most
/// `u64::MAX`.
pub open spec fn clamp_iterations(x: int) -> int {
    if x < 1 {
        1
    } else if x > u64::MAX as int {
        u64::MAX as int
    } else {
        x
    }
}

/// Number of mutation rounds for a testcase of score `perf` at fuzz level
/// `fuzz_level` whose path was visited `path_count` times.
pub open spec fn scaled_iterations_spec(perf: int, fuzz_level: nat, path_count: int) -> int {
    clamp_iterations(perf * pow2(fuzz_level) / (POWER_BETA as int * path_count))
}

proof fn lemma_double_step(perf: int, p: int, q: int, d: int, r: int, i: nat)
    requires
        perf * p == q * d + r,
        p == pow2(i),
    ensures
        perf * pow2(i + 1) == 2 * q * d + 2 * r,
{
    lemma_pow2_unfold(i + 1);
    assert(perf * pow2(i + 1) == 2 * (perf * p)) by (nonlinear_arith)
        requires
            pow2(i + 1) == 2 * p,
    ;
    assert(2 * (q * d + r) == 2 * q * d + 2 * r) by (nonlinear_arith);
}

proof fn lemma_saturates(perf: int, q: int, d: int, r: int, i: nat, level: nat)
    requires
        i < level,
        perf >= 0,
        d > 0,
        0 <= r,
        q >= 0x8000_0000_0000_0000,
        perf * pow2(i) == q * d + r,
    ensures
        perf * pow2(level) / d > u64::MAX as int,
{
    let rest = (level - i) as nat;
    lemma_pow2_adds(i, rest);
    assert(i + rest == level);
    lemma_pow2_unfold(rest);
    lemma_pow2_pos((rest - 1) as nat);
    let big = perf * pow2(level);
    assert(big == (q * d + r) * pow2(rest)) by (nonlinear_arith)
        requires
            big == perf * pow2(level),
            pow2(level) == pow2(i) * pow2(rest),
            perf * pow2(i) == q * d + r,
    ;
    let lim = 0x1_0000_0000_0000_0000int;
    assert(big >= d * lim) by (nonlinear_arith)
        requires
            big == (q * d + r) * pow2(rest),
            pow2(rest) >= 2,
            q >= 0x8000_0000_0000_0000,
            d > 0,
            r >= 0,
            lim == 0x1_0000_0000_0000_0000int,
    ;
    lemma_div_is_ordered(d * lim, big, d);
    lemma_div_multiples_vanish(lim, d);
}

/// `perf * 2^fuzz_level / (POWER_BETA * path_count)`, at least 1 and
/// saturating at `u64::MAX`.
pub fn scaled_iterations(perf: u64, fuzz_level: u64, path_count: u64) -> (n: u64)
    requires
        path_count >= 1,
    ensures
        n as int == scaled_iterations_spec(perf as int, fuzz_level as nat, path_count as int),
{
    let beta: u128 = POWER_BETA as u128;
    assert(beta == 100);
    let d: u128 = beta * (path_count as u128);
    assert(d > 0);
    let mut q: u128 = (perf as u128) / d;
    let mut r: u128 = (perf as u128) % d;
    let mut i: u64 = 0;
    proof {
        assert(pow2(0) == 1) by {
            vstd::arithmetic::power2::lemma_pow2(0);
            vstd::arithmetic::power::lemma_pow0(2);
        }
        vstd::arithmetic::div_mod::lemma_fundamental_div_mod(perf as int, d as int);
        assert(perf as int * pow2(0) == q * d + r) by (nonlinear_arith)
            requires
                pow2(0) == 1,
                perf as int == d * (perf as int / d as int) + (perf as int % d as int),
                q == perf as int / d as int,
                r == perf as int % d as int,
        ;
    }
    while i < fuzz_level
        invariant
            d == 100 * path_count as int,
            d > 0,
            r < d,
            q <= u64::MAX as int,
            i <= fuzz_level,
            perf as int * pow2(i as nat) == q * d + r,
        decreases fuzz_level - i,
    {
        if q > (u64::MAX as u128) / 2 {
            proof {
                lemma_saturates(perf as int, q as int, d as int, r as int, i as nat, fuzz_level as nat);
            }
            return u64::MAX;
        }
        proof {
            lemma_double_step(perf as int, pow2(i as nat) as int, q as int, d as int, r as int, i as nat);
        }
        let ghost (q0, r0) = (q as int, r as int);
        let r2: u128 = 2 * r;
        if r2 >= d {
            q = 2 * q + 1;
            r = r2 - d;
            assert(2 * q0 * d + 2 * r0 == q * d + r) by (nonlinear_arith)
                requires
                    q == 2 * q0 + 1,
                    r == 2 * r0 - d,
            ;
        } else {
            q = 2 * q;
            r = r2;
            assert(2 * q0 * d + 2 * r0 == q * d + r) by (nonlinear_arith)
                requires
                    q == 2 * q0,
                    r == 2 * r0,
            ;
        }
        i = i + 1;
    }
    proof {
        lemma_fundamental_div_mod_converse(perf as int * pow2(fuzz_level as nat), d as int, q as int, r as int);
    }
    if q == 0 {
        1
    } else {
        q as u64
    }
}

} // verus!

verus! {

/// Score given by the execution time `t` of a testcase against the
/// corpus average `avg`: slower testcases get fewer rounds, faster ones
/// more. A zero on either side gives the neutral score.
pub open spec fn exec_time_score(t: int, avg: int) -> int {
    if t == 0 || avg == 0 {
        100
    } else if t > 10 * avg {
        10
    } else if t > 4 * avg {
        25
    } else if t > 2 * avg {
        50
    } else if 3 * t > 4 * avg {
        75
    } else if 4 * t < avg {
        300
    } else if 3 * t < avg {
        200
    } else if 2 * t < avg {
        150
    } else {
        100
    }
}

/// Factor, in quarters, given by the edge count `e` of a testcase against
/// the corpus average `avg`: more edges, more rounds.
pub open spec fn edge_count_quarters(e: int, avg: int) -> int {
    if 3 * e > 10 * avg {
        12
    } else if e > 2 * avg {
        8
    } else if 3 * e > 4 * avg {
        6
    } else if 3 * e < avg {
        1
    } else if 2 * e < avg {
        2
    } else if 3 * e < 2 * avg {
        3
    } else {
        4
    }
}

/// The whole part of the performance score of a testcase with execution
/// time `t` (if measured) and `e` edges.
pub open spec fn perf_score(t: Option<u64>, e: int, avg_time: int, avg_edges: int) -> int {
    let base = match t {
        Some(t) => exec_time_score(t as int, avg_time),
        None => 100,
    };
    base * edge_count_quarters(e, avg_edges) / 4
}

fn compute_exec_time_score(t: u64, avg: u64) -> (s: u64)
    ensures
        s as int == exec_time_score(t as int, avg as int),
{
    let t = t as u128;
    let avg = avg as u128;
    if t == 0 || avg == 0 {
        100
    } else if t > 10 * avg {
        10
    } else if t > 4 * avg {
        25
    } else if t > 2 * avg {
        50
    } else if 3 * t > 4 * avg {
        75
    } else if 4 * t < avg {
        300
    } else if 3 * t < avg {
        200
    } else if 2 * t < avg {
        150
    } else {
        100
    }
}

fn compute_edge_count_quarters(e: usize, avg: usize) -> (f: u64)
    ensures
        f as int == edge_count_quarters(e as int, avg as int),
{
    let e = e as u128;
    let avg = avg as u128;
    if 3 * e > 10 * avg {
        12
    } else if e > 2 * avg {
        8
    } else if 3 * e > 4 * avg {
        6
    } else if 3 * e < avg {
        1
    } else if 2 * e < avg {
        2
    } else if 3 * e < 2 * avg {
        3
    } else {
        4
    }
}

/// How many times the path of hash `h` was visited, 1 if never.
pub open spec fn visit_count(paths: Map<u64, u64>, h: u64) -> u64 {
    if paths.contains_key(h) {
        paths[h]
    } else {
        1
    }
}

/// The visit count after one more visit, saturating at `u64::MAX`.
pub open spec fn bumped_count(paths: Map<u64, u64>, h: u64) -> u64 {
    if !paths.contains_key(h) {
        1
    } else if paths[h] < u64::MAX {
        (paths[h] + 1) as u64
    } else {
        paths[h]
    }
}

/// Sum of the execution times of the first `n` entries of `corpus`.
pub open spec fn total_exec_time(corpus: Seq<Testcase>, n: int) -> int
    decreases n,
{
    if n <= 0 {
        0
    } else {
        total_exec_time(corpus, n - 1) + match corpus[n - 1].exec_time {
            Some(t) => t as int,
            None => 0,
        }
    }
}

/// Sum of the edge counts of the first `n` entries of `corpus`.
pub open spec fn total_edges(corpus: Seq<Testcase>, n: int) -> int
    decreases n,
{
    if n <= 0 {
        0
    } else {
        total_edges(corpus, n - 1) + match corpus[n - 1].edges {
            Some(e) => e@.len() as int,
            None => 0,
        }
    }
}

/// Every entry of `corpus` before `n` has an execution time and edges.
pub open spec fn measured_upto(corpus: Seq<Testcase>, n: int) -> bool {
    forall|i: int| 0 <= i < n ==> (#[trigger] corpus[i]).exec_time is Some && corpus[i].edges is Some
}

/// Decides how many mutation rounds each queued testcase receives, from
/// its execution time and edge count against the corpus averages, the
/// number of completed sweeps and how often its path was visited.
pub struct PowerMutationalStage {
    paths: HashMap<u64, u64>,
    fuzz_level: u64,
    avg_map_size: usize,
    avg_exec_time: u64,
}

impl PowerMutationalStage {
    /// Visit count of each path hash.
    pub closed spec fn paths_spec(&self) -> Map<u64, u64> {
        self.paths@
    }

    /// Number of completed sweeps, starting at 1.
    pub closed spec fn fuzz_level_spec(&self) -> u64 {
        self.fuzz_level
    }

    /// Average edge count over the corpus, 0 until computed.
    pub closed spec fn avg_map_size_spec(&self) -> usize {
        self.avg_map_size
    }

    /// Average execution time over the corpus in nanoseconds, 0 until
    /// computed.
    pub closed spec fn avg_exec_time_spec(&self) -> u64 {
        self.avg_exec_time
    }

    /// Every recorded visit count is at least 1.
    pub open spec fn wf(&self) -> bool {
        forall|h: u64| #[trigger] self.paths_spec().contains_key(h) ==> self.paths_spec()[h] >= 1
    }

    /// Rounds owed to a testcase with execution time `t` and edge list
    /// `edges`, in this stage's present state.
    pub open spec fn iterations_spec(&self, t: Option<u64>, edges: Seq<usize>) -> int {
        scaled_iterations_spec(
            perf_score(t, edges.len() as int, self.avg_exec_time_spec() as int, self.avg_map_size_spec() as int),
            self.fuzz_level_spec() as nat,
            visit_count(self.paths_spec(), crate::path_hash::spec_path_hash(edges)) as int,
        )
    }

    /// A stage at fuzz level 1 with no averages and no visited paths.
    pub fn new() -> (s: Self)
        ensures
            s.wf(),
            s.paths_spec() == Map::<u64, u64>::empty(),
            s.fuzz_level_spec() == 1,
            s.avg_map_size_spec() == 0,
            s.avg_exec_time_spec() == 0,
    {
        PowerMutationalStage { paths: HashMap::new(), fuzz_level: 1, avg_map_size: 0, avg_exec_time: 0 }
    }

    /// Number of completed sweeps, starting at 1.
    pub fn fuzz_level(&self) -> (l: u64)
        ensures
            l == self.fuzz_level_spec(),
    {
        self.fuzz_level
    }

    /// Average edge count over the corpus.
    pub fn avg_map_size(&self) -> (a: usize)
        ensures
            a == self.avg_map_size_spec(),
    {
        self.avg_map_size
    }

    /// Average execution time over the corpus, in nanoseconds.
    pub fn avg_exec_time(&self) -> (a: u64)
        ensures
            a == self.avg_exec_time_spec(),
    {
        self.avg_exec_time
    }

    /// Hash of a testcase's edge-index list.
    pub fn hash_testcase(&self, edges: &Vec<usize>) -> (h: u64)
        ensures
            h == crate::path_hash::spec_path_hash(edges@),
    {
        crate::path_hash::path_hash(edges.as_slice())
    }

    /// How many testcases so far reached the path of hash `path_hash`;
    /// 1 for a path never recorded.
    pub fn get_paths(&self, path_hash: u64) -> (n: u64)
        requires
            self.wf(),
        ensures
            n == visit_count(self.paths_spec(), path_hash),
            n >= 1,
    {
        broadcast use vstd::std_specs::hash::group_hash_axioms;
        match self.paths.get(&path_hash) {
            Some(count) => {
                assert(self.paths_spec().contains_key(path_hash));
                *count
            },
            None => 1,
        }
    }

    /// Counts one more visit of the path of `case`. Fails, changing
    /// nothing, when `case` has no edge-index list.
    pub fn mark_path(&mut self, case: &Testcase) -> (r: Result<(), crate::error::FuzzError>)
        requires
            old(self).wf(),
        ensures
            final(self).wf(),
            final(self).fuzz_level_spec() == old(self).fuzz_level_spec(),
            final(self).avg_map_size_spec() == old(self).avg_map_size_spec(),
            final(self).avg_exec_time_spec() == old(self).avg_exec_time_spec(),
            case.edges is None <==> r == Err::<(), crate::error::FuzzError>(crate::error::FuzzError::MissingMetadata),
            case.edges is None ==> final(self).paths_spec() == old(self).paths_spec(),
            case.edges matches Some(e) ==> r is Ok && {
                let h = crate::path_hash::spec_path_hash(e@);
                final(self).paths_spec() == old(self).paths_spec().insert(h, bumped_count(old(self).paths_spec(), h))
            },
    {
        broadcast use vstd::std_specs::hash::group_hash_axioms;
        match &case.edges {
            None => Err(crate::error::FuzzError::MissingMetadata),
            Some(edges) => {
                let path_hash = self.hash_testcase(edges);
                let next = match self.paths.get(&path_hash) {
                    Some(count) => if *count < u64::MAX {
                        *count + 1
                    } else {
                        *count
                    },
                    None => 1,
                };
                let ghost before = self.paths_spec();
                self.paths.insert(path_hash, next);
                assert forall|h: u64| #[trigger] self.paths_spec().contains_key(h) implies self.paths_spec()[h] >= 1 by {
                    if h != path_hash {
                        assert(before.contains_key(h));
                    }
                }
                Ok(())
            },
        }
    }

    /// Number of mutation rounds owed to `case`. Fails when `case` has no
    /// edge-index list.
    pub fn iterations(&self, case: &Testcase) -> (r: Result<u64, crate::error::FuzzError>)
        requires
            self.wf(),
        ensures
            case.edges is None <==> r == Err::<u64, crate::error::FuzzError>(crate::error::FuzzError::MissingMetadata),
            case.edges matches Some(e) ==> r matches Ok(n) && n as int == self.iterations_spec(case.exec_time, e@),
    {
        match &case.edges {
            None => Err(crate::error::FuzzError::MissingMetadata),
            Some(edges) => {
                let base = match case.exec_time {
                    Some(t) => compute_exec_time_score(t, self.avg_exec_time),
                    None => 100,
                };
                let quarters = compute_edge_count_quarters(edges.len(), self.avg_map_size);
                let perf = base * quarters / 4;
                let path_hash = self.hash_testcase(edges);
                let path_count = self.get_paths(path_hash);
                Ok(scaled_iterations(perf, self.fuzz_level, path_count))
            },
        }
    }

    proof fn lemma_wf_same_paths(a: &Self, b: &Self)
        requires
            a.wf(),
            a.paths_spec() == b.paths_spec(),
        ensures
            b.wf(),
    {
        assert forall|h: u64| #[trigger] b.paths_spec().contains_key(h) implies b.paths_spec()[h] >= 1 by {
            assert(a.paths_spec().contains_key(h));
        }
    }

    /// Whether the corpus averages are still to be computed.
    pub fn needs_init(&self) -> (b: bool)
        ensures
            b == (self.avg_map_size_spec() == 0 && self.avg_exec_time_spec() == 0),
    {
        self.avg_map_size == 0 && self.avg_exec_time == 0
    }

    /// Computes the average execution time and edge count over `corpus`.
    /// Fails, changing nothing, on an empty corpus or at the first entry
    /// that lacks an execution time or an edge-index list.
    pub fn init_avg_stats(&mut self, corpus: &Vec<Testcase>) -> (r: Result<(), crate::error::FuzzError>)
        requires
            old(self).wf(),
        ensures
            final(self).wf(),
            final(self).paths_spec() == old(self).paths_spec(),
            final(self).fuzz_level_spec() == old(self).fuzz_level_spec(),
            (corpus@.len() == 0) <==> r == Err::<(), crate::error::FuzzError>(crate::error::FuzzError::EmptyCorpus),
            r is Ok <==> corpus@.len() > 0 && measured_upto(corpus@, corpus@.len() as int),
            r matches Err(crate::error::FuzzError::MissingExecTime { index }) ==> index < corpus@.len()
                && measured_upto(corpus@, index as int) && corpus@[index as int].exec_time is None,
            r matches Err(crate::error::FuzzError::MissingMetadata) ==> exists|i: int|
                0 <= i < corpus@.len() && measured_upto(corpus@, i) && (#[trigger] corpus@[i]).exec_time is Some
                    && corpus@[i].edges is None,
            r is Err ==> r matches Err(crate::error::FuzzError::EmptyCorpus) || r matches Err(
                crate::error::FuzzError::MissingExecTime { .. },
            ) || r matches Err(crate::error::FuzzError::MissingMetadata),
            r is Err ==> final(self).avg_map_size_spec() == old(self).avg_map_size_spec()
                && final(self).avg_exec_time_spec() == old(self).avg_exec_time_spec(),
            r is Ok ==> final(self).avg_exec_time_spec() as int == total_exec_time(corpus@, corpus@.len() as int)
                / corpus@.len() as int && final(self).avg_map_size_spec() as int == total_edges(
                corpus@,
                corpus@.len() as int,
            ) / corpus@.len() as int,
    {
        proof {
            Self::lemma_wf_same_paths(old(self), self);
        }
        let count = corpus.len();
        if count == 0 {
            return Err(crate::error::FuzzError::EmptyCorpus);
        }
        let mut total_exec: u128 = 0;
        let mut total_map: u128 = 0;
        let mut i: usize = 0;
        while i < count
            invariant
                count == corpus@.len(),
                i <= count,
                self.wf(),
                self.paths_spec() == old(self).paths_spec(),
                self.fuzz_level_spec() == old(self).fuzz_level_spec(),
                self.avg_map_size_spec() == old(self).avg_map_size_spec(),
                self.avg_exec_time_spec() == old(self).avg_exec_time_spec(),
                measured_upto(corpus@, i as int),
                total_exec as int == total_exec_time(corpus@, i as int),
                total_map as int == total_edges(corpus@, i as int),
                total_exec <= i as int * u64::MAX as int,
                total_map <= i as int * usize::MAX as int,
            decreases count - i,
        {
            let testcase = &corpus[i];
            let exec_time = match testcase.exec_time {
                Some(t) => t,
                None => {
                    return Err(crate::error::FuzzError::MissingExecTime { index: i });
                },
            };
            let edges = match &testcase.edges {
                Some(e) => e,
                None => {
                    assert(corpus@[i as int].edges is None);
                    return Err(crate::error::FuzzError::MissingMetadata);
                },
            };
            proof {
                assert(i as int * u64::MAX as int + u64::MAX as int <= u64::MAX as int * u64::MAX as int) by (nonlinear_arith)
                    requires
                        i < count,
                        count <= usize::MAX,
                        usize::MAX <= u64::MAX,
                ;
                assert(i as int * usize::MAX as int + usize::MAX as int <= usize::MAX as int * usize::MAX as int) by (nonlinear_arith)
                    requires
                        i < count,
                        count <= usize::MAX,
                ;
                assert(u64::MAX as int * u64::MAX as int <= u128::MAX) by (nonlinear_arith);
                assert(usize::MAX as int * usize::MAX as int <= u64::MAX as int * u64::MAX as int) by (nonlinear_arith)
                    requires
                        usize::MAX <= u64::MAX,
                ;
            }
            total_exec = total_exec + exec_time as u128;
            total_map = total_map + edges.len() as u128;
            proof {
                assert((i + 1) as int * u64::MAX as int == i as int * u64::MAX as int + u64::MAX as int) by (nonlinear_arith);
                assert((i + 1) as int * usize::MAX as int == i as int * usize::MAX as int + usize::MAX as int) by (nonlinear_arith);
                assert forall|k: int| 0 <= k < i + 1 implies (#[trigger] corpus@[k]).exec_time is Some
                    && corpus@[k].edges is Some by {
                    if k < i {
                        assert(measured_upto(corpus@, i as int));
                    }
                }
            }
            i = i + 1;
        }
        proof {
            lemma_div_is_ordered(total_exec as int, count as int * u64::MAX as int, count as int);
            vstd::arithmetic::div_mod::lemma_div_multiples_vanish(u64::MAX as int, count as int);
            lemma_div_is_ordered(total_map as int, count as int * usize::MAX as int, count as int);
            vstd::arithmetic::div_mod::lemma_div_multiples_vanish(usize::MAX as int, count as int);
            assert(count as int * u64::MAX as int == u64::MAX as int * count as int) by (nonlinear_arith);
            assert(count as int * usize::MAX as int == usize::MAX as int * count as int) by (nonlinear_arith);
        }
        self.avg_exec_time = (total_exec / count as u128) as u64;
        self.avg_map_size = (total_map / count as u128) as usize;
        proof {
            Self::lemma_wf_same_paths(old(self), self);
        }
        Ok(())
    }

    /// Opens the stage's work on the testcase at `corpus_idx`: computes
    /// the corpus averages if they are not yet known, then returns the
    /// number of rounds owed to that testcase.
    pub fn begin_perform(&mut self, corpus: &Vec<Testcase>, corpus_idx: usize) -> (r: Result<u64, crate::error::FuzzError>)
        requires
            old(self).wf(),
        ensures
            final(self).wf(),
            final(self).paths_spec() == old(self).paths_spec(),
            final(self).fuzz_level_spec() == old(self).fuzz_level_spec(),
            !(old(self).avg_map_size_spec() == 0 && old(self).avg_exec_time_spec() == 0) ==> (
                final(self).avg_map_size_spec() == old(self).avg_map_size_spec()
                && final(self).avg_exec_time_spec() == old(self).avg_exec_time_spec()),
            old(self).avg_map_size_spec() == 0 && old(self).avg_exec_time_spec() == 0 && corpus@.len() > 0
                && measured_upto(corpus@, corpus@.len() as int) ==> final(self).avg_exec_time_spec() as int
                == total_exec_time(corpus@, corpus@.len() as int) / corpus@.len() as int
                && final(self).avg_map_size_spec() as int == total_edges(corpus@, corpus@.len() as int)
                / corpus@.len() as int,
            r matches Ok(n) ==> corpus_idx < corpus@.len() && (corpus@[corpus_idx as int].edges matches Some(e)
                && n as int == final(self).iterations_spec(corpus@[corpus_idx as int].exec_time, e@)),
            old(self).avg_map_size_spec() == 0 && old(self).avg_exec_time_spec() == 0 && corpus@.len() == 0 ==> r
                == Err::<u64, crate::error::FuzzError>(crate::error::FuzzError::EmptyCorpus),
            (!(old(self).avg_map_size_spec() == 0 && old(self).avg_exec_time_spec() == 0) || (corpus@.len() > 0
                && measured_upto(corpus@, corpus@.len() as int))) && corpus_idx >= corpus@.len() ==> r == Err::<
                u64,
                crate::error::FuzzError,
            >(crate::error::FuzzError::NoSuchTestcase { index: corpus_idx }),
            r is Ok <==> (old(self).avg_map_size_spec() == 0 && old(self).avg_exec_time_spec() == 0 ==> corpus@.len()
                > 0 && measured_upto(corpus@, corpus@.len() as int)) && corpus_idx < corpus@.len()
                && corpus@[corpus_idx as int].edges is Some,
    {
        if self.needs_init() {
            let init = self.init_avg_stats(corpus);
            if let Err(e) = init {
                return Err(e);
            }
        }
        if corpus_idx >= corpus.len() {
            return Err(crate::error::FuzzError::NoSuchTestcase { index: corpus_idx });
        }
        self.iterations(&corpus[corpus_idx])
    }

    /// Closes the stage's work on one testcase: the fuzz level goes up
    /// by one, saturating at `u64::MAX`.
    pub fn end_perform(&mut self)
        requires
            old(self).wf(),
        ensures
            final(self).wf(),
            final(self).paths_spec() == old(self).paths_spec(),
            final(self).avg_map_size_spec() == old(self).avg_map_size_spec(),
            final(self).avg_exec_time_spec() == old(self).avg_exec_time_spec(),
            final(self).fuzz_level_spec() as int == if old(self).fuzz_level_spec() < u64::MAX {
                old(self).fuzz_level_spec() + 1
            } else {
                old(self).fuzz_level_spec() as int
            },
    {
        if self.fuzz_level < u64::MAX {
            self.fuzz_level = self.fuzz_level + 1;
        }
        proof {
            Self::lemma_wf_same_paths(old(self), self);
        }
    }
}

} // verus!
