use vstd::prelude::*;

verus! {

/// An input together with what its accepted execution recorded.
pub struct Testcase {
    /// The input bytes.
    pub input: Vec<u8>,
    /// Measured execution time in nanoseconds, if measured.
    pub exec_time: Option<u64>,
    /// Edge indices of its path, present once the testcase is kept.
    pub edges: Option<Vec<usize>>,
}

impl Testcase {
    /// A testcase for `input` with nothing measured yet.
    pub fn new(input: Vec<u8>) -> (t: Self)
        ensures
            t.input@ == input@,
            t.exec_time is None,
            t.edges is None,
    {
        Testcase { input, exec_time: None, edges: None }
    }

    /// Attaches the edge-index list of the testcase's path.
    pub fn add_edges(&mut self, edges: Vec<usize>)
        ensures
            final(self).input@ == old(self).input@,
            final(self).exec_time == old(self).exec_time,
            final(self).edges matches Some(e) && e@ == edges@,
    {
        self.edges = Some(edges);
    }

    /// Records the measured execution time, in nanoseconds.
    pub fn set_exec_time(&mut self, nanos: u64)
        ensures
            final(self).input@ == old(self).input@,
            final(self).exec_time == Some(nanos),
            final(self).edges == old(self).edges,
    {
        self.exec_time = Some(nanos);
    }
}

} // verus!
