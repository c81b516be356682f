use vstd::prelude::*;

use crate::evaluate::ExitKind;
use crate::forkserver::{awaits_status, needs_spawn_spec, status_step, Forkserver, ForkserverState};

verus! {

/// Placeholder in the target's arguments for the path of the input file.
pub open spec fn is_input_placeholder(arg: Seq<char>) -> bool {
    arg == "@@"@
}

/// The target's arguments with every `@@` replaced by `out_filename`.
pub open spec fn substitute_input(argv: Seq<String>, out_filename: Seq<char>) -> Seq<Seq<char>> {
    Seq::new(argv.len(), |i: int| if is_input_placeholder(argv[i]@) { out_filename } else { argv[i]@ })
}

/// Views of a list of strings.
pub open spec fn string_views(v: Seq<String>) -> Seq<Seq<char>> {
    Seq::new(v.len(), |i: int| v[i]@)
}

/// Replaces each `@@` among the target's arguments by the path of the
/// input file.
pub fn parse_argv(v: &Vec<String>, out_filename: &str) -> (args: Vec<String>)
    ensures
        string_views(args@) == substitute_input(v@, out_filename@),
{
    let placeholder = "@@".to_owned();
    let mut final_args: Vec<String> = Vec::new();
    let mut i: usize = 0;
    while i < v.len()
        invariant
            i <= v@.len(),
            placeholder@ == "@@"@,
            string_views(final_args@) == substitute_input(v@, out_filename@).subrange(0, i as int),
        decreases v@.len() - i,
    {
        let item = &v[i];
        let arg = if *item == placeholder {
            out_filename.to_owned()
        } else {
            item.clone()
        };
        let ghost before = final_args@;
        final_args.push(arg);
        assert(string_views(final_args@) =~= string_views(before).push(arg@));
        assert(substitute_input(v@, out_filename@).subrange(0, i + 1) =~= substitute_input(
            v@,
            out_filename@,
        ).subrange(0, i as int).push(arg@));
        i = i + 1;
    }
    assert(substitute_input(v@, out_filename@).subrange(0, i as int) =~= substitute_input(v@, out_filename@));
    final_args
}

/// Resets every byte of a coverage map to zero.
pub fn reset_map(map: &mut [u8])
    ensures
        final(map)@.len() == old(map)@.len(),
        forall|i: int| 0 <= i < final(map)@.len() ==> #[trigger] final(map)@[i] == 0,
{
    let n = map.len();
    let mut i: usize = 0;
    while i < n
        invariant
            n == map@.len(),
            i <= n,
            forall|k: int| 0 <= k < i ==> #[trigger] map@[k] == 0,
        decreases n - i,
    {
        map[i] = 0;
        i = i + 1;
    }
}

/// Length the input file is cut to after writing `len` bytes into a file
/// of at most `max_len` bytes.
pub fn out_file_len(len: u64, max_len: u64) -> (n: u64)
    ensures
        n == if len > max_len { max_len } else { len },
{
    if len > max_len {
        max_len
    } else {
        len
    }
}

/// Runs the target under a forkserver: feeds each input through a file
/// named in the target's arguments, clears the coverage map, and turns
/// the words of the status channel into an [`ExitKind`].
pub struct ForkserverExecutor {
    target: String,
    args: Vec<String>,
    out_filename: String,
    forkserver: Forkserver,
}

impl ForkserverExecutor {
    /// Where the forkserver protocol stands.
    pub closed spec fn state_spec(&self) -> ForkserverState {
        self.forkserver.state_spec()
    }

    /// The forkserver this executor drives.
    pub closed spec fn forkserver_spec(&self) -> Forkserver {
        self.forkserver
    }

    /// Path of the input file.
    pub closed spec fn out_filename_spec(&self) -> Seq<char> {
        self.out_filename@
    }

    /// The target binary.
    pub closed spec fn target_spec(&self) -> Seq<char> {
        self.target@
    }

    /// The target's arguments, with the input file substituted.
    pub closed spec fn args_spec(&self) -> Seq<String> {
        self.args@
    }

    /// An executor for `bin` under the emulator at `qemu`, whose arguments
    /// are `argv` with `@@` replaced by `out_filename`. The emulator is not
    /// started yet.
    pub fn new(
        qemu: &str,
        ld_library_path: &str,
        afl_persistent_addr: Option<String>,
        bin: &str,
        argv: &Vec<String>,
        out_filename: &str,
    ) -> (e: Self)
        ensures
            e.state_spec() == ForkserverState::Uninitialized,
            string_views(e.args_spec()) == substitute_input(argv@, out_filename@),
            e.target_spec() == bin@,
            e.out_filename_spec() == out_filename@,
            e.forkserver_spec().qemu_spec() == qemu@,
            e.forkserver_spec().target_spec() == bin@,
            e.forkserver_spec().ld_library_path_spec() == ld_library_path@,
            match afl_persistent_addr {
                Some(a) => e.forkserver_spec().persistent_addr_spec() == Some(a@),
                None => e.forkserver_spec().persistent_addr_spec() is None,
            },
    {
        let args = parse_argv(argv, out_filename);
        let mut forkserver = Forkserver::new(qemu.to_owned(), ld_library_path.to_owned(), bin.to_owned());
        if let Some(addr) = afl_persistent_addr {
            forkserver.set_persistent_addr(addr);
        }
        ForkserverExecutor { target: bin.to_owned(), args, out_filename: out_filename.to_owned(), forkserver }
    }

    /// The target binary.
    pub fn target(&self) -> (t: &String)
        ensures
            t@ == self.target_spec(),
    {
        &self.target
    }

    /// The target's arguments, with the input file substituted.
    pub fn args(&self) -> (a: &Vec<String>)
        ensures
            a@ == self.args_spec(),
    {
        &self.args
    }

    /// Path of the input file.
    pub fn out_filename(&self) -> (f: &str)
        ensures
            f@ == self.out_filename_spec(),
    {
        self.out_filename.as_str()
    }

    /// The forkserver this executor drives.
    pub fn forkserver(&self) -> (f: &Forkserver)
        ensures
            *f == self.forkserver_spec(),
            f.state_spec() == self.state_spec(),
    {
        &self.forkserver
    }

    /// Whether the emulator must be spawned before the next execution.
    pub fn needs_spawn(&self) -> (b: bool)
        ensures
            b == needs_spawn_spec(self.state_spec()),
    {
        self.forkserver.needs_spawn()
    }

    /// The emulator of pid `pid` was spawned and its hello word received.
    pub fn on_handshake(&mut self, pid: u32, hello: i32)
        requires
            needs_spawn_spec(old(self).state_spec()),
        ensures
            final(self).state_spec() == ForkserverState::Idle,
            final(self).out_filename_spec() == old(self).out_filename_spec(),
            final(self).target_spec() == old(self).target_spec(),
            final(self).args_spec() == old(self).args_spec(),
    {
        self.forkserver.on_handshake(pid, hello);
    }

    /// Starts one execution: the coverage map is cleared, and only then is
    /// the go word handed out for the control pipe.
    pub fn begin_run(&mut self, map: &mut [u8]) -> (go: i32)
        requires
            old(self).state_spec() == ForkserverState::Idle,
        ensures
            go == 0,
            final(self).state_spec() == ForkserverState::PendingChildPid,
            final(map)@.len() == old(map)@.len(),
            forall|i: int| 0 <= i < final(map)@.len() ==> #[trigger] final(map)@[i] == 0,
            final(self).out_filename_spec() == old(self).out_filename_spec(),
            final(self).target_spec() == old(self).target_spec(),
            final(self).args_spec() == old(self).args_spec(),
    {
        reset_map(map);
        self.forkserver.request_fork()
    }

    /// Takes one word from the status channel; returns the outcome of the
    /// execution once it has ended.
    pub fn on_status(&mut self, word: i32) -> (r: Option<ExitKind>)
        requires
            awaits_status(old(self).state_spec()),
        ensures
            (final(self).state_spec(), r) == status_step(old(self).state_spec(), word),
            final(self).forkserver_spec().pid_spec() == old(self).forkserver_spec().pid_spec(),
            final(self).forkserver_spec().child_pid_spec() == if old(self).state_spec()
                == ForkserverState::PendingChildPid && word >= 0 {
                word
            } else {
                old(self).forkserver_spec().child_pid_spec()
            },
            final(self).forkserver_spec().status_spec() == if old(self).state_spec() == ForkserverState::PendingExit
                && word >= 0 {
                word
            } else {
                old(self).forkserver_spec().status_spec()
            },
            final(self).out_filename_spec() == old(self).out_filename_spec(),
            final(self).target_spec() == old(self).target_spec(),
            final(self).args_spec() == old(self).args_spec(),
    {
        self.forkserver.on_status(word)
    }
}

/// Runs the emulator once per input, without a forkserver.
pub struct SimpleQEMU {
    qemu_path: String,
    ld_library_path: Option<String>,
}

impl SimpleQEMU {
    /// Path of the emulator binary.
    pub closed spec fn qemu_path_spec(&self) -> Seq<char> {
        self.qemu_path@
    }

    /// Library search path handed to the emulated process, if any.
    pub closed spec fn ld_library_path_spec(&self) -> Option<String> {
        self.ld_library_path
    }

    /// A runner for the emulator at `qemu_path`.
    pub fn new(qemu_path: String, ld_library_path: Option<String>) -> (q: Self)
        ensures
            q.qemu_path_spec() == qemu_path@,
            q.ld_library_path_spec() == ld_library_path,
    {
        SimpleQEMU { qemu_path, ld_library_path }
    }

    /// Path of the emulator binary.
    pub fn qemu_path(&self) -> (p: &String)
        ensures
            p@ == self.qemu_path_spec(),
    {
        &self.qemu_path
    }

    /// Library search path handed to the emulated process, if any.
    pub fn ld_library_path(&self) -> (l: &Option<String>)
        ensures
            *l == self.ld_library_path_spec(),
    {
        &self.ld_library_path
    }

    /// Outcome of a run that exited with success `success`, or was killed
    /// by a signal when `signaled`: only a signal is a crash.
    pub fn exit_kind(success: bool, signaled: bool) -> (k: ExitKind)
        ensures
            k == if !success && signaled { ExitKind::Crash } else { ExitKind::Clean },
    {
        if success {
            ExitKind::Clean
        } else if signaled {
            ExitKind::Crash
        } else {
            ExitKind::Clean
        }
    }
}

} // verus!
