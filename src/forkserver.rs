use vstd::prelude::*;

use crate::evaluate::ExitKind;

verus! {

/// Descriptor on which the emulator reads the control pipe; the status
/// pipe is the next one.
pub const FORKSRV_FD: i32 = 198;

/// Exit status the emulator reports for a persistent-mode iteration that
/// completed cleanly.
pub const PERSISTENT_OK_STATUS: i32 = 4991;

/// Base address at which the emulator loads the target binary.
pub const QEMU_BASE: u64 = 0x55_0000_0000;

/// Where the forkserver protocol stands.
#[derive(Debug, Clone, Copy, PartialEq, Eq, Structural)]
pub enum ForkserverState {
    /// The emulator was never started.
    Uninitialized,
    /// The emulator is alive and waits for a go word.
    Idle,
    /// A go word was written; the child's pid is awaited.
    PendingChildPid,
    /// The child's pid was read; its exit status is awaited.
    PendingExit,
    /// The emulator died; it must be spawned again.
    Dead,
}

/// Whether the emulator must be spawned (and greeted) before the next
/// execution.
pub open spec fn needs_spawn_spec(s: ForkserverState) -> bool {
    s == ForkserverState::Uninitialized || s == ForkserverState::Dead
}

/// Whether a status word is awaited.
pub open spec fn awaits_status(s: ForkserverState) -> bool {
    s == ForkserverState::PendingChildPid || s == ForkserverState::PendingExit
}

/// Next state, and the outcome of the execution if it ended, when `word`
/// is received in state `s`. A negative word means the emulator died:
/// the pending execution is a crash.
pub open spec fn status_step(s: ForkserverState, word: i32) -> (ForkserverState, Option<ExitKind>) {
    match s {
        ForkserverState::PendingChildPid => if word < 0 {
            (ForkserverState::Dead, Some(ExitKind::Crash))
        } else {
            (ForkserverState::PendingExit, None)
        },
        ForkserverState::PendingExit => if word < 0 {
            (ForkserverState::Dead, Some(ExitKind::Crash))
        } else if word == PERSISTENT_OK_STATUS {
            (ForkserverState::Idle, Some(ExitKind::Clean))
        } else {
            (ForkserverState::Idle, Some(ExitKind::Crash))
        },
        _ => (s, None),
    }
}

/// Within one execution, status words are read in the order child pid,
/// then child exit status: the exit-status phase is entered only from the
/// pid phase, a pid word never ends the execution cleanly, and after a
/// non-negative pid the very next word ends the execution.
pub proof fn lemma_status_reads_in_order(s: ForkserverState, pid: i32, status: i32)
    ensures
        status_step(s, pid).0 == ForkserverState::PendingExit ==> s == ForkserverState::PendingChildPid,
        status_step(s, pid).1 == Some(ExitKind::Clean) ==> s == ForkserverState::PendingExit,
        s == ForkserverState::PendingChildPid && pid >= 0 ==> {
            &&& status_step(s, pid) == (ForkserverState::PendingExit, None::<ExitKind>)
            &&& status_step(status_step(s, pid).0, status).1 is Some
            &&& !awaits_status(status_step(status_step(s, pid).0, status).0)
        },
{
}

/// The forkserver side of the protocol with an AFL-compatible emulator:
/// what to start, and where the exchange of words stands.
pub struct Forkserver {
    qemu: String,
    target: String,
    ld_library_path: String,
    afl_persistent_addr: Option<String>,
    pid: u32,
    child_pid: i32,
    status: i32,
    state: ForkserverState,
}

impl Forkserver {
    /// Where the protocol stands.
    pub closed spec fn state_spec(&self) -> ForkserverState {
        self.state
    }

    /// Pid of the last child reported by the emulator.
    pub closed spec fn child_pid_spec(&self) -> i32 {
        self.child_pid
    }

    /// Last exit status reported by the emulator.
    pub closed spec fn status_spec(&self) -> i32 {
        self.status
    }

    /// Pid of the emulator process.
    pub closed spec fn pid_spec(&self) -> u32 {
        self.pid
    }

    /// Path of the emulator binary.
    pub closed spec fn qemu_spec(&self) -> Seq<char> {
        self.qemu@
    }

    /// Path of the target binary.
    pub closed spec fn target_spec(&self) -> Seq<char> {
        self.target@
    }

    /// Library search path handed to the emulated process.
    pub closed spec fn ld_library_path_spec(&self) -> Seq<char> {
        self.ld_library_path@
    }

    /// The persistent-loop address, if one was set.
    pub closed spec fn persistent_addr_spec(&self) -> Option<Seq<char>> {
        match self.afl_persistent_addr {
            Some(a) => Some(a@),
            None => None,
        }
    }

    /// A forkserver for `target` under the emulator at `qemu`, not yet
    /// started.
    pub fn new(qemu: String, ld_library_path: String, target: String) -> (f: Self)
        ensures
            f.state_spec() == ForkserverState::Uninitialized,
            f.qemu_spec() == qemu@,
            f.target_spec() == target@,
            f.ld_library_path_spec() == ld_library_path@,
            f.persistent_addr_spec() is None,
    {
        Forkserver {
            qemu,
            target,
            ld_library_path,
            afl_persistent_addr: None,
            pid: 0,
            child_pid: 0,
            status: 0,
            state: ForkserverState::Uninitialized,
        }
    }

    /// Makes the emulator loop around the given address (written in hex).
    pub fn set_persistent_addr(&mut self, addr: String)
        ensures
            final(self).state_spec() == old(self).state_spec(),
            final(self).qemu_spec() == old(self).qemu_spec(),
            final(self).target_spec() == old(self).target_spec(),
            final(self).ld_library_path_spec() == old(self).ld_library_path_spec(),
            final(self).persistent_addr_spec() == Some(addr@),
    {
        self.afl_persistent_addr = Some(addr);
    }

    /// Path of the emulator binary.
    pub fn qemu(&self) -> (q: &str)
        ensures
            q@ == self.qemu_spec(),
    {
        self.qemu.as_str()
    }

    /// Path of the target binary.
    pub fn target(&self) -> (t: &str)
        ensures
            t@ == self.target_spec(),
    {
        self.target.as_str()
    }

    /// Library search path handed to the emulated process.
    pub fn ld_library_path(&self) -> (l: &str)
        ensures
            l@ == self.ld_library_path_spec(),
    {
        self.ld_library_path.as_str()
    }

    /// The persistent-loop address, if one was set.
    pub fn persistent_addr(&self) -> (a: Option<&str>)
        ensures
            self.persistent_addr_spec() is None <==> a is None,
            a matches Some(s) ==> self.persistent_addr_spec() == Some(s@),
    {
        match &self.afl_persistent_addr {
            Some(a) => Some(a.as_str()),
            None => None,
        }
    }

    /// Pid of the emulator process.
    pub fn pid(&self) -> (p: u32)
        ensures
            p == self.pid_spec(),
    {
        self.pid
    }

    /// Pid of the last child the emulator reported.
    pub fn child_pid(&self) -> (p: i32)
        ensures
            p == self.child_pid_spec(),
    {
        self.child_pid
    }

    /// Last exit status the emulator reported.
    pub fn status(&self) -> (s: i32)
        ensures
            s == self.status_spec(),
    {
        self.status
    }

    /// Where the protocol stands.
    pub fn state(&self) -> (s: ForkserverState)
        ensures
            s == self.state_spec(),
    {
        self.state
    }

    /// Whether the emulator is running.
    pub fn is_alive(&self) -> (b: bool)
        ensures
            b == !needs_spawn_spec(self.state_spec()),
    {
        !(self.state == ForkserverState::Uninitialized || self.state == ForkserverState::Dead)
    }

    /// Whether the emulator must be spawned before the next execution.
    pub fn needs_spawn(&self) -> (b: bool)
        ensures
            b == needs_spawn_spec(self.state_spec()),
    {
        self.state == ForkserverState::Uninitialized || self.state == ForkserverState::Dead
    }

    /// The emulator of pid `pid` was spawned and its hello word (any
    /// value) was received: the forkserver is ready for an execution.
    pub fn on_handshake(&mut self, pid: u32, hello: i32)
        requires
            needs_spawn_spec(old(self).state_spec()),
        ensures
            final(self).state_spec() == ForkserverState::Idle,
            final(self).pid_spec() == pid,
            final(self).status_spec() == 0,
            final(self).child_pid_spec() == old(self).child_pid_spec(),
    {
        self.pid = pid;
        self.status = 0;
        self.state = ForkserverState::Idle;
    }

    /// Starts an execution; returns the go word to write on the control
    /// pipe.
    pub(crate) fn request_fork(&mut self) -> (go: i32)
        requires
            old(self).state_spec() == ForkserverState::Idle,
        ensures
            go == 0,
            final(self).state_spec() == ForkserverState::PendingChildPid,
            final(self).pid_spec() == old(self).pid_spec(),
            final(self).child_pid_spec() == old(self).child_pid_spec(),
            final(self).status_spec() == old(self).status_spec(),
    {
        self.state = ForkserverState::PendingChildPid;
        0
    }

    /// Takes one word received on the status channel; returns the outcome
    /// of the execution once it has ended.
    pub fn on_status(&mut self, word: i32) -> (r: Option<ExitKind>)
        requires
            awaits_status(old(self).state_spec()),
        ensures
            (final(self).state_spec(), r) == status_step(old(self).state_spec(), word),
            final(self).pid_spec() == old(self).pid_spec(),
            final(self).child_pid_spec() == if old(self).state_spec() == ForkserverState::PendingChildPid && word >= 0 {
                word
            } else {
                old(self).child_pid_spec()
            },
            final(self).status_spec() == if old(self).state_spec() == ForkserverState::PendingExit && word >= 0 {
                word
            } else {
                old(self).status_spec()
            },
    {
        if word < 0 {
            self.state = ForkserverState::Dead;
            return Some(ExitKind::Crash);
        }
        if self.state == ForkserverState::PendingChildPid {
            self.child_pid = word;
            self.state = ForkserverState::PendingExit;
            None
        } else {
            self.status = word;
            self.state = ForkserverState::Idle;
            if word == PERSISTENT_OK_STATUS {
                Some(ExitKind::Clean)
            } else {
                Some(ExitKind::Crash)
            }
        }
    }
}

/// Address of the persistent loop for a symbol at `sym_value` in the
/// target, or `None` when it does not fit in 64 bits.
pub fn persistent_addr(sym_value: u64) -> (a: Option<u64>)
    ensures
        sym_value as int + QEMU_BASE as int <= u64::MAX ==> a == Some((sym_value + QEMU_BASE) as u64),
        sym_value as int + QEMU_BASE as int > u64::MAX ==> a is None,
{
    sym_value.checked_add(QEMU_BASE)
}

} // verus!
