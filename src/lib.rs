//! Coverage-guided greybox fuzzing core for an AFL-compatible emulator
//! running in forkserver mode.
//!
//! The modules hold the decisions of the fuzzing loop: decoding the
//! shared coverage bitmap, remembering every edge ever seen, deciding
//! which executions enter the queue or the solutions, the forkserver
//! protocol state machine and the power schedule. Process spawning,
//! pipes, shared memory and files are left to the caller.

pub mod cli;
pub mod config;
pub mod coverage;
pub mod elf;
pub mod error;
pub mod evaluate;
pub mod executor;
pub mod feedback;
pub mod feedback_state;
pub mod forkserver;
pub mod path_hash;
pub mod power;
pub mod stats;
pub mod testcase;

pub use cli::{get_args, parse_args};
pub use config::Config;
pub use coverage::{collect_bit_coverage, collect_byte_coverage};
pub use elf::{find_addr_by_sym, lookup_symbol, DynamicSymbol, ElfError, SymbolName};
pub use error::FuzzError;
pub use evaluate::{evaluate_execution, is_corpus_candidate, is_solution, ExitKind, Verdict};
pub use executor::{out_file_len, parse_argv, reset_map, ForkserverExecutor, SimpleQEMU};
pub use feedback::BitmapFeedback;
pub use feedback_state::CoverageFeedbackState;
pub use forkserver::{persistent_addr, Forkserver, ForkserverState, FORKSRV_FD, PERSISTENT_OK_STATUS, QEMU_BASE};
pub use path_hash::path_hash;
pub use power::PowerMutationalStage;
pub use stats::{get_user_stat, plot_row_due, UserStat};
pub use testcase::Testcase;
