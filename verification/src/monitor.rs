//! The exit monitor's rules: how the end of the runtime is reported to those
//! who asked to hear of it, and how its output is marked when it is passed
//! on.

use vstd::prelude::*;
use vstd::string::StringExecFns;

use crate::text::joined;

verus! {

/// What waiting for the runtime to end gave.
#[derive(Debug, Clone, Copy, PartialEq, Eq, Structural)]
pub enum WaitResult {
    /// The runtime ended; with its exit code, where it has one.
    Exited(Option<i32>),
    /// Waiting failed.
    Failed,
}

/// How the runtime ended.
#[derive(Debug)]
pub struct ExitOutcome {
    /// The exit code, where there is one.
    pub code: Option<i32>,
    /// The name of the signal that ended the runtime; empty where none did.
    pub signal: String,
}

/// The view of an `ExitOutcome`.
pub struct ExitOutcomeView {
    pub code: Option<i32>,
    pub signal: Seq<char>,
}

impl View for ExitOutcome {
    type V = ExitOutcomeView;

    open spec fn view(&self) -> ExitOutcomeView {
        ExitOutcomeView { code: self.code, signal: self.signal@ }
    }
}

/// How a runtime ended for which waiting gave `waited`: a runtime that ended
/// has its code and no signal; where waiting failed, the runtime counts as
/// killed.
pub open spec fn exit_outcome_of(waited: WaitResult) -> ExitOutcomeView {
    match waited {
        WaitResult::Exited(code) => ExitOutcomeView { code, signal: ""@ },
        WaitResult::Failed => ExitOutcomeView { code: None, signal: "SIGKILL"@ },
    }
}

/// What every line of the runtime's output is marked with.
pub open spec fn output_marker() -> Seq<char> {
    "[deno] "@
}

/// Tells how the runtime ended, from what waiting for it gave.
pub fn classify_exit(waited: WaitResult) -> (outcome: ExitOutcome)
    ensures
        outcome@ == exit_outcome_of(waited),
{
    match waited {
        WaitResult::Exited(code) => ExitOutcome { code, signal: String::from_str("") },
        WaitResult::Failed => ExitOutcome { code: None, signal: String::from_str("SIGKILL") },
    }
}

/// A line of the runtime's output as it is passed on: with the marker before
/// it.
pub fn marked_line(line: &str) -> (out: String)
    ensures
        out@ == output_marker() + line@,
{
    joined("[deno] ", line)
}

} // verus!
