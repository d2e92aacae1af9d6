//! Delegating free-text input to an external interactive picker.
//!
//! A picker session spawns the external picker with a prompt, immediately
//! writes a single priming newline to its input and closes that pipe (which
//! suppresses the picker's candidate filtering and turns it into a free-text
//! prompt), reads the picker's whole output, and forwards the captured text
//! into the script bridge as a fire-and-forget query.  The spawn, the pipe
//! writes and the read happen on a worker thread in the embedding shell;
//! what to run and what to forward are decided here.

use vstd::prelude::*;
use vstd::string::StringExecFns;
use crate::script::ScriptQuery;

verus! {

/// The single byte written to the picker's input before anything is read:
/// a newline, which makes the picker give up candidate filtering.
pub const PRIMING_BYTE: u8 = 10;

/// Which of the two picker-backed commands a session serves.
#[derive(Clone, Copy, Debug, PartialEq, Eq, Structural)]
pub enum PickerKind {
    /// Captured text is evaluated as code.
    EvalCode,
    /// Captured text is evaluated as file input.
    EvalFile,
}

/// Everything a worker thread needs to run one picker session: the program
/// to spawn, its prompt flag and prompt text, and the priming byte to write
/// before reading.
#[derive(Debug, PartialEq, Eq)]
pub struct PickerPlan {
    pub program: String,
    pub prompt_flag: String,
    pub prompt: String,
    pub priming_byte: u8,
}

/// The prompt shown by the picker for each kind of session.
pub open spec fn prompt_of(kind: PickerKind) -> Seq<char> {
    match kind {
        PickerKind::EvalCode => "Eval Lua code"@,
        PickerKind::EvalFile => "Eval Lua file"@,
    }
}

/// Build the plan for one picker session: spawn `dmenu -p <prompt>`, prime
/// its input with a single newline, then read its output to the end.
pub fn picker_plan(kind: PickerKind) -> (p: PickerPlan)
    ensures
        p.program@ == "dmenu"@,
        p.prompt_flag@ == "-p"@,
        p.prompt@ == prompt_of(kind),
        p.priming_byte == PRIMING_BYTE,
{
    let prompt = match kind {
        PickerKind::EvalCode => String::from_str("Eval Lua code"),
        PickerKind::EvalFile => String::from_str("Eval Lua file"),
    };
    PickerPlan {
        program: String::from_str("dmenu"),
        prompt_flag: String::from_str("-p"),
        prompt,
        priming_byte: PRIMING_BYTE,
    }
}

/// The query a finished session forwards to the script bridge, built from
/// whatever text the picker produced.  Every captured text is forwarded as
/// it stands — in particular, a picker that exits at once with empty output
/// forwards an empty query, which is not an error.
pub fn forward_query(kind: PickerKind, captured: String) -> (q: ScriptQuery)
    ensures
        q == (match kind {
            PickerKind::EvalCode => ScriptQuery::Execute(captured),
            PickerKind::EvalFile => ScriptQuery::ExecFile(captured),
        }),
{
    match kind {
        PickerKind::EvalCode => ScriptQuery::Execute(captured),
        PickerKind::EvalFile => ScriptQuery::ExecFile(captured),
    }
}

} // verus!
