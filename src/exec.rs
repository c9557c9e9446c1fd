//! The one-shot executor: a whitelisted program run to completion with both
//! output streams captured.
//!
//! The library decides whether a command may run and what is handed to the
//! operating system (`plan_command`), and turns what the finished process
//! left behind into a result (`finish_command`). Spawning itself is done by
//! the caller with the plan's program and its discrete argument vector; no
//! shell ever sees the arguments. A timeout hint, where a caller has one, is
//! advisory and not enforced.
use vstd::prelude::*;
use crate::policy::{command_name, first_token, is_allowed, is_allowed_spec};
use crate::text::{decode_lossy, lossy_utf8};

verus! {

/// What a finished command produced.
pub struct CommandOutput {
    pub stdout: String,
    pub stderr: String,
    pub exit_code: i32,
}

/// Why a command produced no output.
pub enum ExecError {
    /// The program name is not on the whitelist; nothing was spawned.
    Policy(String),
    /// The process could not be started (not found, permission denied, ...).
    Execution(String),
}

/// What to hand to the operating system: a program and its argument vector.
pub struct CommandPlan {
    pub program: String,
    pub args: Vec<String>,
}

/// What a process left behind: both captured streams and its exit code, if
/// it had one (a process killed by a signal has none).
pub struct RawOutput {
    pub stdout: Vec<u8>,
    pub stderr: Vec<u8>,
    pub code: Option<i32>,
}

/// The exit code reported for a process: its own, or -1 when it has none.
pub open spec fn exit_code_spec(code: Option<i32>) -> i32 {
    match code {
        Some(c) => c,
        None => -1i32,
    }
}

/// Whether two argument vectors hold the same strings in the same order.
pub open spec fn same_args(a: Seq<String>, b: Seq<String>) -> bool {
    a.len() == b.len() && forall|i: int| 0 <= i < a.len() ==> #[trigger] a[i]@ == b[i]@
}

/// Copies an argument vector entry by entry.
fn copy_args(args: &Vec<String>) -> (r: Vec<String>)
    ensures
        same_args(r@, args@),
{
    let mut r: Vec<String> = Vec::new();
    let mut i: usize = 0;
    while i < args.len()
        invariant
            i <= args.len(),
            r@.len() == i,
            forall|j: int| 0 <= j < i ==> #[trigger] r@[j]@ == args@[j]@,
        decreases args.len() - i,
    {
        r.push(args[i].clone());
        i = i + 1;
    }
    r
}

/// Checks the program name of `command` against the whitelist and, if it
/// passes, builds the plan to run exactly that program with `args` as
/// discrete argv entries, unchanged.
///
/// The program name is the first white-space delimited token of `command`;
/// the rest of the string is ignored, so what runs is always what was
/// checked. A refused command yields `ExecError::Policy` with that token.
pub fn plan_command(command: &str, args: &Vec<String>) -> (r: Result<CommandPlan, ExecError>)
    ensures
        r is Ok <==> is_allowed_spec(first_token(command@)),
        r matches Ok(p) ==> p.program@ == first_token(command@) && same_args(p.args@, args@),
        r matches Err(e) ==> e matches ExecError::Policy(n) && n@ == first_token(command@),
{
    let name = command_name(command);
    if !is_allowed(name) {
        return Err(ExecError::Policy(name.to_owned()));
    }
    Ok(CommandPlan { program: name.to_owned(), args: copy_args(args) })
}

/// The exit code reported for a process: its own, or -1 when it has none.
pub fn exit_code_of(code: Option<i32>) -> (r: i32)
    ensures
        r == exit_code_spec(code),
{
    match code {
        Some(c) => c,
        None => -1,
    }
}

/// Turns the outcome of running a plan into the command's result: both
/// streams decoded permissively, and the exit code (or -1). A failure to
/// start the process becomes `ExecError::Execution` with its message.
pub fn finish_command(outcome: Result<RawOutput, String>) -> (r: Result<CommandOutput, ExecError>)
    ensures
        outcome is Ok <==> r is Ok,
        outcome matches Ok(raw) ==> r matches Ok(out) && out.stdout@ == lossy_utf8(raw.stdout@)
            && out.stderr@ == lossy_utf8(raw.stderr@) && out.exit_code == exit_code_spec(raw.code),
        outcome matches Err(m) ==> r matches Err(e) && e matches ExecError::Execution(em) && em@
            == m@,
{
    match outcome {
        Ok(raw) => {
            let stdout = decode_lossy(raw.stdout.as_slice());
            let stderr = decode_lossy(raw.stderr.as_slice());
            Ok(CommandOutput { stdout, stderr, exit_code: exit_code_of(raw.code) })
        },
        Err(m) => Err(ExecError::Execution(m)),
    }
}

} // verus!
