//! The operations that the user interface calls, in the uniform result
//! envelope, each counted in the statistics.
use vstd::prelude::*;
use std::time::Instant;
use crate::course::{solution_valid_spec, validation_result, ValidationResult};
use crate::exec::{CommandOutput, ExecError};
use crate::stats::{history_after, AppStats, CommandEntry, CommandResult};

verus! {

/// `std::time::Instant`, a reading of the monotonic clock, carried through
/// as an opaque value.
#[verifier::external_type_specification]
#[verifier::external_body]
pub struct ExInstant(std::time::Instant);

/// Relies on `Instant::now`: a reading of the monotonic clock.
#[verifier::external_body]
fn clock_now() -> (r: Instant) {
    Instant::now()
}

/// Relies on `Instant::elapsed`: the whole milliseconds since `start`,
/// cut to 64 bits.
#[verifier::external_body]
fn elapsed_millis(start: &Instant) -> (r: u64) {
    start.elapsed().as_millis() as u64
}

/// The message shown for a command that produced no output.
pub open spec fn exec_error_text(e: ExecError) -> Seq<char> {
    match e {
        ExecError::Policy(name) => "Commande '"@ + name@ + "' non autorisée"@,
        ExecError::Execution(m) => m@,
    }
}

/// The message shown for a command that produced no output.
pub fn exec_error_message(e: &ExecError) -> (r: String)
    ensures
        r@ == exec_error_text(*e),
{
    match e {
        ExecError::Policy(name) => String::from_str("Commande '").concat(name.as_str()).concat(
            "' non autorisée",
        ),
        ExecError::Execution(m) => m.clone(),
    }
}

/// Records a finished command run of `command` that took `duration_ms`,
/// and answers with its output or its error message.
pub fn command_response(
    stats: &mut AppStats,
    command: &str,
    result: Result<CommandOutput, ExecError>,
    duration_ms: u64,
) -> (r: CommandResult<CommandOutput>)
    ensures
        r.success == result is Ok,
        result matches Ok(out) ==> r.data == Some(out),
        result matches Err(e) ==> r.error matches Some(m) && m@ == exec_error_text(e),
        result is Ok ==> r.error is None,
        result is Err ==> r.data is None,
        final(stats).commands_executed == old(stats).commands_executed.wrapping_add(1),
        final(stats).errors_count == if result is Ok {
            old(stats).errors_count
        } else {
            old(stats).errors_count.wrapping_add(1)
        },
        exists|e: CommandEntry|
            {
                &&& final(stats).command_history@ == history_after(
                    old(stats).command_history@,
                    e,
                )
                &&& e.command@ == command@
                &&& e.success == result is Ok
                &&& e.duration_ms == duration_ms
            },
{
    let success = result.is_ok();
    stats.record_command(command, success, duration_ms);
    match result {
        Ok(out) => CommandResult::ok(out),
        Err(e) => CommandResult::err(exec_error_message(&e)),
    }
}

/// Checks `solution` for chapter `chapter_id`, records the check as the
/// command `validate_solution`, and answers with the verdict.
pub fn validate_solution(stats: &mut AppStats, chapter_id: &str, solution: &str) -> (r:
    CommandResult<ValidationResult>)
    ensures
        r.success,
        r.data matches Some(v) && v.valid == solution_valid_spec(chapter_id@, solution@),
        final(stats).commands_executed == old(stats).commands_executed.wrapping_add(1),
        final(stats).errors_count == old(stats).errors_count,
        exists|e: CommandEntry|
            {
                &&& final(stats).command_history@ == history_after(
                    old(stats).command_history@,
                    e,
                )
                &&& e.command@ == "validate_solution"@
                &&& e.success
            },
{
    let start = clock_now();
    let verdict = validation_result(chapter_id, solution);
    stats.record_command("validate_solution", true, elapsed_millis(&start));
    CommandResult::ok(verdict)
}

} // verus!
