//! Application statistics, the command history, and the uniform result
//! envelope that every operation answers with.
use vstd::prelude::*;
use std::collections::HashMap;
use crate::ids::{is_uuid_v4_text, new_uuid};

verus! {

/// How many entries the command history keeps; older ones are dropped.
pub const HISTORY_CAPACITY: usize = 1000;

/// Relies on `SystemTime::elapsed` of `UNIX_EPOCH`: the whole seconds
/// elapsed since the Unix epoch by the system clock, or none when the clock
/// stands before it. Nothing is promised of the value.
#[verifier::external_body]
fn seconds_since_epoch() -> (r: Option<u64>) {
    match std::time::UNIX_EPOCH.elapsed() {
        Ok(d) => Some(d.as_secs()),
        Err(_) => None,
    }
}

/// The current time in seconds since the Unix epoch; 0 when the clock stands
/// before the epoch.
pub fn current_timestamp() -> (r: u64) {
    match seconds_since_epoch() {
        Some(s) => s,
        None => 0,
    }
}

/// Memory use of the process in megabytes; not measured, always 0.
pub fn get_memory_usage() -> (r: u64)
    ensures
        r == 0,
{
    0
}

/// A user's progress through the course.
pub struct UserProgress {
    pub user_id: String,
    pub completed_chapters: Vec<String>,
    pub current_chapter: Option<String>,
    pub total_time_seconds: u64,
    pub last_activity: u64,
}

/// One command of the history.
pub struct CommandEntry {
    pub id: String,
    pub command: String,
    pub timestamp: u64,
    pub success: bool,
    pub duration_ms: u64,
}

/// The answer to an operation: its data on success, its error message on
/// failure, and when it was made.
pub struct CommandResult<T> {
    pub success: bool,
    pub data: Option<T>,
    pub error: Option<String>,
    pub timestamp: u64,
}

impl<T> CommandResult<T> {
    /// A successful answer carrying `data`.
    pub fn ok(data: T) -> (r: Self)
        ensures
            r.success,
            r.data == Some(data),
            r.error is None,
    {
        CommandResult { success: true, data: Some(data), error: None, timestamp: current_timestamp() }
    }

    /// A failed answer carrying the message `error`.
    pub fn err(error: String) -> (r: Self)
        ensures
            !r.success,
            r.data is None,
            r.error matches Some(e) && e@ == error@,
    {
        CommandResult { success: false, data: None, error: Some(error), timestamp: current_timestamp() }
    }
}

/// The history after recording `e`: `e` is added last, and the oldest entry
/// is dropped when that makes more than `HISTORY_CAPACITY`.
pub open spec fn history_after(h: Seq<CommandEntry>, e: CommandEntry) -> Seq<CommandEntry> {
    if h.len() + 1 > HISTORY_CAPACITY {
        h.push(e).drop_first()
    } else {
        h.push(e)
    }
}

/// Counters and history of the application.
pub struct AppStats {
    /// Commands run so far.
    pub commands_executed: u64,
    /// Commands that failed so far.
    pub errors_count: u64,
    /// When the application started, in seconds since the Unix epoch.
    pub start_time: u64,
    /// Progress of each user, by user id.
    pub user_progress: HashMap<String, UserProgress>,
    /// The most recent commands, oldest first.
    pub command_history: Vec<CommandEntry>,
}

impl AppStats {
    /// Statistics with no command recorded and no user known, started now.
    pub fn new() -> (r: Self)
        ensures
            r.commands_executed == 0,
            r.errors_count == 0,
            r.user_progress@ == Map::<String, UserProgress>::empty(),
            r.command_history@ == Seq::<CommandEntry>::empty(),
    {
        AppStats {
            commands_executed: 0,
            errors_count: 0,
            start_time: current_timestamp(),
            user_progress: HashMap::new(),
            command_history: Vec::new(),
        }
    }

    /// Counts one command, and one error if it failed, and adds it to the
    /// history under a fresh id. The counters wrap around as atomic
    /// counters do.
    pub fn record_command(&mut self, command: &str, success: bool, duration_ms: u64)
        ensures
            final(self).commands_executed == old(self).commands_executed.wrapping_add(1),
            final(self).errors_count == if success {
                old(self).errors_count
            } else {
                old(self).errors_count.wrapping_add(1)
            },
            final(self).start_time == old(self).start_time,
            final(self).user_progress@ == old(self).user_progress@,
            exists|e: CommandEntry|
                {
                    &&& final(self).command_history@ == history_after(
                        old(self).command_history@,
                        e,
                    )
                    &&& e.command@ == command@
                    &&& e.success == success
                    &&& e.duration_ms == duration_ms
                    &&& is_uuid_v4_text(e.id@)
                },
    {
        self.commands_executed = self.commands_executed.wrapping_add(1);
        if !success {
            self.errors_count = self.errors_count.wrapping_add(1);
        }
        let entry = CommandEntry {
            id: new_uuid(),
            command: command.to_owned(),
            timestamp: current_timestamp(),
            success,
            duration_ms,
        };
        let ghost e = entry;
        let ghost h = self.command_history@;
        self.command_history.push(entry);
        if self.command_history.len() > HISTORY_CAPACITY {
            self.command_history.remove(0);
            assert(self.command_history@ =~= h.push(e).drop_first());
        }
        assert(self.command_history@ == history_after(h, e));
    }
}

} // verus!
