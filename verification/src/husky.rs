//! The core library for the husky git hooks and configuration.
pub mod error;
pub mod filesystem_manager;
pub mod globs;
pub mod repository;
pub mod task_runner;
pub mod text;

use vstd::prelude::*;

use crate::husky::text::{str_trim, trimmed};

verus! {

/// The embedded asset copied to a new git hook script.
pub const ASSETS_HOOK: &'static str = "hook";

/// The embedded asset with the task runner configuration.
pub const ASSETS_TASK_RUNNER: &'static str = "task-runner.json";

/// The embedded asset with the shell helper of the hooks.
pub const ASSETS_HUSKY_SH: &'static str = "husky.sh";

/// The line that `set` appends to a hook script for `command`: the command
/// without its leading and trailing white space, ended by a newline; nothing
/// when the command is blank.
pub open spec fn hook_line(command: Seq<char>) -> Option<Seq<char>> {
    if trimmed(command).len() == 0 {
        None
    } else {
        Some(trimmed(command) + seq!['\n'])
    }
}

/// The line to append to a hook script for `command`, if any: the trimmed
/// command and a newline, or `None` for a blank command.
pub fn hook_command_line(command: &str) -> (res: Option<String>)
    ensures
        res is None <==> hook_line(command@) is None,
        res matches Some(line) ==> hook_line(command@) == Some(line@),
        trimmed(command@).len() > 0 ==> (res matches Some(line) && line@ == trimmed(command@)
            + seq!['\n'] && line@.len() == trimmed(command@).len() + 1),
        trimmed(command@).len() == 0 ==> res is None,
{
    let trimmed_command = str_trim(command);
    if trimmed_command.is_empty() {
        None
    } else {
        let mut line = String::from_str(trimmed_command);
        line.append("\n");
        proof {
            reveal_strlit("\n");
        }
        assert(line@ =~= trimmed(command@) + seq!['\n']);
        Some(line)
    }
}

/// White space around a command does not change the line appended for it.
pub proof fn lemma_hook_line_ignores_surrounding_space(command: Seq<char>)
    ensures
        hook_line(trimmed(command)) == hook_line(command),
{
    crate::husky::text::lemma_trimmed_idempotent(command);
}

/// A command that is not blank is appended in full: its trimmed text, then a newline.
pub proof fn lemma_hook_line_is_whole_trimmed_command(command: Seq<char>)
    ensures
        trimmed(command).len() > 0 ==> hook_line(command) == Some(trimmed(command) + seq!['\n']),
        trimmed(command).len() > 0 ==> (hook_line(command) matches Some(l) && l.len() == trimmed(command).len() + 1
            && l.take(trimmed(command).len() as int) == trimmed(command)),
        trimmed(command).len() == 0 ==> hook_line(command) is None,
{
    if trimmed(command).len() > 0 {
        assert((trimmed(command) + seq!['\n']).take(trimmed(command).len() as int) =~= trimmed(command));
    }
}

} // verus!
