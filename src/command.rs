//! The user's input: the accepted length, and the command names.

use vstd::prelude::*;
use vstd::string::StrSliceExecFns;
use crate::error::{Failure, SafeBackupError};
use crate::text::{join3, lowercase_text, lowercased, same_text, trim_text, trimmed};

verus! {

/// The most characters an answer may hold once trimmed.
pub const MAX_INPUT_CHARS: usize = 255;

/// The operations the tool performs.
#[derive(Clone, Copy, Debug, PartialEq, Eq, Structural)]
pub enum Command {
    Backup,
    Restore,
    Delete,
}

/// The command that a lowercased name stands for.
pub open spec fn command_named(folded: Seq<char>) -> Option<Command> {
    if folded == "backup"@ {
        Some(Command::Backup)
    } else if folded == "restore"@ {
        Some(Command::Restore)
    } else if folded == "delete"@ {
        Some(Command::Delete)
    } else {
        None
    }
}

/// What a line typed by the user comes to: the line trimmed, unless that
/// is longer than the limit.
pub open spec fn input_outcome(line: Seq<char>) -> Result<Seq<char>, Failure> {
    if trimmed(line).len() > MAX_INPUT_CHARS {
        Err(Failure::InvalidPath("Input too long"@))
    } else {
        Ok(trimmed(line))
    }
}

/// The command for a name that was already lowercased.
pub fn command_from_folded(folded: &str) -> (r: Option<Command>)
    ensures
        r == command_named(folded@),
{
    if same_text(folded, "backup") {
        Some(Command::Backup)
    } else if same_text(folded, "restore") {
        Some(Command::Restore)
    } else if same_text(folded, "delete") {
        Some(Command::Delete)
    } else {
        None
    }
}

/// The command that `name` stands for, in any case.
pub fn parse_command(name: &str) -> (r: Option<Command>)
    ensures
        r == command_named(lowercased(name@)),
{
    let folded = lowercase_text(name);
    command_from_folded(folded.as_str())
}

/// A line typed by the user, trimmed, or an error when it is too long.
pub fn accept_input(line: &str) -> (r: Result<String, SafeBackupError>)
    ensures
        match r {
            Ok(s) => input_outcome(line@) == Ok::<Seq<char>, Failure>(s@),
            Err(e) => input_outcome(line@) == Err::<Seq<char>, Failure>(e@),
        },
{
    let t = trim_text(line);
    if t.unicode_len() > MAX_INPUT_CHARS {
        Err(SafeBackupError::InvalidPath("Input too long".to_owned()))
    } else {
        Ok(t.to_owned())
    }
}

/// The notice and the audit record for a name that is no command.
pub fn unknown_command(name: &str) -> (r: (String, String))
    ensures
        r.0@ == "Unknown command: '"@ + name@ + "'"@,
        r.1@ == "Unknown command attempted: '"@ + name@ + "'"@,
{
    (join3("Unknown command: '", name, "'"), join3("Unknown command attempted: '", name, "'"))
}

} // verus!
