//! The shell-command runner. Running a command is process I/O and lives
//! with the embedding application; the runner handle lives here.

use vstd::prelude::*;

verus! {

/// Runs shell commands on the application's behalf.
#[derive(Debug, Clone, Copy, PartialEq, Eq, Structural)]
pub struct CommandRunner;

impl CommandRunner {
    pub fn new() -> (r: CommandRunner)
        ensures
            r == CommandRunner,
    {
        CommandRunner
    }
}

} // verus!
