//! The parsed command line, as plain data: the unverified entry point parses
//! the real arguments and hands this structure over.

use vstd::prelude::*;

verus! {

/// The invocation: exactly one subcommand.
#[derive(Debug)]
pub struct Cli {
    pub command: Command,
}

impl Cli {
    pub fn new(command: Command) -> (r: Cli)
        ensures
            r.command == command,
    {
        Cli { command }
    }

    pub fn command(&self) -> (r: &Command)
        ensures
            r == self.command,
    {
        &self.command
    }
}

/// What the user asked for: validate one configuration file (optionally
/// printing its parsed form), or run the service loop.
#[derive(Debug)]
pub enum Command {
    CheckConfig { config: String, print_syntax: bool },
    Systemd,
}

} // verus!
