//! The panel's console: one letter per command.

use vstd::prelude::*;
use crate::text::{trim, trimmed};

verus! {

/// What the operator asks for.
#[derive(Debug, PartialEq, Eq, Clone, Copy, Structural)]
pub enum Command {
    /// `p`: print the local blueprint once.
    Print,
    /// `b`: run the throughput benchmark.
    Benchmark,
    /// `q`: stop the event loop.
    Quit,
    /// Anything else.
    Unknown,
}

/// The command that a line without the white space around it stands for.
pub open spec fn command_of(word: Seq<char>) -> Command {
    if word == "p"@ {
        Command::Print
    } else if word == "b"@ {
        Command::Benchmark
    } else if word == "q"@ {
        Command::Quit
    } else {
        Command::Unknown
    }
}

/// Reads the command of a line of input.
pub fn parse_command(line: &str) -> (c: Command)
    ensures
        c == command_of(trimmed(line@)),
{
    let word = trim(line);
    if word == "p".to_owned() {
        Command::Print
    } else if word == "b".to_owned() {
        Command::Benchmark
    } else if word == "q".to_owned() {
        Command::Quit
    } else {
        Command::Unknown
    }
}

} // verus!
