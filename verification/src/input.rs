//! Core-level input commands and the mapping from a pressed key to a
//! command. The input adapter polls at most one key per tick and hands
//! the mapped command (or none) to the simulation.

use vstd::prelude::*;

verus! {

/// The player's only inputs: an upward impulse, or quitting the game.
#[derive(Clone, Copy, Debug, PartialEq, Eq, Structural)]
pub enum Command {
    Jump,
    Quit,
}

/// The command a pressed character maps to: space jumps, `q` quits, and
/// any other key is ignored.
pub open spec fn spec_command_of_char(c: char) -> Option<Command> {
    if c == ' ' {
        Some(Command::Jump)
    } else if c == 'q' {
        Some(Command::Quit)
    } else {
        None
    }
}

/// Maps one pressed character to a command.
pub fn command_of_char(c: char) -> (r: Option<Command>)
    ensures
        r == spec_command_of_char(c),
{
    if c == ' ' {
        Some(Command::Jump)
    } else if c == 'q' {
        Some(Command::Quit)
    } else {
        None
    }
}

} // verus!
