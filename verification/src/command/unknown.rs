//! What is done with a line that is no command.

use crate::game::Game;
use vstd::prelude::*;

verus! {

/// The command that stands for a line that is no command.
#[derive(Debug)]
pub struct UnknownCommand {}

impl UnknownCommand {
    /// Says that the line was no command. The game stays as it is.
    pub fn execute(&self, game: &mut Game) -> (out: String)
        ensures
            final(game)@ == old(game)@,
            out@ == "Not a valid command\n"@,
    {
        "Not a valid command\n".to_owned()
    }
}

} // verus!
