//! `Help`: lists the commands.

use crate::game::Game;
use vstd::prelude::*;

verus! {

/// The command that lists the commands.
#[derive(Debug)]
pub struct HelpCommand {}

/// The list of the commands, as it is printed.
pub open spec fn help_text() -> Seq<char> {
    "[\"Help\", \"Look\", \"Search\", \"Go <Direction>\", \"Take <Object>\", \"Put <Object>\", \"See <Object>\", \"SeePlayer\", \"Hit <Enemy>\", \"Wear <Object>\", \"Wait\", \"Consume <Object>\", \"Godmode\", \"Quit\", \"Unknown\"]\n"@
}

impl HelpCommand {
    /// Lists the commands. The game stays as it is.
    pub fn execute(&self, game: &mut Game) -> (out: String)
        ensures
            final(game)@ == old(game)@,
            out@ == help_text(),
    {
        "[\"Help\", \"Look\", \"Search\", \"Go <Direction>\", \"Take <Object>\", \"Put <Object>\", \"See <Object>\", \"SeePlayer\", \"Hit <Enemy>\", \"Wear <Object>\", \"Wait\", \"Consume <Object>\", \"Godmode\", \"Quit\", \"Unknown\"]\n".to_owned()
    }
}

} // verus!
