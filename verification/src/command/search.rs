//! `Search`: brings the hidden items of the room to light.

use crate::dice::Dice;
use crate::game::Game;
use crate::game::GameView;
use crate::world::lemma_with_current_wf;
use crate::world::loaded_rolls;
use vstd::prelude::*;

verus! {

/// The command that searches the room.
#[derive(Debug)]
pub struct SearchCommand {}

impl GameView {
    /// The game after a search with the given rolls: the hidden items of
    /// the room in which the player stands lie in sight, and then the
    /// enemies in that room have attacked.
    pub open spec fn searched(self, rolls: Seq<(bool, u32)>) -> GameView {
        self.with_world(
            self.world.with_current(self.world.current().searched()).attacked(rolls),
        )
    }

    /// What is said during such a search.
    pub open spec fn search_text(self, rolls: Seq<(bool, u32)>) -> Seq<char> {
        self.world.with_current(self.world.current().searched()).attack_text(rolls)
    }

    /// Whether a search can lead from this game to the game `after` with
    /// `text` said.
    pub open spec fn may_search(self, after: GameView, text: Seq<char>) -> bool {
        exists|rolls: Seq<(bool, u32)>|
            rolls.len() == self.world.enemies.len() && after == #[trigger] self.searched(rolls)
                && text == self.search_text(rolls)
    }
}

impl SearchCommand {
    /// Lays the hidden items of the room in sight; then every enemy in the
    /// room attacks.
    pub fn execute(&self, game: &mut Game) -> (out: String)
        requires
            old(game)@.wf(),
        ensures
            old(game)@.may_search(final(game)@, out@),
            old(game)@.world.dice matches Dice::Loaded { hit, roll } ==> final(game)@ == old(
                game,
            )@.searched(loaded_rolls(old(game)@.world.enemies.len(), hit, roll)) && out@ == old(
                game,
            )@.search_text(loaded_rolls(old(game)@.world.enemies.len(), hit, roll)),
            final(game)@.wf(),
    {
        let ghost before = game@;
        let world = game.get_world();
        let current_room = world.get_current_room_mut();
        current_room.move_invis_to_visible_items();
        proof {
            lemma_with_current_wf(before.world, before.world.current().searched());
        }
        let ghost lit = world@;
        let out: String = world.enemies_attack();
        proof {
            let rolls = choose|rolls: Seq<(bool, u32)>|
                rolls.len() == lit.enemies.len() && world@ == #[trigger] lit.attacked(rolls)
                    && out@ == lit.attack_text(rolls);
            assert(before.with_world(world@) == before.searched(rolls));
        }
        out
    }
}

} // verus!
