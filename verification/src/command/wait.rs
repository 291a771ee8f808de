//! `Wait`: lets a turn go by.

use crate::dice::Dice;
use crate::game::loaded_draws;
use crate::game::Draws;
use crate::game::Game;
use crate::game::GameView;
use vstd::prelude::*;

verus! {

/// The command that lets a turn go by.
#[derive(Debug)]
pub struct WaitCommand {}

impl GameView {
    /// The game after a turn has gone by with the given draws: the enemies
    /// in the player's room have attacked, and then every enemy has moved.
    pub open spec fn waited(self, draws: Draws) -> GameView {
        self.with_world(self.world.attacked(draws.rolls).enemies_moved(draws.picks))
    }

    /// What is said while such a turn goes by.
    pub open spec fn wait_text(self, draws: Draws) -> Seq<char> {
        self.world.attack_text(draws.rolls)
    }

    /// Whether a turn that goes by can lead from this game to the game
    /// `after` with `text` said.
    pub open spec fn may_wait(self, after: GameView, text: Seq<char>) -> bool {
        exists|draws: Draws|
            draws.for_enemies(self.world.enemies.len()) && after == #[trigger] self.waited(draws)
                && text == self.wait_text(draws)
    }
}

impl WaitCommand {
    /// Every enemy in the player's room attacks; then every enemy moves.
    pub fn execute(&self, game: &mut Game) -> (out: String)
        requires
            old(game)@.wf(),
        ensures
            old(game)@.may_wait(final(game)@, out@),
            old(game)@.world.dice matches Dice::Loaded { hit, roll } ==> final(game)@ == old(
                game,
            )@.waited(loaded_draws(old(game)@.world.enemies.len(), hit, roll)) && out@ == old(
                game,
            )@.wait_text(loaded_draws(old(game)@.world.enemies.len(), hit, roll)),
            final(game)@.wf(),
    {
        let ghost before = game@;
        let world = game.get_world();
        let out: String = world.enemies_attack();
        let ghost attacked = world@;
        world.enemies_move();
        proof {
            let rolls = choose|rolls: Seq<(bool, u32)>|
                rolls.len() == before.world.enemies.len() && attacked
                    == #[trigger] before.world.attacked(rolls) && out@
                    == before.world.attack_text(rolls);
            let picks = choose|picks: Seq<int>|
                picks.len() == attacked.enemies.len() && world@ == #[trigger] attacked.enemies_moved(
                    picks,
                );
            let draws = Draws { landed: false, damage: 0, rolls, picks };
            assert(before.with_world(world@) == before.waited(draws));
        }
        out
    }
}

} // verus!
