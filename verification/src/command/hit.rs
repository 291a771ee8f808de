//! `Hit`: attacks an enemy.

use crate::dice::loaded_chance;
use crate::dice::Dice;
use crate::game::loaded_draws;
use crate::game::Draws;
use crate::game::Game;
use crate::game::GameView;
use crate::player::ATTACK_CHANCE;
use crate::world::lemma_struck_frame;
use crate::world::loaded_picks;
use crate::world::loaded_rolls;
use crate::world::WorldView;
use vstd::prelude::*;
use vstd::string::StringExecFns;

verus! {

/// The command that attacks the enemy called `name`.
#[derive(Debug)]
pub struct HitCommand {
    pub name: String,
}

impl GameView {
    /// The damage of the player's attack with the given draws.
    pub open spec fn blow(self, draws: Draws) -> u32 {
        self.world.player.hit_damage(draws.landed, draws.damage)
    }

    /// The world once the player has attacked the enemy called `name` with
    /// the given draws.
    pub open spec fn struck(self, name: Seq<char>, draws: Draws) -> WorldView {
        self.world.struck(self.blow(draws), name)
    }

    /// The game after the player has attacked the enemy called `name` with
    /// the given draws: the enemy has taken the blow, then the enemies in
    /// the player's room have attacked, and then every enemy has moved.
    pub open spec fn hit(self, name: Seq<char>, draws: Draws) -> GameView {
        self.with_world(
            self.struck(name, draws).attacked(draws.rolls).enemies_moved(draws.picks),
        )
    }

    /// What is said during such an attack.
    pub open spec fn hit_text(self, name: Seq<char>, draws: Draws) -> Seq<char> {
        self.world.player.hit_text(draws.landed, draws.damage) + self.world.strike_text(
            self.blow(draws),
            name,
        ) + self.struck(name, draws).attack_text(draws.rolls)
    }

    /// Whether an attack on the enemy called `name` can lead from this game
    /// to the game `after` with `text` said.
    pub open spec fn may_hit(self, name: Seq<char>, after: GameView, text: Seq<char>) -> bool {
        exists|draws: Draws|
            draws.for_enemies(self.world.enemies.len()) && after == #[trigger] self.hit(name, draws)
                && text == self.hit_text(name, draws)
    }
}

impl HitCommand {
    /// The player attacks, and the first enemy of the name in the player's
    /// room takes the blow. Then every enemy in that room attacks, and then
    /// every enemy moves.
    pub fn execute(&self, game: &mut Game) -> (out: String)
        requires
            old(game)@.wf(),
        ensures
            old(game)@.may_hit(self.name@, final(game)@, out@),
            old(game)@.world.dice matches Dice::Loaded { hit, roll } ==> final(game)@ == old(
                game,
            )@.hit(self.name@, loaded_draws(old(game)@.world.enemies.len(), hit, roll)) && out@
                == old(game)@.hit_text(
                self.name@,
                loaded_draws(old(game)@.world.enemies.len(), hit, roll),
            ),
            final(game)@.wf(),
    {
        let ghost before = game@;
        let world = game.get_world();
        let dice: Dice = world.dice();
        let player = world.get_player();
        let blow: (u32, String) = player.hit(&dice);
        let mut out: String = blow.1;
        let ghost said = out@;
        let told: String = world.player_attack_enemy(blow.0, self.name.as_str());
        out.append(told.as_str());
        let ghost struck = world@;
        let shouted: String = world.enemies_attack();
        out.append(shouted.as_str());
        let ghost attacked = world@;
        world.enemies_move();
        proof {
            lemma_struck_frame(before.world, blow.0, self.name@);
            let player = before.world.player;
            let landed = match before.world.dice {
                Dice::Loaded { hit, .. } => loaded_chance(hit, ATTACK_CHANCE, 100),
                Dice::Random => player.may_strike(blow.0) && said == player.strike_text(blow.0),
            };
            let damage = match before.world.dice {
                Dice::Loaded { roll, .. } => roll,
                Dice::Random => blow.0,
            };
            let rolls = match before.world.dice {
                Dice::Loaded { hit, roll } => loaded_rolls(struck.enemies.len(), hit, roll),
                Dice::Random => choose|rolls: Seq<(bool, u32)>|
                    rolls.len() == struck.enemies.len() && attacked == #[trigger] struck.attacked(
                        rolls,
                    ) && shouted@ == struck.attack_text(rolls),
            };
            let picks = match before.world.dice {
                Dice::Loaded { roll, .. } => loaded_picks(attacked.enemies.len(), roll),
                Dice::Random => choose|picks: Seq<int>|
                    picks.len() == attacked.enemies.len() && world@
                        == #[trigger] attacked.enemies_moved(picks),
            };
            let draws = Draws { landed, damage, rolls, picks };
            assert(before.with_world(world@) == before.hit(self.name@, draws));
            if let Dice::Loaded { hit, roll } = before.world.dice {
            }
        }
        out
    }
}

} // verus!
