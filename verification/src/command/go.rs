//! `Go`: walks through an exit of the room.

use crate::dice::Dice;
use crate::game::Game;
use crate::game::GameView;
use crate::room::leads_to;
use crate::room::Direction;
use crate::room::RoomId;
use crate::text::decimal;
use crate::text::decimal_text;
use crate::world::lemma_moved_to_wf;
use crate::world::loaded_rolls;
use crate::world::WorldView;
use vstd::prelude::*;
use vstd::string::StringExecFns;

verus! {

/// The command that walks in `direction`.
#[derive(Debug)]
pub struct GoCommand {
    pub direction: Direction,
}

impl GameView {
    /// The room to which the exit in `direction` of the player's room
    /// leads; 0 where there is none.
    pub open spec fn destination(self, direction: Direction) -> RoomId {
        leads_to(self.world.current().exits, direction)
    }

    /// The world once the player has tried to walk in `direction`: the
    /// player stands in the room to which the exit leads, or has stayed
    /// where there is no such exit.
    pub open spec fn arrived(self, direction: Direction) -> WorldView {
        if self.destination(direction) != 0 {
            self.world.moved_to(self.destination(direction))
        } else {
            self.world
        }
    }

    /// The game after the player has tried to walk in `direction`, with
    /// the given rolls: whether the player has walked or stayed, the
    /// enemies in the room in which the player then stands have attacked.
    pub open spec fn went(self, direction: Direction, rolls: Seq<(bool, u32)>) -> GameView {
        self.with_world(self.arrived(direction).attacked(rolls))
    }

    /// What is said of such a walk.
    pub open spec fn go_text(self, direction: Direction, rolls: Seq<(bool, u32)>) -> Seq<char> {
        (if self.destination(direction) != 0 {
            "Going to "@ + decimal(self.destination(direction) as nat) + "\n"@
        } else {
            "Wrong goto direction\n"@
        }) + self.arrived(direction).attack_text(rolls)
    }

    /// Whether a walk in `direction` can lead from this game to the game
    /// `after` with `text` said.
    pub open spec fn may_go(self, direction: Direction, after: GameView, text: Seq<char>) -> bool {
        exists|rolls: Seq<(bool, u32)>|
            rolls.len() == self.world.enemies.len() && after == #[trigger] self.went(
                direction,
                rolls,
            ) && text == self.go_text(direction, rolls)
    }
}

impl GoCommand {
    /// Walks through the exit in the direction, if the room has one. Then,
    /// whether the player has walked or not, every enemy in the room in
    /// which the player stands attacks.
    pub fn execute(&self, game: &mut Game) -> (out: String)
        requires
            old(game)@.wf(),
        ensures
            old(game)@.may_go(self.direction, final(game)@, out@),
            old(game)@.world.dice matches Dice::Loaded { hit, roll } ==> final(game)@ == old(
                game,
            )@.went(self.direction, loaded_rolls(old(game)@.world.enemies.len(), hit, roll))
                && out@ == old(game)@.go_text(
                self.direction,
                loaded_rolls(old(game)@.world.enemies.len(), hit, roll),
            ),
            final(game)@.wf(),
    {
        let ghost before = game@;
        let current_room = game.get_current_room();
        let new_room: RoomId = current_room.check_direction(&self.direction);
        let mut out: String = String::new();
        if new_room != 0 {
            proof {
                lemma_moved_to_wf(before.world, self.direction);
            }
            let world = game.get_world();
            world.goto_next_room(new_room);
            out.append("Going to ");
            out.append(decimal_text(new_room).as_str());
            out.append("\n");
        } else {
            out.append("Wrong goto direction\n");
        }
        let world = game.get_world();
        let ghost there = world@;
        let told: String = world.enemies_attack();
        out.append(told.as_str());
        proof {
            let rolls = choose|rolls: Seq<(bool, u32)>|
                rolls.len() == there.enemies.len() && world@ == #[trigger] there.attacked(rolls)
                    && told@ == there.attack_text(rolls);
            assert(before.with_world(world@) == before.went(self.direction, rolls));
        }
        out
    }
}

} // verus!
