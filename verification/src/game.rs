//! The game: a world and whether play goes on.

use crate::command::parse_input_to_command;
use crate::command::parse_words;
use crate::command::CommandView;
use crate::command::Commands;
use crate::enemy::EnemyView;
use crate::search::lemma_first_where;
use crate::world::lemma_struck_frame;
use crate::dice::loaded_chance;
use crate::dice::Dice;
use crate::player::ATTACK_CHANCE;
use crate::objects::find_item;
use crate::objects::GameObjectType;
use crate::room::Room;
use crate::text::words;
use crate::world::loaded_picks;
use crate::world::loaded_rolls;
use crate::world::World;
use crate::world::WorldView;
use vstd::prelude::*;
use vstd::string::StringExecFns;

verus! {

/// A game in progress.
pub struct Game {
    world: World,
    running: bool,
}

/// The game as contracts see it.
#[verifier::ext_equal]
pub struct GameView {
    pub world: WorldView,
    pub running: bool,
}

/// What the dice give in the course of one turn. Every number is taken as
/// rolled: where it has to lie between bounds, the nearest value between
/// them counts.
#[verifier::ext_equal]
pub struct Draws {
    /// Whether the player's attack lands, where that is left to chance.
    pub landed: bool,
    /// The roll for the damage of the player's blow.
    pub damage: u32,
    /// For each enemy, whether its attack lands and the roll for its damage.
    pub rolls: Seq<(bool, u32)>,
    /// For each enemy, the roll for the exit it takes.
    pub picks: Seq<int>,
}

impl Draws {
    /// Whether these are draws for a world with `count` enemies: one roll
    /// and one pick for each of them.
    pub open spec fn for_enemies(self, count: nat) -> bool {
        self.rolls.len() == count && self.picks.len() == count
    }
}

/// The draws that dice loaded on `hit` and `roll` give in a world with
/// `count` enemies.
pub open spec fn loaded_draws(count: nat, hit: bool, roll: u32) -> Draws {
    Draws {
        landed: loaded_chance(hit, ATTACK_CHANCE, 100),
        damage: roll,
        rolls: loaded_rolls(count, hit, roll),
        picks: loaded_picks(count, roll),
    }
}

/// What is said before the first turn.
pub open spec fn welcome_text() -> Seq<char> {
    "Welcome to kerkers en draken. A simple text adventure game made in rust for a school project learning rust \n"@
        + "Everytime the prompt shows '>' insert a command. if player does not know any commands insert Help"@
}

impl GameView {
    /// The world is well formed.
    pub open spec fn wf(self) -> bool {
        self.world.wf()
    }

    /// The game with the world changed.
    pub open spec fn with_world(self, world: WorldView) -> GameView {
        GameView { world, ..self }
    }

    /// The game once it is stopped.
    pub open spec fn stopped(self) -> GameView {
        GameView { running: false, ..self }
    }

    /// The game after a look at the player's hit points: it stops when the
    /// player has none left.
    pub open spec fn checked(self) -> GameView {
        if self.world.player.hp == 0 {
            self.stopped()
        } else {
            self
        }
    }

    /// Whether the line `input` can be played: what it asks for keeps the
    /// player's numbers within what a `u32` holds.
    pub open spec fn can_play(self, input: Seq<char>) -> bool {
        parse_words(words(input)).fits(self)
    }

    /// The game after the line `input` was played with the given draws, and
    /// what is said: the line is read as a command, the command is carried
    /// out, and the game stops when the player's hit points are gone.
    pub open spec fn played(self, input: Seq<char>, draws: Draws) -> (GameView, Seq<char>) {
        let turn = parse_words(words(input)).turn(self, draws);
        (turn.0.checked(), turn.1)
    }

    /// Whether playing the line `input` can lead from this game to the game
    /// `after` with `text` said.
    pub open spec fn may_play(self, input: Seq<char>, after: GameView, text: Seq<char>) -> bool {
        exists|draws: Draws|
            draws.for_enemies(self.world.enemies.len()) && (after, text) == #[trigger] self.played(
                input,
                draws,
            )
    }
}

impl View for Game {
    type V = GameView;

    closed spec fn view(&self) -> GameView {
        GameView { world: self.world@, running: self.running }
    }
}

impl Game {
    /// Makes a game that runs in the given world.
    pub fn new(world: World) -> (game: Game)
        ensures
            game@ == (GameView { world: world@, running: true }),
    {
        Game { world, running: true }
    }

    /// What is said before the first turn.
    pub fn welcome() -> (out: String)
        ensures
            out@ == welcome_text(),
    {
        let mut out: String =
            "Welcome to kerkers en draken. A simple text adventure game made in rust for a school project learning rust \n".to_owned();
        out.append(
            "Everytime the prompt shows '>' insert a command. if player does not know any commands insert Help",
        );
        out
    }

    /// Whether play goes on.
    pub fn is_running(&self) -> (running: bool)
        ensures
            running == self@.running,
    {
        self.running
    }

    /// Stops the game when the player has no hit points left.
    pub fn check_player_hp(&mut self)
        ensures
            final(self)@ == old(self)@.checked(),
    {
        if self.world.get_player().hp() == 0 {
            self.running = false;
        }
    }

    /// Stops the game.
    pub fn quit_game(&mut self)
        ensures
            final(self)@ == old(self)@.stopped(),
    {
        self.running = false;
    }

    /// The room in which the player stands.
    pub fn get_current_room(&self) -> (room: &Room)
        requires
            self@.wf(),
        ensures
            room@ == self@.world.current(),
    {
        self.world.get_current_room()
    }

    /// The world, to be changed.
    pub fn get_world(&mut self) -> (world: &mut World)
        ensures
            world@ == old(self)@.world,
            final(self)@ == old(self)@.with_world(final(world)@),
    {
        &mut self.world
    }

    /// The world.
    pub fn world(&self) -> (world: &World)
        ensures
            world@ == self@.world,
    {
        &self.world
    }

    /// Tells whether the line `input` can be played; see
    /// [`GameView::can_play`].
    pub fn accepts(&self, input: &str) -> (ok: bool)
        requires
            self@.wf(),
        ensures
            ok == self@.can_play(input@),
    {
        let command: Commands = parse_input_to_command(input);
        match &command {
            Commands::Take(take) => {
                let room: &Room = self.world.get_current_room();
                match find_item(room.visible_items(), take.item.as_str()) {
                    Some(at) => {
                        let items = room.visible_items();
                        match items[at].kind() {
                            GameObjectType::Coin(coin) => coin.value <= u32::MAX
                                - self.world.get_player().gold(),
                            _ => true,
                        }
                    },
                    None => true,
                }
            },
            Commands::Consume(consume) => {
                let player = self.world.get_player();
                let pack = player.backpack();
                match find_item(pack, consume.item.as_str()) {
                    Some(at) => {
                        match pack[at].kind() {
                            GameObjectType::Consumable(potion) => potion.heal_amount <= u32::MAX
                                - player.hp(),
                            _ => true,
                        }
                    },
                    None => true,
                }
            },
            _ => true,
        }
    }

    /// Plays one turn: reads the line `input` as a command, carries it out,
    /// and stops the game when the player's hit points are gone. Gives what
    /// is said.
    pub fn step(&mut self, input: &str) -> (out: String)
        requires
            old(self)@.wf(),
            old(self)@.can_play(input@),
        ensures
            old(self)@.may_play(input@, final(self)@, out@),
            old(self)@.world.dice matches Dice::Loaded { hit, roll } ==> (final(self)@, out@)
                == old(self)@.played(
                input@,
                loaded_draws(old(self)@.world.enemies.len(), hit, roll),
            ),
            final(self)@.wf(),
    {
        let ghost before = self@;
        let command: Commands = parse_input_to_command(input);
        let out: String = command.execute(self);
        let ghost carried = self@;
        self.check_player_hp();
        proof {
            let draws = choose|draws: Draws|
                draws.for_enemies(before.world.enemies.len()) && (carried, out@)
                    == #[trigger] command@.turn(before, draws);
            assert((self@, out@) == before.played(input@, draws));
        }
        out
    }

    /// Plays the lines in turn, as long as the game goes on and every line
    /// can be played, and gives all that is said, the welcome first. The
    /// count tells how many lines were played.
    pub fn run(&mut self, lines: &Vec<String>) -> (played: (usize, String))
        requires
            old(self)@.wf(),
        ensures
            final(self)@.wf(),
            played.0 <= lines@.len(),
            old(self)@.may_run(line_views(lines@), played.0 as nat, final(self)@, played.1@),
            old(self)@.world.dice matches Dice::Loaded { hit, roll } ==> (final(self)@, played.1@)
                == old(self)@.ran(
                line_views(lines@),
                played.0 as nat,
                loaded_turns(old(self)@.world.enemies.len(), hit, roll),
            ) && old(self)@.stops_at(
                line_views(lines@),
                played.0 as nat,
                loaded_turns(old(self)@.world.enemies.len(), hit, roll),
            ),
    {
        let ghost before = self@;
        let ghost count = before.world.enemies.len();
        let ghost mut turns: spec_fn(int) -> Draws = match before.world.dice {
            Dice::Loaded { hit, roll } => loaded_turns(count, hit, roll),
            Dice::Random => loaded_turns(count, false, 0),
        };
        let mut out: String = Game::welcome();
        let mut i: usize = 0;
        while i < lines.len() && self.running && self.accepts(lines[i].as_str())
            invariant
                i <= lines@.len(),
                self@.wf(),
                before.wf(),
                count == before.world.enemies.len(),
                self@.world.dice == before.world.dice,
                self@.world.enemies.len() == count,
                forall|k: int| #[trigger] draws_at(turns, k).for_enemies(count),
                (self@, out@) == before.ran(line_views(lines@), i as nat, turns),
                before.all_played(line_views(lines@), i as nat, turns),
                before.world.dice matches Dice::Loaded { hit, roll } ==> turns == loaded_turns(
                    count,
                    hit,
                    roll,
                ),
            decreases lines@.len() - i,
        {
            let ghost here = self@;
            let ghost line = lines@[i as int]@;
            let told: String = self.step(lines[i].as_str());
            out.append(told.as_str());
            proof {
                if before.world.dice is Random {
                    let draws = choose|draws: Draws|
                        draws.for_enemies(count) && (self@, told@) == #[trigger] here.played(
                            line,
                            draws,
                        );
                    let wider = |k: int|
                        if k == i as int {
                            draws
                        } else {
                            draws_at(turns, k)
                        };
                    assert forall|k: int| 0 <= k < i implies #[trigger] draws_at(turns, k)
                        == draws_at(wider, k) by {}
                    lemma_ran_draws(before, line_views(lines@), i as nat, turns, wider);
                    turns = wider;
                }
                lemma_played_frame(here, line, draws_at(turns, i as int));
            }
            i = i + 1;
        }
        (i, out)
    }
}

/// The views of the lines.
pub open spec fn line_views(lines: Seq<String>) -> Seq<Seq<char>> {
    lines.map_values(|line: String| line@)
}

/// What the dice gave in the turn at index `i`.
pub open spec fn draws_at(turns: spec_fn(int) -> Draws, i: int) -> Draws {
    turns(i)
}

/// The draws, turn by turn, of dice that are loaded on `hit` and `roll`, in
/// a world with `count` enemies.
pub open spec fn loaded_turns(count: nat, hit: bool, roll: u32) -> spec_fn(int) -> Draws {
    |i: int| loaded_draws(count, hit, roll)
}

impl GameView {
    /// The game after the first `count` of the lines were played, the line
    /// at index `i` with the draws `draws_at(turns, i)`, and all that is
    /// said, the welcome first.
    pub open spec fn ran(self, lines: Seq<Seq<char>>, count: nat, turns: spec_fn(int) -> Draws) -> (
        GameView,
        Seq<char>,
    )
        decreases count,
    {
        if count == 0 {
            (self, welcome_text())
        } else {
            let before = self.ran(lines, (count - 1) as nat, turns);
            let turn = before.0.played(lines[count - 1], draws_at(turns, count - 1));
            (turn.0, before.1 + turn.1)
        }
    }

    /// Whether each of the first `count` lines, played in turn, found the
    /// game going on and could be played.
    pub open spec fn all_played(
        self,
        lines: Seq<Seq<char>>,
        count: nat,
        turns: spec_fn(int) -> Draws,
    ) -> bool
        decreases count,
    {
        if count == 0 {
            true
        } else {
            let before = self.ran(lines, (count - 1) as nat, turns).0;
            self.all_played(lines, (count - 1) as nat, turns) && count <= lines.len()
                && before.running && before.can_play(lines[count - 1])
        }
    }

    /// Whether a run plays just the first `count` lines: each of them is
    /// played, and the next one, if there is one, finds the game stopped or
    /// cannot be played.
    pub open spec fn stops_at(self, lines: Seq<Seq<char>>, count: nat, turns: spec_fn(int) -> Draws) -> bool {
        let last = self.ran(lines, count, turns).0;
        &&& self.all_played(lines, count, turns)
        &&& count < lines.len() ==> !last.running || !last.can_play(lines[count as int])
    }

    /// Whether a run over the lines can play just the first `count` of them
    /// and lead from this game to the game `after` with `text` said: some
    /// draws, for every turn one roll and one pick for each enemy, give
    /// just that.
    pub open spec fn may_run(self, lines: Seq<Seq<char>>, count: nat, after: GameView, text: Seq<char>) -> bool {
        exists|turns: spec_fn(int) -> Draws|
            (forall|k: int| #[trigger] draws_at(turns, k).for_enemies(self.world.enemies.len()))
                && (after, text) == #[trigger] self.ran(lines, count, turns) && self.stops_at(
                lines,
                count,
                turns,
            )
    }
}

/// A run over lines depends on the draws for the turns of these lines
/// alone.
pub proof fn lemma_ran_draws(
    game: GameView,
    lines: Seq<Seq<char>>,
    count: nat,
    turns: spec_fn(int) -> Draws,
    others: spec_fn(int) -> Draws,
)
    requires
        forall|k: int| 0 <= k < count ==> #[trigger] draws_at(turns, k) == draws_at(others, k),
    ensures
        game.ran(lines, count, turns) == game.ran(lines, count, others),
        game.all_played(lines, count, turns) == game.all_played(lines, count, others),
    decreases count,
{
    if count > 0 {
        lemma_ran_draws(game, lines, (count - 1) as nat, turns, others);
    }
}

/// No turn changes the dice or the number of the enemies.
pub proof fn lemma_played_frame(game: GameView, input: Seq<char>, draws: Draws)
    requires
        game.wf(),
    ensures
        game.played(input, draws).0.world.dice == game.world.dice,
        game.played(input, draws).0.world.enemies.len() == game.world.enemies.len(),
{
    let command = parse_words(words(input));
    let world = game.world;
    match command {
        CommandView::Hit(name) => {
            lemma_struck_frame(world, game.blow(draws), name);
        },
        CommandView::See(name) => {
            lemma_first_where(
                world.enemies,
                |enemy: EnemyView| enemy.room == world.current_room && enemy.name == name,
            );
        },
        _ => {},
    }
}

} // verus!
