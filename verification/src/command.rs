//! The commands of the game: how a line is read as a command, and what each
//! command does to the game.

pub mod consume;
pub mod go;
pub mod godmode;
pub mod help;
pub mod hit;
pub mod look;
pub mod put;
pub mod quit;
pub mod search;
pub mod see;
pub mod see_player;
pub mod take;
pub mod unknown;
pub mod wait;
pub mod wear;

use crate::command::consume::ConsumeCommand;
use crate::command::go::GoCommand;
use crate::command::godmode::GodmodeCommand;
use crate::command::help::help_text;
use crate::command::help::HelpCommand;
use crate::command::hit::HitCommand;
use crate::command::look::LookCommand;
use crate::command::put::PutCommand;
use crate::command::quit::QuitCommand;
use crate::command::search::SearchCommand;
use crate::command::see::SeeCommand;
use crate::command::see_player::SeePlayerCommand;
use crate::command::take::TakeCommand;
use crate::command::unknown::UnknownCommand;
use crate::command::wait::WaitCommand;
use crate::command::wear::WearCommand;
use crate::dice::Dice;
use crate::game::loaded_draws;
use crate::game::Draws;
use crate::game::Game;
use crate::game::GameView;
use crate::room::direction_of;
use crate::room::Direction;
use crate::text::join_words;
use crate::text::joined;
use crate::text::same_text;
use crate::text::split_words;
use crate::text::views;
use crate::text::words;
use crate::world::lemma_attack_round_frame;
use crate::world::lemma_godmode_attack_round;
use vstd::prelude::*;

verus! {

/// A command, as read from a line.
#[derive(Debug)]
pub enum Commands {
    Help(HelpCommand),
    Look(LookCommand),
    Search(SearchCommand),
    Go(GoCommand),
    Take(TakeCommand),
    Put(PutCommand),
    See(SeeCommand),
    SeePlayer(SeePlayerCommand),
    Hit(HitCommand),
    Wear(WearCommand),
    Wait(WaitCommand),
    Consume(ConsumeCommand),
    Godmode(GodmodeCommand),
    Quit(QuitCommand),
    Unknown(UnknownCommand),
}

/// A command as contracts see it.
pub enum CommandView {
    Help,
    Look,
    Search,
    Go(Direction),
    Take(Seq<char>),
    Put(Seq<char>),
    See(Seq<char>),
    SeePlayer,
    Hit(Seq<char>),
    Wear(Seq<char>),
    Wait,
    Consume(Seq<char>),
    Godmode,
    Quit,
    Unknown,
}

/// What stands for the name in a command that names nothing.
pub open spec fn missing_name() -> Seq<char> {
    "To little commands arguments"@
}

/// The name that the words of a line give a command: the words behind the
/// first, with one space between neighbours, or `missing_name()` where
/// there is no second word.
pub open spec fn name_of(words: Seq<Seq<char>>) -> Seq<char> {
    if words.len() < 2 {
        missing_name()
    } else {
        joined(words, 1)
    }
}

/// The direction that the words of a line give a command: the one that the
/// second word names, and `Nowhere` where there is no second word.
pub open spec fn direction_in(words: Seq<Seq<char>>) -> Direction {
    if words.len() < 2 {
        Direction::Nowhere
    } else {
        direction_of(words[1])
    }
}

/// The command that the words of a line make. The first word decides, and
/// it has to be one of the command words letter for letter; a line without
/// words, or with any other first word, makes `Unknown`.
pub open spec fn parse_words(words: Seq<Seq<char>>) -> CommandView {
    if words.len() == 0 {
        CommandView::Unknown
    } else if words[0] == "Help"@ {
        CommandView::Help
    } else if words[0] == "Quit"@ {
        CommandView::Quit
    } else if words[0] == "Go"@ {
        CommandView::Go(direction_in(words))
    } else if words[0] == "Look"@ {
        CommandView::Look
    } else if words[0] == "Wait"@ {
        CommandView::Wait
    } else if words[0] == "Search"@ {
        CommandView::Search
    } else if words[0] == "See"@ {
        CommandView::See(name_of(words))
    } else if words[0] == "SeePlayer"@ {
        CommandView::SeePlayer
    } else if words[0] == "Take"@ {
        CommandView::Take(name_of(words))
    } else if words[0] == "Put"@ {
        CommandView::Put(name_of(words))
    } else if words[0] == "Wear"@ {
        CommandView::Wear(name_of(words))
    } else if words[0] == "Consume"@ {
        CommandView::Consume(name_of(words))
    } else if words[0] == "Hit"@ {
        CommandView::Hit(name_of(words))
    } else if words[0] == "Godmode"@ {
        CommandView::Godmode
    } else {
        CommandView::Unknown
    }
}

impl CommandView {
    /// Whether the command can be carried out in the game `game`: what it
    /// asks for keeps the player's gold and hit points within what a `u32`
    /// holds.
    pub open spec fn fits(self, game: GameView) -> bool {
        match self {
            CommandView::Take(name) => game.can_take(name),
            CommandView::Consume(name) => game.world.player.can_consume(name),
            _ => true,
        }
    }

    /// The game after the command was carried out with the given draws.
    pub open spec fn result(self, game: GameView, draws: Draws) -> GameView {
        match self {
            CommandView::Help => game,
            CommandView::Look => game,
            CommandView::Search => game.searched(draws.rolls),
            CommandView::Go(direction) => game.went(direction, draws.rolls),
            CommandView::Take(name) => game.taken(name),
            CommandView::Put(name) => game.put_down(name),
            CommandView::See(name) => game.seen(name),
            CommandView::SeePlayer => game,
            CommandView::Hit(name) => game.hit(name, draws),
            CommandView::Wear(name) => game.worn(name),
            CommandView::Wait => game.waited(draws),
            CommandView::Consume(name) => game.consumed(name),
            CommandView::Godmode => game.godmode_toggled(),
            CommandView::Quit => game.stopped(),
            CommandView::Unknown => game,
        }
    }

    /// What is said while the command is carried out with the given draws.
    pub open spec fn text(self, game: GameView, draws: Draws) -> Seq<char> {
        match self {
            CommandView::Help => help_text(),
            CommandView::Look => game.world.show_text(),
            CommandView::Search => game.search_text(draws.rolls),
            CommandView::Go(direction) => game.go_text(direction, draws.rolls),
            CommandView::Take(name) => game.take_text(name),
            CommandView::Put(name) => game.world.player.remove_text(name),
            CommandView::See(name) => game.world.loot_text(name),
            CommandView::SeePlayer => game.world.player.show_text(),
            CommandView::Hit(name) => game.hit_text(name, draws),
            CommandView::Wear(name) => game.world.player.equip_text(name),
            CommandView::Wait => game.wait_text(draws),
            CommandView::Consume(name) => game.world.player.consume_text(name),
            CommandView::Godmode => Seq::empty(),
            CommandView::Quit => "End Game\n"@,
            CommandView::Unknown => "Not a valid command\n"@,
        }
    }

    /// The game after the command, and what is said, as a pair.
    pub open spec fn turn(self, game: GameView, draws: Draws) -> (GameView, Seq<char>) {
        (self.result(game, draws), self.text(game, draws))
    }

    /// Whether the command can lead from the game `before` to the game
    /// `after` with `text` said: some draws, one roll and one pick for each
    /// enemy, give just that.
    pub open spec fn may_lead(self, before: GameView, after: GameView, text: Seq<char>) -> bool {
        exists|draws: Draws|
            draws.for_enemies(before.world.enemies.len()) && (after, text) == #[trigger] self.turn(
                before,
                draws,
            )
    }
}

/// No command lowers the player's gold.
pub proof fn lemma_gold_never_falls(command: CommandView, game: GameView, draws: Draws)
    requires
        game.wf(),
        command.fits(game),
    ensures
        command.result(game, draws).world.player.gold >= game.world.player.gold,
{
    let world = game.world;
    match command {
        CommandView::Search => {
            let lit = world.with_current(world.current().searched());
            lemma_attack_round_frame(lit.player, lit.enemies, lit.current_room, draws.rolls);
        },
        CommandView::Go(direction) => {
            let there = game.arrived(direction);
            lemma_attack_round_frame(there.player, there.enemies, there.current_room, draws.rolls);
        },
        CommandView::Hit(name) => {
            let struck = game.struck(name, draws);
            lemma_attack_round_frame(
                struck.player,
                struck.enemies,
                struck.current_room,
                draws.rolls,
            );
        },
        CommandView::Wait => {
            lemma_attack_round_frame(world.player, world.enemies, world.current_room, draws.rolls);
        },
        _ => {},
    }
}

/// In godmode no turn lowers the player's hit points, whatever is rolled,
/// and no command but `Godmode` itself ends godmode.
pub proof fn lemma_godmode_keeps_hit_points(command: CommandView, game: GameView, draws: Draws)
    requires
        game.wf(),
        command.fits(game),
        game.world.player.godmode,
        !(command is Godmode),
    ensures
        command.result(game, draws).world.player.hp >= game.world.player.hp,
        command.result(game, draws).world.player.godmode,
{
    let world = game.world;
    match command {
        CommandView::Search => {
            let lit = world.with_current(world.current().searched());
            lemma_godmode_attack_round(lit.player, lit.enemies, lit.current_room, draws.rolls);
        },
        CommandView::Go(direction) => {
            let there = game.arrived(direction);
            lemma_godmode_attack_round(there.player, there.enemies, there.current_room, draws.rolls);
        },
        CommandView::Hit(name) => {
            let struck = game.struck(name, draws);
            lemma_godmode_attack_round(
                struck.player,
                struck.enemies,
                struck.current_room,
                draws.rolls,
            );
        },
        CommandView::Wait => {
            lemma_godmode_attack_round(world.player, world.enemies, world.current_room, draws.rolls);
        },
        _ => {},
    }
}

impl View for Commands {
    type V = CommandView;

    open spec fn view(&self) -> CommandView {
        match self {
            Commands::Help(_) => CommandView::Help,
            Commands::Look(_) => CommandView::Look,
            Commands::Search(_) => CommandView::Search,
            Commands::Go(command) => CommandView::Go(command.direction),
            Commands::Take(command) => CommandView::Take(command.item@),
            Commands::Put(command) => CommandView::Put(command.item@),
            Commands::See(command) => CommandView::See(command.enemy_name@),
            Commands::SeePlayer(_) => CommandView::SeePlayer,
            Commands::Hit(command) => CommandView::Hit(command.name@),
            Commands::Wear(command) => CommandView::Wear(command.item@),
            Commands::Wait(_) => CommandView::Wait,
            Commands::Consume(command) => CommandView::Consume(command.item@),
            Commands::Godmode(_) => CommandView::Godmode,
            Commands::Quit(_) => CommandView::Quit,
            Commands::Unknown(_) => CommandView::Unknown,
        }
    }
}

impl Commands {
    /// Carries the command out in the game and gives what is said.
    pub fn execute(&self, game: &mut Game) -> (out: String)
        requires
            old(game)@.wf(),
            self@.fits(old(game)@),
        ensures
            self@.may_lead(old(game)@, final(game)@, out@),
            old(game)@.world.dice matches Dice::Loaded { hit, roll } ==> (final(game)@, out@)
                == self@.turn(
                old(game)@,
                loaded_draws(old(game)@.world.enemies.len(), hit, roll),
            ),
            final(game)@.wf(),
    {
        let ghost before = game@;
        let ghost count = before.world.enemies.len();
        let ghost plain = loaded_draws(count, false, 0);
        let out: String = match self {
            Commands::Help(cmd) => cmd.execute(game),
            Commands::Look(cmd) => cmd.execute(game),
            Commands::Search(cmd) => {
                let out: String = cmd.execute(game);
                proof {
                    let rolls = choose|rolls: Seq<(bool, u32)>|
                        rolls.len() == count && game@ == #[trigger] before.searched(rolls) && out@
                            == before.search_text(rolls);
                    let draws = Draws { rolls, ..plain };
                    assert((game@, out@) == self@.turn(before, draws));
                }
                out
            },
            Commands::Go(cmd) => {
                let out: String = cmd.execute(game);
                proof {
                    let rolls = choose|rolls: Seq<(bool, u32)>|
                        rolls.len() == count && game@ == #[trigger] before.went(
                            cmd.direction,
                            rolls,
                        ) && out@ == before.go_text(cmd.direction, rolls);
                    let draws = Draws { rolls, ..plain };
                    assert((game@, out@) == self@.turn(before, draws));
                }
                out
            },
            Commands::Take(cmd) => cmd.execute(game),
            Commands::Put(cmd) => cmd.execute(game),
            Commands::See(cmd) => cmd.execute(game),
            Commands::SeePlayer(cmd) => cmd.execute(game),
            Commands::Hit(cmd) => {
                let out: String = cmd.execute(game);
                proof {
                    let draws = choose|draws: Draws|
                        draws.for_enemies(count) && game@ == #[trigger] before.hit(cmd.name@, draws)
                            && out@ == before.hit_text(cmd.name@, draws);
                    assert((game@, out@) == self@.turn(before, draws));
                }
                out
            },
            Commands::Wear(cmd) => cmd.execute(game),
            Commands::Wait(cmd) => {
                let out: String = cmd.execute(game);
                proof {
                    let draws = choose|draws: Draws|
                        draws.for_enemies(count) && game@ == #[trigger] before.waited(draws) && out@
                            == before.wait_text(draws);
                    assert((game@, out@) == self@.turn(before, draws));
                }
                out
            },
            Commands::Consume(cmd) => cmd.execute(game),
            Commands::Godmode(cmd) => cmd.execute(game),
            Commands::Quit(cmd) => cmd.execute(game),
            Commands::Unknown(cmd) => cmd.execute(game),
        };
        proof {
            if !(self is Search || self is Go || self is Hit || self is Wait) {
                assert((game@, out@) == self@.turn(before, plain));
            }
        }
        out
    }
}

/// Reads the direction of a `Go` command from the words of the line.
pub fn parse_args_to_direction(args: &Vec<&str>) -> (direction: Direction)
    ensures
        direction == direction_in(views(args@)),
{
    if args.len() < 2 {
        Direction::Nowhere
    } else {
        Direction::from_str(args[1])
    }
}

/// Reads the name that a command names from the words of the line.
pub fn parse_args_to_item_name(args: &Vec<&str>) -> (name: String)
    ensures
        name@ == name_of(views(args@)),
{
    if args.len() < 2 {
        "To little commands arguments".to_owned()
    } else {
        join_words(args, 1)
    }
}

/// Reads a line as a command.
pub fn parse_input_to_command(input: &str) -> (command: Commands)
    ensures
        command@ == parse_words(words(input@)),
{
    let args: Vec<&str> = split_words(input);
    if args.len() == 0 {
        return Commands::Unknown(UnknownCommand {  });
    }
    let key: &str = args[0];
    if same_text(key, "Help") {
        Commands::Help(HelpCommand {  })
    } else if same_text(key, "Quit") {
        Commands::Quit(QuitCommand {  })
    } else if same_text(key, "Go") {
        Commands::Go(GoCommand { direction: parse_args_to_direction(&args) })
    } else if same_text(key, "Look") {
        Commands::Look(LookCommand {  })
    } else if same_text(key, "Wait") {
        Commands::Wait(WaitCommand {  })
    } else if same_text(key, "Search") {
        Commands::Search(SearchCommand {  })
    } else if same_text(key, "See") {
        Commands::See(SeeCommand { enemy_name: parse_args_to_item_name(&args) })
    } else if same_text(key, "SeePlayer") {
        Commands::SeePlayer(SeePlayerCommand {  })
    } else if same_text(key, "Take") {
        Commands::Take(TakeCommand { item: parse_args_to_item_name(&args) })
    } else if same_text(key, "Put") {
        Commands::Put(PutCommand { item: parse_args_to_item_name(&args) })
    } else if same_text(key, "Wear") {
        Commands::Wear(WearCommand { item: parse_args_to_item_name(&args) })
    } else if same_text(key, "Consume") {
        Commands::Consume(ConsumeCommand { item: parse_args_to_item_name(&args) })
    } else if same_text(key, "Hit") {
        Commands::Hit(HitCommand { name: parse_args_to_item_name(&args) })
    } else if same_text(key, "Godmode") {
        Commands::Godmode(GodmodeCommand {  })
    } else {
        Commands::Unknown(UnknownCommand {  })
    }
}

} // verus!
