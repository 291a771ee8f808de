use game::dice::Dice;
use game::enemy::Enemy;
use game::game::Game;
use game::objects::Item;
use game::objects::ItemFactory;
use game::player::Player;
use game::room::Room;
use game::world::World;

fn thing(name: &str, kind: &str, value: (u32, u32, u32)) -> Item {
    ItemFactory::create_item(name, "a thing", kind, value, &Dice::Random)
}

fn exits(pairs: &[(u32, &str)]) -> Vec<(u32, String)> {
    pairs.iter().map(|pair| (pair.0, pair.1.to_string())).collect()
}

/// Three rooms in a row: the hall (1), north of it the vault (2), and north
/// of that the attic (3). A goblin waits in the hall, an orc in the vault.
fn small_world(dice: Dice) -> Game {
    let hall = Room::new(
        1,
        "Hall",
        "A wide hall.",
        &[thing("Rope", "wapenrusting", (0, 0, 1)), thing("Purse", "goudstukken", (25, 25, 0))],
        &[thing("Key", "wapenrusting", (0, 0, 0))],
        &exits(&[(2, "North")]),
    );
    let vault = Room::new(2, "Vault", "A dark vault.", &[], &[], &exits(&[(1, "South"), (3, "North")]));
    let attic = Room::new(3, "Attic", "A dusty attic.", &[], &[], &exits(&[(2, "South")]));
    let goblin = Enemy::new(1, "Goblin", "Small and green", 15, 3, 3, &[thing("Tooth", "goudstukken", (1, 1, 0))]);
    let orc = Enemy::new(2, "Orc", "Big and grey", 30, 4, 6, &[]);
    let player = Player::new("Hero", &thing("Sword", "wapen", (10, 10, 0)));
    let rooms = vec![hall, vault, attic];
    assert!(World::rooms_fit(&rooms));
    let mut world = World::new(rooms, vec![goblin, orc], player);
    world.set_dice(dice);
    Game::new(world)
}

/// One room without exits, and in it a goblin with 15 hit points.
fn pit(dice: Dice) -> Game {
    let room = Room::new(7, "Pit", "No way out.", &[], &[], &[]);
    let goblin = Enemy::new(7, "Goblin", "Small and green", 15, 3, 3, &[]);
    let player = Player::new("Hero", &thing("Sword", "wapen", (10, 10, 0)));
    let mut world = World::new(vec![room], vec![goblin], player);
    world.set_dice(dice);
    Game::new(world)
}

fn names(items: &Vec<Item>) -> Vec<String> {
    items.iter().map(|item| item.name().to_string()).collect()
}

fn play(game: &mut Game, line: &str) -> String {
    assert!(game.accepts(line));
    game.step(line)
}

#[test]
fn godmode_attack_kills_in_two_blows() {
    let mut game = pit(Dice::Random);
    play(&mut game, "Godmode");
    let first = play(&mut game, "Hit Goblin");
    assert!(first.starts_with("player does total damage 10 \nGoblin took 10 damage, 5 HP remaining.\n"));
    assert!(first.ends_with("Player is in godmode. it cannot take damage in this state\n"));
    assert_eq!(game.world().enemies()[0].hp(), 5);
    assert_eq!(game.world().get_player().hp(), 10);
    let second = play(&mut game, "Hit Goblin");
    assert_eq!(
        second,
        "player does total damage 10 \nGoblin took 10 damage and has died.\nPlayer is in godmode. it cannot take damage in this state\n"
    );
    assert_eq!(game.world().enemies()[0].hp(), 0);
    let third = play(&mut game, "Hit Goblin");
    assert_eq!(
        third,
        "player does total damage 10 \nEnemy: Goblin is already dead\nPlayer is in godmode. it cannot take damage in this state\n"
    );
    assert_eq!(game.world().enemies()[0].hp(), 0);
    assert!(game.is_running());
}

#[test]
fn dead_enemy_neither_strikes_nor_suffers_nor_moves() {
    let mut dead = Enemy::new(2, "Ghost", "Gone", 0, 5, 9, &[]);
    for _ in 0..50 {
        let blow = dead.attack(&Dice::Random);
        assert_eq!(blow.0, 0);
        assert_eq!(blow.1, "");
    }
    assert_eq!(dead.attack(&Dice::Loaded { hit: true, roll: 7 }).0, 0);
    for damage in [0u32, 1, 7, 4294967295] {
        dead.take_dmg(damage);
        assert_eq!(dead.hp(), 0);
    }
    dead.set_position(5);
    assert_eq!(dead.room_id(), 2);
    let mut alive = Enemy::new(2, "Rat", "Quick", 4, 1, 1, &[]);
    alive.set_position(5);
    assert_eq!(alive.room_id(), 5);
    assert_eq!(alive.take_dmg(0), "");
    assert_eq!(alive.take_dmg(3), "Rat took 3 damage, 1 HP remaining.\n");
    assert_eq!(alive.take_dmg(3), "Rat took 3 damage and has died.\n");
    assert_eq!(alive.hp(), 0);
    assert_eq!(alive.take_dmg(3), "Enemy: Rat is already dead\n");
}

#[test]
fn living_enemy_hits_within_its_bounds() {
    let orc = Enemy::new(2, "Orc", "Big and grey", 30, 4, 6, &[]);
    let hit = orc.attack(&Dice::Loaded { hit: true, roll: 5 });
    assert_eq!(hit.0, 5);
    assert_eq!(hit.1, "Orc hits the player for 5\n");
    assert_eq!(orc.attack(&Dice::Loaded { hit: true, roll: 50 }).0, 6);
    let miss = orc.attack(&Dice::Loaded { hit: false, roll: 5 });
    assert_eq!(miss.0, 0);
    assert_eq!(miss.1, "Orc misses the player\n");
    let mut hits = 0;
    for _ in 0..300 {
        let blow = orc.attack(&Dice::Random);
        if blow.0 == 0 {
            assert_eq!(blow.1, "Orc misses the player\n");
        } else {
            assert!(4 <= blow.0 && blow.0 <= 6);
            hits += 1;
        }
    }
    assert!(0 < hits && hits < 300);
}

#[test]
fn going_a_wrong_way_still_costs_a_turn() {
    let mut game = small_world(Dice::Loaded { hit: true, roll: 3 });
    let said = play(&mut game, "Go Up");
    assert_eq!(game.world().current_room_id(), 1);
    assert_eq!(
        said,
        "Wrong goto direction\nGoblin hits the player for 3\nYou took 3 damage. Your current HP: 7\n"
    );
    assert_eq!(game.world().get_player().hp(), 7);
    let said = play(&mut game, "Go South");
    assert_eq!(game.world().current_room_id(), 1);
    assert!(said.starts_with("Wrong goto direction\n"));
    assert_eq!(game.world().get_player().hp(), 4);
    let said = play(&mut game, "Go north");
    assert!(said.starts_with("Wrong goto direction\n"));
    assert_eq!(game.world().current_room_id(), 1);
}

#[test]
fn going_through_an_exit_meets_the_enemies_there() {
    let mut game = small_world(Dice::Loaded { hit: true, roll: 5 });
    let said = play(&mut game, "Go North");
    assert_eq!(game.world().current_room_id(), 2);
    assert_eq!(said, "Going to 2\nOrc hits the player for 5\nYou took 5 damage. Your current HP: 5\n");
    let said = play(&mut game, "Go North");
    assert_eq!(game.world().current_room_id(), 3);
    assert_eq!(said, "Going to 3\n");
    assert_eq!(game.world().get_player().hp(), 5);
}

#[test]
fn taking_what_is_not_there_changes_nothing() {
    let mut game = small_world(Dice::Random);
    let said = play(&mut game, "Take Shield");
    assert_eq!(said, "Item 'Shield' not found in the room's visible items.\n");
    assert_eq!(game.world().get_player().backpack().len(), 0);
    assert_eq!(names(game.get_current_room().visible_items()), vec!["Rope", "Purse"]);
    assert_eq!(names(game.get_current_room().invisible_items()), vec!["Key"]);
    assert_eq!(game.world().get_player().gold(), 0);
    let said = play(&mut game, "Take Key");
    assert_eq!(said, "Item 'Key' not found in the room's visible items.\n");
    let said = play(&mut game, "Take");
    assert_eq!(said, "Item 'To little commands arguments' not found in the room's visible items.\n");
}

#[test]
fn taking_moves_items_and_turns_coins_into_gold() {
    let mut game = small_world(Dice::Random);
    let said = play(&mut game, "Take Rope");
    assert_eq!(said, "Item 'Rope' has been moved to your backpack.\n");
    assert_eq!(names(game.world().get_player().backpack()), vec!["Rope"]);
    assert_eq!(names(game.get_current_room().visible_items()), vec!["Purse"]);
    let said = play(&mut game, "Take Purse");
    assert_eq!(
        said,
        "Item 'Purse' has been moved to your backpack.\nCoin pickup 25 player has now 25 \n"
    );
    assert_eq!(game.world().get_player().gold(), 25);
    assert_eq!(names(game.world().get_player().backpack()), vec!["Rope"]);
    assert!(game.get_current_room().visible_items().is_empty());
}

#[test]
fn searching_brings_hidden_items_to_light_and_costs_a_turn() {
    let mut game = small_world(Dice::Loaded { hit: false, roll: 0 });
    let said = play(&mut game, "Search");
    assert_eq!(said, "Goblin misses the player\n");
    assert_eq!(names(game.get_current_room().visible_items()), vec!["Rope", "Purse", "Key"]);
    assert!(game.get_current_room().invisible_items().is_empty());
    let mut game = small_world(Dice::Loaded { hit: true, roll: 0 });
    let said = play(&mut game, "Search");
    assert_eq!(said, "Goblin hits the player for 3\nYou took 3 damage. Your current HP: 7\n");
}

#[test]
fn putting_lays_the_item_in_the_room() {
    let mut game = small_world(Dice::Random);
    let said = play(&mut game, "Put Sword");
    assert_eq!(said, "Weapon 'Sword' has been removed from your hand.\n");
    assert!(game.world().get_player().weapon().is_none());
    assert_eq!(names(game.get_current_room().visible_items()), vec!["Rope", "Purse", "Sword"]);
    let said = play(&mut game, "Put Sword");
    assert_eq!(said, "Item 'Sword' not found in weapon, armor, or backpack.\n");
    assert_eq!(names(game.get_current_room().visible_items()), vec!["Rope", "Purse", "Sword"]);
    play(&mut game, "Take Sword");
    play(&mut game, "Wear Sword");
    assert_eq!(game.world().get_player().weapon().unwrap().name(), "Sword");
}

#[test]
fn a_look_at_an_enemy_brings_its_items_to_light() {
    let mut game = small_world(Dice::Random);
    let said = play(&mut game, "See Orc");
    assert_eq!(said, "No enemies found with that name: Orc\n");
    let said = play(&mut game, "See Goblin");
    assert_eq!(said, "");
    assert_eq!(names(game.get_current_room().visible_items()), vec!["Rope", "Purse", "Tooth"]);
    assert!(game.world().enemies()[0].items().is_empty());
    assert_eq!(game.world().enemies()[0].hp(), 15);
    play(&mut game, "See Goblin");
    assert_eq!(names(game.get_current_room().visible_items()), vec!["Rope", "Purse", "Tooth"]);
}

#[test]
fn waiting_lets_enemies_strike_and_then_move() {
    let mut game = small_world(Dice::Loaded { hit: true, roll: 0 });
    let said = play(&mut game, "Wait");
    assert_eq!(said, "Goblin hits the player for 3\nYou took 3 damage. Your current HP: 7\n");
    assert_eq!(game.world().enemies()[0].room_id(), 2);
    assert_eq!(game.world().enemies()[1].room_id(), 1);
    let mut game = small_world(Dice::Loaded { hit: false, roll: 9 });
    let said = play(&mut game, "Wait");
    assert_eq!(said, "Goblin misses the player\n");
    assert_eq!(game.world().enemies()[0].room_id(), 2);
    assert_eq!(game.world().enemies()[1].room_id(), 3);
}

#[test]
fn enemies_wander_through_exits_only() {
    let mut game = small_world(Dice::Random);
    play(&mut game, "Godmode");
    let mut orc_rooms = [false; 4];
    for _ in 0..200 {
        let before: Vec<u32> = game.world().enemies().iter().map(|enemy| enemy.room_id()).collect();
        play(&mut game, "Wait");
        for (i, enemy) in game.world().enemies().iter().enumerate() {
            let allowed: Vec<u32> = match before[i] {
                1 => vec![2],
                2 => vec![1, 3],
                _ => vec![2],
            };
            assert!(allowed.contains(&enemy.room_id()));
        }
        orc_rooms[game.world().enemies()[1].room_id() as usize] = true;
    }
    assert_eq!(orc_rooms, [false, true, true, true]);
    assert_eq!(game.world().get_player().hp(), 10);
}

#[test]
fn enemy_in_a_room_without_exits_stays() {
    let mut game = pit(Dice::Random);
    play(&mut game, "Godmode");
    for _ in 0..20 {
        play(&mut game, "Wait");
        assert_eq!(game.world().enemies()[0].room_id(), 7);
    }
}

#[test]
fn all_enemies_in_the_room_attack_in_one_pass() {
    let room = Room::new(1, "Den", "Crowded.", &[], &[], &[]);
    let enemies = vec![
        Enemy::new(1, "Rat", "Quick", 4, 1, 1, &[]),
        Enemy::new(2, "Bat", "Elsewhere", 4, 9, 9, &[]),
        Enemy::new(1, "Cat", "Sly", 4, 2, 2, &[]),
        Enemy::new(1, "Ghost", "Gone", 0, 9, 9, &[]),
    ];
    let player = Player::new("Hero", &thing("Sword", "wapen", (10, 10, 0)));
    let mut world = World::new(vec![room], enemies, player);
    world.set_dice(Dice::Loaded { hit: true, roll: 0 });
    let said = world.enemies_attack();
    assert_eq!(
        said,
        "Rat hits the player for 1\nYou took 1 damage. Your current HP: 9\nCat hits the player for 2\nYou took 2 damage. Your current HP: 7\n"
    );
    assert_eq!(world.get_player().hp(), 7);
}

#[test]
fn hit_names_the_first_enemy_of_that_name_in_the_room() {
    let mut game = small_world(Dice::Loaded { hit: true, roll: 0 });
    let said = play(&mut game, "Hit Orc");
    assert!(said.starts_with("player does total damage 10 \nNo enemies found with that name: Orc\n"));
    assert_eq!(game.world().enemies()[1].hp(), 30);
    let mut game = small_world(Dice::Loaded { hit: false, roll: 0 });
    let said = play(&mut game, "Hit Goblin");
    assert_eq!(said, "player misses\nGoblin misses the player\n");
    assert_eq!(game.world().enemies()[0].hp(), 15);
    assert_eq!(game.world().enemies()[0].room_id(), 2);
}

#[test]
fn a_blow_meets_the_living_before_the_dead() {
    let room = Room::new(1, "Den", "Crowded.", &[], &[], &[]);
    let enemies = vec![
        Enemy::new(1, "Rat", "Dead", 0, 1, 1, &[]),
        Enemy::new(1, "Rat", "Alive", 4, 1, 1, &[]),
        Enemy::new(1, "Rat", "Alive too", 4, 1, 1, &[]),
        Enemy::new(1, "Bat", "Dead", 0, 1, 1, &[]),
    ];
    let player = Player::new("Hero", &thing("Sword", "wapen", (10, 10, 0)));
    let mut world = World::new(vec![room], enemies, player);
    assert_eq!(world.player_attack_enemy(3, "Rat"), "Rat took 3 damage, 1 HP remaining.\n");
    assert_eq!(world.enemies()[1].hp(), 1);
    assert_eq!(world.player_attack_enemy(3, "Rat"), "Rat took 3 damage and has died.\n");
    assert_eq!(world.player_attack_enemy(3, "Rat"), "Rat took 3 damage, 1 HP remaining.\n");
    assert_eq!(world.enemies()[2].hp(), 1);
    assert_eq!(world.player_attack_enemy(1, "Rat"), "Rat took 1 damage and has died.\n");
    assert_eq!(world.player_attack_enemy(1, "Rat"), "Enemy: Rat is already dead\n");
    assert_eq!(world.player_attack_enemy(1, "Bat"), "Enemy: Bat is already dead\n");
    assert_eq!(world.player_attack_enemy(1, "Cat"), "No enemies found with that name: Cat\n");
    let left: Vec<u32> = world.enemies().iter().map(|enemy| enemy.hp()).collect();
    assert_eq!(left, vec![0, 0, 0, 0]);
}

#[test]
fn the_game_stops_when_the_player_dies() {
    let mut game = small_world(Dice::Loaded { hit: true, roll: 0 });
    for _ in 0..3 {
        play(&mut game, "Go Up");
        assert!(game.is_running());
    }
    play(&mut game, "Go Up");
    assert_eq!(game.world().get_player().hp(), 0);
    assert!(!game.is_running());
}

#[test]
fn quitting_stops_the_game() {
    let mut game = small_world(Dice::Random);
    assert!(game.is_running());
    assert_eq!(play(&mut game, "Quit"), "End Game\n");
    assert!(!game.is_running());
}

#[test]
fn running_plays_lines_until_the_game_stops() {
    let mut game = small_world(Dice::Loaded { hit: false, roll: 0 });
    let lines: Vec<String> =
        ["Take Rope", "nonsense", "", "Quit", "Take Purse"].iter().map(|line| line.to_string()).collect();
    let played = game.run(&lines);
    assert_eq!(played.0, 4);
    assert_eq!(
        played.1,
        "Welcome to kerkers en draken. A simple text adventure game made in rust for a school project learning rust \nEverytime the prompt shows '>' insert a command. if player does not know any commands insert HelpItem 'Rope' has been moved to your backpack.\nNot a valid command\nNot a valid command\nEnd Game\n"
    );
    assert!(!game.is_running());
    assert_eq!(game.world().get_player().gold(), 0);
}

#[test]
fn looking_shows_the_room_and_who_is_in_it() {
    let mut game = small_world(Dice::Random);
    let said = play(&mut game, "Look");
    assert_eq!(
        said,
        "Hall\nA wide hall.\n\nVisible items:  Item { base: GameObject { name: \"Rope\", description: \"a thing\" }, kind: Armor(Armor { defense: 1 }) }  Item { base: GameObject { name: \"Purse\", description: \"a thing\" }, kind: Coin(Coin { value: 25 }) } \nAvailable exits:  Exit { direction: North, destination: 2 } \n Enemy Details:\n--------------------\nName:           Goblin\nDescription:    Small and green\nHP:             15\nDamage Range:   3 - 3\nRoom ID:        1\nInvisible Items: Item { base: GameObject { name: \"Tooth\", description: \"a thing\" }, kind: Coin(Coin { value: 1 }) }\n--------------------\n\n"
    );
}

#[test]
fn help_and_player_status() {
    let mut game = small_world(Dice::Random);
    assert_eq!(
        play(&mut game, "Help"),
        "[\"Help\", \"Look\", \"Search\", \"Go <Direction>\", \"Take <Object>\", \"Put <Object>\", \"See <Object>\", \"SeePlayer\", \"Hit <Enemy>\", \"Wear <Object>\", \"Wait\", \"Consume <Object>\", \"Godmode\", \"Quit\", \"Unknown\"]\n"
    );
    let status = play(&mut game, "SeePlayer");
    assert!(status.starts_with("Player Information:\n--------------------\nName:           Hero\nHP:             10\n"));
    assert_eq!(status, game.world().get_player().show());
}

#[test]
fn rooms_that_do_not_fit_are_told_apart() {
    let a = Room::new(1, "A", "", &[], &[], &exits(&[(2, "North")]));
    let b = Room::new(2, "B", "", &[], &[], &exits(&[(1, "South")]));
    assert!(World::rooms_fit(&vec![a, b]));
    let a = Room::new(1, "A", "", &[], &[], &exits(&[(3, "North")]));
    let b = Room::new(2, "B", "", &[], &[], &[]);
    assert!(!World::rooms_fit(&vec![a, b]));
    let a = Room::new(1, "A", "", &[], &[], &[]);
    let b = Room::new(1, "B", "", &[], &[], &[]);
    assert!(!World::rooms_fit(&vec![a, b]));
    let a = Room::new(0, "A", "", &[], &[], &[]);
    assert!(!World::rooms_fit(&vec![a]));
    assert!(World::rooms_fit(&Vec::new()));
}

#[test]
fn a_line_that_would_overflow_is_not_accepted() {
    let room = Room::new(
        1,
        "Mint",
        "Gold everywhere.",
        &[thing("Hoard", "other", (4294967295, 0, 0)), thing("Coin", "other", (1, 0, 0)), thing("Tonic", "levenselixer", (4294967290, 4294967290, 0))],
        &[],
        &[],
    );
    let player = Player::new("Hero", &thing("Sword", "wapen", (10, 10, 0)));
    let mut game = Game::new(World::new(vec![room], Vec::new(), player));
    assert!(game.accepts("Take Coin"));
    assert!(game.accepts("Take Hoard"));
    game.step("Take Coin");
    assert!(!game.accepts("Take Hoard"));
    assert!(game.accepts("Take Tonic"));
    game.step("Take Tonic");
    assert!(!game.accepts("Consume Tonic"));
    assert!(game.accepts("Consume Nothing"));
    assert!(game.accepts("Wear Tonic"));
}
