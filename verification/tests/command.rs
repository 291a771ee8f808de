use game::command::parse_args_to_direction;
use game::command::parse_args_to_item_name;
use game::command::parse_input_to_command;
use game::command::Commands;
use game::room::Direction;
use game::room::Exit;
use game::room::Room;

#[test]
fn keywords_make_commands() {
    assert!(matches!(parse_input_to_command("Help"), Commands::Help(_)));
    assert!(matches!(parse_input_to_command("Look"), Commands::Look(_)));
    assert!(matches!(parse_input_to_command("Search"), Commands::Search(_)));
    assert!(matches!(parse_input_to_command("SeePlayer"), Commands::SeePlayer(_)));
    assert!(matches!(parse_input_to_command("Wait"), Commands::Wait(_)));
    assert!(matches!(parse_input_to_command("Godmode"), Commands::Godmode(_)));
    assert!(matches!(parse_input_to_command("Quit"), Commands::Quit(_)));
    assert!(matches!(parse_input_to_command("  Quit  now "), Commands::Quit(_)));
}

#[test]
fn anything_else_is_unknown() {
    for line in ["", "   ", "help", "HELP", "Helper", "Dance", "go North", "Seeplayer", "\t"] {
        assert!(matches!(parse_input_to_command(line), Commands::Unknown(_)));
    }
}

#[test]
fn names_are_the_rest_of_the_line() {
    match parse_input_to_command("Take rusty   old  sword") {
        Commands::Take(command) => assert_eq!(command.item, "rusty old sword"),
        _ => panic!("Take was asked for"),
    }
    match parse_input_to_command("Put Shield") {
        Commands::Put(command) => assert_eq!(command.item, "Shield"),
        _ => panic!("Put was asked for"),
    }
    match parse_input_to_command("See Big Orc") {
        Commands::See(command) => assert_eq!(command.enemy_name, "Big Orc"),
        _ => panic!("See was asked for"),
    }
    match parse_input_to_command("Hit Goblin2") {
        Commands::Hit(command) => assert_eq!(command.name, "Goblin2"),
        _ => panic!("Hit was asked for"),
    }
    match parse_input_to_command("Wear Axe") {
        Commands::Wear(command) => assert_eq!(command.item, "Axe"),
        _ => panic!("Wear was asked for"),
    }
    match parse_input_to_command("Consume Potion of Life") {
        Commands::Consume(command) => assert_eq!(command.item, "Potion of Life"),
        _ => panic!("Consume was asked for"),
    }
}

#[test]
fn a_missing_name_gets_the_stand_in() {
    match parse_input_to_command("Take") {
        Commands::Take(command) => assert_eq!(command.item, "To little commands arguments"),
        _ => panic!("Take was asked for"),
    }
    match parse_input_to_command("Hit   ") {
        Commands::Hit(command) => assert_eq!(command.name, "To little commands arguments"),
        _ => panic!("Hit was asked for"),
    }
    assert_eq!(parse_args_to_item_name(&vec!["Take"]), "To little commands arguments");
    assert_eq!(parse_args_to_item_name(&Vec::new()), "To little commands arguments");
    assert_eq!(parse_args_to_item_name(&vec!["Take", "a", "b"]), "a b");
}

#[test]
fn directions_of_go() {
    let direction = |line: &str| match parse_input_to_command(line) {
        Commands::Go(command) => command.direction,
        _ => panic!("Go was asked for"),
    };
    assert_eq!(direction("Go North"), Direction::North);
    assert_eq!(direction("Go South"), Direction::South);
    assert_eq!(direction("Go East"), Direction::East);
    assert_eq!(direction("Go West"), Direction::West);
    assert_eq!(direction("Go"), Direction::Nowhere);
    assert_eq!(direction("Go Up"), Direction::Nowhere);
    assert_eq!(direction("Go north"), Direction::Nowhere);
    assert_eq!(direction("Go North East"), Direction::North);
    assert_eq!(direction("Go sideways West"), Direction::Nowhere);
    assert_eq!(parse_args_to_direction(&vec!["Go", "West"]), Direction::West);
    assert_eq!(parse_args_to_direction(&vec!["West"]), Direction::Nowhere);
    assert_eq!(parse_args_to_direction(&vec!["Go", "East", "West"]), Direction::East);
    assert_eq!(Direction::from_str("East"), Direction::East);
    assert_eq!(Direction::from_str("None"), Direction::Nowhere);
    assert_eq!(Direction::from_str(""), Direction::Nowhere);
}

fn pairs(list: &[(u32, &str)]) -> Vec<(u32, String)> {
    list.iter().map(|pair| (pair.0, pair.1.to_string())).collect()
}

#[test]
fn a_room_keeps_one_exit_for_each_direction() {
    let room = Room::new(
        4,
        "Crossing",
        "Ways part here.",
        &[],
        &[],
        &pairs(&[(0, "North"), (2, "East"), (3, "Up"), (5, "East"), (6, "North"), (0, "West"), (4, "South")]),
    );
    assert_eq!(room.get_id(), 4);
    assert_eq!(
        *room.get_exits(),
        vec![
            Exit { direction: Direction::East, destination: 2 },
            Exit { direction: Direction::North, destination: 6 },
            Exit { direction: Direction::South, destination: 4 },
        ]
    );
    assert_eq!(room.get_exits()[0].id(), 2);
    assert_eq!(room.check_direction(&Direction::East), 2);
    assert_eq!(room.check_direction(&Direction::North), 6);
    assert_eq!(room.check_direction(&Direction::South), 4);
    assert_eq!(room.check_direction(&Direction::West), 0);
    assert_eq!(room.check_direction(&Direction::Nowhere), 0);
    assert_eq!(
        room.show(),
        "Crossing\nWays part here.\n\nVisible items: \nAvailable exits:  Exit { direction: East, destination: 2 }  Exit { direction: North, destination: 6 }  Exit { direction: South, destination: 4 } "
    );
    assert_eq!(room.get_exits()[0].debug_string(), format!("{:?}", room.get_exits()[0]));
}
