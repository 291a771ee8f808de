use game::database::Database;
use game::database::Enemy as CatalogEnemy;
use game::database::Object;
use game::dice::Dice;
use game::name_generator::NameGenerator;
use game::objects::Coin;
use game::objects::Consumable;
use game::objects::GameObjectType;
use game::objects::Weapon;
use game::room::Direction;
use game::room::Exit;
use game::story::Locatie;
use game::story::Story;
use game::story::XmlEvent;
use game::text::parse_number;
use game::text::split_at;
use game::text::trim;
use game::world::World;

fn object(name: &str, kind: &str, numbers: (u32, u32, u32)) -> Object {
    Object {
        name: name.to_string(),
        description: format!("{} of the catalog", name),
        type_obj: kind.to_string(),
        extra_parameters: numbers,
    }
}

fn foe(name: &str, hp: u32, damage: (u32, u32), objects: (u32, u32)) -> CatalogEnemy {
    CatalogEnemy {
        name: name.to_string(),
        description: format!("{} of the catalog", name),
        minimum_objects: objects.0,
        maximum_objects: objects.1,
        hp,
        attack_chance: 50,
        minimum_damage: damage.0,
        maximum_damage: damage.1,
    }
}

fn catalog() -> Database {
    Database::new(
        vec![
            object("dolk", "wapen", (1, 4, 0)),
            object("elixer", "levenselixer", (2, 6, 0)),
            object("goud", "goudstukken", (10, 20, 0)),
            object("schild", "wapenrusting", (0, 0, 3)),
            object("kapot", "wapen", (9, 1, 0)),
            object("dolk", "wapenrusting", (0, 0, 99)),
        ],
        vec![
            foe("goblin", 12, (1, 3), (1, 2)),
            foe("draak", 90, (8, 4), (0, 0)),
            foe("rat", 3, (1, 1), (0, 0)),
            foe("gier", 5, (1, 1), (3, 1)),
        ],
    )
}

fn place(id: u32, naam: &str, ways: [Option<u32>; 4]) -> Locatie {
    Locatie {
        id,
        noord: ways[0],
        oost: ways[1],
        zuid: ways[2],
        west: ways[3],
        vijand: None,
        objectenverborgen: None,
        objectenzichtbaar: None,
        naam: naam.to_string(),
        beschrijving: format!("This is {}.", naam),
    }
}

fn some(text: &str) -> Option<String> {
    Some(text.to_string())
}

#[test]
fn catalog_finds_the_first_of_a_name() {
    let db = catalog();
    assert_eq!(db.get_object("dolk").unwrap().type_obj, "wapen");
    assert_eq!(db.get_object("schild").unwrap().extra_parameters, (0, 0, 3));
    assert!(db.get_object("zwaard").is_none());
    assert!(db.get_object("").is_none());
    assert_eq!(db.get_enemy("rat").unwrap().hp, 3);
    assert!(db.get_enemy("Rat").is_none());
    assert_eq!(db.get_all_objects().len(), 6);
}

#[test]
fn items_are_made_for_the_keys_that_the_catalog_knows() {
    let story = Story::new(Vec::new(), catalog());
    let mut names = NameGenerator::new();
    let dice = Dice::Loaded { hit: true, roll: 5 };
    let items = story.fill_items(&some("  dolk;elixer;niets;;goud;dolk;kapot;schild \n"), &mut names, &dice);
    let made: Vec<&str> = items.iter().map(|item| item.name()).collect();
    assert_eq!(made, vec!["dolk", "elixer", "goud", "dolk2", "schild"]);
    assert_eq!(items[0].description(), "dolk of the catalog");
    assert_eq!(*items[0].kind(), GameObjectType::Weapon(Weapon { minimum_damage: 1, maximum_damage: 4 }));
    assert_eq!(*items[1].kind(), GameObjectType::Consumable(Consumable { heal_amount: 5 }));
    assert_eq!(*items[2].kind(), GameObjectType::Coin(Coin { value: 10 }));
    assert_eq!(*items[3].kind(), GameObjectType::Weapon(Weapon { minimum_damage: 1, maximum_damage: 4 }));
    assert!(story.fill_items(&None, &mut names, &dice).is_empty());
    assert!(story.fill_items(&some(""), &mut names, &dice).is_empty());
    assert!(story.fill_items(&some(" dolk ; elixer"), &mut names, &dice).is_empty());
    let again = story.fill_items(&some("dolk"), &mut names, &Dice::Random);
    assert_eq!(again[0].name(), "dolk3");
}

#[test]
fn rooms_are_made_of_the_locations() {
    let mut hall = place(1, "Zaal", [Some(2), None, Some(0), None]);
    hall.objectenzichtbaar = some("dolk;goud");
    hall.objectenverborgen = some("dolk");
    let mut vault = place(2, "Zaal", [None, Some(3), Some(1), Some(9)]);
    vault.objectenzichtbaar = some("niets");
    let attic = place(3, "dolk", [None, None, None, Some(2)]);
    let story = Story::new(vec![hall, vault, attic], catalog());
    assert_eq!(story.locaties().len(), 3);
    let mut names = NameGenerator::new();
    let rooms = story.create_rooms(&mut names, &Dice::Loaded { hit: false, roll: 0 });
    assert_eq!(rooms.len(), 3);
    assert_eq!(rooms[0].get_id(), 1);
    assert_eq!(*rooms[0].get_exits(), vec![Exit { direction: Direction::North, destination: 2 }]);
    assert_eq!(
        *rooms[1].get_exits(),
        vec![
            Exit { direction: Direction::East, destination: 3 },
            Exit { direction: Direction::South, destination: 1 },
            Exit { direction: Direction::West, destination: 9 },
        ]
    );
    let seen: Vec<&str> = rooms[0].visible_items().iter().map(|item| item.name()).collect();
    assert_eq!(seen, vec!["dolk", "goud"]);
    let hidden: Vec<&str> = rooms[0].invisible_items().iter().map(|item| item.name()).collect();
    assert_eq!(hidden, vec!["dolk2"]);
    assert!(rooms[1].visible_items().is_empty());
    assert!(rooms[0].show().starts_with("Zaal\nThis is Zaal.\n"));
    assert!(rooms[1].show().starts_with("Zaal2\nThis is Zaal.\n"));
    assert!(rooms[2].show().starts_with("dolk3\nThis is dolk.\n"));
    assert!(!World::rooms_fit(&rooms));
}

#[test]
fn enemies_are_made_of_the_keys_of_the_locations() {
    let mut hall = place(1, "Zaal", [None; 4]);
    hall.vijand = some("goblin;draak;rat;goblin;gier; rat;spook");
    let mut vault = place(2, "Kelder", [None; 4]);
    vault.vijand = some("rat");
    let story = Story::new(vec![hall, vault], catalog());
    let mut names = NameGenerator::new();
    let enemies = story.create_enemies(&mut names, &Dice::Loaded { hit: true, roll: 2 });
    let made: Vec<(&str, u32)> = enemies.iter().map(|enemy| (enemy.name(), enemy.room_id())).collect();
    assert_eq!(made, vec![("goblin", 1), ("rat", 1), ("goblin2", 1), ("rat2", 2)]);
    assert_eq!(enemies[0].hp(), 12);
    let carried: Vec<&str> = enemies[0].items().iter().map(|item| item.name()).collect();
    assert_eq!(carried, vec!["goud", "goud2"]);
    assert!(enemies[1].items().is_empty());
    let carried: Vec<&str> = enemies[2].items().iter().map(|item| item.name()).collect();
    assert_eq!(carried, vec!["goud3", "goud4"]);
    assert_eq!(enemies[0].attack(&Dice::Loaded { hit: true, roll: 9 }).0, 3);
}

#[test]
fn random_loot_stays_within_its_number_and_the_catalog() {
    let story = Story::new(Vec::new(), catalog());
    let mut sizes = [false; 4];
    for _ in 0..200 {
        let mut names = NameGenerator::new();
        let items = story.generate_random_items(&mut names, &(1, 3), &Dice::Random);
        assert!(items.len() <= 3);
        sizes[items.len()] = true;
        for item in items.iter() {
            let base: String = item.name().chars().filter(|c| !c.is_ascii_digit()).collect();
            assert!(["dolk", "elixer", "goud", "schild"].contains(&base.as_str()));
        }
    }
    assert!(sizes[3]);
    let empty = Story::new(Vec::new(), Database::new(Vec::new(), Vec::new()));
    let mut names = NameGenerator::new();
    assert!(empty.generate_random_items(&mut names, &(2, 5), &Dice::Random).is_empty());
    assert!(empty.get_player_starting_weapen(&mut names).is_none());
}

#[test]
fn the_first_weapon_of_the_catalog_is_the_one_to_start_with() {
    let story = Story::new(Vec::new(), catalog());
    let mut names = NameGenerator::new();
    names.generate_name("dolk");
    let weapon = story.get_player_starting_weapen(&mut names).unwrap();
    assert_eq!(weapon.name(), "dolk2");
    assert_eq!(*weapon.kind(), GameObjectType::Weapon(Weapon { minimum_damage: 1, maximum_damage: 4 }));
    let broken = Story::new(Vec::new(), Database::new(vec![object("kapot", "wapen", (9, 1, 0)), object("dolk", "wapen", (1, 4, 0))], Vec::new()));
    assert!(broken.get_player_starting_weapen(&mut names).is_none());
}

fn start(name: &str, attributes: &[(&str, &str)]) -> XmlEvent {
    XmlEvent::Start {
        name: name.to_string(),
        attributes: attributes.iter().map(|pair| (pair.0.to_string(), pair.1.to_string())).collect(),
    }
}

fn words(text: &str) -> XmlEvent {
    XmlEvent::Text { len: text.len(), unescaped: Some(text.to_string()) }
}

fn end(name: &str) -> XmlEvent {
    XmlEvent::End { name: name.to_string() }
}

#[test]
fn locations_are_read_from_the_events() {
    let long = "A hall so wide that the far wall is lost in the dark.";
    let events = vec![
        start("locaties", &[("id", "77")]),
        words("short text"),
        start("locatie", &[("id", "1"), ("noord", "2"), ("oost", "x"), ("naam", "Zaal"), ("kleur", "rood"), ("vijand", "goblin;rat")]),
        start("beschrijving", &[("naam", "not a place")]),
        words(long),
        end("beschrijving"),
        words("far too short to count"),
        XmlEvent::Text { len: 40, unescaped: None },
        XmlEvent::Other,
        end("locatie"),
        start("locatie", &[("id", "+2"), ("zuid", "1"), ("objectenzichtbaar", "dolk"), ("objectenverborgen", "goud;elixer"), ("id", "3")]),
        end("locatie"),
        start("locatie", &[("id", "-4"), ("west", "4294967296"), ("naam", "Nergens")]),
        XmlEvent::Eof,
        end("locatie"),
    ];
    let locaties = Story::read_locaties(&events);
    assert_eq!(locaties.len(), 2);
    assert_eq!(locaties[0].id, 1);
    assert_eq!(locaties[0].noord, Some(2));
    assert_eq!(locaties[0].oost, Some(0));
    assert_eq!(locaties[0].zuid, None);
    assert_eq!(locaties[0].naam, "Zaal");
    assert_eq!(locaties[0].vijand, some("goblin;rat"));
    assert_eq!(locaties[0].beschrijving, long);
    assert_eq!(locaties[1].id, 3);
    assert_eq!(locaties[1].zuid, Some(1));
    assert_eq!(locaties[1].naam, "");
    assert_eq!(locaties[1].beschrijving, "");
    assert_eq!(locaties[1].objectenzichtbaar, some("dolk"));
    assert_eq!(locaties[1].objectenverborgen, some("goud;elixer"));
    let failed = vec![start("locatie", &[("id", "1")]), XmlEvent::Failed, end("locatie")];
    assert!(Story::read_locaties(&failed).is_empty());
    assert!(Story::read_locaties(&Vec::new()).is_empty());
}

#[test]
fn numbers_are_read_as_the_language_reads_them() {
    assert_eq!(parse_number("0"), Some(0));
    assert_eq!(parse_number("42"), Some(42));
    assert_eq!(parse_number("+42"), Some(42));
    assert_eq!(parse_number("0042"), Some(42));
    assert_eq!(parse_number("4294967295"), Some(4294967295));
    assert_eq!(parse_number("4294967296"), None);
    assert_eq!(parse_number("99999999999999999999999"), None);
    assert_eq!(parse_number(""), None);
    assert_eq!(parse_number("+"), None);
    assert_eq!(parse_number("-1"), None);
    assert_eq!(parse_number("++1"), None);
    assert_eq!(parse_number("1+"), None);
    assert_eq!(parse_number(" 1"), None);
    assert_eq!(parse_number("1 "), None);
    assert_eq!(parse_number("12a"), None);
    assert_eq!(parse_number("\u{0661}"), None);
    for text in ["7", "+0", "000", "4294967295", "4294967300", "42949672950", "1e3", "0x10", "+-1", "٣", "1_000"] {
        assert_eq!(parse_number(text), text.parse::<u32>().ok());
    }
}

#[test]
fn cutting_and_trimming_as_the_language_does() {
    for text in ["", "a", ";", "a;b", "a;;b", ";a;", "dolk;goud;elixer", " a ; b ", ";;"] {
        let expected: Vec<&str> = text.split(';').collect();
        assert_eq!(split_at(text, ';'), expected);
    }
    assert_eq!(split_at("a;b", ','), vec!["a;b"]);
    for text in ["", " ", "a", " a", "a ", "  a b  ", "\t\n x \r\n", "\u{a0}y\u{3000}", "   \u{2003} ", "caf\u{e9}  "] {
        assert_eq!(trim(text), text.trim());
    }
}
