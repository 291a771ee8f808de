use game::dice::Dice;
use game::objects::clone_items;
use game::objects::find_item;
use game::objects::Armor;
use game::objects::Coin;
use game::objects::Consumable;
use game::objects::GameObjectType;
use game::objects::ItemFactory;
use game::objects::Weapon;

#[test]
fn type_words_decide_the_kind() {
    let dice = Dice::Loaded { hit: true, roll: 7 };
    let value = (5, 9, 3);
    let potion = GameObjectType::Consumable(Consumable { heal_amount: 7 });
    for word in ["teleportatiedrank", "ervaringsdrink", "levenselixer"] {
        assert_eq!(*ItemFactory::create_item("n", "d", word, value, &dice).kind(), potion);
    }
    assert_eq!(
        *ItemFactory::create_item("n", "d", "wapenrusting", value, &dice).kind(),
        GameObjectType::Armor(Armor { defense: 3 })
    );
    assert_eq!(
        *ItemFactory::create_item("n", "d", "wapen", value, &dice).kind(),
        GameObjectType::Weapon(Weapon { minimum_damage: 5, maximum_damage: 9 })
    );
    assert_eq!(
        *ItemFactory::create_item("n", "d", "goudstukken", value, &dice).kind(),
        GameObjectType::Coin(Coin { value: 7 })
    );
    assert_eq!(
        *ItemFactory::create_item("n", "d", "Wapen", value, &dice).kind(),
        GameObjectType::Coin(Coin { value: 5 })
    );
    assert_eq!(
        *ItemFactory::create_item("n", "d", "", (9, 1, 0), &dice).kind(),
        GameObjectType::Coin(Coin { value: 9 })
    );
}

#[test]
fn loaded_roll_is_brought_into_the_range() {
    let low = Dice::Loaded { hit: true, roll: 1 };
    let high = Dice::Loaded { hit: true, roll: 100 };
    assert_eq!(
        *ItemFactory::create_item("n", "d", "goudstukken", (5, 9, 0), &low).kind(),
        GameObjectType::Coin(Coin { value: 5 })
    );
    assert_eq!(
        *ItemFactory::create_item("n", "d", "goudstukken", (5, 9, 0), &high).kind(),
        GameObjectType::Coin(Coin { value: 9 })
    );
}

#[test]
fn rolled_amounts_lie_in_the_range() {
    for _ in 0..200 {
        let item = ItemFactory::create_item("n", "d", "levenselixer", (5, 9, 0), &Dice::Random);
        match item.kind() {
            GameObjectType::Consumable(c) => assert!(5 <= c.heal_amount && c.heal_amount <= 9),
            _ => panic!("a potion was asked for"),
        }
    }
}

#[test]
fn action_values() {
    let dice = Dice::Loaded { hit: true, roll: 4 };
    let value = (2, 6, 8);
    assert_eq!(ItemFactory::create_item("n", "d", "wapen", value, &dice).do_action(&dice), 4);
    assert_eq!(ItemFactory::create_item("n", "d", "wapenrusting", value, &dice).do_action(&dice), 8);
    assert_eq!(ItemFactory::create_item("n", "d", "levenselixer", value, &dice).do_action(&dice), 4);
    assert_eq!(ItemFactory::create_item("n", "d", "other", value, &dice).do_action(&dice), 2);
    let sword = ItemFactory::create_item("n", "d", "wapen", value, &dice);
    for _ in 0..200 {
        let damage = sword.do_action(&Dice::Random);
        assert!(2 <= damage && damage <= 6);
    }
}

#[test]
fn items_show_their_details() {
    let dice = Dice::Loaded { hit: true, roll: 4 };
    let sword = ItemFactory::create_item("Sword", "Sharp", "wapen", (2, 16, 0), &dice);
    assert_eq!(
        sword.show(),
        "Item Details:\nName: Sword\nDescription: Sharp\nDetails: Weapon has damage range 2-16\n"
    );
    let armor = ItemFactory::create_item("Mail", "Heavy", "wapenrusting", (0, 0, 120), &dice);
    assert_eq!(armor.kind().show(), "Armor has defense of 120\n");
    let coin = ItemFactory::create_item("Gold", "Shiny", "goudstukken", (0, 4294967295, 0), &Dice::Loaded { hit: true, roll: 4294967295 });
    assert_eq!(coin.kind().show(), "pouch has amount 4294967295\n");
    let potion = ItemFactory::create_item("Drink", "Red", "levenselixer", (0, 9, 0), &Dice::Loaded { hit: true, roll: 0 });
    assert_eq!(potion.kind().show(), "Potion has heals 0\n");
}

#[test]
fn debug_text_is_what_the_formatter_prints() {
    let dice = Dice::Loaded { hit: true, roll: 4 };
    for (name, description, word) in [
        ("Sword", "Sharp", "wapen"),
        ("Mail \"of\" doom", "Heavy\nand\ttall", "wapenrusting"),
        ("Gold", "back\\slash", "goudstukken"),
        ("Drink", "caf\u{e9} \u{7f}", "levenselixer"),
        ("", "", "none"),
    ] {
        let item = ItemFactory::create_item(name, description, word, (1, 1007, 20), &dice);
        assert_eq!(item.debug_string(), format!("{:?}", item));
        assert_eq!(item.kind().debug_string(), format!("{:?}", item.kind()));
    }
}

#[test]
fn quoting_changes_the_text() {
    let dice = Dice::Loaded { hit: true, roll: 4 };
    let item = ItemFactory::create_item("Sword", "Sharp", "wapen", (1, 2, 0), &dice);
    assert_eq!(
        item.debug_string(),
        "Item { base: GameObject { name: \"Sword\", description: \"Sharp\" }, kind: Weapon(Weapon { minimum_damage: 1, maximum_damage: 2 }) }"
    );
}

#[test]
fn first_of_a_name_is_found() {
    let dice = Dice::Random;
    let items = vec![
        ItemFactory::create_item("a", "0", "x", (0, 0, 0), &dice),
        ItemFactory::create_item("b", "1", "x", (0, 0, 0), &dice),
        ItemFactory::create_item("b", "2", "x", (0, 0, 0), &dice),
    ];
    assert_eq!(find_item(&items, "a"), Some(0));
    assert_eq!(find_item(&items, "b"), Some(1));
    assert_eq!(find_item(&items, "c"), None);
    assert_eq!(find_item(&Vec::new(), "a"), None);
    let copy = clone_items(&items);
    assert_eq!(copy.len(), 3);
    assert_eq!(copy[2].description(), "2");
}
