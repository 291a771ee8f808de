use game::dice::Dice;
use game::objects::GameObjectType;
use game::objects::Item;
use game::objects::ItemFactory;
use game::player::Player;

fn make(name: &str, description: &str, kind: &str, value: (u32, u32, u32)) -> Item {
    ItemFactory::create_item(name, description, kind, value, &Dice::Random)
}

#[test]
fn test_player_creation() {
    let weapon = make("SWORD", "SWORD", "wapen", (10, 10, 10));
    let player = Player::new("NAME", &weapon);
    assert_eq!(player.hp(), 10);
}

#[test]
fn test_take_damage() {
    let weapon = make("SWORD", "SWORD", "wapen", (10, 10, 10));
    let mut player = Player::new("NAME", &weapon);
    player.take_dmg(5);
    assert_eq!(player.hp(), 5);
}

#[test]
fn test_godmode_prevents_damage() {
    let weapon = make("SWORD", "SWORD", "wapen", (10, 10, 10));
    let mut player = Player::new("NAME", &weapon);
    player.toggle_godmode();
    player.take_dmg(100);
    assert_eq!(player.hp(), 10);
}

#[test]
fn test_fill_backpack() {
    let weapon = make("SWORD", "SWORD", "wapen", (10, 10, 10));
    let potion = make("HEALTH_POTION", "Potion", "levenselixer", (5, 5, 0));
    let mut player = Player::new("NAME", &weapon);
    player.fill_backpack(potion);
    assert_eq!(player.backpack().len(), 1);
}

#[test]
fn test_remove_item() {
    let weapon = make("SWORD", "SWORD", "wapen", (10, 10, 10));
    let mut player = Player::new("NAME", &weapon);
    let armor = make("ARMOR", "Shield", "wapenrusting", (0, 5, 0));
    player.fill_backpack(armor.clone());
    let removed_item = player.remove_item("ARMOR").0;
    assert!(removed_item.is_some());
    assert_eq!(player.backpack().len(), 0);
}

#[test]
fn test_equip_item() {
    let weapon = make("SWORD", "SWORD", "wapen", (10, 10, 10));
    let mut player = Player::new("NAME", &weapon);
    let new_weapon = make("AXE", "AXE", "wapen", (15, 15, 15));
    player.fill_backpack(new_weapon.clone());
    player.equip_item("AXE");
    assert!(player.weapon().is_some());
    assert_eq!(player.weapon().unwrap().name(), "AXE");
}

#[test]
fn test_consume_potion() {
    let weapon = make("SWORD", "SWORD", "wapen", (10, 10, 10));
    let potion = make("HEALTH_POTION", "Potion", "levenselixer", (5, 5, 0));
    let mut player = Player::new("NAME", &weapon);
    player.fill_backpack(potion);
    player.take_dmg(5);
    player.consume_potion("HEALTH_POTION");
    assert_eq!(player.hp(), 10);
}

#[test]
fn damage_behind_armor_is_the_difference() {
    let weapon = make("SWORD", "SWORD", "wapen", (10, 10, 10));
    let mut player = Player::new("NAME", &weapon);
    player.fill_backpack(make("MAIL", "Chain mail", "wapenrusting", (0, 0, 3)));
    player.equip_item("MAIL");
    let said = player.take_dmg(7);
    assert_eq!(player.hp(), 6);
    assert_eq!(said, "You took 4 damage after armor mitigation. Your current HP: 10\n");
}

#[test]
fn armor_stronger_than_the_blow_takes_it_all() {
    let weapon = make("SWORD", "SWORD", "wapen", (10, 10, 10));
    let mut player = Player::new("NAME", &weapon);
    player.fill_backpack(make("PLATE", "Plate", "wapenrusting", (0, 0, 9)));
    player.equip_item("PLATE");
    player.take_dmg(7);
    assert_eq!(player.hp(), 10);
}

#[test]
fn hit_points_stop_at_zero() {
    let weapon = make("SWORD", "SWORD", "wapen", (10, 10, 10));
    let mut player = Player::new("NAME", &weapon);
    let said = player.take_dmg(25);
    assert_eq!(player.hp(), 0);
    assert_eq!(said, "You took 25 damage. Your current HP: 0\n");
}

#[test]
fn forced_hit_of_seven_leaves_three() {
    let weapon = make("SWORD", "SWORD", "wapen", (10, 10, 10));
    let mut player = Player::new("NAME", &weapon);
    let said = player.take_dmg(7);
    assert_eq!(player.hp(), 3);
    assert_eq!(said, "You took 7 damage. Your current HP: 3\n");
}

#[test]
fn no_damage_says_nothing() {
    let weapon = make("SWORD", "SWORD", "wapen", (10, 10, 10));
    let mut player = Player::new("NAME", &weapon);
    assert_eq!(player.take_dmg(0), "");
    assert_eq!(player.hp(), 10);
}

#[test]
fn godmode_says_so_and_keeps_hit_points() {
    let weapon = make("SWORD", "SWORD", "wapen", (10, 10, 10));
    let mut player = Player::new("NAME", &weapon);
    player.toggle_godmode();
    assert!(player.godmode());
    let said = player.take_dmg(4000000000);
    assert_eq!(said, "Player is in godmode. it cannot take damage in this state\n");
    assert_eq!(player.hp(), 10);
    player.toggle_godmode();
    assert!(!player.godmode());
}

#[test]
fn godmode_attack_always_lands() {
    let weapon = make("SWORD", "SWORD", "wapen", (10, 10, 10));
    let mut player = Player::new("NAME", &weapon);
    player.toggle_godmode();
    let missing = Dice::Loaded { hit: false, roll: 0 };
    let blow = player.hit(&missing);
    assert_eq!(blow.0, 10);
    assert_eq!(blow.1, "player does total damage 10 \n");
    for _ in 0..50 {
        assert_eq!(player.hit(&Dice::Random).0, 10);
    }
}

#[test]
fn attack_without_godmode_follows_the_dice() {
    let weapon = make("SWORD", "SWORD", "wapen", (2, 8, 0));
    let player = Player::new("NAME", &weapon);
    let miss = player.hit(&Dice::Loaded { hit: false, roll: 5 });
    assert_eq!(miss.0, 0);
    assert_eq!(miss.1, "player misses\n");
    let hit = player.hit(&Dice::Loaded { hit: true, roll: 5 });
    assert_eq!(hit.0, 5);
    assert_eq!(hit.1, "player does total damage 5 \n");
    assert_eq!(player.hit(&Dice::Loaded { hit: true, roll: 1 }).0, 2);
    assert_eq!(player.hit(&Dice::Loaded { hit: true, roll: 100 }).0, 8);
    for _ in 0..100 {
        let blow = player.hit(&Dice::Random).0;
        assert!(blow == 0 || (2 <= blow && blow <= 8));
    }
}

#[test]
fn bare_hands_deal_nothing() {
    let weapon = make("SWORD", "SWORD", "wapen", (10, 10, 10));
    let mut player = Player::new("NAME", &weapon);
    let removed = player.remove_item("SWORD");
    assert_eq!(removed.0.unwrap().name(), "SWORD");
    assert_eq!(removed.1, "Weapon 'SWORD' has been removed from your hand.\n");
    assert!(player.weapon().is_none());
    let blow = player.get_weapon_dmg(&Dice::Random);
    assert_eq!(blow.0, 0);
    assert_eq!(blow.1, "player has no weapon does 0 damage \n");
}

#[test]
fn coin_turns_into_gold_at_once() {
    let weapon = make("SWORD", "SWORD", "wapen", (10, 10, 10));
    let mut player = Player::new("NAME", &weapon);
    player.fill_backpack(make("ROPE", "A rope", "wapenrusting", (0, 0, 1)));
    let said = player.fill_backpack(make("GOLD", "Gold", "goudstukken", (12, 12, 0)));
    assert_eq!(player.gold(), 12);
    assert_eq!(player.backpack().len(), 1);
    assert_eq!(said, "Coin pickup 12 player has now 12 \n");
    player.fill_backpack(make("PURSE", "Purse", "something else", (30, 0, 0)));
    assert_eq!(player.gold(), 42);
    assert_eq!(player.backpack().len(), 1);
}

#[test]
fn consuming_heals_exactly_and_shrinks_backpack() {
    let weapon = make("SWORD", "SWORD", "wapen", (10, 10, 10));
    let mut player = Player::new("NAME", &weapon);
    player.fill_backpack(make("A", "first", "wapenrusting", (0, 0, 1)));
    player.fill_backpack(make("ELIXIR", "heals", "ervaringsdrink", (8, 8, 0)));
    player.fill_backpack(make("B", "last", "wapenrusting", (0, 0, 2)));
    let said = player.consume_potion("ELIXIR");
    assert_eq!(player.hp(), 18);
    assert_eq!(player.backpack().len(), 2);
    assert_eq!(player.backpack()[0].name(), "A");
    assert_eq!(player.backpack()[1].name(), "B");
    assert_eq!(
        said,
        "Potion is consumed:\nItem Details:\nName: ELIXIR\nDescription: heals\nDetails: Potion has heals 8\nNew health: 18 \n"
    );
}

#[test]
fn consuming_what_is_no_potion_changes_nothing() {
    let weapon = make("SWORD", "SWORD", "wapen", (10, 10, 10));
    let mut player = Player::new("NAME", &weapon);
    player.fill_backpack(make("A", "first", "wapenrusting", (0, 0, 1)));
    player.fill_backpack(make("B", "last", "wapenrusting", (0, 0, 2)));
    assert_eq!(player.consume_potion("A"), "Item 'A' is not equippable.\n");
    assert_eq!(player.consume_potion("C"), "Item 'C' not found in backpack.\n");
    assert_eq!(player.hp(), 10);
    assert_eq!(player.backpack().len(), 2);
    assert_eq!(player.backpack()[0].name(), "A");
    assert_eq!(player.backpack()[1].name(), "B");
}

#[test]
fn wearing_the_axe_puts_the_sword_in_the_backpack() {
    let sword = make("Sword", "A sword", "wapen", (10, 10, 0));
    let mut player = Player::new("NAME", &sword);
    player.fill_backpack(make("Axe", "An axe", "wapen", (15, 15, 0)));
    let said = player.equip_item("Axe");
    assert_eq!(player.weapon().unwrap().name(), "Axe");
    assert_eq!(player.backpack().len(), 1);
    assert_eq!(player.backpack()[0].name(), "Sword");
    assert_eq!(
        said,
        "Switched out weapon.\nEquipping new weapon.\nItem Details:\nName: Axe\nDescription: An axe\nDetails: Weapon has damage range 15-15\n"
    );
}

fn count_items(player: &Player) -> usize {
    let mut count = player.backpack().len();
    if player.weapon().is_some() {
        count += 1;
    }
    if player.armor().is_some() {
        count += 1;
    }
    count
}

#[test]
fn equipping_keeps_the_number_of_items() {
    let sword = make("Sword", "A sword", "wapen", (10, 10, 0));
    let mut player = Player::new("NAME", &sword);
    player.fill_backpack(make("Axe", "An axe", "wapen", (15, 15, 0)));
    player.fill_backpack(make("Mail", "Mail", "wapenrusting", (0, 0, 2)));
    player.fill_backpack(make("Plate", "Plate", "wapenrusting", (0, 0, 5)));
    player.fill_backpack(make("Drink", "Drink", "levenselixer", (1, 1, 0)));
    assert_eq!(count_items(&player), 5);
    player.equip_item("Mail");
    assert_eq!(count_items(&player), 5);
    assert_eq!(player.armor().unwrap().name(), "Mail");
    player.equip_item("Plate");
    assert_eq!(count_items(&player), 5);
    assert_eq!(player.armor().unwrap().name(), "Plate");
    player.equip_item("Axe");
    assert_eq!(count_items(&player), 5);
    assert_eq!(player.equip_item("Drink"), "Item 'Drink' is not equippable.\n");
    assert_eq!(player.equip_item("Nothing"), "Item 'Nothing' not found in backpack.\n");
    assert_eq!(count_items(&player), 5);
    let names: Vec<&str> = player.backpack().iter().map(|item| item.name()).collect();
    assert_eq!(names, vec!["Drink", "Mail", "Sword"]);
}

#[test]
fn removal_looks_in_hand_then_on_body_then_in_backpack() {
    let sword = make("Thing", "in hand", "wapen", (1, 1, 0));
    let mut player = Player::new("NAME", &sword);
    player.fill_backpack(make("Thing", "armor", "wapenrusting", (0, 0, 2)));
    player.equip_item("Thing");
    player.fill_backpack(make("Thing", "in pack", "levenselixer", (1, 1, 0)));
    let first = player.remove_item("Thing");
    assert_eq!(first.0.unwrap().description(), "in hand");
    let second = player.remove_item("Thing");
    assert_eq!(second.0.unwrap().description(), "armor");
    assert_eq!(second.1, "Armor 'Thing' has been removed from your body.\n");
    let third = player.remove_item("Thing");
    assert_eq!(third.0.unwrap().description(), "in pack");
    assert_eq!(third.1, "Item 'Thing' has been removed from your backpack.\n");
    let fourth = player.remove_item("Thing");
    assert!(fourth.0.is_none());
    assert_eq!(fourth.1, "Item 'Thing' not found in weapon, armor, or backpack.\n");
}

#[test]
fn status_block_shows_everything() {
    let sword = make("Sword", "A \"fine\" sword", "wapen", (3, 10, 0));
    let mut player = Player::new("Hero", &sword);
    assert_eq!(
        player.show(),
        "Player Information:\n--------------------\nName:           Hero\nHP:             10\nGold:           0\nAttack Chance:  40%\nWeapon:         Item { base: GameObject { name: \"Sword\", description: \"A \\\"fine\\\" sword\" }, kind: Weapon(Weapon { minimum_damage: 3, maximum_damage: 10 }) }\nArmor:          None\nBackpack:       Empty\n--------------------\n"
    );
    player.fill_backpack(make("Mail", "Mail", "wapenrusting", (0, 0, 2)));
    player.fill_backpack(make("Drink", "Drink", "levenselixer", (4, 4, 0)));
    let shown = player.show();
    assert!(shown.contains(
        "Backpack:       Item { base: GameObject { name: \"Mail\", description: \"Mail\" }, kind: Armor(Armor { defense: 2 }) }, Item { base: GameObject { name: \"Drink\", description: \"Drink\" }, kind: Consumable(Consumable { heal_amount: 4 }) }\n"
    ));
}

#[test]
fn kind_reached_through_item() {
    let sword = make("Sword", "A sword", "wapen", (3, 10, 0));
    assert_eq!(
        *sword.kind(),
        GameObjectType::Weapon(game::objects::Weapon { minimum_damage: 3, maximum_damage: 10 })
    );
}
