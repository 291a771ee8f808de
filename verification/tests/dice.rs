use game::dice::Dice;

#[test]
fn loaded_dice_give_what_they_are_loaded_with() {
    let dice = Dice::Loaded { hit: true, roll: 7 };
    assert!(dice.chance(40, 100));
    assert!(!dice.chance(0, 100));
    assert!(dice.chance(100, 100));
    let other = Dice::Loaded { hit: false, roll: 7 };
    assert!(!other.chance(40, 100));
    assert!(other.chance(3, 3));
    assert_eq!(dice.range(0, 10), 7);
    assert_eq!(dice.range(8, 10), 8);
    assert_eq!(dice.range(0, 5), 5);
    assert_eq!(dice.range(7, 7), 7);
    let items = vec!['a', 'b', 'c'];
    assert_eq!(dice.pick(&items), Some(&'c'));
    assert_eq!(Dice::Loaded { hit: true, roll: 1 }.pick(&items), Some(&'b'));
    assert_eq!(Dice::Loaded { hit: true, roll: 0 }.pick(&items), Some(&'a'));
    let none: Vec<char> = Vec::new();
    assert_eq!(dice.pick(&none), None);
}

#[test]
fn real_dice_stay_within_bounds() {
    let dice = Dice::Random;
    let mut seen = [false; 4];
    for _ in 0..400 {
        let roll = dice.range(3, 6);
        assert!(3 <= roll && roll <= 6);
        seen[(roll - 3) as usize] = true;
    }
    assert_eq!(seen, [true; 4]);
    assert_eq!(dice.range(9, 9), 9);
    assert_eq!(dice.range(4294967295, 4294967295), 4294967295);
}

#[test]
fn real_dice_respect_certain_chances() {
    let dice = Dice::Random;
    let mut hits = 0;
    for _ in 0..400 {
        assert!(!dice.chance(0, 7));
        assert!(dice.chance(7, 7));
        if dice.chance(1, 2) {
            hits += 1;
        }
    }
    assert!(0 < hits && hits < 400);
}

#[test]
fn real_dice_pick_among_the_items() {
    let dice = Dice::Random;
    let items = vec![10, 20, 30];
    let mut seen = [false; 3];
    for _ in 0..300 {
        let picked = *dice.pick(&items).unwrap();
        assert!(items.contains(&picked));
        seen[(picked / 10 - 1) as usize] = true;
    }
    assert_eq!(seen, [true; 3]);
    let none: Vec<u32> = Vec::new();
    assert_eq!(dice.pick(&none), None);
}
