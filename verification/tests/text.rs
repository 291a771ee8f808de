use game::name_generator::NameGenerator;
use game::text::decimal_text;
use game::text::is_whitespace;
use game::text::join_words;
use game::text::same_text;
use game::text::split_words;

#[test]
fn goblins_get_numbers() {
    let mut names = NameGenerator::new();
    assert_eq!(names.generate_name("Goblin"), "Goblin");
    assert_eq!(names.generate_name("Goblin"), "Goblin2");
    assert_eq!(names.generate_name("Goblin"), "Goblin3");
    assert_eq!(names.generate_name("Orc"), "Orc");
    assert_eq!(names.generate_name("Goblin"), "Goblin4");
    assert_eq!(names.generate_name("Orc"), "Orc2");
    assert_eq!(names.generate_name(""), "");
    assert_eq!(names.generate_name(""), "2");
    assert!(names.has_room("Goblin"));
    for _ in 0..8 {
        names.generate_name("Orc");
    }
    assert_eq!(names.generate_name("Orc"), "Orc11");
}

#[test]
fn numbers_in_decimal() {
    assert_eq!(decimal_text(0), "0");
    assert_eq!(decimal_text(7), "7");
    assert_eq!(decimal_text(10), "10");
    assert_eq!(decimal_text(1234567890), "1234567890");
    assert_eq!(decimal_text(4294967295), "4294967295");
    for n in [1u32, 9, 11, 99, 100, 101, 65535, 65536, 999999] {
        assert_eq!(decimal_text(n), n.to_string());
    }
}

#[test]
fn words_of_a_line() {
    assert_eq!(split_words("Take the sword"), vec!["Take", "the", "sword"]);
    assert_eq!(split_words("  Take \t the\n sword  "), vec!["Take", "the", "sword"]);
    assert_eq!(split_words(""), Vec::<&str>::new());
    assert_eq!(split_words("   "), Vec::<&str>::new());
    assert_eq!(split_words("x"), vec!["x"]);
    assert_eq!(split_words("\u{a0}caf\u{e9}\u{3000}au\u{2003}lait"), vec!["caf\u{e9}", "au", "lait"]);
    for line in ["a b", " a  b ", "Go   North", "\tHit Big  Bad Wolf\r\n", "\u{1680}x\u{2028}y"] {
        let expected: Vec<&str> = line.split_whitespace().collect();
        assert_eq!(split_words(line), expected);
    }
}

#[test]
fn white_space_is_what_the_language_calls_so() {
    for code in 0..0x3100u32 {
        if let Some(c) = char::from_u32(code) {
            assert_eq!(is_whitespace(c), c.is_whitespace());
        }
    }
}

#[test]
fn words_joined_with_single_spaces() {
    let parts = vec!["Take", "the", "big", "sword"];
    assert_eq!(join_words(&parts, 1), "the big sword");
    assert_eq!(join_words(&parts, 0), "Take the big sword");
    assert_eq!(join_words(&parts, 3), "sword");
    assert_eq!(join_words(&parts, 4), "");
    assert_eq!(join_words(&parts, 9), "");
}

#[test]
fn same_text_compares_letter_for_letter() {
    assert!(same_text("Help", "Help"));
    assert!(!same_text("Help", "help"));
    assert!(!same_text("Help", "Help "));
    assert!(same_text("", ""));
}
