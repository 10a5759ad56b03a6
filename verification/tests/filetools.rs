use lsmon::filetools::{is_whitespace_char, value_token};

fn like_std(contents: &str, index: usize) -> String {
    match contents.split_whitespace().nth(index) {
        Some(token) => token.to_string(),
        None => String::from("0"),
    }
}

#[test]
fn token_of_the_uptime_file() {
    assert_eq!(value_token("123.45 67.89", 0), "123.45");
    assert_eq!(value_token("123.45 67.89", 1), "67.89");
    assert_eq!(value_token("350735.47 234388.90\n", 1), "234388.90");
}

#[test]
fn tokens_are_separated_by_any_whitespace() {
    assert_eq!(value_token("1.5\t2.5", 0), "1.5");
    assert_eq!(value_token("1.5\t2.5", 1), "2.5");
    assert_eq!(value_token("1.5\n2.5\r\n3.5", 2), "3.5");
    assert_eq!(value_token("1\u{a0}2\u{2003}3\u{3000}4", 3), "4");
}

#[test]
fn tokens_are_separated_by_whitespace_of_any_length() {
    assert_eq!(value_token("1.5  2.5", 0), "1.5");
    assert_eq!(value_token("1.5  2.5", 1), "2.5");
    assert_eq!(value_token("a \t\n b", 1), "b");
    assert_eq!(value_token("a  b", 2), "0");
}

#[test]
fn whitespace_around_the_tokens_counts_for_nothing() {
    assert_eq!(value_token("  1 2  ", 0), "1");
    assert_eq!(value_token("  1 2  ", 1), "2");
    assert_eq!(value_token("  1 2  ", 2), "0");
    assert_eq!(value_token("\t 7\r\n", 0), "7");
}

#[test]
fn missing_token_is_zero() {
    assert_eq!(value_token("123.45 67.89", 2), "0");
    assert_eq!(value_token("123.45", 7), "0");
    assert_eq!(value_token("1 2", usize::MAX), "0");
}

#[test]
fn contents_without_a_token_give_zero() {
    assert_eq!(value_token("", 0), "0");
    assert_eq!(value_token("", 1), "0");
    assert_eq!(value_token(" ", 0), "0");
    assert_eq!(value_token("\n\t \u{2028}", 0), "0");
}

#[test]
fn token_holds_every_character_that_is_no_whitespace() {
    assert_eq!(value_token("z\u{e9}ro\u{feff} un", 0), "z\u{e9}ro\u{feff}");
    assert_eq!(value_token("\u{200b}0 \u{180e}1", 1), "\u{180e}1");
}

#[test]
fn token_agrees_with_split_whitespace() {
    let samples = [
        "",
        " ",
        "  ",
        "1",
        "1 2 3",
        " 1 2 3 ",
        "1.5\t2.5",
        "1.5  2.5",
        "350735.47 234388.90\n",
        "a\u{3000} \u{85}b\u{1680} c\u{feff}",
        "\u{2028}x\u{2029} \u{202f}y\u{205f}",
        "tab\tseparated\tvalues",
        "z\u{e9}ro un  deux\n\n",
        "\u{200b}0 \u{180e}1",
        "one\r\ntwo\r\nthree",
    ];
    for contents in samples.iter() {
        for index in 0..6 {
            assert_eq!(value_token(contents, index), like_std(contents, index));
        }
    }
}

#[test]
fn whitespace_agrees_with_std() {
    for code in 0u32..0x3100 {
        if let Some(c) = char::from_u32(code) {
            assert_eq!(is_whitespace_char(c), c.is_whitespace());
        }
    }
    assert!(!is_whitespace_char('\u{feff}'));
    assert!(!is_whitespace_char('\u{10ffff}'));
}
