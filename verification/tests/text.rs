use warrior4_appliance::text::{
    chars_of, decimal_text, get_last_line, is_space_char, join, parse_u32, replace_all, same_text,
    trim,
};

#[test]
fn chars_of_keeps_every_character() {
    assert_eq!(chars_of("a\u{e9}z"), vec!['a', '\u{e9}', 'z']);
    assert_eq!(chars_of(""), Vec::<char>::new());
}

#[test]
fn same_text_compares_characters() {
    assert!(same_text("running", "running"));
    assert!(!same_text("running", "Running"));
    assert!(!same_text("", " "));
}

#[test]
fn decimal_text_matches_std() {
    for n in [0u64, 1, 9, 10, 59, 60, 100, 3600, 30720, u64::MAX] {
        assert_eq!(decimal_text(n), n.to_string());
    }
}

#[test]
fn replace_all_matches_std_for_the_placeholder() {
    let cases = [
        ("Go to http://{ETH0_IP_ADDRESS}:8001/", "{ETH0_IP_ADDRESS}", "10.0.2.15"),
        ("{X}{X}", "{X}", "ab"),
        ("no placeholder", "{X}", "ab"),
        ("", "{X}", "ab"),
        ("aaa", "aa", "b"),
        ("{X", "{X}", "ab"),
        ("\u{e9}{X}\u{e9}", "{X}", "\u{fc}"),
        ("trailing {X}", "{X}", ""),
    ];
    for (text, pattern, with) in cases {
        assert_eq!(replace_all(text, pattern, with), text.replace(pattern, with));
    }
}

#[test]
fn replace_all_leaves_text_alone_for_an_empty_pattern() {
    assert_eq!(replace_all("abc", "", "-"), "abc");
}

#[test]
fn trim_matches_std() {
    for text in ["", " ", "running\n", "\t exited \r\n", "a b", "\u{a0}x\u{2003}", "\u{3000}"] {
        assert_eq!(trim(text), text.trim());
    }
}

#[test]
fn parse_u32_matches_std() {
    for text in [
        "0", "1", "124", "125", "137", "255", "+7", "007", "4294967295", "4294967296",
        "99999999999999999999", "", "+", "-1", "1 ", " 1", "12a", "\u{663}", "++1",
    ] {
        assert_eq!(parse_u32(text), text.parse::<u32>().ok(), "{:?}", text);
    }
}

#[test]
fn get_last_line_matches_std() {
    for text in [
        "", "one", "one\n", "one\ntwo", "one\ntwo\n", "one\r\n", "one\r", "one\n\n", "\n",
        "one\n\r\n", "x\r\r\n", "pull 1/3\npull 2/3\npull 3/3", "\u{e9}\n\u{fc}",
    ] {
        let expected = text.lines().last().unwrap_or_default().to_string();
        assert_eq!(get_last_line(text), expected, "{:?}", text);
    }
}

#[test]
fn join_puts_the_separator_between_neighbours() {
    let none: Vec<String> = vec![];
    assert_eq!(join(&none, ", "), "");
    assert_eq!(join(&vec!["10.0.2.15".to_string()], ", "), "10.0.2.15");
    assert_eq!(
        join(&vec!["10.0.2.15".to_string(), "fe80::1".to_string()], ", "),
        "10.0.2.15, fe80::1"
    );
}

#[test]
fn white_space_is_what_std_calls_white_space() {
    for code in 0..=0x10ffffu32 {
        if let Some(c) = char::from_u32(code) {
            assert_eq!(is_space_char(c), c.is_whitespace(), "{:x}", code);
        }
    }
}
