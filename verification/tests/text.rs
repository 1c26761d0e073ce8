use zfs_nixos_setup::decimal::{format_decimal, parse_u64};
use zfs_nixos_setup::text::{
    char_is_whitespace, chars_of, first_word_of, join2, join3, lines, same_text,
    spaces_to_underscores, take_chars, text_contains, trim, words,
};

#[test]
fn whitespace_is_what_std_calls_whitespace() {
    let mut code: u32 = 0;
    while code <= 0x10FFFF {
        if let Some(c) = char::from_u32(code) {
            assert_eq!(char_is_whitespace(c), c.is_whitespace(), "U+{:04X}", code);
        }
        code += 1;
    }
}

#[test]
fn trim_agrees_with_std() {
    let samples = [
        "",
        " ",
        "\n",
        "abc",
        "  abc",
        "abc  ",
        " \t abc def \r\n",
        "\u{3000}x\u{2003}",
        "a b",
        "\u{85}\u{a0}serial\u{1680}",
        "   \t\n  ",
    ];
    for s in samples {
        assert_eq!(trim(s), s.trim(), "{:?}", s);
    }
}

#[test]
fn trim_keeps_inner_whitespace() {
    assert_eq!(trim("  WD  Blue \n"), "WD  Blue");
}

#[test]
fn contains_agrees_with_std() {
    let hays = ["", "a", "laptop", "Notebook", "/dev/sda3 part", "swapswap", "aab", "abab"];
    let needles = ["", "a", "ab", "part", "swap", "laptop", "b", "aab", "bab", "abc"];
    for h in hays {
        for n in needles {
            assert_eq!(text_contains(h, n), h.contains(n), "{:?} in {:?}", n, h);
        }
    }
}

#[test]
fn lines_agree_with_std() {
    let samples = [
        "",
        "\n",
        "a",
        "a\n",
        "a\nb",
        "a\r\nb\r\n",
        "a\r",
        "\r\n",
        "a\n\nb",
        "/dev/sda disk\n/dev/sda1 part\n/dev/sda2 part\n",
        "x\r\r\ny",
        "\n\n",
    ];
    for s in samples {
        let expected: Vec<String> = s.lines().map(|l| l.to_string()).collect();
        assert_eq!(lines(s), expected, "{:?}", s);
    }
}

#[test]
fn first_word_agrees_with_split_whitespace() {
    let samples = ["", "   ", "/dev/sda3 part", "  /dev/sda3\tpart", "one", "one ", "\u{3000}a b"];
    for s in samples {
        let expected = s.split_whitespace().next().unwrap_or_default();
        assert_eq!(first_word_of(s), expected, "{:?}", s);
    }
}

#[test]
fn spaces_become_underscores() {
    assert_eq!(spaces_to_underscores("WD Blue 1TB"), "WD_Blue_1TB");
    assert_eq!(spaces_to_underscores(""), "");
    assert_eq!(spaces_to_underscores("a\tb"), "a\tb");
}

#[test]
fn take_chars_counts_characters() {
    assert_eq!(take_chars("0123456789", 8), "01234567");
    assert_eq!(take_chars("abc", 8), "abc");
    assert_eq!(take_chars("", 8), "");
    assert_eq!(take_chars("äöüß", 2), "äö");
}

#[test]
fn chars_and_joins() {
    assert_eq!(chars_of("aß"), vec!['a', 'ß']);
    assert_eq!(join2("/dev/sda", "1"), "/dev/sda1");
    assert_eq!(join3("a", ":", "b"), "a:b");
    assert_eq!(words(&["a", "b"]), vec!["a".to_string(), "b".to_string()]);
    assert!(same_text("YES", "YES"));
    assert!(!same_text("YES", "yes"));
    assert!(!same_text("YES", "YES "));
}

#[test]
fn parse_agrees_with_std() {
    let samples = [
        "",
        "0",
        "512",
        "4096",
        "+7",
        "+",
        "-1",
        "007",
        "12a",
        " 12",
        "12 ",
        "18446744073709551615",
        "18446744073709551616",
        "99999999999999999999999",
        "1_000",
        "１２",
        "0x10",
    ];
    for s in samples {
        assert_eq!(parse_u64(s), s.parse::<u64>().ok(), "{:?}", s);
    }
}

#[test]
fn parse_gives_exact_values() {
    assert_eq!(parse_u64("500107862016"), Some(500107862016));
    assert_eq!(parse_u64("18446744073709551615"), Some(u64::MAX));
    assert_eq!(parse_u64("18446744073709551616"), None);
    assert_eq!(parse_u64(""), None);
}

#[test]
fn format_agrees_with_std() {
    let samples: [u128; 8] = [0, 1, 9, 10, 99, 100, 4294967295, u128::MAX];
    for n in samples {
        assert_eq!(format_decimal(n), n.to_string());
    }
}

#[test]
fn format_then_parse_gives_the_number_back() {
    let samples: [u64; 6] = [0, 5, 10, 512, 976773168, u64::MAX];
    for n in samples {
        assert_eq!(parse_u64(&format_decimal(n as u128)), Some(n));
    }
}
