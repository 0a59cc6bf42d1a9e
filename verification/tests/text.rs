use tmux_portal::text::{
    chars_of, decimal_text, find_from, lines, range_ends_with, spaces, split_at_char, string_of,
    strip_suffixes, trim_range,
};

#[test]
fn lines_are_those_of_the_standard_library() {
    let samples = [
        "",
        "\n",
        "one",
        "one\n",
        "one\ntwo",
        "one\r\ntwo\r\n",
        "one\r",
        "a\n\nb",
        "\r\n",
        "only\rcarriage",
        "work\n├── editor (active)\n└── server\n",
    ];
    for sample in samples {
        let expected: Vec<String> = sample.lines().map(String::from).collect();
        assert_eq!(lines(sample), expected, "{sample:?}");
    }
}

#[test]
fn split_is_that_of_the_standard_library() {
    let samples = ["", "|", "a|b|c", "a||", "{session}/src/{window}", "no separator"];
    for sample in samples {
        for sep in ['|', '/'] {
            let expected: Vec<String> = sample.split(sep).map(String::from).collect();
            assert_eq!(split_at_char(sample, sep), expected, "{sample:?}");
        }
    }
    assert_eq!(split_at_char("@1|vim|1", '|'), vec!["@1", "vim", "1"]);
}

#[test]
fn characters_and_ranges() {
    let v = chars_of("héllo wörld");
    assert_eq!(v.len(), 11);
    assert_eq!(string_of(&v, 0, 5), "héllo");
    assert_eq!(string_of(&v, 6, 11), "wörld");
    assert_eq!(string_of(&v, 3, 3), "");
    assert_eq!(find_from(&v, 'l', 0), 2);
    assert_eq!(find_from(&v, 'l', 4), 9);
    assert_eq!(find_from(&v, 'z', 0), 11);
}

#[test]
fn trimming_is_that_of_the_standard_library() {
    for sample in ["", "  ", " a b ", "\t\u{a0}x\u{2003}\n", "plain", "\u{3000}"] {
        let v = chars_of(sample);
        let (from, to) = trim_range(&v, 0, v.len());
        assert_eq!(string_of(&v, from, to), sample.trim(), "{sample:?}");
    }
    let v = chars_of("ab  cd  ef");
    assert_eq!(trim_range(&v, 2, 8), (4, 6));
}

#[test]
fn suffixes() {
    let v = chars_of("dev:attached:attached");
    let mark = chars_of(":attached");
    assert!(range_ends_with(&v, v.len(), &mark));
    assert!(!range_ends_with(&v, 5, &mark));
    assert_eq!(strip_suffixes(&v, &mark), 3);
    assert_eq!(strip_suffixes(&v, &chars_of("")), v.len());
    assert_eq!(strip_suffixes(&chars_of("dev:not_attached"), &mark), 16);
}

#[test]
fn decimal_numerals_and_blanks() {
    assert_eq!(decimal_text(0), "0");
    assert_eq!(decimal_text(7), "7");
    assert_eq!(decimal_text(10), "10");
    assert_eq!(decimal_text(1203), "1203");
    assert_eq!(decimal_text(u128::MAX), u128::MAX.to_string());
    assert_eq!(spaces(0), "");
    assert_eq!(spaces(3), "   ");
}

#[test]
fn white_space_is_that_of_the_standard_library() {
    for code in 0..=0x10ffffu32 {
        if let Some(c) = char::from_u32(code) {
            let text: String = [c, 'x', c].iter().collect();
            let v = chars_of(&text);
            let (from, to) = trim_range(&v, 0, v.len());
            assert_eq!((from, to) == (1, 2), c.is_whitespace(), "{code:x}");
        }
    }
}
