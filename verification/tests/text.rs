use wifimanager::text::{
    chars_of, lines, parse_signed, read_rows, split_chars, string_from, string_of, trim,
};

fn chars(s: &str) -> Vec<char> {
    s.chars().collect()
}

fn strings(pieces: Vec<Vec<char>>) -> Vec<String> {
    pieces.into_iter().map(|p| p.into_iter().collect()).collect()
}

#[test]
fn characters_round_trip() {
    assert_eq!(chars_of("né:t"), vec!['n', 'é', ':', 't']);
    assert_eq!(string_from(&chars("né:t")), "né:t");
    assert_eq!(string_of(&chars("abcdef"), 2, 4), "cd");
    assert_eq!(string_of(&chars("abcdef"), 3, 3), "");
}

#[test]
fn split_keeps_empty_pieces() {
    assert_eq!(strings(split_chars(&chars("a:b"), ':')), vec!["a", "b"]);
    assert_eq!(strings(split_chars(&chars(""), ':')), vec![""]);
    assert_eq!(strings(split_chars(&chars("a:"), ':')), vec!["a", ""]);
    assert_eq!(strings(split_chars(&chars("::"), ':')), vec!["", "", ""]);
    assert_eq!(strings(split_chars(&chars("abc"), ':')), vec!["abc"]);
}

#[test]
fn lines_agree_with_the_standard_library() {
    for text in ["", "\n", "a", "a\n", "a\nb", "a\r\nb\r\n", "a\r", "a\n\nb\n\n", "\r\n", "x\r\r\ny"] {
        let expected: Vec<String> = text.lines().map(|l| l.to_string()).collect();
        assert_eq!(strings(lines(&chars(text))), expected);
    }
}

#[test]
fn rows_split_each_line() {
    let rows = read_rows("a:b\n\nc", ':');
    assert_eq!(rows.len(), 3);
    assert_eq!(strings(rows[0].clone()), vec!["a", "b"]);
    assert_eq!(strings(rows[1].clone()), vec![""]);
    assert_eq!(strings(rows[2].clone()), vec!["c"]);
}

#[test]
fn numbers_agree_with_the_standard_library() {
    for text in [
        "0", "-0", "+0", "7", "-45", "+45", "0045", "2147483647", "2147483648", "-2147483648",
        "-2147483649", "99999999999999999999", "", "-", "+", "--1", "1-", " 1", "1 ", "1.5", "0x10",
        "１２",
    ] {
        assert_eq!(parse_signed(&chars(text)), text.parse::<i32>().ok());
    }
}

#[test]
fn trim_agrees_with_the_standard_library() {
    for text in ["", " ", "a", "  a b \t\n", "\u{a0}x\u{3000}", "\u{2003}\u{85}", "x\u{200b}"] {
        let got: String = trim(&chars(text)).into_iter().collect();
        assert_eq!(got, text.trim());
    }
}
