use optipc::text::{
    chars_less, chars_of, contains_chars, decimal_string, double_quotes, lines_chars, parse_u32,
    parse_u64, same_text, split_chars, starts_with_chars, string_of, trim,
};

const SAMPLES: &[&str] = &[
    "",
    " ",
    "abc",
    "  padded\t",
    "\u{a0}nbsp\u{3000}",
    "\u{200b}zero width\u{200b}",
    "a|b|c|d|e|f",
    "|",
    "||",
    "line1\nline2\r\nline3\r",
    "\n",
    "\r\n\r\n",
    "x\n\ny\n",
    "+12",
    "-1",
    "007",
    "4294967295",
    "4294967296",
    "18446744073709551615",
    "18446744073709551616",
    "12a",
    "+",
    " 5",
    "ÉTÉ Ünïcödé",
];

#[test]
fn trim_agrees_with_std() {
    for s in SAMPLES {
        assert_eq!(trim(s), s.trim(), "input {:?}", s);
    }
}

#[test]
fn parse_agrees_with_std() {
    for s in SAMPLES {
        assert_eq!(parse_u32(s), s.parse::<u32>().ok(), "input {:?}", s);
        assert_eq!(parse_u64(s), s.parse::<u64>().ok(), "input {:?}", s);
    }
}

#[test]
fn parse_examples() {
    assert_eq!(parse_u32("42"), Some(42));
    assert_eq!(parse_u32("+7"), Some(7));
    assert_eq!(parse_u32("4294967295"), Some(u32::MAX));
    assert_eq!(parse_u32("4294967296"), None);
    assert_eq!(parse_u32(""), None);
    assert_eq!(parse_u32("-1"), None);
    assert_eq!(parse_u64("18446744073709551615"), Some(u64::MAX));
    assert_eq!(parse_u64("18446744073709551616"), None);
}

#[test]
fn split_agrees_with_std() {
    for s in SAMPLES {
        let cs = chars_of(s);
        for sep in ['|', '\n', ' ', ','] {
            let ours: Vec<String> = split_chars(&cs, sep, None).iter().map(|p| string_of(p)).collect();
            let theirs: Vec<String> = s.split(sep).map(|p| p.to_string()).collect();
            assert_eq!(ours, theirs, "split {:?} at {:?}", s, sep);
            for n in 1..6usize {
                let ours: Vec<String> = split_chars(&cs, sep, Some(n)).iter().map(|p| string_of(p)).collect();
                let theirs: Vec<String> = s.splitn(n, sep).map(|p| p.to_string()).collect();
                assert_eq!(ours, theirs, "splitn {} {:?} at {:?}", n, s, sep);
            }
        }
    }
}

#[test]
fn lines_agree_with_std() {
    for s in SAMPLES {
        let ours: Vec<String> = lines_chars(&chars_of(s)).iter().map(|l| string_of(l)).collect();
        let theirs: Vec<String> = s.lines().map(|l| l.to_string()).collect();
        assert_eq!(ours, theirs, "lines of {:?}", s);
    }
}

#[test]
fn order_agrees_with_std() {
    for a in SAMPLES {
        for b in SAMPLES {
            assert_eq!(chars_less(&chars_of(a), &chars_of(b)), a < b, "{:?} < {:?}", a, b);
            assert_eq!(same_text(a, b), a == b);
        }
    }
}

#[test]
fn search_agrees_with_std() {
    for a in SAMPLES {
        for b in SAMPLES {
            assert_eq!(contains_chars(&chars_of(a), &chars_of(b)), a.contains(b), "{:?} in {:?}", b, a);
            assert_eq!(starts_with_chars(&chars_of(a), &chars_of(b)), a.starts_with(b));
        }
    }
}

#[test]
fn decimal_agrees_with_std() {
    for n in [0u64, 1, 9, 10, 11, 99, 100, 12345, u32::MAX as u64, u64::MAX] {
        assert_eq!(decimal_string(n), n.to_string());
    }
}

#[test]
fn quotes_are_doubled() {
    assert_eq!(double_quotes("it's"), "it''s");
    assert_eq!(double_quotes("''"), "''''");
    assert_eq!(double_quotes("plain"), "plain");
    for s in SAMPLES {
        assert_eq!(double_quotes(s), s.replace('\'', "''"));
    }
}

#[test]
fn white_space_agrees_with_std() {
    for code in 0u32..0x3100 {
        if let Some(c) = char::from_u32(code) {
            assert_eq!(optipc::text::is_white_space_char(c), c.is_whitespace(), "{:?}", c);
        }
    }
}
