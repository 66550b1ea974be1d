use tvault_bridge::decimal::{decimal_u8, parse_byte};
use tvault_bridge::entropy::{EntropyCounter, EntropyStep, TARGET_BITS};
use tvault_bridge::text::{
    chars_of, first_index, join_texts, last_index, split_lines, starts_with, str_eq, trim,
    white_space, with_prefix,
};

fn chars(s: &str) -> Vec<char> {
    s.chars().collect()
}

#[test]
fn str_eq_compares_characters() {
    assert!(str_eq("share", "share"));
    assert!(!str_eq("share", "shard"));
    assert!(!str_eq("share", "shares"));
    assert!(!str_eq("", "x"));
    assert!(str_eq("", ""));
    assert!(str_eq("ключ", "ключ"));
    assert!(!str_eq("ключ", "ключи"));
}

#[test]
fn chars_of_lists_the_characters() {
    assert_eq!(chars_of(""), Vec::<char>::new());
    assert_eq!(chars_of("a{é}"), vec!['a', '{', 'é', '}']);
}

#[test]
fn concat_appends() {
    assert_eq!(with_prefix("-name=", "Box"), "-name=Box");
    assert_eq!(with_prefix("", ""), "");
    assert_eq!(with_prefix("-flag=", ""), "-flag=");
}

#[test]
fn join_texts_puts_the_separator_between() {
    let list = vec!["a".to_string(), "".to_string(), "c".to_string()];
    assert_eq!(join_texts(&list, "\n"), "a\n\nc");
    assert_eq!(join_texts(&list, "|"), list.join("|"));
    assert_eq!(join_texts(&vec!["only".to_string()], "|"), "only");
    assert_eq!(join_texts(&Vec::new(), "|"), "");
}

#[test]
fn split_lines_agrees_with_the_standard_library() {
    for text in [
        "", "a", "a\n", "a\nb", "a\nb\n", "\n", "\n\n", "a\r\nb\r\n", "a\rb\n", "a\r", "\r\n",
        "\r", "a\n\nb", "a\r\r\n", "é\nü\r\n{", "\n\r", " \n ",
    ] {
        let expected: Vec<&str> = text.lines().collect();
        assert_eq!(split_lines(text), expected, "text {text:?}");
    }
}

#[test]
fn split_lines_drops_line_endings_only() {
    assert_eq!(split_lines("{\"a\":1}\n{\"b\":2}\n"), vec!["{\"a\":1}", "{\"b\":2}"]);
    assert_eq!(split_lines("one\r\n\r\nthree"), vec!["one", "", "three"]);
    assert_eq!(split_lines("\r\r\n"), vec!["\r"]);
    assert_eq!(split_lines(""), Vec::<String>::new());
}

#[test]
fn index_search_finds_both_ends() {
    let text = chars("a{b}{c}");
    assert_eq!(first_index(&text, '{'), Some(1));
    assert_eq!(last_index(&text, '{'), Some(4));
    assert_eq!(first_index(&text, '}'), Some(3));
    assert_eq!(last_index(&text, '}'), Some(6));
    assert_eq!(first_index(&text, 'z'), None);
    assert_eq!(last_index(&text, 'z'), None);
    assert_eq!(first_index(&[], '{'), None);
    assert_eq!(last_index(&[], '}'), None);
}

#[test]
fn starts_with_tests_a_prefix() {
    assert!(starts_with(&chars("PROGRESS 5"), &chars("PROGRESS ")));
    assert!(starts_with(&chars("abc"), &chars("")));
    assert!(starts_with(&chars("abc"), &chars("abc")));
    assert!(!starts_with(&chars("ab"), &chars("abc")));
    assert!(!starts_with(&chars("xbc"), &chars("abc")));
}

#[test]
fn white_space_agrees_with_the_standard_library() {
    for code in 0..=0x10FFFFu32 {
        if let Some(c) = char::from_u32(code) {
            assert_eq!(white_space(c), c.is_whitespace(), "U+{code:04X}");
        }
    }
}

#[test]
fn trim_agrees_with_the_standard_library() {
    for text in ["", " ", "a", "  a b  ", "\t\r\n x\u{3000}", "\u{a0}\u{2003}", "x ", " x", "\u{200b} "] {
        let all = chars(text);
        let got: String = trim(&all).iter().collect();
        assert_eq!(got, text.trim(), "text {text:?}");
    }
}

#[test]
fn parse_byte_agrees_with_the_standard_library() {
    let mut samples: Vec<String> = (0..400u32).map(|n| n.to_string()).collect();
    for s in [
        "", "+", "-", "+0", "+255", "+256", "-0", "-1", "00", "0255", "0256", "000000000000000000001",
        "99999999999999999999", "1a", "a1", "1 ", " 1", "1_0", "٣", "1.0", "0x10", "++1", "+-1",
    ] {
        samples.push(s.to_string());
    }
    for sample in samples {
        assert_eq!(parse_byte(&chars(&sample)), sample.parse::<u8>().ok(), "text {sample:?}");
    }
}

#[test]
fn parse_byte_reads_exact_values() {
    assert_eq!(parse_byte(&chars("12")), Some(12));
    assert_eq!(parse_byte(&chars("+255")), Some(255));
    assert_eq!(parse_byte(&chars("0")), Some(0));
    assert_eq!(parse_byte(&chars("256")), None);
    assert_eq!(parse_byte(&chars("")), None);
}

#[test]
fn decimal_u8_agrees_with_the_standard_library() {
    for n in 0..=u8::MAX {
        assert_eq!(decimal_u8(n), n.to_string());
    }
}

#[test]
fn entropy_counter_reports_half_a_bit_per_byte() {
    let mut counter = EntropyCounter::new();
    assert_eq!(counter.credit(0), EntropyStep { reported: 0, ready: false });
    assert_eq!(counter.credit(1), EntropyStep { reported: 0, ready: false });
    assert_eq!(counter.credit(3), EntropyStep { reported: 1, ready: false });
    assert_eq!(counter.credit(100), EntropyStep { reported: 51, ready: false });
    assert_eq!(counter.credit(920), EntropyStep { reported: 511, ready: false });
}

#[test]
fn entropy_counter_starts_over_at_the_target() {
    assert_eq!(TARGET_BITS, 512);
    let mut counter = EntropyCounter::new();
    assert_eq!(counter.credit(1022), EntropyStep { reported: 511, ready: false });
    assert_eq!(counter.credit(2), EntropyStep { reported: 512, ready: true });
    assert_eq!(counter.credit(2), EntropyStep { reported: 1, ready: false });
    assert_eq!(counter.credit(u32::MAX), EntropyStep { reported: 512, ready: true });
    assert_eq!(counter.credit(1024), EntropyStep { reported: 512, ready: true });
    assert_eq!(counter.credit(0), EntropyStep { reported: 0, ready: false });
}
