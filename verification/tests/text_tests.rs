use ticket_to_ride::decimal::{decimal_chars, is_all_digits, parse_u64};
use ticket_to_ride::lines::{is_space, lines_of, trimmed};
use ticket_to_ride::github::projects::{find_matching_project, ProjectNode};
use ticket_to_ride::text::{
    chars_of, contains, copy_option, copy_strings, find, join_chars, join_strings, quote_list,
    same_text, string_of,
};

fn chars(s: &str) -> Vec<char> {
    s.chars().collect()
}

#[test]
fn strings_and_characters_convert_both_ways() {
    for s in ["", "abc", "héllo wörld", "日本語\n"] {
        assert_eq!(chars_of(s), chars(s));
        assert_eq!(string_of(&chars(s)), s);
    }
}

#[test]
fn find_gives_the_leftmost_occurrence() {
    assert_eq!(find(&chars("abcabc"), &chars("bc")), Some(1));
    assert_eq!(find(&chars("abcabc"), &chars("")), Some(0));
    assert_eq!(find(&chars(""), &chars("")), Some(0));
    assert_eq!(find(&chars("abc"), &chars("abcd")), None);
    assert_eq!(find(&chars("aaab"), &chars("aab")), Some(1));
    assert_eq!(find(&chars("héllo"), &chars("llo")), Some(2));
    assert!(contains("rate limit exceeded", "rate limit"));
    assert!(!contains("rate", "rate limit"));
    assert!(same_text("ab", "ab"));
    assert!(!same_text("ab", "abc"));
    assert!(!same_text("ab", "ac"));
}

fn titled(title: &str) -> Vec<ProjectNode> {
    vec![ProjectNode { id: "PVT".to_string(), title: title.to_string(), number: 1 }]
}

#[test]
fn case_is_ignored_as_std_lowers_it() {
    for (upper, lower) in [
        ("ABC", "abc"),
        ("TTR Roadmap", "ttr roadmap"),
        ("ÀÉÎ", "àéî"),
        ("ΣΑΣ", "σας"),
        ("123", "123"),
    ] {
        assert_eq!(upper.to_lowercase(), lower);
        assert!(find_matching_project(&titled(upper), lower, None).is_some(), "{:?}", upper);
        assert!(find_matching_project(&titled(lower), upper, None).is_some(), "{:?}", upper);
    }
    assert!(find_matching_project(&titled("Bug"), "Bugs", None).is_none());
    assert!(find_matching_project(&titled("straße"), "STRASSE", None).is_none());
}

#[test]
fn quoting_is_that_of_std() {
    for s in ["bug", "with \"quotes\"", "line\nfeed", "tab\t", "back\\slash", "é", "\u{1}"] {
        assert_eq!(quote_list(&[s.to_string()]), format!("{:?}", vec![s]));
    }
    let items = vec!["a".to_string(), "b\"c".to_string()];
    assert_eq!(quote_list(&items), format!("{:?}", items));
    assert_eq!(quote_list(&[]), "[]");
}

#[test]
fn joining_puts_the_separator_between_neighbours() {
    let parts = vec!["a".to_string(), "".to_string(), "c".to_string()];
    assert_eq!(join_strings(&parts, ", "), "a, , c");
    assert_eq!(join_strings(&vec![], ", "), "");
    assert_eq!(join_strings(&vec!["x".to_string()], ", "), "x");
    let lines = vec![chars("a"), chars(""), chars("c")];
    assert_eq!(string_of(&join_chars(&lines, "\n")), "a\n\nc");
    assert_eq!(copy_strings(&parts), parts);
    assert_eq!(copy_option(&Some("x".to_string())), Some("x".to_string()));
    assert_eq!(copy_option(&None), None);
}

#[test]
fn decimal_notation_is_that_of_std() {
    for n in [0u64, 7, 10, 99, 100, 1234567890, u64::MAX] {
        assert_eq!(string_of(&decimal_chars(n)), n.to_string());
        assert_eq!(parse_u64(&chars(&n.to_string())), Some(n));
    }
    assert_eq!(parse_u64(&chars("")), None);
    assert_eq!(parse_u64(&chars("+1")), None);
    assert_eq!(parse_u64(&chars("1a")), None);
    assert_eq!(parse_u64(&chars("00000000000000000000000000001")), Some(1));
    assert_eq!(parse_u64(&chars("18446744073709551616")), None);
    assert_eq!(parse_u64(&chars("١٢")), None);
    assert!(is_all_digits(&chars("0123456789")));
    assert!(!is_all_digits(&chars("")));
    assert!(!is_all_digits(&chars("12 ")));
}

#[test]
fn white_space_is_that_of_std() {
    let mut c = 0u32;
    while c <= 0x3100 {
        if let Some(ch) = char::from_u32(c) {
            assert_eq!(is_space(ch), ch.is_whitespace(), "U+{:04X}", c);
        }
        c += 1;
    }
    for s in ["", "  a b  ", "\t\n x \r\n", "\u{a0}x\u{3000}", "   ", "x"] {
        assert_eq!(string_of(&trimmed(&chars(s))), s.trim());
    }
}

#[test]
fn lines_are_those_of_std() {
    for s in ["", "a", "a\n", "a\nb", "a\r\nb\r\n", "a\rb", "a\r", "\n", "\n\n", "\r\n", "a\n\nb\n", "a\r\r\nb"] {
        let got: Vec<String> = lines_of(&chars(s)).iter().map(|l| string_of(l)).collect();
        let want: Vec<String> = s.lines().map(|l| l.to_string()).collect();
        assert_eq!(got, want, "{:?}", s);
    }
}
