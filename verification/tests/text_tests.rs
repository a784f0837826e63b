use scanner_bridge::text::{
    clone_texts, contains_char, contains_str, decimal_string, digit_char, find_chars,
    from_chars, hex_digit_char, hex_string, holds_text, insert_text, matches_at_index, same_text,
    split_lines, starts_with_str, to_chars, trim_leading, trim_trailing,
};

fn chars(s: &str) -> Vec<char> {
    s.chars().collect()
}

#[test]
fn to_chars_keeps_order_and_unicode() {
    assert_eq!(to_chars("a\u{fc}b"), vec!['a', '\u{fc}', 'b']);
    assert_eq!(to_chars(""), Vec::<char>::new());
}

#[test]
fn from_chars_takes_the_range() {
    let v = chars("scanner");
    assert_eq!(from_chars(&v, 0, 4), "scan");
    assert_eq!(from_chars(&v, 4, 7), "ner");
    assert_eq!(from_chars(&v, 3, 3), "");
}

#[test]
fn matches_at_index_checks_bounds() {
    let hay = chars("abcabc");
    assert!(matches_at_index(&hay, &chars("abc"), 0));
    assert!(matches_at_index(&hay, &chars("abc"), 3));
    assert!(!matches_at_index(&hay, &chars("abc"), 1));
    assert!(!matches_at_index(&hay, &chars("abc"), 4));
    assert!(matches_at_index(&hay, &chars(""), 6));
    assert!(!matches_at_index(&hay, &chars(""), 7));
    assert!(!matches_at_index(&chars("ab"), &chars("abc"), 0));
}

#[test]
fn find_chars_reports_first_occurrence() {
    let hay = chars("<a>/eSCL/x</a>/eSCL/y<");
    assert_eq!(find_chars(&hay, &chars("/eSCL/"), 0), Some(3));
    assert_eq!(find_chars(&hay, &chars("/eSCL/"), 4), Some(14));
    assert_eq!(find_chars(&hay, &chars("/eSCL/"), 15), None);
    assert_eq!(find_chars(&hay, &chars("<"), 3), Some(10));
    assert_eq!(find_chars(&hay, &chars("missing"), 0), None);
    assert_eq!(find_chars(&chars("ab"), &chars("abc"), 0), None);
    assert_eq!(find_chars(&chars("ab"), &chars("b"), 5), None);
}

#[test]
fn contains_and_prefix() {
    assert!(contains_str("HP LaserJet", "Laser"));
    assert!(!contains_str("HP LaserJet", "laser"));
    assert!(contains_str("abc", ""));
    assert!(contains_char("fe80::1", ':'));
    assert!(!contains_char("192.168.1.1", ':'));
    assert!(starts_with_str("_uscans._tcp.local.", "_uscan"));
    assert!(!starts_with_str("_scanner._tcp.local.", "_uscan"));
    assert!(!starts_with_str("_u", "_uscan"));
}

#[test]
fn same_text_is_equality() {
    assert!(same_text("pdf", "pdf"));
    assert!(!same_text("pdf", "PDF"));
    assert!(!same_text("pdf", "pdfx"));
    assert!(!same_text("pdfx", "pdf"));
    assert!(same_text("", ""));
}

#[test]
fn trimming_removes_only_the_run() {
    assert_eq!(trim_leading("//eSCL/", '/'), "eSCL/");
    assert_eq!(trim_leading("eSCL", '/'), "eSCL");
    assert_eq!(trim_leading("///", '/'), "");
    assert_eq!(trim_trailing("http://host:4000//", '/'), "http://host:4000");
    assert_eq!(trim_trailing("http://host", '/'), "http://host");
    assert_eq!(trim_trailing("", '/'), "");
}

#[test]
fn digits_and_numbers() {
    assert_eq!(digit_char(0), '0');
    assert_eq!(digit_char(9), '9');
    assert_eq!(hex_digit_char(10), 'a');
    assert_eq!(hex_digit_char(15), 'f');
    assert_eq!(hex_digit_char(7), '7');
    assert_eq!(decimal_string(0), "0");
    assert_eq!(decimal_string(7), "7");
    assert_eq!(decimal_string(443), "443");
    assert_eq!(decimal_string(65535), "65535");
    assert_eq!(decimal_string(u64::MAX), "18446744073709551615");
}

#[test]
fn hex_string_is_lower_case_two_digits_per_byte() {
    assert_eq!(hex_string(&vec![]), "");
    assert_eq!(hex_string(&vec![0x00, 0x0f, 0xa0, 0xff]), "000fa0ff");
}

#[test]
fn split_lines_matches_line_feeds() {
    let lines: Vec<String> = split_lines("a\n\nb").iter().map(|l| l.iter().collect()).collect();
    assert_eq!(lines, vec!["a", "", "b"]);
    let lines: Vec<String> = split_lines("a\n").iter().map(|l| l.iter().collect()).collect();
    assert_eq!(lines, vec!["a"]);
    assert!(split_lines("").is_empty());
    let lines: Vec<String> = split_lines("\n").iter().map(|l| l.iter().collect()).collect();
    assert_eq!(lines, vec![""]);
}

#[test]
fn text_lists_behave_as_sets() {
    let mut list: Vec<String> = Vec::new();
    assert!(!holds_text(&list, "a"));
    insert_text(&mut list, "a".to_string());
    insert_text(&mut list, "b".to_string());
    insert_text(&mut list, "a".to_string());
    assert_eq!(list, vec!["a", "b"]);
    assert!(holds_text(&list, "a"));
    assert!(holds_text(&list, "b"));
    assert!(!holds_text(&list, "c"));
    assert_eq!(clone_texts(&list), list);
}
