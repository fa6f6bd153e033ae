use my_rust_course::text::{
    chars_of, debug_i32s, debug_u8s, decimal, is_blank, join_spaced, parse_i32_chars, parse_id_str,
    push_aligned, str_equal, trim_chars, Align,
};

#[test]
fn decimal_matches_display() {
    for n in [0i64, 7, 10, 42, -1, -10, 1234567890, i64::MAX, i64::MIN] {
        assert_eq!(decimal(n), n.to_string());
    }
}

#[test]
fn parse_matches_std() {
    for s in [
        "0", "42", "+7", "-7", "007", "-2147483648", "2147483647", "2147483648", "-2147483649",
        "", "+", "-", "12a", " 1", "1 ", "99999999999999999999", "٣",
    ] {
        let cs = chars_of(s);
        assert_eq!(parse_i32_chars(&cs), s.parse::<i32>().ok(), "input {:?}", s);
    }
}

#[test]
fn id_is_trimmed_then_parsed() {
    for s in [" 42 ", "\t-3\n", "\u{3000}5\u{a0}", "  ", "", "x", " 1 2 "] {
        assert_eq!(parse_id_str(s), s.trim().parse::<i32>().ok(), "input {:?}", s);
    }
}

#[test]
fn ids_read_back() {
    for n in [0i32, 1, -1, 17, i32::MAX, i32::MIN] {
        assert_eq!(parse_id_str(&decimal(n as i64)), Some(n));
    }
}

#[test]
fn trim_matches_std() {
    for s in ["", "  ", " a ", "\u{2003}b c\u{2028}", "abc", "\u{85}x\u{85}"] {
        let t: String = trim_chars(&chars_of(s)).into_iter().collect();
        assert_eq!(t, s.trim());
    }
}

#[test]
fn blank_titles() {
    assert!(is_blank(""));
    assert!(is_blank(" \t\n"));
    assert!(!is_blank(" a "));
}

#[test]
fn string_equality() {
    assert!(str_equal("Data", "Data"));
    assert!(!str_equal("Data", "data"));
    assert!(!str_equal("Data", "Dat"));
}

#[test]
fn debug_lists() {
    assert_eq!(debug_i32s(&vec![5, -1, 4]), format!("{:?}", vec![5, -1, 4]));
    assert_eq!(debug_i32s(&vec![]), "[]");
    assert_eq!(debug_u8s(&vec![72, 101]), "[72, 101]");
    assert_eq!(join_spaced(&vec![11, 22, 33]), "11 22 33");
}

#[test]
fn alignment_matches_format() {
    let mut s = String::new();
    push_aligned(&mut s, "7", 4, Align::Right);
    assert_eq!(s, format!("{:>4}", "7"));
    let mut s = String::new();
    push_aligned(&mut s, "✅", 5, Align::Center);
    assert_eq!(s, format!("{:^5}", "✅"));
    let mut s = String::new();
    push_aligned(&mut s, "ab", 7, Align::Center);
    assert_eq!(s, format!("{:^7}", "ab"));
    let mut s = String::new();
    push_aligned(&mut s, "title", 10, Align::Left);
    assert_eq!(s, format!("{:<10}", "title"));
    let mut s = String::new();
    push_aligned(&mut s, "a long title here", 10, Align::Left);
    assert_eq!(s, "a long title here");
}
