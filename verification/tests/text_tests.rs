use rdp_wry::text::{push_decimal, str_equals, strip_all_occurrences};

#[test]
fn str_equals_compares_characters() {
    assert!(str_equals("down", "down"));
    assert!(!str_equals("down", "dow"));
    assert!(!str_equals("up", "Up"));
    assert!(str_equals("", ""));
    assert!(str_equals("é", "é"));
}

#[test]
fn strip_matches_std_replace() {
    let cases = [
        ("app://internal/main.html", "app://"),
        ("internal/main.html", "app://"),
        ("apapp://p://x", "app://"),
        ("app://app://internal/main.js", "app://"),
        ("xapp://yapp:/", "app://"),
        ("", "app://"),
        ("aaaa", "aa"),
        ("aaa", "aa"),
        ("héllo wörld", "ö"),
    ];
    for (s, pat) in cases.iter() {
        assert_eq!(strip_all_occurrences(s, pat), s.replace(pat, ""), "{} without {}", s, pat);
    }
}

#[test]
fn strip_without_pattern_is_identity() {
    assert_eq!(strip_all_occurrences("internal/main.html", "app://"), "internal/main.html");
}

#[test]
fn decimal_matches_to_string() {
    for n in [0u32, 7, 9, 10, 99, 100, 8080, 65535, 4_294_967_295] {
        let mut s = String::from("port ");
        push_decimal(&mut s, n);
        assert_eq!(s, format!("port {}", n));
    }
}

#[test]
fn decimal_round_trip() {
    for n in [0u32, 1, 42, 1234, 65535] {
        let mut s = String::new();
        push_decimal(&mut s, n);
        assert_eq!(s.parse::<u32>().unwrap(), n);
        assert!(!s.is_empty());
    }
}
