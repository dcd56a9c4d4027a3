use rusant::text::{decimal_string, parse_i32_text, split_once_colon, text_contains};

#[test]
fn decimal_text_of_numbers() {
    assert_eq!(decimal_string(0), "0");
    assert_eq!(decimal_string(7), "7");
    assert_eq!(decimal_string(5200), "5200");
    assert_eq!(decimal_string(-15), "-15");
    assert_eq!(decimal_string(i32::MAX), "2147483647");
    assert_eq!(decimal_string(i32::MIN), "-2147483648");
}

#[test]
fn parsing_matches_std() {
    for text in [
        "5000", "+12", "-0", "0042", "", "-", "+", "12a", "a12", " 1", "2147483647", "2147483648",
        "-2147483648", "-2147483649", "99999999999999999999", "١٢", "+-1",
    ] {
        assert_eq!(parse_i32_text(text), text.parse::<i32>().ok(), "text {:?}", text);
    }
}

#[test]
fn parsing_round_trips_decimal_text() {
    for n in [0, 1, -1, 9, 10, 65535, -65536, i32::MAX, i32::MIN] {
        assert_eq!(parse_i32_text(&decimal_string(n)), Some(n));
    }
}

#[test]
fn split_at_first_colon() {
    assert_eq!(
        split_once_colon("10.0.0.2:5200"),
        Some((String::from("10.0.0.2"), String::from("5200")))
    );
    assert_eq!(split_once_colon("a:b:c"), Some((String::from("a"), String::from("b:c"))));
    assert_eq!(split_once_colon(":"), Some((String::new(), String::new())));
    assert_eq!(split_once_colon("no colon"), None);
}

#[test]
fn contains_finds_parts() {
    assert!(text_contains("felicitas", "lic"));
    assert!(text_contains("felicitas", ""));
    assert!(text_contains("", ""));
    assert!(!text_contains("jakob", "kobe"));
    assert!(!text_contains("ab", "abc"));
}

#[test]
fn split_and_contains_match_std() {
    for text in ["", ":", "a:", ":b", "host:1:2", "no colon", "ü:ö"] {
        let ours = split_once_colon(text);
        let std = text.split_once(':').map(|(a, b)| (a.to_string(), b.to_string()));
        assert_eq!(ours, std, "text {:?}", text);
        for needle in ["", ":", "o", "colon", "ö", "host:1"] {
            assert_eq!(text_contains(text, needle), text.contains(needle), "{:?} in {:?}", needle, text);
        }
    }
}
