use rsvg::svg::text::{append_nat, join, same_text};
use rsvg::utils::{gen_uuid, str_to_usize};

#[test]
fn str_to_usize_reads_digits() {
    assert_eq!(str_to_usize("0"), Ok(0));
    assert_eq!(str_to_usize("7"), Ok(7));
    assert_eq!(str_to_usize("42"), Ok(42));
    assert_eq!(str_to_usize("007"), Ok(7));
    assert_eq!(str_to_usize("+15"), Ok(15));
    assert_eq!(str_to_usize("1234567890"), Ok(1234567890));
}

#[test]
fn str_to_usize_refuses_what_is_no_index() {
    for text in ["", "+", "-", "-1", "+-1", "++1", "1+", " 1", "1 ", "1.0", "1e3", "0x10", "abc", "٤٢"] {
        assert_eq!(str_to_usize(text), Err(format!("Error parsing usize from {}", text)));
    }
}

#[test]
fn str_to_usize_stops_at_the_largest_index() {
    let max = usize::MAX.to_string();
    assert_eq!(str_to_usize(&max), Ok(usize::MAX));
    let mut beyond = max.clone();
    beyond.push('0');
    assert_eq!(str_to_usize(&beyond), Err(format!("Error parsing usize from {}", beyond)));
    assert!(str_to_usize("18446744073709551616").is_err());
    assert!(str_to_usize("99999999999999999999999999").is_err());
}

#[test]
fn str_to_usize_agrees_with_the_standard_parser() {
    let texts = [
        "0", "1", "+1", "-0", "+0", "00", "10", "0010", "4294967295", "4294967296",
        "18446744073709551615", "18446744073709551616", "+18446744073709551615", "1_000", "",
        "+", "१२", "12a", "a12", "1 2",
    ];
    for text in texts {
        assert_eq!(str_to_usize(text).ok(), text.parse::<usize>().ok());
    }
}

#[test]
fn gen_uuid_gives_a_hyphenated_version_four_identity() {
    let id = gen_uuid();
    let chars: Vec<char> = id.chars().collect();
    assert_eq!(chars.len(), 36);
    for (i, c) in chars.iter().enumerate() {
        if i == 8 || i == 13 || i == 18 || i == 23 {
            assert_eq!(*c, '-');
        } else {
            assert!(matches!(*c, '0'..='9' | 'a'..='f'));
        }
    }
    assert_eq!(chars[14], '4');
    assert!(matches!(chars[19], '8' | '9' | 'a' | 'b'));
}

#[test]
fn gen_uuid_gives_a_new_identity_each_time() {
    let a = gen_uuid();
    let b = gen_uuid();
    let c = gen_uuid();
    assert_ne!(a, b);
    assert_ne!(a, c);
    assert_ne!(b, c);
}

#[test]
fn append_nat_writes_decimal_digits_behind_what_is_there() {
    let mut out = String::from("n=");
    append_nat(&mut out, 0);
    assert_eq!(out, "n=0");
    for (n, text) in [(9, "9"), (10, "10"), (1234567890, "1234567890")] {
        let mut out = String::new();
        append_nat(&mut out, n);
        assert_eq!(out, text);
    }
    let mut out = String::new();
    append_nat(&mut out, u64::MAX);
    assert_eq!(out, "18446744073709551615");
}

#[test]
fn join_puts_the_separator_between_neighbours() {
    let none: Vec<String> = vec![];
    assert_eq!(join(&none, ", "), "");
    assert_eq!(join(&vec![String::from("a")], ", "), "a");
    assert_eq!(join(&vec![String::from("a"), String::from("b"), String::new()], ", "), "a, b, ");
}

#[test]
fn same_text_compares_characters() {
    assert!(same_text("rect", "rect"));
    assert!(!same_text("rect", "Rect"));
    assert!(!same_text("rect", "rect "));
    assert!(same_text("", ""));
}
