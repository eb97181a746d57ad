use azure_ost_cli::numeric::parse_usize;
use azure_ost_cli::text::same_text;

#[test]
fn parses_plain_decimal() {
    assert_eq!(parse_usize("236"), Some(236));
    assert_eq!(parse_usize("0"), Some(0));
    assert_eq!(parse_usize("007"), Some(7));
}

#[test]
fn accepts_one_leading_plus() {
    assert_eq!(parse_usize("+12"), Some(12));
    assert_eq!(parse_usize("++12"), None);
    assert_eq!(parse_usize("+"), None);
}

#[test]
fn refuses_what_from_str_refuses() {
    assert_eq!(parse_usize(""), None);
    assert_eq!(parse_usize("-1"), None);
    assert_eq!(parse_usize("12a"), None);
    assert_eq!(parse_usize(" 12"), None);
    assert_eq!(parse_usize("1_000"), None);
    assert_eq!(parse_usize("٣"), None);
}

#[test]
fn agrees_with_std_on_samples() {
    let samples = [
        "", "+", "-", "0", "+0", "-0", "42", "4 2", "18446744073709551615",
        "18446744073709551616", "99999999999999999999999", "+18446744073709551615", "x", "1x1",
    ];
    for s in samples.iter() {
        assert_eq!(parse_usize(s), s.parse::<usize>().ok(), "on {:?}", s);
    }
}

#[test]
fn overflow_is_refused() {
    let max = usize::MAX.to_string();
    assert_eq!(parse_usize(&max), Some(usize::MAX));
    let over = format!("{}0", max);
    assert_eq!(parse_usize(&over), None);
    let over_digit = format!("{}1", usize::MAX / 10);
    assert_eq!(parse_usize(&over_digit), Some(usize::MAX / 10 * 10 + 1));
}

#[test]
fn overflow_then_bad_character_is_refused() {
    assert_eq!(parse_usize("99999999999999999999999x"), None);
}

#[test]
fn compares_text_by_characters() {
    assert!(same_text("bgm-csv", "bgm-csv"));
    assert!(!same_text("bgm-csv", "bgm-cs"));
    assert!(!same_text("all", "alL"));
    assert!(same_text("", ""));
    assert!(same_text("黑风", "黑风"));
}
