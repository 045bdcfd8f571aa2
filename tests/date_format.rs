use podcatcher::date::Date;
use podcatcher::date_format::{date_from_captures, parse_signed, parse_unsigned, DateFormat};
use podcatcher::pattern::Captured;
use podcatcher::show::ConfigError;

fn ymd(y: i32, m: u32, d: u32) -> Date {
    Date::from_ymd_opt(y, m, d).unwrap()
}

#[test]
fn test_american_conventional_no_strip() {
    let extractor = DateFormat::AmericanConventional.make_extractor(None).unwrap();

    let (date, range) = extractor
        .extract_date("FAKESHOW - 7/4/19 - How to raise the dead")
        .unwrap();

    assert_eq!(date, ymd(2019, 7, 4));
    assert_eq!(range, 11..17);

    let (date, range) = extractor
        .extract_date("FAKESHOW - 07/04/2019 - How to raise the dead")
        .unwrap();

    assert_eq!(date, ymd(2019, 7, 4));
    assert_eq!(range, 11..21);
}

#[test]
fn test_american_conventional_strip() {
    let extractor = DateFormat::AmericanConventional
        .make_extractor(Some(r#"[\-\s]*"#))
        .unwrap();

    let (date, range) = extractor
        .extract_date("FAKESHOW - 7/4/19 - How to raise the dead")
        .unwrap();

    assert_eq!(date, ymd(2019, 7, 4));
    assert_eq!(range, 8..20);

    let (date, range) = extractor
        .extract_date("FAKESHOW - 07/04/2019 - How to raise the dead")
        .unwrap();

    assert_eq!(date, ymd(2019, 7, 4));
    assert_eq!(range, 8..24);
}

#[test]
fn extraction_of_the_full_show_title() {
    let extractor = DateFormat::AmericanConventional
        .make_extractor(Some(r#"[\-\s]*"#))
        .unwrap();
    let (date, range) = extractor.extract_date("1/2/03 - Full Show").unwrap();
    assert_eq!(date, ymd(2003, 1, 2));
    assert_eq!(range, 0..9);
}

#[test]
fn extraction_refuses_impossible_dates() {
    let extractor = DateFormat::AmericanConventional.make_extractor(None).unwrap();
    assert!(extractor.extract_date("Show 13/2/20 recap").is_none());
    assert!(extractor.extract_date("Show 2/30/20 recap").is_none());
    assert!(extractor.extract_date("No date here").is_none());
}

#[test]
fn extraction_counts_characters_not_bytes() {
    let extractor = DateFormat::AmericanConventional.make_extractor(None).unwrap();
    let (date, range) = extractor.extract_date("Caf\u{e9} 2/29/20").unwrap();
    assert_eq!(date, ymd(2020, 2, 29));
    assert_eq!(range, 5..12);
}

#[test]
fn bad_edge_pattern_is_a_config_error() {
    let err = DateFormat::AmericanConventional
        .make_extractor(Some("("))
        .unwrap_err();
    match err {
        ConfigError::InvalidPattern(p) => {
            assert_eq!(p, r"((\d{1,2})[\-/](\d{1,2})[\-/](\d{2,4})(");
        }
        other => panic!("unexpected {:?}", other),
    }
}

#[test]
fn date_from_given_captures() {
    let groups = vec![
        Some(String::from("12-25-1999")),
        Some(String::from("12")),
        Some(String::from("25")),
        Some(String::from("1999")),
    ];
    let c = Captured { before: String::from("ab"), groups };
    let (date, range) = date_from_captures(Some(c)).unwrap();
    assert_eq!(date, ymd(1999, 12, 25));
    assert_eq!(range, 2..12);

    let few = Captured {
        before: String::new(),
        groups: vec![Some(String::from("1-2")), Some(String::from("1"))],
    };
    assert!(date_from_captures(Some(few)).is_none());
    assert!(date_from_captures(None).is_none());
}

#[test]
fn numbers_parse_as_std_does() {
    assert_eq!(parse_unsigned("07"), Some(7));
    assert_eq!(parse_unsigned("+12"), Some(12));
    assert_eq!(parse_unsigned("4294967295"), Some(4294967295));
    assert_eq!(parse_unsigned("4294967296"), None);
    assert_eq!(parse_unsigned(""), None);
    assert_eq!(parse_unsigned("+"), None);
    assert_eq!(parse_unsigned("-1"), None);
    assert_eq!(parse_unsigned("1a"), None);
    assert_eq!(parse_signed("-2147483648"), Some(i32::MIN));
    assert_eq!(parse_signed("2147483647"), Some(i32::MAX));
    assert_eq!(parse_signed("2147483648"), None);
    assert_eq!(parse_signed("-19"), Some(-19));
    for s in ["7", "+7", "-7", "12345", "x"] {
        assert_eq!(parse_signed(s), s.parse::<i32>().ok());
        assert_eq!(parse_unsigned(s), s.parse::<u32>().ok());
    }
}
