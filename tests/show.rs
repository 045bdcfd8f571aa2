use podcatcher::date::Date;
use podcatcher::date_format::{DateExtraction, DateFormat};
use podcatcher::show::{
    join_fields, Clusions, ConfigError, ConfigField, ConfigValue, Show, ShowBuilder,
    TitleHandling,
};

fn s(text: &str) -> String {
    String::from(text)
}

fn hard_pod() -> Vec<ConfigValue> {
    vec![
        ConfigValue::Title(s("Hard Pod")),
        ConfigValue::Url(s("https://example.com/hardpod.xml")),
    ]
}

fn has_only_default_title_strip(show: &mut Show) -> bool {
    let rc = show.regex_container();
    rc.as_ref().as_ref().unwrap().has_only_default_title_strip()
}

#[test]
fn test_parse_basic_config() {
    let mut show = Show::from_config_values(hard_pod()).unwrap();
    assert_eq!(show.title(), "Hard Pod");
    assert_eq!(show.url(), "https://example.com/hardpod.xml");
    assert!(show.title_strip_patterns().is_none());
    assert!(has_only_default_title_strip(&mut show));
    assert!(show.date_extraction().is_none());
    assert!(show.not_before_date().is_none());
}

#[test]
fn test_parse_with_date_extraction() {
    let mut values = hard_pod();
    values.push(ConfigValue::DateExtraction(Some(DateExtraction::new(
        DateFormat::AmericanConventional,
        None,
    ))));
    let mut show = Show::from_config_values(values).unwrap();
    assert_eq!(show.title(), "Hard Pod");
    assert_eq!(show.url(), "https://example.com/hardpod.xml");
    assert!(show.title_strip_patterns().is_none());
    assert!(has_only_default_title_strip(&mut show));
    assert_eq!(
        show.date_extraction().as_ref().map(|de| *de.format()),
        Some(DateFormat::AmericanConventional)
    );
    assert!(show.not_before_date().is_none());
}

#[test]
fn test_parse_with_title_strip_pattern() {
    let mut values = hard_pod();
    values.push(ConfigValue::TitleStripPatterns(vec![
        s("\\s*Episode\\s*\\d+:\\s*"),
        s("Bonus:\\s*"),
    ]));
    let mut show = Show::from_config_values(values).unwrap();
    assert_eq!(show.title(), "Hard Pod");
    assert_eq!(show.url(), "https://example.com/hardpod.xml");
    assert_eq!(show.title_strip_patterns().map(<[String]>::len), Some(2));
    let rc = show.regex_container();
    assert_eq!(
        rc.as_ref().as_ref().unwrap().custom_episode_title_strips().len(),
        2
    );
    assert!(show.date_extraction().is_none());
    assert!(show.not_before_date().is_none());
}

#[test]
fn test_parse_strip_whole_title() {
    let mut values = hard_pod();
    values.push(ConfigValue::StripWholeTitle(true));
    let mut show = Show::from_config_values(values).unwrap();
    assert_eq!(show.title(), "Hard Pod");
    assert_eq!(show.url(), "https://example.com/hardpod.xml");
    assert!(show.title_strip_patterns().is_none());
    assert!(matches!(show.title_handling(), TitleHandling::StripAll));
    assert!(has_only_default_title_strip(&mut show));
    assert!(show.date_extraction().is_none());
    assert!(show.not_before_date().is_none());
}

#[test]
fn test_parse_conflicting_title_handling() {
    let mut values = hard_pod();
    values.push(ConfigValue::TitleStripPatterns(vec![s("\\s*Episode\\s*\\d+:\\s*")]));
    values.push(ConfigValue::StripWholeTitle(true));

    assert!(matches!(Show::from_config_values(values), Result::<Show, _>::Err(_)));
}

#[test]
fn test_parse_with_exclusion() {
    let mut values = hard_pod();
    values.push(ConfigValue::ExclusionPatterns(vec![s("(?i)Best of")]));
    let mut show = Show::from_config_values(values).unwrap();
    assert_eq!(show.title(), "Hard Pod");
    assert_eq!(show.url(), "https://example.com/hardpod.xml");
    assert!(show.title_strip_patterns().is_none());
    let rc = show.regex_container();
    assert!(matches!(
        rc.as_ref().as_ref().unwrap().clusions(),
        Some(Clusions::Exclusion(_))
    ));
    assert!(show.date_extraction().is_none());
    assert!(show.not_before_date().is_none());
}

#[test]
fn test_parse_conflicting_clusions() {
    let mut values = hard_pod();
    values.push(ConfigValue::ExclusionPatterns(vec![s("(?i)Best of")]));
    values.push(ConfigValue::InclusionPatterns(vec![s("(?i)Worst in")]));

    assert!(matches!(Show::from_config_values(values), Result::<Show, _>::Err(_)));
}

#[test]
fn test_parse_not_before_date() {
    let mut values = hard_pod();
    values.push(ConfigValue::NotBefore(Date::from_ymd_opt(2022, 6, 1)));
    let mut show = Show::from_config_values(values).unwrap();
    assert_eq!(show.title(), "Hard Pod");
    assert_eq!(show.url(), "https://example.com/hardpod.xml");
    assert!(show.title_strip_patterns().is_none());
    assert!(has_only_default_title_strip(&mut show));
    assert!(show.date_extraction().is_none());
    assert_eq!(show.not_before_date(), Some(Date::from_ymd_opt(2022, 6, 1).unwrap()));
}

#[test]
fn conflicts_name_both_keys() {
    let mut values = hard_pod();
    values.push(ConfigValue::StripWholeTitle(false));
    values.push(ConfigValue::TitleStripPatterns(vec![]));
    match Show::from_config_values(values) {
        Err(e) => {
            assert!(matches!(
                e,
                ConfigError::Conflict(ConfigField::StripWholeTitle, ConfigField::TitleStripPatterns)
            ));
            assert_eq!(
                e.message(),
                "Only one of 'StripWholeTitle' or 'TitleStripPatterns' is allowed at a time"
            );
        }
        Ok(_) => panic!("conflict accepted"),
    }

    let mut values = hard_pod();
    values.push(ConfigValue::InclusionPatterns(vec![s("a")]));
    values.push(ConfigValue::ExclusionPatterns(vec![s("b")]));
    match Show::from_config_values(values) {
        Err(e) => assert_eq!(
            e.message(),
            "Only one of 'InclusionPatterns' or 'ExclusionPatterns' is allowed at a time"
        ),
        Ok(_) => panic!("conflict accepted"),
    }
}

#[test]
fn title_and_url_are_required() {
    let missing_title = vec![ConfigValue::Url(s("https://example.com/x.xml"))];
    match Show::from_config_values(missing_title) {
        Err(e) => {
            assert!(matches!(e, ConfigError::MissingField(ConfigField::Title)));
            assert_eq!(e.message(), "Field not initialized: Title");
        }
        Ok(_) => panic!("accepted"),
    }
    let missing_url = vec![ConfigValue::Title(s("x"))];
    assert!(matches!(
        Show::from_config_values(missing_url),
        Err(ConfigError::MissingField(ConfigField::Url))
    ));
}

#[test]
fn later_values_replace_earlier_ones() {
    let values = vec![
        ConfigValue::Title(s("First")),
        ConfigValue::Url(s("u")),
        ConfigValue::Title(s("Second")),
    ];
    let show = Show::from_config_values(values).unwrap();
    assert_eq!(show.title(), "Second");
}

#[test]
fn invalid_pattern_is_reported_once_built() {
    let mut values = hard_pod();
    values.push(ConfigValue::InclusionPatterns(vec![s("ok"), s("[bad"), s("(worse")]));
    let mut show = Show::from_config_values(values).unwrap();
    let rc = show.regex_container();
    match rc.as_ref() {
        Err(e) => assert_eq!(e.message(), "Bad Regex: [bad"),
        Ok(_) => panic!("bad pattern compiled"),
    }
}

#[test]
fn builder_reports_what_it_holds() {
    let mut builder = ShowBuilder::default();
    assert!(!builder.has_title_handling());
    assert!(!builder.has_raw_clusions());
    assert!(builder.apply(ConfigValue::StripWholeTitle(false)).is_ok());
    assert!(builder.has_title_handling());
    assert!(builder.apply(ConfigValue::ExclusionPatterns(vec![])).is_ok());
    assert!(builder.has_raw_clusions());
    assert!(builder.apply(ConfigValue::InclusionPatterns(vec![])).is_err());
}

#[test]
fn title_handling_patterns() {
    let none = TitleHandling::default();
    assert!(none.strip_patterns().is_none());
    let some = TitleHandling::from_strip_patterns(vec![s("a"), s("b")]);
    assert_eq!(some.strip_patterns().map(|p| p.len()), Some(2));
    assert!(TitleHandling::StripAll.strip_patterns().is_none());
}

#[test]
fn clusions_map_keeps_the_kind() {
    let c = Clusions::Exclusion(vec![1u32, 2, 3]);
    let mapped = c.map(|v| v.iter().map(|x| x * 10).collect::<Vec<u32>>());
    match mapped {
        Clusions::Exclusion(v) => assert_eq!(v, vec![10, 20, 30]),
        Clusions::Inclusion(_) => panic!("kind changed"),
    }
}

#[test]
fn joined_field_lists() {
    assert_eq!(join_fields(&[ConfigField::Title]), "'Title'");
    assert_eq!(
        join_fields(&[ConfigField::Title, ConfigField::Url, ConfigField::NotBefore]),
        "'Title', 'Url' or 'NotBefore'"
    );
    assert_eq!(join_fields(&[]), "");
}

#[test]
fn date_extractor_is_shared() {
    let mut values = hard_pod();
    values.push(ConfigValue::DateExtraction(Some(DateExtraction::new(
        DateFormat::AmericanConventional,
        Some(s("[\\-\\s]*")),
    ))));
    let mut show = Show::from_config_values(values).unwrap();
    let a = show.date_extractor().unwrap();
    let b = show.date_extractor().unwrap();
    assert!(std::rc::Rc::ptr_eq(&a, &b));
    let x = a.as_ref().as_ref().unwrap();
    let (date, range) = x.extract_date("1/2/03 - Full Show").unwrap();
    assert_eq!(date, Date::from_ymd_opt(2003, 1, 2).unwrap());
    assert_eq!(range, 0..9);
}

#[test]
fn clusions_count_as_given_once_set() {
    let mut builder = ShowBuilder::default();
    assert!(!builder.has_raw_clusions());
    builder.raw_clusions(None);
    assert!(builder.has_raw_clusions());
    assert!(builder.apply(ConfigValue::InclusionPatterns(vec![s("x")])).is_err());
}

#[test]
fn regex_container_is_built_once() {
    let mut show = Show::from_config_values(hard_pod()).unwrap();
    let a = show.regex_container();
    let b = show.regex_container();
    assert!(std::rc::Rc::ptr_eq(&a, &b));
}
