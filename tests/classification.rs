use podcatcher::classification::{
    any_match, classified_episodes_from_set, classify, decide_status, missing_episodes_from_set,
    next_action, Action, EpisodeStatus,
};
use podcatcher::config::Config;
use podcatcher::date::Date;
use podcatcher::episode::Episode;
use podcatcher::pattern::Pattern;
use podcatcher::show::{Clusions, ConfigValue, Show};

fn s(text: &str) -> String {
    String::from(text)
}

fn date(y: i32, m: u32, d: u32) -> Date {
    Date::from_ymd_opt(y, m, d).unwrap()
}

/// An episode whose whole file name, extension aside, is its name.
fn episode(name: &str, pub_date: Date) -> Episode {
    let filename = format!("{}.mp3", name);
    let end = name.chars().count();
    Episode::from_parts(s("https://example.com/x.mp3"), filename, 0..end, pub_date).unwrap()
}

fn show_with(extra: Vec<ConfigValue>) -> Show {
    let mut values = vec![
        ConfigValue::Title(s("Hard Pod")),
        ConfigValue::Url(s("https://example.com/hardpod.xml")),
    ];
    values.extend(extra);
    Show::from_config_values(values).unwrap()
}

#[test]
fn exclusion_outranks_existing_files() {
    let mut show = show_with(vec![ConfigValue::ExclusionPatterns(vec![s("Best of")])]);
    let eps = vec![
        episode("Best of 2020", date(2020, 12, 30)),
        episode("Best of 2019", date(2019, 12, 30)),
        episode("Regular", date(2019, 6, 1)),
    ];
    let existing = vec![s("Best of 2019.mp3")];
    let classified = classified_episodes_from_set(&mut show, &eps, &existing).unwrap();
    let statuses: Vec<(EpisodeStatus, String)> = classified
        .into_iter()
        .map(|c| {
            let (st, e) = c.take();
            (st, String::from(e.filename()))
        })
        .collect();
    assert_eq!(
        statuses,
        vec![
            (EpisodeStatus::Need, s("Regular.mp3")),
            (EpisodeStatus::ShouldSkip, s("Best of 2019.mp3")),
            (EpisodeStatus::ShouldSkip, s("Best of 2020.mp3")),
        ]
    );
}

#[test]
fn not_before_date_precedence() {
    let mut show = show_with(vec![ConfigValue::NotBefore(Date::from_ymd_opt(2022, 6, 1))]);
    let eps = vec![
        episode("After", date(2022, 6, 2)),
        episode("On", date(2022, 6, 1)),
        episode("Before", date(2022, 5, 31)),
        episode("Before but present", date(2021, 1, 1)),
    ];
    let existing = vec![s("Before but present.mp3")];
    let classified = classified_episodes_from_set(&mut show, &eps, &existing).unwrap();
    let statuses: Vec<EpisodeStatus> = classified.into_iter().map(|c| c.take().0).collect();
    assert_eq!(
        statuses,
        vec![
            EpisodeStatus::Have,
            EpisodeStatus::ShouldSkip,
            EpisodeStatus::Need,
            EpisodeStatus::Need,
        ]
    );
}

#[test]
fn inclusion_keeps_only_matching_names() {
    let keep_rule = Some(Clusions::Inclusion(vec![Pattern::new("(?i)bonus").unwrap()]));
    let eps = vec![episode("BONUS round", date(2020, 1, 2)), episode("Main", date(2020, 1, 1))];
    let classified = classify(&keep_rule, None, &eps, &[]);
    let statuses: Vec<EpisodeStatus> = classified.into_iter().map(|c| c.take().0).collect();
    assert_eq!(statuses, vec![EpisodeStatus::ShouldSkip, EpisodeStatus::Need]);
}

#[test]
fn matching_looks_only_at_the_name_range() {
    let keep_rule = Some(Clusions::Inclusion(vec![Pattern::new("mp3").unwrap()]));
    let eps = vec![episode("Main", date(2020, 1, 1))];
    let classified = classify(&keep_rule, None, &eps, &[]);
    assert_eq!(classified.into_iter().next().unwrap().take().0, EpisodeStatus::ShouldSkip);
}

#[test]
fn any_match_searches_every_pattern() {
    let ps = vec![Pattern::new("^x").unwrap(), Pattern::new("of").unwrap()];
    assert!(any_match(&ps, "Best of"));
    assert!(!any_match(&ps, "Best"));
    assert!(!any_match(&[], "Best of"));
}

#[test]
fn decisions() {
    let d = date(2020, 1, 1);
    let later = Some(date(2021, 1, 1));
    assert_eq!(decide_status(Some(false), true, true, &d, None), EpisodeStatus::ShouldSkip);
    assert_eq!(decide_status(Some(true), false, false, &d, None), EpisodeStatus::ShouldSkip);
    assert_eq!(decide_status(Some(true), true, true, &d, None), EpisodeStatus::Have);
    assert_eq!(decide_status(None, false, true, &d, later), EpisodeStatus::Have);
    assert_eq!(decide_status(None, false, false, &d, later), EpisodeStatus::ShouldSkip);
    assert_eq!(decide_status(None, false, false, &d, Some(d)), EpisodeStatus::Need);
}

#[test]
fn missing_episodes_in_order() {
    let eps = vec![episode("a", date(2020, 1, 3)), episode("b", date(2020, 1, 2)), episode("c", date(2020, 1, 1))];
    let missing = missing_episodes_from_set(&eps, &[s("b.mp3")]);
    let names: Vec<&str> = missing.iter().map(|e| e.filename()).collect();
    assert_eq!(names, vec!["a.mp3", "c.mp3"]);
}

#[test]
fn actions_follow_the_config() {
    let limited = Config::new(s("/tmp"), s("c.json"), false, true, Some(1));
    assert_eq!(next_action(&limited, 0, EpisodeStatus::Need), (Action::Download, 1));
    assert_eq!(next_action(&limited, 1, EpisodeStatus::Need), (Action::Stop, 1));
    assert_eq!(next_action(&limited, 0, EpisodeStatus::Have), (Action::ReportExisting, 0));
    assert_eq!(next_action(&limited, 0, EpisodeStatus::ShouldSkip), (Action::Nothing, 0));
    let pretend = Config::new(s("/tmp"), s("c.json"), true, false, None);
    assert_eq!(next_action(&pretend, 5, EpisodeStatus::Need), (Action::ReportWouldDownload, 6));
    assert_eq!(next_action(&pretend, 5, EpisodeStatus::Have), (Action::Nothing, 5));
}
