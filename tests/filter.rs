use daily_scry::card::{Card, Layout};
use daily_scry::config::DailyScryConfig;
use daily_scry::filter::{rejecting_filter, CardFilter, ContentWarningFilter, IgnoredOracleIdFilter};

fn config(ignored: Option<Vec<u128>>) -> DailyScryConfig {
    DailyScryConfig {
        mastodon_url: None,
        mastodon_access_token: None,
        mastodon_character_limit: None,
        telegram_token: None,
        telegram_chat_id: None,
        telegram_character_limit: None,
        image_path: "test/".to_string(),
        ignored_oracle_ids: ignored,
        version: "Test_Version".to_string(),
    }
}

fn card(oracle_id: Option<u128>, content_warning: bool) -> Card {
    Card {
        name: "Black Lotus".to_owned(),
        mana_cost: None,
        type_line: Some("Artifact".to_owned()),
        oracle_text: None,
        flavor_text: None,
        power: None,
        toughness: None,
        loyalty: None,
        hand_modifier: None,
        life_modifier: None,
        artist: None,
        layout: Layout::Normal,
        card_faces: None,
        oracle_id,
        content_warning,
    }
}

#[test]
fn ignored_oracle_id_is_turned_away() {
    let c = config(Some(vec![7, 9]));
    assert!(!IgnoredOracleIdFilter {}.filter(&c, &card(Some(9), false)));
    assert!(IgnoredOracleIdFilter {}.filter(&c, &card(Some(8), false)));
    assert!(IgnoredOracleIdFilter {}.filter(&c, &card(None, false)));
    assert!(IgnoredOracleIdFilter {}.filter(&config(None), &card(Some(9), false)));
    assert_eq!(IgnoredOracleIdFilter {}.name(), "IgnoredOracleIdFilter");
}

#[test]
fn content_warning_is_turned_away() {
    let c = config(Some(vec![]));
    assert!(!ContentWarningFilter {}.filter(&c, &card(None, true)));
    assert!(ContentWarningFilter {}.filter(&c, &card(None, false)));
    assert_eq!(ContentWarningFilter {}.name(), "ContentWarningFilter");
}

#[test]
fn first_rejecting_filter_is_named() {
    let c = config(Some(vec![1]));
    assert_eq!(rejecting_filter(&c, &card(Some(2), false)), None);
    assert_eq!(rejecting_filter(&c, &card(Some(1), true)), Some("IgnoredOracleIdFilter"));
    assert_eq!(rejecting_filter(&c, &card(Some(2), true)), Some("ContentWarningFilter"));
}
