//! The wire codecs: years, dates, enum codes and names, path rendering.

use tba_client::model::event::{EventType, PlayoffLevel, PlayoffStatus, PlayoffType, WebCastType};
use tba_client::model::id::{Key, TeamNumber};
use tba_client::model::matches::{MatchVideoType, MatchWinner};
use tba_client::model::team::TeamKind;
use tba_client::model::{Date, Timestamp, Year};
use tba_client::ctx::paths;
use tba_client::model::team::HomeChampionshipsList;
use tba_client::text::{eq_str, fmt_u64};
use tba_client::Error;

#[test]
fn year_accepts_exactly_four_digits() {
    assert_eq!(Year::new(2013).unwrap().val(), 2013);
    assert_eq!(Year::new(1000).unwrap().val(), 1000);
    assert_eq!(Year::new(9999).unwrap().val(), 9999);
    assert!(Year::new(999).is_err());
    assert!(Year::new(0).is_err());
    assert!(Year::new(10000).is_err());
    assert_eq!(Year::new(2013).unwrap().text(), "2013");
}

#[test]
fn date_parsing_accepts_real_dates() {
    let d = Date::parse_yyyymmdd("2013-03-28").unwrap();
    assert_eq!((d.year, d.month, d.day), (2013, 3, 28));
    let leap = Date::parse_yyyymmdd("2020-02-29").unwrap();
    assert_eq!((leap.year, leap.month, leap.day), (2020, 2, 29));
    let century_leap = Date::parse_yyyymmdd("2000-02-29").unwrap();
    assert_eq!(century_leap.day, 29);
    assert_eq!(Date::parse_yyyymmdd("2013-12-31").unwrap().day, 31);
}

#[test]
fn date_parsing_rejects_bad_text() {
    assert!(Date::parse_yyyymmdd("2019-02-29").is_none());
    assert!(Date::parse_yyyymmdd("1900-02-29").is_none());
    assert!(Date::parse_yyyymmdd("2013-00-10").is_none());
    assert!(Date::parse_yyyymmdd("2013-13-10").is_none());
    assert!(Date::parse_yyyymmdd("2013-04-31").is_none());
    assert!(Date::parse_yyyymmdd("2013-04-00").is_none());
    assert!(Date::parse_yyyymmdd("2013/04/01").is_none());
    assert!(Date::parse_yyyymmdd("2013-4-1").is_none());
    assert!(Date::parse_yyyymmdd("").is_none());
    assert!(Date::parse_yyyymmdd("not-a-date").is_none());
}

#[test]
fn date_construction_checks_the_calendar() {
    assert!(Date::new(2013, 3, 28).is_some());
    assert!(Date::new(2013, 2, 29).is_none());
    assert!(Date::new(2016, 2, 29).is_some());
    assert!(Date::new(2013, 6, 31).is_none());
}

#[test]
fn timestamps_carry_epoch_seconds() {
    assert_eq!(Timestamp::from_epoch_secs(1364500000).secs, 1364500000);
    assert_eq!(Timestamp::from_epoch_secs(-1).secs, -1);
}

#[test]
fn event_type_codes_roundtrip() {
    let all = [
        (EventType::Regional, 0),
        (EventType::District, 1),
        (EventType::DistrictCmp, 2),
        (EventType::CmpDivision, 3),
        (EventType::CmpFinals, 4),
        (EventType::DistrictCmpDivision, 5),
        (EventType::FOC, 6),
        (EventType::Remote, 7),
        (EventType::Offseason, 99),
        (EventType::Preseason, 100),
        (EventType::Unlabeled, -1),
    ];
    for (t, code) in all {
        assert_eq!(t.code(), code);
        assert_eq!(EventType::from_code(code), Some(t));
    }
    assert_eq!(EventType::from_code(42), None);
}

#[test]
fn playoff_type_codes_roundtrip() {
    for code in 0u8..=8 {
        let t = PlayoffType::from_code(code).unwrap();
        assert_eq!(t.code(), code);
    }
    assert_eq!(PlayoffType::from_code(9), None);
}

#[test]
fn wire_names_decode() {
    assert_eq!(WebCastType::parse("youtube"), Some(WebCastType::Youtube));
    assert_eq!(WebCastType::parse("twitch"), Some(WebCastType::Twitch));
    assert_eq!(WebCastType::parse("direct_link"), Some(WebCastType::DirectLink));
    assert_eq!(WebCastType::parse("dacast"), Some(WebCastType::Dacast));
    assert_eq!(WebCastType::parse("cable"), None);

    assert_eq!(PlayoffLevel::parse("qm"), Some(PlayoffLevel::QM));
    assert_eq!(PlayoffLevel::parse("f"), Some(PlayoffLevel::F));
    assert_eq!(PlayoffLevel::parse("x"), None);

    assert_eq!(PlayoffStatus::parse("won"), Some(PlayoffStatus::Won));
    assert_eq!(PlayoffStatus::parse("eliminated"), Some(PlayoffStatus::Eliminated));
    assert_eq!(PlayoffStatus::parse("playing"), Some(PlayoffStatus::Playing));
    assert_eq!(PlayoffStatus::parse("lost"), None);

    assert_eq!(MatchWinner::parse("red"), Some(MatchWinner::Red));
    assert_eq!(MatchWinner::parse("blue"), Some(MatchWinner::Blue));
    assert_eq!(MatchWinner::parse(""), Some(MatchWinner::Tie));
    assert_eq!(MatchWinner::parse("green"), None);

    assert_eq!(MatchVideoType::parse("youtube"), Some(MatchVideoType::Youtube));
    assert_eq!(MatchVideoType::parse("tba"), Some(MatchVideoType::TBA));
    assert_eq!(MatchVideoType::parse("vimeo"), None);
}

#[test]
fn numbers_render_in_decimal() {
    assert_eq!(fmt_u64(0), "0");
    assert_eq!(fmt_u64(7), "7");
    assert_eq!(fmt_u64(10), "10");
    assert_eq!(fmt_u64(2013), "2013");
    assert_eq!(fmt_u64(u64::MAX), "18446744073709551615");
    assert_eq!(TeamNumber::new(254).text(), "254");
    assert_eq!(TeamNumber::new(254).val(), 254);
}

#[test]
fn text_equality_is_by_characters() {
    assert!(eq_str("", ""));
    assert!(eq_str("abc", "abc"));
    assert!(!eq_str("abc", "abd"));
    assert!(!eq_str("abc", "abcd"));
}

#[test]
fn paths_substitute_parameters() {
    let year = Year::new(2013).unwrap();
    let team: Key<TeamKind> = Key::new("frc254".to_string());
    assert_eq!(paths::teams_page_path(0), "teams/0");
    assert_eq!(paths::teams_page_simple_path(12), "teams/12/simple");
    assert_eq!(paths::teams_page_keys_path(3), "teams/3/keys");
    assert_eq!(paths::teams_by_year_path(year, 1), "teams/2013/1");
    assert_eq!(paths::teams_by_year_simple_path(year, 1), "teams/2013/1/simple");
    assert_eq!(paths::teams_by_year_keys_path(year, 1), "teams/2013/1/keys");
    assert_eq!(paths::team_path(&team), "team/frc254");
    assert_eq!(
        paths::team_statuses_by_year_path(&team, year),
        "team/frc254/events/2013/statuses"
    );
    let event: Key<tba_client::model::event::EventKind> = Key::new("2013casj".to_string());
    assert_eq!(paths::event_path(&event), "event/2013casj");
    assert_eq!(paths::event_simple_path(&event), "event/2013casj/simple");
    assert_eq!(paths::event_alliances_path(&event), "event/2013casj/alliances");
    assert_eq!(paths::event_oprs_path(&event), "event/2013casj/oprs");
    assert_eq!(
        paths::event_district_points_path(&event),
        "event/2013casj/district_points"
    );
    assert_eq!(paths::event_team_keys_path(&event), "event/2013casj/teams/keys");
    assert_eq!(
        paths::event_team_statuses_path(&event),
        "event/2013casj/teams/statuses"
    );
    assert_eq!(paths::event_matches_path(&event), "event/2013casj/matches");
    assert_eq!(paths::event_match_keys_path(&event), "event/2013casj/matches/keys");
    let m: Key<tba_client::model::matches::MatchKind> = Key::new("2013casj_qm1".to_string());
    assert_eq!(paths::match_path(&m), "match/2013casj_qm1");
}

#[test]
fn keys_compare_by_their_text() {
    let a: Key<TeamKind> = Key::new("frc1".to_string());
    let b: Key<TeamKind> = Key::new("frc1".to_string());
    let c: Key<TeamKind> = Key::new("frc2".to_string());
    assert_eq!(a, b);
    assert_ne!(a, c);
    assert_eq!(a.clone().text(), "frc1");
}

#[test]
fn error_variants_describe_themselves() {
    assert_eq!(Error::TransportFailure.describe(), "send request failure");
    assert_eq!(Error::HeaderDecodeFailure.describe(), "header value is not valid text");
    assert_eq!(Error::BodyDecodeFailure.describe(), "response body did not decode");
    assert_eq!(Error::BadResponse(404).describe(), "unexpected response status");
    assert_ne!(Error::BadResponse(404), Error::BadResponse(500));
    assert_eq!(Error::BadResponse(500), Error::BadResponse(500));
}

#[test]
fn home_championships_keep_wire_order() {
    let list = HomeChampionshipsList::from_entries(vec![
        (2018, "Houston".to_string()),
        (2017, "St. Louis".to_string()),
    ]);
    assert_eq!(list.len(), 2);
    assert_eq!(list.0[0], (2018, "Houston".to_string()));
    assert_eq!(list.0[1], (2017, "St. Louis".to_string()));
}
