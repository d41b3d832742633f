//! End-to-end exercises of the conditional-GET protocol against simulated
//! responses.

use std::sync::Arc;

use tba_client::ctx::endpoints::{wants_body, EndPointClient, EndPoints, EtagHeader, Payload};
use tba_client::ctx::paths;
use tba_client::model::id::{Key, TeamNumber};
use tba_client::model::team::{SimpleTeam, Team};
use tba_client::Error;

fn team(key: &str, name: &str) -> Team {
    Team {
        simple: SimpleTeam {
            key: Key::new(key.to_string()),
            team_number: TeamNumber::new(1),
            nickame: None,
            name: name.to_string(),
            city: None,
            state_prov: None,
            country: None,
        },
        address: None,
        postal_code: None,
        gmaps_place_id: None,
        gmaps_url: None,
        lat: None,
        lng: None,
        location_name: None,
        website: None,
        rookie_year: None,
        motto: None,
        home_championship: None,
    }
}

fn ok_body(teams: Vec<Team>) -> Option<Payload<Vec<Team>>> {
    Some(Payload::Decoded(teams))
}

#[test]
fn scenario_teams_page_zero() {
    // GET teams/0 -> 200, ETag "abc", body [Team { key: "frc1" }].
    let mut eps = EndPoints::new();
    let page = &mut eps.teams.full_page;
    let path = paths::teams_page_path(0);
    assert_eq!(path, "teams/0");

    assert!(page.prepare(&path).is_none());
    assert!(wants_body(200));
    let v1 = page
        .resolve(
            path.clone(),
            200,
            EtagHeader::Text("abc".to_string()),
            ok_body(vec![team("frc1", "one")]),
        )
        .unwrap();
    assert_eq!(v1.len(), 1);
    assert_eq!(v1[0].simple.key.text(), "frc1");

    // The cache now holds ([Team { key: "frc1" }], "abc").
    let entry = page.cached(&path).unwrap();
    assert_eq!(entry.etag, "abc");
    assert_eq!(entry.val[0].simple.key.text(), "frc1");

    // The next fetch sends If-None-Match: abc; the server replies 304 and
    // the result equals the first body.
    assert_eq!(page.prepare(&path).as_deref(), Some("abc"));
    assert!(!wants_body(304));
    let v2 = page.resolve(path.clone(), 304, EtagHeader::Absent, None).unwrap();
    assert_eq!(v2[0].simple.key.text(), "frc1");
    assert_eq!(v2.len(), v1.len());
}

#[test]
fn revalidated_value_is_shared() {
    // A 304 serves the cached allocation itself, not a copy.
    let mut eps = EndPoints::new();
    let page = &mut eps.teams.full_page;
    let path = paths::teams_page_path(3);
    let first = page
        .resolve(
            path.clone(),
            200,
            EtagHeader::Text("v1".to_string()),
            ok_body(vec![team("frc254", "rockets")]),
        )
        .unwrap();
    let second = page.resolve(path.clone(), 304, EtagHeader::Absent, None).unwrap();
    assert!(Arc::ptr_eq(&first, &second));
}

#[test]
fn revalidation_preserves_identity() {
    let mut client: EndPointClient<u32> = EndPointClient::new(8);
    let path = "team/frc1".to_string();
    let stored = client
        .resolve(path.clone(), 200, EtagHeader::Text("E".to_string()), Some(Payload::Decoded(7)))
        .unwrap();
    assert_eq!(*stored, 7);

    let again = client.resolve(path.clone(), 304, EtagHeader::Absent, None).unwrap();
    assert_eq!(*again, 7);
    let entry = client.cached(&path).unwrap();
    assert_eq!(entry.etag, "E");
    assert_eq!(*entry.val, 7);
}

#[test]
fn fresh_response_replaces_tag() {
    let mut client: EndPointClient<u32> = EndPointClient::new(8);
    let path = "team/frc1".to_string();
    client
        .resolve(path.clone(), 200, EtagHeader::Text("E".to_string()), Some(Payload::Decoded(7)))
        .unwrap();
    assert_eq!(client.prepare(&path).as_deref(), Some("E"));

    let fresh = client
        .resolve(path.clone(), 200, EtagHeader::Text("E2".to_string()), Some(Payload::Decoded(8)))
        .unwrap();
    assert_eq!(*fresh, 8);
    let entry = client.cached(&path).unwrap();
    assert_eq!(entry.etag, "E2");
    assert_eq!(*entry.val, 8);
    assert_eq!(client.prepare(&path).as_deref(), Some("E2"));
}

#[test]
fn no_tag_responses_never_cache() {
    let mut client: EndPointClient<u32> = EndPointClient::new(8);
    let path = "team/frc1".to_string();

    // Nothing cached before, nothing cached after.
    let v = client.resolve(path.clone(), 200, EtagHeader::Absent, Some(Payload::Decoded(7))).unwrap();
    assert_eq!(*v, 7);
    assert!(client.cached(&path).is_none());

    // An existing entry is left untouched, even though a fresh body is
    // served.
    client
        .resolve(path.clone(), 200, EtagHeader::Text("E".to_string()), Some(Payload::Decoded(1)))
        .unwrap();
    let v = client.resolve(path.clone(), 200, EtagHeader::Absent, Some(Payload::Decoded(2))).unwrap();
    assert_eq!(*v, 2);
    let entry = client.cached(&path).unwrap();
    assert_eq!(entry.etag, "E");
    assert_eq!(*entry.val, 1);
}

#[test]
fn failure_is_non_destructive() {
    let mut client: EndPointClient<u32> = EndPointClient::new(8);
    let path = "team/frc1".to_string();
    client
        .resolve(path.clone(), 200, EtagHeader::Text("E".to_string()), Some(Payload::Decoded(7)))
        .unwrap();

    let err = client.resolve(path.clone(), 500, EtagHeader::Absent, None).unwrap_err();
    assert_eq!(err, Error::BadResponse(500));
    let entry = client.cached(&path).unwrap();
    assert_eq!(entry.etag, "E");
    assert_eq!(*entry.val, 7);
}

#[test]
fn bare_not_modified_is_rejected() {
    let mut client: EndPointClient<u32> = EndPointClient::new(8);
    let path = "team/frc1".to_string();
    let err = client.resolve(path.clone(), 304, EtagHeader::Absent, None).unwrap_err();
    assert_eq!(err, Error::BadResponse(304));
    assert!(client.cached(&path).is_none());
}

#[test]
fn malformed_body_and_headers_fail_cleanly() {
    let mut client: EndPointClient<u32> = EndPointClient::new(8);
    let path = "team/frc1".to_string();
    client
        .resolve(path.clone(), 200, EtagHeader::Text("E".to_string()), Some(Payload::Decoded(7)))
        .unwrap();

    // A body that does not decode fails without touching the cache.
    let err = client
        .resolve(path.clone(), 200, EtagHeader::Text("E2".to_string()), Some(Payload::Malformed))
        .unwrap_err();
    assert_eq!(err, Error::BodyDecodeFailure);
    assert_eq!(client.cached(&path).unwrap().etag, "E");

    // An ETag header that is not valid text fails after the body decoded,
    // and caches nothing.
    let err = client
        .resolve(path.clone(), 200, EtagHeader::Undecodable, Some(Payload::Decoded(9)))
        .unwrap_err();
    assert_eq!(err, Error::HeaderDecodeFailure);
    let entry = client.cached(&path).unwrap();
    assert_eq!(entry.etag, "E");
    assert_eq!(*entry.val, 7);
}

#[test]
fn redirects_are_bad_responses() {
    let mut client: EndPointClient<u32> = EndPointClient::new(8);
    let path = "team/frc1".to_string();
    let err = client.resolve(path.clone(), 301, EtagHeader::Absent, None).unwrap_err();
    assert_eq!(err, Error::BadResponse(301));
    assert!(!wants_body(301));
    assert!(!wants_body(304));
    assert!(wants_body(204));
    assert!(!wants_body(199));
    assert!(!wants_body(300));
}
