//! The resource paths of each endpoint: verified substitution of the
//! parameter tuple into the endpoint's path template.
//!
//! The concrete path both names the resource on the wire (appended to the
//! versioned base URL) and keys the endpoint's cache: equal parameter
//! tuples give equal paths, hence address the same cache entry.

use vstd::prelude::*;
use crate::model::id::Key;
use crate::model::Year;
use crate::text::{dec_str, fmt_u64};

verus! {

/// `teams/{page}`
pub open spec fn spec_teams_page_path(page: nat) -> Seq<char> {
    "teams/"@ + dec_str(page)
}

/// `teams/{page}/simple`
pub open spec fn spec_teams_page_simple_path(page: nat) -> Seq<char> {
    "teams/"@ + dec_str(page) + "/simple"@
}

/// `teams/{page}/keys`
pub open spec fn spec_teams_page_keys_path(page: nat) -> Seq<char> {
    "teams/"@ + dec_str(page) + "/keys"@
}

/// `teams/{year}/{page}`
pub open spec fn spec_teams_by_year_path(year: nat, page: nat) -> Seq<char> {
    "teams/"@ + dec_str(year) + "/"@ + dec_str(page)
}

/// `teams/{year}/{page}/simple`
pub open spec fn spec_teams_by_year_simple_path(year: nat, page: nat) -> Seq<char> {
    "teams/"@ + dec_str(year) + "/"@ + dec_str(page) + "/simple"@
}

/// `teams/{year}/{page}/keys`
pub open spec fn spec_teams_by_year_keys_path(year: nat, page: nat) -> Seq<char> {
    "teams/"@ + dec_str(year) + "/"@ + dec_str(page) + "/keys"@
}

/// `team/{key}`
pub open spec fn spec_team_path(key: Seq<char>) -> Seq<char> {
    "team/"@ + key
}

/// `team/{key}/events/{year}/statuses`
pub open spec fn spec_team_statuses_by_year_path(key: Seq<char>, year: nat) -> Seq<char> {
    "team/"@ + key + "/events/"@ + dec_str(year) + "/statuses"@
}

/// `event/{key}`
pub open spec fn spec_event_path(key: Seq<char>) -> Seq<char> {
    "event/"@ + key
}

/// `event/{key}/simple`
pub open spec fn spec_event_simple_path(key: Seq<char>) -> Seq<char> {
    "event/"@ + key + "/simple"@
}

/// `event/{key}/alliances`
pub open spec fn spec_event_alliances_path(key: Seq<char>) -> Seq<char> {
    "event/"@ + key + "/alliances"@
}

/// `event/{key}/oprs`
pub open spec fn spec_event_oprs_path(key: Seq<char>) -> Seq<char> {
    "event/"@ + key + "/oprs"@
}

/// `event/{key}/district_points`
pub open spec fn spec_event_district_points_path(key: Seq<char>) -> Seq<char> {
    "event/"@ + key + "/district_points"@
}

/// `event/{key}/teams/keys`
pub open spec fn spec_event_team_keys_path(key: Seq<char>) -> Seq<char> {
    "event/"@ + key + "/teams/keys"@
}

/// `event/{key}/teams/statuses`
pub open spec fn spec_event_team_statuses_path(key: Seq<char>) -> Seq<char> {
    "event/"@ + key + "/teams/statuses"@
}

/// `event/{key}/matches`
pub open spec fn spec_event_matches_path(key: Seq<char>) -> Seq<char> {
    "event/"@ + key + "/matches"@
}

/// `event/{key}/matches/keys`
pub open spec fn spec_event_match_keys_path(key: Seq<char>) -> Seq<char> {
    "event/"@ + key + "/matches/keys"@
}

/// `match/{key}`
pub open spec fn spec_match_path(key: Seq<char>) -> Seq<char> {
    "match/"@ + key
}

/// Concatenate two pieces of text.
fn join2(a: &str, b: &str) -> (r: String)
    ensures
        r@ == a@ + b@,
{
    let mut s = a.to_owned();
    s.append(b);
    s
}

/// The path of the team list page endpoint.
pub fn teams_page_path(page: usize) -> (r: String)
    ensures
        r@ == spec_teams_page_path(page as nat),
{
    join2("teams/", fmt_u64(page as u64).as_str())
}

/// The path of the simple team list page endpoint.
pub fn teams_page_simple_path(page: usize) -> (r: String)
    ensures
        r@ == spec_teams_page_simple_path(page as nat),
{
    let mut s = teams_page_path(page);
    s.append("/simple");
    s
}

/// The path of the team key list page endpoint.
pub fn teams_page_keys_path(page: usize) -> (r: String)
    ensures
        r@ == spec_teams_page_keys_path(page as nat),
{
    let mut s = teams_page_path(page);
    s.append("/keys");
    s
}

/// The path of the team list page by year endpoint.
pub fn teams_by_year_path(year: Year, page: usize) -> (r: String)
    ensures
        r@ == spec_teams_by_year_path(year@ as nat, page as nat),
{
    let mut s = join2("teams/", year.text().as_str());
    s.append("/");
    s.append(fmt_u64(page as u64).as_str());
    s
}

/// The path of the simple team list page by year endpoint.
pub fn teams_by_year_simple_path(year: Year, page: usize) -> (r: String)
    ensures
        r@ == spec_teams_by_year_simple_path(year@ as nat, page as nat),
{
    let mut s = teams_by_year_path(year, page);
    s.append("/simple");
    s
}

/// The path of the team key list page by year endpoint.
pub fn teams_by_year_keys_path(year: Year, page: usize) -> (r: String)
    ensures
        r@ == spec_teams_by_year_keys_path(year@ as nat, page as nat),
{
    let mut s = teams_by_year_path(year, page);
    s.append("/keys");
    s
}

/// The path of the single team endpoint.
pub fn team_path<T>(key: &Key<T>) -> (r: String)
    ensures
        r@ == spec_team_path(key@),
{
    join2("team/", key.text())
}

/// The path of the team event statuses by year endpoint.
pub fn team_statuses_by_year_path<T>(key: &Key<T>, year: Year) -> (r: String)
    ensures
        r@ == spec_team_statuses_by_year_path(key@, year@ as nat),
{
    let mut s = join2("team/", key.text());
    s.append("/events/");
    s.append(year.text().as_str());
    s.append("/statuses");
    s
}

/// The path of the single event endpoint.
pub fn event_path<T>(key: &Key<T>) -> (r: String)
    ensures
        r@ == spec_event_path(key@),
{
    join2("event/", key.text())
}

/// The path of an event sub-resource: `event/{key}{suffix}`.
fn event_sub_path<T>(key: &Key<T>, suffix: &str) -> (r: String)
    ensures
        r@ == "event/"@ + key@ + suffix@,
{
    let mut s = join2("event/", key.text());
    s.append(suffix);
    s
}

/// The path of the simple event endpoint.
pub fn event_simple_path<T>(key: &Key<T>) -> (r: String)
    ensures
        r@ == spec_event_simple_path(key@),
{
    event_sub_path(key, "/simple")
}

/// The path of the event alliances endpoint.
pub fn event_alliances_path<T>(key: &Key<T>) -> (r: String)
    ensures
        r@ == spec_event_alliances_path(key@),
{
    event_sub_path(key, "/alliances")
}

/// The path of the event ratings endpoint.
pub fn event_oprs_path<T>(key: &Key<T>) -> (r: String)
    ensures
        r@ == spec_event_oprs_path(key@),
{
    event_sub_path(key, "/oprs")
}

/// The path of the event district points endpoint.
pub fn event_district_points_path<T>(key: &Key<T>) -> (r: String)
    ensures
        r@ == spec_event_district_points_path(key@),
{
    event_sub_path(key, "/district_points")
}

/// The path of the event team keys endpoint.
pub fn event_team_keys_path<T>(key: &Key<T>) -> (r: String)
    ensures
        r@ == spec_event_team_keys_path(key@),
{
    event_sub_path(key, "/teams/keys")
}

/// The path of the event team statuses endpoint.
pub fn event_team_statuses_path<T>(key: &Key<T>) -> (r: String)
    ensures
        r@ == spec_event_team_statuses_path(key@),
{
    event_sub_path(key, "/teams/statuses")
}

/// The path of the event matches endpoint.
pub fn event_matches_path<T>(key: &Key<T>) -> (r: String)
    ensures
        r@ == spec_event_matches_path(key@),
{
    event_sub_path(key, "/matches")
}

/// The path of the event match keys endpoint.
pub fn event_match_keys_path<T>(key: &Key<T>) -> (r: String)
    ensures
        r@ == spec_event_match_keys_path(key@),
{
    event_sub_path(key, "/matches/keys")
}

/// The path of the single match endpoint.
pub fn match_path<T>(key: &Key<T>) -> (r: String)
    ensures
        r@ == spec_match_path(key@),
{
    join2("match/", key.text())
}

} // verus!
