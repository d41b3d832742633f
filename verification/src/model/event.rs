//! Event resources: the values served by the `event/...` endpoints, and
//! the statuses a team can hold at an event.  The enums that travel as
//! wire codes come with verified conversions.

use vstd::prelude::*;
use std::collections::HashMap;
use crate::model::id::Key;
use crate::model::team::TeamKey;
use crate::model::{Date, Millionths, Year};
use crate::text::eq_str;

verus! {

/// The resource kind that [`EventKey`]s reference.
#[derive(Clone, Copy, Debug)]
pub struct EventKind;

/// The key type referencing an [`Event`].
pub type EventKey = Key<EventKind>;

/// The kind of an event, carried on the wire as a small signed code.
#[derive(Clone, Copy, Debug, PartialEq, Eq, Structural)]
pub enum EventType {
    Regional,
    District,
    DistrictCmp,
    CmpDivision,
    CmpFinals,
    DistrictCmpDivision,
    FOC,
    Remote,
    Offseason,
    Preseason,
    Unlabeled,
}

impl EventType {
    /// The wire code of each event kind.
    pub open spec fn spec_code(self) -> i8 {
        match self {
            EventType::Regional => 0,
            EventType::District => 1,
            EventType::DistrictCmp => 2,
            EventType::CmpDivision => 3,
            EventType::CmpFinals => 4,
            EventType::DistrictCmpDivision => 5,
            EventType::FOC => 6,
            EventType::Remote => 7,
            EventType::Offseason => 99,
            EventType::Preseason => 100,
            EventType::Unlabeled => -1i8,
        }
    }

    /// The event kind a wire code stands for, if any.
    pub open spec fn spec_from_code(code: i8) -> Option<EventType> {
        if code == 0 {
            Some(EventType::Regional)
        } else if code == 1 {
            Some(EventType::District)
        } else if code == 2 {
            Some(EventType::DistrictCmp)
        } else if code == 3 {
            Some(EventType::CmpDivision)
        } else if code == 4 {
            Some(EventType::CmpFinals)
        } else if code == 5 {
            Some(EventType::DistrictCmpDivision)
        } else if code == 6 {
            Some(EventType::FOC)
        } else if code == 7 {
            Some(EventType::Remote)
        } else if code == 99 {
            Some(EventType::Offseason)
        } else if code == 100 {
            Some(EventType::Preseason)
        } else if code == -1 {
            Some(EventType::Unlabeled)
        } else {
            None
        }
    }

    /// The wire code of this event kind.
    pub fn code(self) -> (r: i8)
        ensures
            r == self.spec_code(),
    {
        match self {
            EventType::Regional => 0,
            EventType::District => 1,
            EventType::DistrictCmp => 2,
            EventType::CmpDivision => 3,
            EventType::CmpFinals => 4,
            EventType::DistrictCmpDivision => 5,
            EventType::FOC => 6,
            EventType::Remote => 7,
            EventType::Offseason => 99,
            EventType::Preseason => 100,
            EventType::Unlabeled => -1i8,
        }
    }

    /// Decode a wire code.
    pub fn from_code(code: i8) -> (r: Option<EventType>)
        ensures
            r == EventType::spec_from_code(code),
    {
        match code {
            0 => Some(EventType::Regional),
            1 => Some(EventType::District),
            2 => Some(EventType::DistrictCmp),
            3 => Some(EventType::CmpDivision),
            4 => Some(EventType::CmpFinals),
            5 => Some(EventType::DistrictCmpDivision),
            6 => Some(EventType::FOC),
            7 => Some(EventType::Remote),
            99 => Some(EventType::Offseason),
            100 => Some(EventType::Preseason),
            -1 => Some(EventType::Unlabeled),
            _ => None,
        }
    }
}

/// Decoding the code of an event kind gives that kind back.
pub proof fn lemma_event_type_code_roundtrip(t: EventType)
    ensures
        EventType::spec_from_code(t.spec_code()) == Some(t),
{
}

/// Basic data about an event.
#[derive(Clone, Debug)]
pub struct SimpleEvent {
    pub key: EventKey,
    pub name: String,
    pub event_code: String,
    pub event_type: EventType,
    pub district: Option<DistrictList>,
    pub city: Option<String>,
    pub state_prov: Option<String>,
    pub country: Option<String>,
    pub start_date: Date,
    pub end_date: Date,
    pub year: Year,
}

/// A district an event belongs to.
#[derive(Clone, Debug)]
pub struct DistrictList {
    pub abbreviation: String,
    pub display_name: String,
    pub key: String,
    pub year: Year,
}

/// A full event record.
#[derive(Clone, Debug)]
pub struct Event {
    pub simple: SimpleEvent,
    pub short_name: Option<String>,
    pub event_type_string: String,
    pub week: Option<u32>,
    pub address: Option<String>,
    pub postal_code: Option<String>,
    pub gmaps_place_id: Option<String>,
    pub gmaps_url: Option<String>,
    pub lat: Option<Millionths>,
    pub lng: Option<Millionths>,
    pub location_name: Option<String>,
    pub timezone: Option<String>,
    pub website: Option<String>,
    pub first_event_id: Option<String>,
    pub first_event_code: Option<String>,
    pub webcasts: Vec<WebCast>,
    pub division_keys: Vec<EventKey>,
    pub parent_event_key: String,
    pub playoff_type: Option<PlayoffType>,
    pub playoff_type_string: Option<String>,
}

/// Where a webcast is hosted, carried on the wire as a short name.
#[derive(Clone, Copy, Debug, PartialEq, Eq, Structural)]
pub enum WebCastType {
    Youtube,
    Twitch,
    Ustream,
    Iframe,
    Html5,
    Rtmp,
    Livestream,
    DirectLink,
    Mms,
    Justin,
    Stemtv,
    Dacast,
}

impl WebCastType {
    /// The webcast kind a wire name stands for, if any.
    pub open spec fn spec_parse(s: Seq<char>) -> Option<WebCastType> {
        if s == "youtube"@ {
            Some(WebCastType::Youtube)
        } else if s == "twitch"@ {
            Some(WebCastType::Twitch)
        } else if s == "ustream"@ {
            Some(WebCastType::Ustream)
        } else if s == "iframe"@ {
            Some(WebCastType::Iframe)
        } else if s == "html5"@ {
            Some(WebCastType::Html5)
        } else if s == "rtmp"@ {
            Some(WebCastType::Rtmp)
        } else if s == "livestream"@ {
            Some(WebCastType::Livestream)
        } else if s == "direct_link"@ {
            Some(WebCastType::DirectLink)
        } else if s == "mms"@ {
            Some(WebCastType::Mms)
        } else if s == "justin"@ {
            Some(WebCastType::Justin)
        } else if s == "stemtv"@ {
            Some(WebCastType::Stemtv)
        } else if s == "dacast"@ {
            Some(WebCastType::Dacast)
        } else {
            None
        }
    }

    /// Decode a wire name.
    pub fn parse(s: &str) -> (r: Option<WebCastType>)
        ensures
            r == WebCastType::spec_parse(s@),
    {
        if eq_str(s, "youtube") {
            Some(WebCastType::Youtube)
        } else if eq_str(s, "twitch") {
            Some(WebCastType::Twitch)
        } else if eq_str(s, "ustream") {
            Some(WebCastType::Ustream)
        } else if eq_str(s, "iframe") {
            Some(WebCastType::Iframe)
        } else if eq_str(s, "html5") {
            Some(WebCastType::Html5)
        } else if eq_str(s, "rtmp") {
            Some(WebCastType::Rtmp)
        } else if eq_str(s, "livestream") {
            Some(WebCastType::Livestream)
        } else if eq_str(s, "direct_link") {
            Some(WebCastType::DirectLink)
        } else if eq_str(s, "mms") {
            Some(WebCastType::Mms)
        } else if eq_str(s, "justin") {
            Some(WebCastType::Justin)
        } else if eq_str(s, "stemtv") {
            Some(WebCastType::Stemtv)
        } else if eq_str(s, "dacast") {
            Some(WebCastType::Dacast)
        } else {
            None
        }
    }
}

/// The playoff format of an event, carried on the wire as a small code.
#[derive(Clone, Copy, Debug, PartialEq, Eq, Structural)]
pub enum PlayoffType {
    Bracket8Team,
    Bracket16Team,
    Bracket4Team,
    AvgScore8Team,
    RoundRobin6Team,
    DoubleElim8Team,
    Bo5Finals,
    Bo3Finals,
    Custom,
}

impl PlayoffType {
    /// The wire code of each playoff format.
    pub open spec fn spec_code(self) -> u8 {
        match self {
            PlayoffType::Bracket8Team => 0,
            PlayoffType::Bracket16Team => 1,
            PlayoffType::Bracket4Team => 2,
            PlayoffType::AvgScore8Team => 3,
            PlayoffType::RoundRobin6Team => 4,
            PlayoffType::DoubleElim8Team => 5,
            PlayoffType::Bo5Finals => 6,
            PlayoffType::Bo3Finals => 7,
            PlayoffType::Custom => 8,
        }
    }

    /// The playoff format a wire code stands for, if any.
    pub open spec fn spec_from_code(code: u8) -> Option<PlayoffType> {
        if code == 0 {
            Some(PlayoffType::Bracket8Team)
        } else if code == 1 {
            Some(PlayoffType::Bracket16Team)
        } else if code == 2 {
            Some(PlayoffType::Bracket4Team)
        } else if code == 3 {
            Some(PlayoffType::AvgScore8Team)
        } else if code == 4 {
            Some(PlayoffType::RoundRobin6Team)
        } else if code == 5 {
            Some(PlayoffType::DoubleElim8Team)
        } else if code == 6 {
            Some(PlayoffType::Bo5Finals)
        } else if code == 7 {
            Some(PlayoffType::Bo3Finals)
        } else if code == 8 {
            Some(PlayoffType::Custom)
        } else {
            None
        }
    }

    /// The wire code of this playoff format.
    pub fn code(self) -> (r: u8)
        ensures
            r == self.spec_code(),
    {
        match self {
            PlayoffType::Bracket8Team => 0,
            PlayoffType::Bracket16Team => 1,
            PlayoffType::Bracket4Team => 2,
            PlayoffType::AvgScore8Team => 3,
            PlayoffType::RoundRobin6Team => 4,
            PlayoffType::DoubleElim8Team => 5,
            PlayoffType::Bo5Finals => 6,
            PlayoffType::Bo3Finals => 7,
            PlayoffType::Custom => 8,
        }
    }

    /// Decode a wire code.
    pub fn from_code(code: u8) -> (r: Option<PlayoffType>)
        ensures
            r == PlayoffType::spec_from_code(code),
    {
        match code {
            0 => Some(PlayoffType::Bracket8Team),
            1 => Some(PlayoffType::Bracket16Team),
            2 => Some(PlayoffType::Bracket4Team),
            3 => Some(PlayoffType::AvgScore8Team),
            4 => Some(PlayoffType::RoundRobin6Team),
            5 => Some(PlayoffType::DoubleElim8Team),
            6 => Some(PlayoffType::Bo5Finals),
            7 => Some(PlayoffType::Bo3Finals),
            8 => Some(PlayoffType::Custom),
            _ => None,
        }
    }
}

/// Decoding the code of a playoff format gives that format back.
pub proof fn lemma_playoff_type_code_roundtrip(t: PlayoffType)
    ensures
        PlayoffType::spec_from_code(t.spec_code()) == Some(t),
{
}

/// One webcast of an event.
#[derive(Clone, Debug)]
pub struct WebCast {
    pub type_: WebCastType,
    pub channel: String,
    pub date: Option<Date>,
    pub file: Option<String>,
    pub division_keys: Option<Vec<EventKey>>,
    pub parent_event_key: Option<EventKey>,
    pub playoff_type: Option<PlayoffType>,
    pub playoff_type_string: Option<String>,
}

/// The alliance a team belonged to at an event.
#[derive(Clone, Debug)]
pub struct TeamEventStatusAlliance {
    pub name: Option<String>,
    pub number: u16,
    pub backup: Option<TeamEventStatusAllianceBackup>,
    pub pick: u8,
}

/// A backup call-up within an alliance.
#[derive(Clone, Debug)]
pub struct TeamEventStatusAllianceBackup {
    pub out: Option<TeamKey>,
    pub in_: Option<TeamKey>,
}

/// The level a playoff run reached, carried on the wire as a short name.
#[derive(Clone, Copy, Debug, PartialEq, Eq, Structural)]
pub enum PlayoffLevel {
    QM,
    EF,
    QF,
    SF,
    F,
}

impl PlayoffLevel {
    /// The playoff level a wire name stands for, if any.
    pub open spec fn spec_parse(s: Seq<char>) -> Option<PlayoffLevel> {
        if s == "qm"@ {
            Some(PlayoffLevel::QM)
        } else if s == "ef"@ {
            Some(PlayoffLevel::EF)
        } else if s == "qf"@ {
            Some(PlayoffLevel::QF)
        } else if s == "sf"@ {
            Some(PlayoffLevel::SF)
        } else if s == "f"@ {
            Some(PlayoffLevel::F)
        } else {
            None
        }
    }

    /// Decode a wire name.
    pub fn parse(s: &str) -> (r: Option<PlayoffLevel>)
        ensures
            r == PlayoffLevel::spec_parse(s@),
    {
        if eq_str(s, "qm") {
            Some(PlayoffLevel::QM)
        } else if eq_str(s, "ef") {
            Some(PlayoffLevel::EF)
        } else if eq_str(s, "qf") {
            Some(PlayoffLevel::QF)
        } else if eq_str(s, "sf") {
            Some(PlayoffLevel::SF)
        } else if eq_str(s, "f") {
            Some(PlayoffLevel::F)
        } else {
            None
        }
    }
}

/// How a playoff run ended, carried on the wire as a short name.
#[derive(Clone, Copy, Debug, PartialEq, Eq, Structural)]
pub enum PlayoffStatus {
    Won,
    Eliminated,
    Playing,
}

impl PlayoffStatus {
    /// The playoff status a wire name stands for, if any.
    pub open spec fn spec_parse(s: Seq<char>) -> Option<PlayoffStatus> {
        if s == "won"@ {
            Some(PlayoffStatus::Won)
        } else if s == "eliminated"@ {
            Some(PlayoffStatus::Eliminated)
        } else if s == "playing"@ {
            Some(PlayoffStatus::Playing)
        } else {
            None
        }
    }

    /// Decode a wire name.
    pub fn parse(s: &str) -> (r: Option<PlayoffStatus>)
        ensures
            r == PlayoffStatus::spec_parse(s@),
    {
        if eq_str(s, "won") {
            Some(PlayoffStatus::Won)
        } else if eq_str(s, "eliminated") {
            Some(PlayoffStatus::Eliminated)
        } else if eq_str(s, "playing") {
            Some(PlayoffStatus::Playing)
        } else {
            None
        }
    }
}

/// A team's playoff standing at an event.
#[derive(Clone, Debug)]
pub struct TeamEventStatusPlayoff {
    pub level: PlayoffLevel,
    pub current_level_record: WLTRecord,
    pub record: WLTRecord,
    pub status: String,
}

/// A team's qualification ranking at an event.
#[derive(Clone, Debug)]
pub struct TeamEventStatusRank {
    pub num_teams: Option<u16>,
    pub ranking: Option<TeamEventStatusRankRanking>,
    pub sort_order_info: Option<Vec<TeamEventStatusRankSortOrderInfo>>,
    pub status: Option<String>,
}

/// How one ranking sort order is labelled.
#[derive(Clone, Debug)]
pub struct TeamEventStatusRankSortOrderInfo {
    pub precision: Option<u16>,
    pub name: Option<String>,
}

/// One row of a qualification ranking.
#[derive(Clone, Debug)]
pub struct TeamEventStatusRankRanking {
    pub matches_played: Option<u16>,
    pub qual_average: Option<Millionths>,
    pub sort_orders: Option<Vec<Millionths>>,
    pub record: Option<WLTRecord>,
    pub rank: Option<u32>,
    pub dq: Option<u32>,
    pub team_key: Option<TeamKey>,
}

/// A Win-Loss-Tie record for a team or alliance.
#[derive(Clone, Debug)]
pub struct WLTRecord {
    pub losses: Option<u16>,
    pub wins: Option<u16>,
    pub ties: Option<u16>,
}

/// A team's full status at one event.
#[derive(Clone, Debug)]
pub struct TeamEventStatus {
    pub qual: TeamEventStatusRank,
    pub alliance: TeamEventStatusAlliance,
}

/// One alliance of an event's elimination bracket.
#[derive(Clone, Debug)]
pub struct EliminationAlliance {
    pub name: Option<String>,
    pub backup: Option<TeamEventStatusAllianceBackup>,
    pub declined: Vec<TeamKey>,
    pub picks: Vec<TeamKey>,
    pub status: EliminationAllianceStatus,
}

/// The rating tables of an event.
#[derive(Clone, Debug)]
pub struct EventOPRs {
    pub oprs: HashMap<TeamKey, Millionths>,
    pub dprs: HashMap<TeamKey, Millionths>,
    pub ccwms: HashMap<TeamKey, Millionths>,
}

/// How an elimination alliance fared.
#[derive(Clone, Debug)]
pub struct EliminationAllianceStatus {
    pub playoff_average: Millionths,
    pub team_event: TeamEventStatusPlayoff,
}

/// The district points an event awarded.
#[derive(Clone, Debug)]
pub struct EventDistrictPoints {
    pub points: HashMap<TeamKey, EventDistrictPointsPoints>,
    pub tiebreakers: HashMap<TeamKey, EventDistrictPointsTiebreaker>,
}

/// The point breakdown for one team at one event.
#[derive(Clone, Debug)]
pub struct EventDistrictPointsPoints {
    pub total: i32,
    pub alliance_points: i32,
    pub elim_points: i32,
    pub award_points: i32,
    pub qual_points: i32,
}

/// The tiebreaker data for one team at one event.
#[derive(Clone, Debug)]
pub struct EventDistrictPointsTiebreaker {
    pub highest_qual_scores: Vec<i32>,
    pub qual_wins: u32,
}

} // verus!
