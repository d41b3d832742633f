//! Match resources: the values served by the `match/...` and
//! `event/.../matches` endpoints.

use vstd::prelude::*;
use crate::model::event::{EventKey, PlayoffLevel};
use crate::model::id::Key;
use crate::model::team::TeamKey;
use crate::model::Timestamp;
use crate::text::eq_str;

verus! {

/// The resource kind that [`MatchKey`]s reference.
#[derive(Clone, Copy, Debug)]
pub struct MatchKind;

/// The key type referencing a [`Match`].
pub type MatchKey = Key<MatchKind>;

/// Which alliance won a match, carried on the wire as a short name
/// (the empty string stands for a tie).
#[derive(Clone, Copy, Debug, PartialEq, Eq, Structural)]
pub enum MatchWinner {
    Red,
    Blue,
    Tie,
}

impl MatchWinner {
    /// The winner a wire name stands for, if any.
    pub open spec fn spec_parse(s: Seq<char>) -> Option<MatchWinner> {
        if s == "red"@ {
            Some(MatchWinner::Red)
        } else if s == "blue"@ {
            Some(MatchWinner::Blue)
        } else if s == ""@ {
            Some(MatchWinner::Tie)
        } else {
            None
        }
    }

    /// Decode a wire name.
    pub fn parse(s: &str) -> (r: Option<MatchWinner>)
        ensures
            r == MatchWinner::spec_parse(s@),
    {
        if eq_str(s, "red") {
            Some(MatchWinner::Red)
        } else if eq_str(s, "blue") {
            Some(MatchWinner::Blue)
        } else if eq_str(s, "") {
            Some(MatchWinner::Tie)
        } else {
            None
        }
    }
}

/// One played or scheduled match.
#[derive(Clone, Debug)]
pub struct Match {
    pub key: MatchKey,
    pub comp_level: PlayoffLevel,
    pub set_number: u32,
    pub match_number: u32,
    pub alliances: MatchAlliances,
    pub winning_alliance: MatchWinner,
    pub event_key: EventKey,
    pub time: Timestamp,
    pub actual_time: Timestamp,
    pub predicted_time: Timestamp,
    pub post_result_time: Timestamp,
    pub videos: Vec<MatchVideo>,
}

/// Where a match video is hosted, carried on the wire as a short name.
#[derive(Clone, Copy, Debug, PartialEq, Eq, Structural)]
pub enum MatchVideoType {
    Youtube,
    TBA,
}

impl MatchVideoType {
    /// The video host a wire name stands for, if any.
    pub open spec fn spec_parse(s: Seq<char>) -> Option<MatchVideoType> {
        if s == "youtube"@ {
            Some(MatchVideoType::Youtube)
        } else if s == "tba"@ {
            Some(MatchVideoType::TBA)
        } else {
            None
        }
    }

    /// Decode a wire name.
    pub fn parse(s: &str) -> (r: Option<MatchVideoType>)
        ensures
            r == MatchVideoType::spec_parse(s@),
    {
        if eq_str(s, "youtube") {
            Some(MatchVideoType::Youtube)
        } else if eq_str(s, "tba") {
            Some(MatchVideoType::TBA)
        } else {
            None
        }
    }
}

/// One video of a match.
#[derive(Clone, Debug)]
pub struct MatchVideo {
    pub type_: MatchVideoType,
    pub key: String,
}

/// The two alliances of a match.
#[derive(Clone, Debug)]
pub struct MatchAlliances {
    pub red: MatchAlliance,
    pub blue: MatchAlliance,
}

/// One alliance of a match.
#[derive(Clone, Debug)]
pub struct MatchAlliance {
    pub score: Option<i32>,
    pub team_keys: Vec<TeamKey>,
    pub surrogate_team_keys: Vec<TeamKey>,
    pub dq_team_keys: Vec<TeamKey>,
}

} // verus!
