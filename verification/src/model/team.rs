//! Team resources: the values served by the `teams/...` and `team/...`
//! endpoints.  These are schema descriptions; the cache treats them as
//! opaque values.

use vstd::prelude::*;
use crate::model::id::{Key, TeamNumber};
use crate::model::{Millionths, Year};

verus! {

/// The resource kind that [`TeamKey`]s reference.
#[derive(Clone, Copy, Debug)]
pub struct TeamKind;

/// The key type referencing a [`Team`].
pub type TeamKey = Key<TeamKind>;

/// The opaque key of a robot entry.
#[derive(Clone, Debug)]
pub struct RobotKey(pub String);

/// Basic data about an FRC team.
#[derive(Clone, Debug)]
pub struct SimpleTeam {
    pub key: TeamKey,
    pub team_number: TeamNumber,
    pub nickame: Option<String>,
    pub name: String,
    pub city: Option<String>,
    pub state_prov: Option<String>,
    pub country: Option<String>,
}

/// A team object containing more data than a [`SimpleTeam`].
#[derive(Clone, Debug)]
pub struct Team {
    pub simple: SimpleTeam,
    pub address: Option<String>,
    pub postal_code: Option<String>,
    pub gmaps_place_id: Option<String>,
    pub gmaps_url: Option<String>,
    pub lat: Option<Millionths>,
    pub lng: Option<Millionths>,
    pub location_name: Option<String>,
    pub website: Option<String>,
    pub rookie_year: Option<Year>,
    pub motto: Option<String>,
    pub home_championship: Option<HomeChampionshipsList>,
}

/// A list of `(year, location)` pairs naming a team's home championship,
/// in the order the wire map lists them.
#[derive(Clone, Debug)]
pub struct HomeChampionshipsList(pub Vec<(u16, String)>);

impl HomeChampionshipsList {
    /// Collect the entries of the wire map, kept in their wire order.
    pub fn from_entries(entries: Vec<(u16, String)>) -> (r: Self)
        ensures
            r.0@ == entries@,
    {
        HomeChampionshipsList(entries)
    }

    /// The number of listed years.
    pub fn len(&self) -> (r: usize)
        ensures
            r == self.0@.len(),
    {
        self.0.len()
    }
}

/// A robot that competed in a given [`Year`], with its name and the key of
/// the team that built it.
#[derive(Clone, Debug)]
pub struct TeamRobot {
    pub year: Year,
    pub robot_name: String,
    pub key: RobotKey,
    pub team_key: TeamKey,
}

} // verus!
