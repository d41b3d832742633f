//! The conditional-GET protocol: one client per endpoint, each owning a
//! bounded cache of `(path, value, entity tag)` entries.
//!
//! A fetch proceeds in two verified steps around one network round trip:
//!
//! 1. [`EndPointClient::prepare`] reads the cache and yields the
//!    `If-None-Match` value the request must carry, if any.
//! 2. [`EndPointClient::resolve`] interprets the response — status code,
//!    `ETag` header and decoded body — updates the cache where the protocol
//!    says so, and produces the shared value or the error.
//!
//! The transport itself (sending the request, awaiting status, headers and
//! body) is the caller's affair; the decisions are all here.

use vstd::prelude::*;
use std::sync::Arc;
use std::collections::HashMap;
use crate::error::Error;
use crate::model::event::{
    EliminationAlliance, Event, EventDistrictPoints, EventKey, EventOPRs, TeamEventStatus,
};
use crate::model::matches::{Match, MatchKey};
use crate::model::team::{SimpleTeam, Team, TeamKey};
use crate::ctx::cache::{
    EndPointCache, EndPointCacheEntry, lemma_insert_lookup, lemma_insert_preserves_other_entries,
    model_etag, model_has_key, model_insert, model_lookup, model_val, model_wf,
};

verus! {

/// The status code a server answers with when a conditional GET found the
/// cached entry still current.
pub const NOT_MODIFIED: u16 = 304;

/// Whether a status code counts as a success (the `2xx` class).
pub open spec fn is_success(status: u16) -> bool {
    200 <= status < 300
}

/// Exec mirror of [`is_success`]: whether a response body is expected and
/// must be decoded before [`EndPointClient::resolve`] is called.
pub fn wants_body(status: u16) -> (r: bool)
    ensures
        r == is_success(status),
{
    200 <= status && status < 300
}

/// The `ETag` header of a response, as handed to [`EndPointClient::resolve`].
pub enum EtagHeader {
    /// The response carried no `ETag` header.
    Absent,
    /// The header value, decoded as text.
    Text(String),
    /// The header was present but its bytes are not valid text.
    Undecodable,
}

/// The outcome of decoding a response body into the endpoint's value type.
pub enum Payload<V> {
    /// The body decoded into a value.
    Decoded(V),
    /// The body did not decode.
    Malformed,
}

/// The `If-None-Match` value a request for `k` must carry, given cache
/// model `m`: the stored tag when an entry exists, nothing otherwise.
pub open spec fn revalidation_tag_of<V>(
    m: Seq<(Seq<char>, V, Seq<char>)>,
    k: Seq<char>,
) -> Option<Seq<char>> {
    if model_has_key(m, k) {
        Some(model_etag(m, k))
    } else {
        None
    }
}

/// The cache model after one response is interpreted.  Only a success
/// whose body decoded and whose `ETag` header decoded stores an entry;
/// every other response leaves the cache exactly as it was.
pub open spec fn step_cache<V>(
    m: Seq<(Seq<char>, V, Seq<char>)>,
    cap: nat,
    key: Seq<char>,
    status: u16,
    etag: EtagHeader,
    payload: Option<Payload<V>>,
) -> Seq<(Seq<char>, V, Seq<char>)> {
    match (payload, etag) {
        (Some(Payload::Decoded(v)), EtagHeader::Text(e)) => if is_success(status) {
            model_insert(m, cap, key, v, e@)
        } else {
            m
        },
        _ => m,
    }
}

/// The value or error one response resolves to, evaluated in protocol
/// order: a `304` serves the cached value (or is a protocol violation when
/// nothing is cached); a success serves the decoded body, provided the
/// body and any `ETag` header decoded; everything else is a bad response.
pub open spec fn step_value<V>(
    m: Seq<(Seq<char>, V, Seq<char>)>,
    key: Seq<char>,
    status: u16,
    etag: EtagHeader,
    payload: Option<Payload<V>>,
) -> Result<V, Error> {
    if status == NOT_MODIFIED {
        if model_has_key(m, key) {
            Ok(model_val(m, key))
        } else {
            Err(Error::BadResponse(NOT_MODIFIED))
        }
    } else if is_success(status) {
        match payload {
            Some(Payload::Decoded(v)) => match etag {
                EtagHeader::Undecodable => Err(Error::HeaderDecodeFailure),
                _ => Ok(v),
            },
            Some(Payload::Malformed) => Err(Error::BodyDecodeFailure),
            None => arbitrary(),
        }
    } else {
        Err(Error::BadResponse(status))
    }
}

/// Law: revalidation preserves identity.  Whenever an entry `(v, e)` is
/// cached for a key, a `304` response resolves to exactly `v`, the cache
/// is untouched, and it still reports tag `e` for that key afterwards.
pub proof fn revalidation_preserves_identity<V>(
    m: Seq<(Seq<char>, V, Seq<char>)>,
    cap: nat,
    key: Seq<char>,
    etag: EtagHeader,
)
    requires
        model_wf(m, cap),
        model_has_key(m, key),
    ensures
        step_value(m, key, NOT_MODIFIED, etag, None::<Payload<V>>) == Ok::<V, Error>(
            model_val(m, key),
        ),
        step_cache(m, cap, key, NOT_MODIFIED, etag, None::<Payload<V>>) == m,
        revalidation_tag_of(step_cache(m, cap, key, NOT_MODIFIED, etag, None::<Payload<V>>), key)
            == Some(model_etag(m, key)),
{
}

/// Law: a fresh response replaces the tag.  After a success carrying body
/// `v2` and tag `e2`, the cache holds exactly `(v2, e2)` for the key, and
/// the next request for that key carries `If-None-Match: e2`.
pub proof fn fresh_response_replaces_tag<V>(
    m: Seq<(Seq<char>, V, Seq<char>)>,
    cap: nat,
    key: Seq<char>,
    status: u16,
    v2: V,
    e2: String,
)
    requires
        model_wf(m, cap),
        is_success(status),
    ensures
        step_value(m, key, status, EtagHeader::Text(e2), Some(Payload::Decoded(v2))) == Ok::<
            V,
            Error,
        >(v2),
        model_lookup(
            step_cache(m, cap, key, status, EtagHeader::Text(e2), Some(Payload::Decoded(v2))),
            key,
        ) == Some((v2, e2@)),
        revalidation_tag_of(
            step_cache(m, cap, key, status, EtagHeader::Text(e2), Some(Payload::Decoded(v2))),
            key,
        ) == Some(e2@),
{
    lemma_insert_lookup(m, cap, key, v2, e2@);
}

/// Law: a fresh response disturbs no other key.  Storing a success for
/// one key leaves every other key's entry as it was, except that a key
/// not seen before, stored at full capacity, evicts exactly the oldest
/// entry.
pub proof fn fresh_response_preserves_other_keys<V>(
    m: Seq<(Seq<char>, V, Seq<char>)>,
    cap: nat,
    key: Seq<char>,
    status: u16,
    v2: V,
    e2: String,
    k2: Seq<char>,
)
    requires
        model_wf(m, cap),
        is_success(status),
        k2 != key,
    ensures
        model_has_key(m, key) || m.len() < cap ==> model_lookup(
            step_cache(m, cap, key, status, EtagHeader::Text(e2), Some(Payload::Decoded(v2))),
            k2,
        ) == model_lookup(m, k2),
        !model_has_key(m, key) && m.len() >= cap ==> {
            &&& m[0].0 == k2 ==> model_lookup(
                step_cache(m, cap, key, status, EtagHeader::Text(e2), Some(Payload::Decoded(v2))),
                k2,
            ) is None
            &&& m[0].0 != k2 ==> model_lookup(
                step_cache(m, cap, key, status, EtagHeader::Text(e2), Some(Payload::Decoded(v2))),
                k2,
            ) == model_lookup(m, k2)
        },
{
    lemma_insert_preserves_other_entries(m, cap, key, v2, e2@, k2);
}

/// Law: a success without a tag never caches.  A `2xx` response with no
/// `ETag` header resolves to the freshly decoded value and leaves the
/// cache — every entry of it — exactly as it was.
pub proof fn no_tag_responses_never_cache<V>(
    m: Seq<(Seq<char>, V, Seq<char>)>,
    cap: nat,
    key: Seq<char>,
    status: u16,
    v2: V,
)
    requires
        model_wf(m, cap),
        is_success(status),
    ensures
        step_value(m, key, status, EtagHeader::Absent, Some(Payload::Decoded(v2))) == Ok::<
            V,
            Error,
        >(v2),
        step_cache(m, cap, key, status, EtagHeader::Absent, Some(Payload::Decoded(v2))) == m,
{
}

/// Law: failure is non-destructive.  A status that is neither a success
/// nor `304` resolves to `BadResponse` with that status, and the cache —
/// in particular any entry for the requested key — is untouched.
pub proof fn failure_is_non_destructive<V>(
    m: Seq<(Seq<char>, V, Seq<char>)>,
    cap: nat,
    key: Seq<char>,
    status: u16,
    etag: EtagHeader,
)
    requires
        model_wf(m, cap),
        !is_success(status),
        status != NOT_MODIFIED,
    ensures
        step_value(m, key, status, etag, None::<Payload<V>>) == Err::<V, Error>(
            Error::BadResponse(status),
        ),
        step_cache(m, cap, key, status, etag, None::<Payload<V>>) == m,
        model_lookup(step_cache(m, cap, key, status, etag, None::<Payload<V>>), key)
            == model_lookup(m, key),
{
}

/// Law: a bare `304` is rejected.  When nothing is cached for the key, a
/// `304` response resolves to `BadResponse(304)` and caches nothing; no
/// value is fabricated.
pub proof fn bare_not_modified_is_rejected<V>(
    m: Seq<(Seq<char>, V, Seq<char>)>,
    cap: nat,
    key: Seq<char>,
    etag: EtagHeader,
)
    requires
        model_wf(m, cap),
        !model_has_key(m, key),
    ensures
        step_value(m, key, NOT_MODIFIED, etag, None::<Payload<V>>) == Err::<V, Error>(
            Error::BadResponse(NOT_MODIFIED),
        ),
        step_cache(m, cap, key, NOT_MODIFIED, etag, None::<Payload<V>>) == m,
{
}

/// One endpoint's client: the cache for that endpoint, with the protocol
/// steps as verified methods.
pub struct EndPointClient<V> {
    cache: EndPointCache<V>,
}

impl<V> EndPointClient<V> {
    /// The cached `(path, value, tag)` triples, oldest write first.
    pub closed spec fn model(&self) -> Seq<(Seq<char>, V, Seq<char>)> {
        self.cache.model()
    }

    /// The bound on the number of cached entries.
    pub closed spec fn capacity_spec(&self) -> nat {
        self.cache.capacity_spec()
    }

    /// Structural validity of the owned cache.
    pub open spec fn wf(&self) -> bool {
        model_wf(self.model(), self.capacity_spec())
    }

    /// Whether nothing is cached yet.
    pub open spec fn is_empty(&self) -> bool {
        self.model() == Seq::<(Seq<char>, V, Seq<char>)>::empty()
    }

    /// A client with an empty cache bounded by `capacity` entries.
    pub fn new(capacity: usize) -> (r: Self)
        requires
            1 <= capacity,
        ensures
            r.wf(),
            r.is_empty(),
            r.capacity_spec() == capacity,
    {
        EndPointClient { cache: EndPointCache::new(capacity) }
    }

    /// The `If-None-Match` value the next request for `path` must carry:
    /// the stored tag when an entry is cached, nothing otherwise.
    pub fn prepare(&self, path: &String) -> (r: Option<String>)
        requires
            self.wf(),
        ensures
            match r {
                Some(e) => revalidation_tag_of(self.model(), path@) == Some(e@),
                None => revalidation_tag_of(self.model(), path@) is None,
            },
    {
        match self.cache.get(path) {
            Some(entry) => Some(entry.etag),
            None => None,
        }
    }

    /// The entry currently cached for `path`, if any, as a shared handle.
    pub fn cached(&self, path: &String) -> (r: Option<EndPointCacheEntry<Arc<V>>>)
        requires
            self.wf(),
        ensures
            match r {
                Some(entry) => model_lookup(self.model(), path@) == Some(
                    (*entry.val, entry.etag@),
                ),
                None => model_lookup(self.model(), path@) is None,
            },
    {
        self.cache.get(path)
    }

    /// Interpret one response for `path` and update the cache accordingly.
    ///
    /// `payload` is the decoded body, present exactly when the status is a
    /// success (use [`wants_body`]); on any other status the body is never
    /// read.  The cache afterwards is [`step_cache`] of the cache before,
    /// and the returned value or error is [`step_value`].
    pub fn resolve(
        &mut self,
        path: String,
        status: u16,
        etag: EtagHeader,
        payload: Option<Payload<V>>,
    ) -> (r: Result<Arc<V>, Error>)
        requires
            old(self).wf(),
            payload is Some <==> is_success(status),
        ensures
            final(self).wf(),
            final(self).capacity_spec() == old(self).capacity_spec(),
            final(self).model() == step_cache(
                old(self).model(),
                old(self).capacity_spec(),
                path@,
                status,
                etag,
                payload,
            ),
            match r {
                Ok(a) => step_value(old(self).model(), path@, status, etag, payload) == Ok::<
                    V,
                    Error,
                >(*a),
                Err(err) => step_value(old(self).model(), path@, status, etag, payload) == Err::<
                    V,
                    Error,
                >(err),
            },
    {
        if status == NOT_MODIFIED {
            match self.cache.get(&path) {
                Some(entry) => Ok(entry.val),
                None => Err(Error::BadResponse(status)),
            }
        } else if wants_body(status) {
            match payload {
                Some(Payload::Decoded(v)) => {
                    match etag {
                        EtagHeader::Text(tag) => {
                            let entry = EndPointCacheEntry { val: Arc::new(v), etag: tag };
                            let keep = entry.duplicate();
                            self.cache.insert(path, entry);
                            Ok(keep.val)
                        },
                        EtagHeader::Absent => Ok(Arc::new(v)),
                        EtagHeader::Undecodable => Err(Error::HeaderDecodeFailure),
                    }
                },
                Some(Payload::Malformed) => Err(Error::BodyDecodeFailure),
                // Excluded by the precondition: a success always carries a
                // decoded body.
                None => {
                    proof {
                        assert(false);
                    }
                    Err(Error::BodyDecodeFailure)
                },
            }
        } else {
            Err(Error::BadResponse(status))
        }
    }
}

/// How many entries each endpoint's cache holds.  A flat entry count is
/// used: dividing a byte budget by the parameter tuple's width would
/// penalize endpoints with wider keys regardless of how large their
/// cached values are.
pub const DEFAULT_CACHE_CAPACITY: usize = 1024;

/// A collection of API endpoints that each cache requests made to them.
pub struct EndPoints {
    pub teams: TeamsEndPoint,
    pub team: TeamEndPoint,
    pub event: EventEndPoint,
    pub matches: MatchEndPoint,
}

/// The clients of the `teams/...` list endpoints.
pub struct TeamsEndPoint {
    /// `teams/{page}`
    pub full_page: EndPointClient<Vec<Team>>,
    /// `teams/{page}/simple`
    pub simple_page: EndPointClient<Vec<SimpleTeam>>,
    /// `teams/{page}/keys`
    pub key_page: EndPointClient<Vec<TeamKey>>,
    /// `teams/{year}/{page}`
    pub team_by_year: EndPointClient<Vec<Team>>,
    /// `teams/{year}/{page}/simple`
    pub simple_team_by_year: EndPointClient<Vec<SimpleTeam>>,
    /// `teams/{year}/{page}/keys`
    pub keys_by_year: EndPointClient<Vec<TeamKey>>,
}

/// The clients of the `team/...` endpoints.
pub struct TeamEndPoint {
    /// `team/{key}`
    pub team: EndPointClient<Team>,
    /// `team/{key}/events/{year}/statuses`
    pub statuses_by_year: EndPointClient<HashMap<EventKey, TeamEventStatus>>,
}

/// The clients of the `event/...` endpoints.
pub struct EventEndPoint {
    /// `event/{key}`
    pub event: EndPointClient<Event>,
    /// `event/{key}/simple`
    pub simple: EndPointClient<Event>,
    /// `event/{key}/alliances`
    pub alliances: EndPointClient<Vec<EliminationAlliance>>,
    /// `event/{key}/oprs`
    pub oprs: EndPointClient<EventOPRs>,
    /// `event/{key}/district_points`
    pub district_points: EndPointClient<EventDistrictPoints>,
    /// `event/{key}/teams/keys`
    pub team_keys: EndPointClient<Vec<TeamKey>>,
    /// `event/{key}/teams/statuses`
    pub team_statuses: EndPointClient<HashMap<EventKey, TeamEventStatus>>,
    /// `event/{key}/matches`
    pub matches: EndPointClient<Vec<Match>>,
    /// `event/{key}/matches/keys`
    pub match_keys: EndPointClient<Vec<MatchKey>>,
}

/// The client of the `match/{key}` endpoint.
pub struct MatchEndPoint {
    /// `match/{key}`
    pub matches: EndPointClient<Match>,
}

impl EndPoints {
    /// Every endpoint cache is empty, as at construction.
    pub open spec fn fresh(&self) -> bool {
        &&& self.teams.full_page.is_empty()
        &&& self.teams.simple_page.is_empty()
        &&& self.teams.key_page.is_empty()
        &&& self.teams.team_by_year.is_empty()
        &&& self.teams.simple_team_by_year.is_empty()
        &&& self.teams.keys_by_year.is_empty()
        &&& self.team.team.is_empty()
        &&& self.team.statuses_by_year.is_empty()
        &&& self.event.event.is_empty()
        &&& self.event.simple.is_empty()
        &&& self.event.alliances.is_empty()
        &&& self.event.oprs.is_empty()
        &&& self.event.district_points.is_empty()
        &&& self.event.team_keys.is_empty()
        &&& self.event.team_statuses.is_empty()
        &&& self.event.matches.is_empty()
        &&& self.event.match_keys.is_empty()
        &&& self.matches.matches.is_empty()
    }

    /// Every endpoint cache is structurally valid.
    pub open spec fn wf(&self) -> bool {
        &&& self.teams.full_page.wf()
        &&& self.teams.simple_page.wf()
        &&& self.teams.key_page.wf()
        &&& self.teams.team_by_year.wf()
        &&& self.teams.simple_team_by_year.wf()
        &&& self.teams.keys_by_year.wf()
        &&& self.team.team.wf()
        &&& self.team.statuses_by_year.wf()
        &&& self.event.event.wf()
        &&& self.event.simple.wf()
        &&& self.event.alliances.wf()
        &&& self.event.oprs.wf()
        &&& self.event.district_points.wf()
        &&& self.event.team_keys.wf()
        &&& self.event.team_statuses.wf()
        &&& self.event.matches.wf()
        &&& self.event.match_keys.wf()
        &&& self.matches.matches.wf()
    }

    /// The registry with one empty cache per endpoint.
    pub fn new() -> (r: Self)
        ensures
            r.wf(),
            r.fresh(),
    {
        EndPoints {
            teams: TeamsEndPoint {
                full_page: EndPointClient::new(DEFAULT_CACHE_CAPACITY),
                simple_page: EndPointClient::new(DEFAULT_CACHE_CAPACITY),
                key_page: EndPointClient::new(DEFAULT_CACHE_CAPACITY),
                team_by_year: EndPointClient::new(DEFAULT_CACHE_CAPACITY),
                simple_team_by_year: EndPointClient::new(DEFAULT_CACHE_CAPACITY),
                keys_by_year: EndPointClient::new(DEFAULT_CACHE_CAPACITY),
            },
            team: TeamEndPoint {
                team: EndPointClient::new(DEFAULT_CACHE_CAPACITY),
                statuses_by_year: EndPointClient::new(DEFAULT_CACHE_CAPACITY),
            },
            event: EventEndPoint {
                event: EndPointClient::new(DEFAULT_CACHE_CAPACITY),
                simple: EndPointClient::new(DEFAULT_CACHE_CAPACITY),
                alliances: EndPointClient::new(DEFAULT_CACHE_CAPACITY),
                oprs: EndPointClient::new(DEFAULT_CACHE_CAPACITY),
                district_points: EndPointClient::new(DEFAULT_CACHE_CAPACITY),
                team_keys: EndPointClient::new(DEFAULT_CACHE_CAPACITY),
                team_statuses: EndPointClient::new(DEFAULT_CACHE_CAPACITY),
                matches: EndPointClient::new(DEFAULT_CACHE_CAPACITY),
                match_keys: EndPointClient::new(DEFAULT_CACHE_CAPACITY),
            },
            matches: MatchEndPoint { matches: EndPointClient::new(DEFAULT_CACHE_CAPACITY) },
        }
    }
}

impl Default for EndPoints {
    /// The same registry as [`EndPoints::new`].
    fn default() -> (r: Self)
        ensures
            r.wf(),
            r.fresh(),
    {
        EndPoints::new()
    }
}

} // verus!
