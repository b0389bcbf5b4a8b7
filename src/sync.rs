//! The sync orchestrator as a state machine. The caller performs each action
//! (observes the IP, writes the cache, sends a request) and hands the outcome
//! back as the next event; the machine decides what comes next.
use vstd::prelude::*;
use crate::client::{
    Method, Request, api_base, bearer, zones_url, records_url, record_url, groups_url, group_url,
    record_update, record_update_model,
};
use crate::error::CloudflareError;
use crate::json::{Json, JsonModel, Fields, fields_of};
use crate::resolve::{first_id, first_id_of, resolve_group, unique_id_of, records_of};
use crate::rules::{substitute_ip, substituted};

verus! {

/// Run-scoped settings.
pub struct Config {
    pub record_name: String,
    pub zone_name: Option<String>,
    pub group_name: Option<String>,
    /// Whether the access group is brought in step as well.
    pub update_access: bool,
    /// Whether a run goes on when the observed IP is the cached one, to
    /// assert the record again; when off, such a run ends at once.
    pub reassert_unchanged_ip: bool,
}

/// The bearer tokens: one for DNS calls, one for access-group calls.
pub struct Credentials {
    pub token: Option<String>,
    pub bypass_token: Option<String>,
}

/// What is kept between runs: the last IP pushed and the identifiers
/// resolved so far. An identifier that is present skips its lookup.
pub struct CachedState {
    pub ip_address: Option<String>,
    pub zone_id: Option<String>,
    pub record_id: Option<String>,
    pub account_id: Option<String>,
    pub group_id: Option<String>,
}

/// Why a run failed.
#[derive(Debug, Clone, Copy, PartialEq, Eq, Structural)]
pub enum SyncError {
    /// A provider call failed, or its answer did not serve.
    Provider(CloudflareError),
    /// The cache could not be written after the IP changed.
    CacheWrite,
    /// A setting, token or identifier that this run needs is absent.
    MissingSetting,
    /// An event came that the current step does not wait for.
    UnexpectedEvent,
}

/// Where a run stands.
#[derive(Debug, Clone, Copy, PartialEq, Eq, Structural)]
pub enum Phase {
    ObservingIp,
    SavingIp,
    FindingZone,
    FindingRecord,
    UpdatingRecord,
    FindingGroup,
    FetchingGroup,
    UpdatingGroup,
    SavingIds,
    Done,
}

/// What the caller reports back.
pub enum Event {
    /// The public IP that was observed.
    IpObserved(String),
    /// Whether the cache was written.
    CacheWritten(bool),
    /// The normalised answer to the last request.
    Answer(Result<Vec<Vec<(String, Json)>>, CloudflareError>),
}

/// What the caller is asked to do next.
pub enum Action {
    ObserveIp,
    WriteCache(CachedState),
    Send(Request),
    /// The run is over, with this outcome.
    Finish(Result<(), SyncError>),
}

/// The state of one run.
pub struct Orchestrator {
    pub phase: Phase,
    pub config: Config,
    pub credentials: Credentials,
    pub cache: CachedState,
    /// The IP observed in this run.
    pub ip: String,
    pub zone_id: String,
    pub record_id: String,
    pub group_id: String,
}

pub open spec fn opt_model(o: Option<String>) -> Option<Seq<char>> {
    match o {
        Some(s) => Some(s@),
        None => None,
    }
}

pub struct ConfigModel {
    pub record_name: Seq<char>,
    pub zone_name: Option<Seq<char>>,
    pub group_name: Option<Seq<char>>,
    pub update_access: bool,
    pub reassert_unchanged_ip: bool,
}

pub struct CacheModel {
    pub ip_address: Option<Seq<char>>,
    pub zone_id: Option<Seq<char>>,
    pub record_id: Option<Seq<char>>,
    pub account_id: Option<Seq<char>>,
    pub group_id: Option<Seq<char>>,
}

pub struct RequestModel {
    pub method: Method,
    pub url: Seq<char>,
    pub authorization: Seq<char>,
    pub body: Option<JsonModel>,
}

pub enum EventModel {
    IpObserved(Seq<char>),
    CacheWritten(bool),
    Answer(Result<Seq<Fields>, CloudflareError>),
}

pub enum ActionModel {
    ObserveIp,
    WriteCache(CacheModel),
    Send(RequestModel),
    Finish(Result<(), SyncError>),
}

pub struct SyncModel {
    pub phase: Phase,
    pub config: ConfigModel,
    pub token: Option<Seq<char>>,
    pub bypass_token: Option<Seq<char>>,
    pub cache: CacheModel,
    pub ip: Seq<char>,
    pub zone_id: Seq<char>,
    pub record_id: Seq<char>,
    pub group_id: Seq<char>,
}

impl Config {
    pub open spec fn model(self) -> ConfigModel {
        ConfigModel {
            record_name: self.record_name@,
            zone_name: opt_model(self.zone_name),
            group_name: opt_model(self.group_name),
            update_access: self.update_access,
            reassert_unchanged_ip: self.reassert_unchanged_ip,
        }
    }
}

impl CachedState {
    pub open spec fn model(self) -> CacheModel {
        CacheModel {
            ip_address: opt_model(self.ip_address),
            zone_id: opt_model(self.zone_id),
            record_id: opt_model(self.record_id),
            account_id: opt_model(self.account_id),
            group_id: opt_model(self.group_id),
        }
    }
}

impl Request {
    pub open spec fn model(self) -> RequestModel {
        RequestModel {
            method: self.method,
            url: self.url@,
            authorization: self.authorization@,
            body: match self.body {
                Some(j) => Some(j.model()),
                None => None,
            },
        }
    }
}

impl Event {
    pub open spec fn model(self) -> EventModel {
        match self {
            Event::IpObserved(ip) => EventModel::IpObserved(ip@),
            Event::CacheWritten(ok) => EventModel::CacheWritten(ok),
            Event::Answer(Ok(v)) => EventModel::Answer(Ok(records_of(v@))),
            Event::Answer(Err(e)) => EventModel::Answer(Err(e)),
        }
    }
}

impl Action {
    pub open spec fn model(self) -> ActionModel {
        match self {
            Action::ObserveIp => ActionModel::ObserveIp,
            Action::WriteCache(c) => ActionModel::WriteCache(c.model()),
            Action::Send(r) => ActionModel::Send(r.model()),
            Action::Finish(r) => ActionModel::Finish(r),
        }
    }
}

impl Orchestrator {
    pub open spec fn model(self) -> SyncModel {
        SyncModel {
            phase: self.phase,
            config: self.config.model(),
            token: opt_model(self.credentials.token),
            bypass_token: opt_model(self.credentials.bypass_token),
            cache: self.cache.model(),
            ip: self.ip@,
            zone_id: self.zone_id@,
            record_id: self.record_id@,
            group_id: self.group_id@,
        }
    }
}

pub open spec fn get_model(url: Seq<char>, token: Seq<char>) -> RequestModel {
    RequestModel { method: Method::Get, url, authorization: "Bearer "@ + token, body: None }
}

pub open spec fn put_model(url: Seq<char>, token: Seq<char>, body: JsonModel) -> RequestModel {
    RequestModel { method: Method::Put, url, authorization: "Bearer "@ + token, body: Some(body) }
}

pub open spec fn zones_url_model(zone_name: Seq<char>) -> Seq<char> {
    api_base() + "zones?name="@ + zone_name
}

pub open spec fn records_url_model(zone_id: Seq<char>, record_name: Seq<char>) -> Seq<char> {
    api_base() + "zones/"@ + zone_id + "/dns_records?name="@ + record_name
}

pub open spec fn record_url_model(zone_id: Seq<char>, record_id: Seq<char>) -> Seq<char> {
    api_base() + "zones/"@ + zone_id + "/dns_records/"@ + record_id
}

pub open spec fn groups_url_model(account_id: Seq<char>) -> Seq<char> {
    api_base() + "accounts/"@ + account_id + "/access/groups"@
}

pub open spec fn group_url_model(account_id: Seq<char>, group_id: Seq<char>) -> Seq<char> {
    api_base() + "accounts/"@ + account_id + "/access/groups/"@ + group_id
}

/// The run ends with `e`.
pub open spec fn fail(s: SyncModel, e: SyncError) -> (SyncModel, ActionModel) {
    (SyncModel { phase: Phase::Done, ..s }, ActionModel::Finish(Err(e)))
}

/// The DNS record update, once both identifiers are known.
pub open spec fn update_record(s: SyncModel) -> (SyncModel, ActionModel) {
    match s.token {
        None => fail(s, SyncError::MissingSetting),
        Some(token) => (
            SyncModel { phase: Phase::UpdatingRecord, ..s },
            ActionModel::Send(
                put_model(
                    record_url_model(s.zone_id, s.record_id),
                    token,
                    JsonModel::Object(record_update_model(s.zone_id, s.config.record_name, s.ip)),
                ),
            ),
        ),
    }
}

/// The lookup of the record by name, once the zone is known.
pub open spec fn find_record(s: SyncModel) -> (SyncModel, ActionModel) {
    match s.token {
        None => fail(s, SyncError::MissingSetting),
        Some(token) => (
            SyncModel { phase: Phase::FindingRecord, ..s },
            ActionModel::Send(get_model(records_url_model(s.zone_id, s.config.record_name), token)),
        ),
    }
}

/// The final cache write: the IP and every identifier resolved in this run.
pub open spec fn save_ids(s: SyncModel, with_group: bool) -> (SyncModel, ActionModel) {
    let c = CacheModel {
        zone_id: Some(s.zone_id),
        record_id: Some(s.record_id),
        group_id: if with_group {
            Some(s.group_id)
        } else {
            s.cache.group_id
        },
        ..s.cache
    };
    (SyncModel { phase: Phase::SavingIds, cache: c, ..s }, ActionModel::WriteCache(c))
}

/// After the IP is saved: resolve what the cache lacks, then update the record.
pub open spec fn after_ip_saved(s: SyncModel) -> (SyncModel, ActionModel) {
    match s.token {
        None => fail(s, SyncError::MissingSetting),
        Some(token) => match (s.cache.zone_id, s.cache.record_id) {
            (Some(z), Some(r)) => update_record(SyncModel { zone_id: z, record_id: r, ..s }),
            (Some(z), None) => find_record(SyncModel { zone_id: z, ..s }),
            (None, _) => match s.config.zone_name {
                None => fail(s, SyncError::MissingSetting),
                Some(name) => (
                    SyncModel { phase: Phase::FindingZone, ..s },
                    ActionModel::Send(get_model(zones_url_model(name), token)),
                ),
            },
        },
    }
}

/// After the record is updated: stop there, or go on to the access group.
pub open spec fn after_record_updated(s: SyncModel) -> (SyncModel, ActionModel) {
    if !s.config.update_access {
        save_ids(s, false)
    } else {
        match (s.bypass_token, s.cache.account_id) {
            (Some(token), Some(account)) => match s.cache.group_id {
                Some(g) => (
                    SyncModel { phase: Phase::FetchingGroup, group_id: g, ..s },
                    ActionModel::Send(get_model(group_url_model(account, g), token)),
                ),
                None => match s.config.group_name {
                    None => fail(s, SyncError::MissingSetting),
                    Some(_) => (
                        SyncModel { phase: Phase::FindingGroup, ..s },
                        ActionModel::Send(get_model(groups_url_model(account), token)),
                    ),
                },
            },
            _ => fail(s, SyncError::MissingSetting),
        }
    }
}

/// One step of a run: the state and action that follow event `e` in state `s`.
pub open spec fn next(s: SyncModel, e: EventModel) -> (SyncModel, ActionModel) {
    match (s.phase, e) {
        (Phase::ObservingIp, EventModel::IpObserved(ip)) => if s.cache.ip_address == Some(ip)
            && !s.config.reassert_unchanged_ip {
            (SyncModel { phase: Phase::Done, ..s }, ActionModel::Finish(Ok(())))
        } else {
            let c = CacheModel { ip_address: Some(ip), ..s.cache };
            (SyncModel { phase: Phase::SavingIp, cache: c, ip, ..s }, ActionModel::WriteCache(c))
        },
        (Phase::SavingIp, EventModel::CacheWritten(ok)) => if ok {
            after_ip_saved(s)
        } else {
            fail(s, SyncError::CacheWrite)
        },
        (Phase::FindingZone, EventModel::Answer(a)) => match a {
            Err(err) => fail(s, SyncError::Provider(err)),
            Ok(recs) => match first_id_of(recs) {
                None => fail(s, SyncError::Provider(CloudflareError::ParseError)),
                Some(z) => find_record(SyncModel { zone_id: z, ..s }),
            },
        },
        (Phase::FindingRecord, EventModel::Answer(a)) => match a {
            Err(err) => fail(s, SyncError::Provider(err)),
            Ok(recs) => match first_id_of(recs) {
                None => fail(s, SyncError::Provider(CloudflareError::ParseError)),
                Some(r) => update_record(SyncModel { record_id: r, ..s }),
            },
        },
        (Phase::UpdatingRecord, EventModel::Answer(a)) => match a {
            Err(err) => fail(s, SyncError::Provider(err)),
            Ok(_) => after_record_updated(s),
        },
        (Phase::FindingGroup, EventModel::Answer(a)) => match a {
            Err(err) => fail(s, SyncError::Provider(err)),
            Ok(recs) => match (s.bypass_token, s.cache.account_id, s.config.group_name) {
                (Some(token), Some(account), Some(name)) => match unique_id_of(recs, name) {
                    Err(err) => fail(s, SyncError::Provider(err)),
                    Ok(g) => (
                        SyncModel { phase: Phase::FetchingGroup, group_id: g, ..s },
                        ActionModel::Send(get_model(group_url_model(account, g), token)),
                    ),
                },
                _ => fail(s, SyncError::MissingSetting),
            },
        },
        (Phase::FetchingGroup, EventModel::Answer(a)) => match a {
            Err(err) => fail(s, SyncError::Provider(err)),
            Ok(recs) => match (s.bypass_token, s.cache.account_id) {
                (Some(token), Some(account)) => if recs.len() == 0 {
                    fail(s, SyncError::Provider(CloudflareError::ParseError))
                } else {
                    match substituted(recs[0], s.ip) {
                        Err(err) => fail(s, SyncError::Provider(err)),
                        Ok(doc) => (
                            SyncModel { phase: Phase::UpdatingGroup, ..s },
                            ActionModel::Send(
                                put_model(group_url_model(account, s.group_id), token, JsonModel::Object(doc)),
                            ),
                        ),
                    }
                },
                _ => fail(s, SyncError::MissingSetting),
            },
        },
        (Phase::UpdatingGroup, EventModel::Answer(a)) => match a {
            Err(err) => fail(s, SyncError::Provider(err)),
            Ok(_) => save_ids(s, true),
        },
        (Phase::SavingIds, EventModel::CacheWritten(_)) => (
            SyncModel { phase: Phase::Done, ..s },
            ActionModel::Finish(Ok(())),
        ),
        _ => fail(s, SyncError::UnexpectedEvent),
    }
}

fn copy_opt(o: &Option<String>) -> (r: Option<String>)
    ensures
        opt_model(r) == opt_model(*o),
{
    match o {
        Some(s) => Some(s.clone()),
        None => None,
    }
}

impl CachedState {
    /// A copy of the cached values.
    pub fn copy(&self) -> (r: CachedState)
        ensures
            r.model() == self.model(),
    {
        CachedState {
            ip_address: copy_opt(&self.ip_address),
            zone_id: copy_opt(&self.zone_id),
            record_id: copy_opt(&self.record_id),
            account_id: copy_opt(&self.account_id),
            group_id: copy_opt(&self.group_id),
        }
    }
}

fn get_request(url: String, token: &str) -> (r: Request)
    ensures
        r.model() == get_model(url@, token@),
{
    Request { method: Method::Get, url, authorization: bearer(token), body: None }
}

fn put_request(url: String, token: &str, body: Json) -> (r: Request)
    ensures
        r.model() == put_model(url@, token@, body.model()),
{
    Request { method: Method::Put, url, authorization: bearer(token), body: Some(body) }
}

/// The state in which every run starts.
pub open spec fn initial(config: Config, credentials: Credentials, cache: CachedState) -> SyncModel {
    SyncModel {
        phase: Phase::ObservingIp,
        config: config.model(),
        token: opt_model(credentials.token),
        bypass_token: opt_model(credentials.bypass_token),
        cache: cache.model(),
        ip: Seq::empty(),
        zone_id: Seq::empty(),
        record_id: Seq::empty(),
        group_id: Seq::empty(),
    }
}

impl Orchestrator {
    /// A run that starts from `cache`; its first action observes the IP.
    pub fn new(config: Config, credentials: Credentials, cache: CachedState) -> (r: (Orchestrator, Action))
        ensures
            r.0.model() == initial(config, credentials, cache),
            r.1.model() == ActionModel::ObserveIp,
    {
        let s = Orchestrator {
            phase: Phase::ObservingIp,
            config,
            credentials,
            cache,
            ip: String::new(),
            zone_id: String::new(),
            record_id: String::new(),
            group_id: String::new(),
        };
        (s, Action::ObserveIp)
    }

    fn fail(&mut self, e: SyncError) -> (a: Action)
        ensures
            (final(self).model(), a.model()) == fail(old(self).model(), e),
    {
        self.phase = Phase::Done;
        Action::Finish(Err(e))
    }

    fn update_record(&mut self) -> (a: Action)
        ensures
            (final(self).model(), a.model()) == update_record(old(self).model()),
    {
        let token = match &self.credentials.token {
            Some(t) => t.clone(),
            None => {
                return self.fail(SyncError::MissingSetting);
            },
        };
        let url = record_url(self.zone_id.as_str(), self.record_id.as_str());
        let body = Json::Object(
            record_update(self.zone_id.as_str(), self.config.record_name.as_str(), self.ip.as_str()),
        );
        self.phase = Phase::UpdatingRecord;
        Action::Send(put_request(url, token.as_str(), body))
    }

    fn find_record(&mut self) -> (a: Action)
        ensures
            (final(self).model(), a.model()) == find_record(old(self).model()),
    {
        let token = match &self.credentials.token {
            Some(t) => t.clone(),
            None => {
                return self.fail(SyncError::MissingSetting);
            },
        };
        let url = records_url(self.zone_id.as_str(), self.config.record_name.as_str());
        self.phase = Phase::FindingRecord;
        Action::Send(get_request(url, token.as_str()))
    }

    fn save_ids(&mut self, with_group: bool) -> (a: Action)
        ensures
            (final(self).model(), a.model()) == save_ids(old(self).model(), with_group),
    {
        self.cache.zone_id = Some(self.zone_id.clone());
        self.cache.record_id = Some(self.record_id.clone());
        if with_group {
            self.cache.group_id = Some(self.group_id.clone());
        }
        self.phase = Phase::SavingIds;
        Action::WriteCache(self.cache.copy())
    }

    fn after_ip_saved(&mut self) -> (a: Action)
        ensures
            (final(self).model(), a.model()) == after_ip_saved(old(self).model()),
    {
        let token = match &self.credentials.token {
            Some(t) => t.clone(),
            None => {
                return self.fail(SyncError::MissingSetting);
            },
        };
        match (&self.cache.zone_id, &self.cache.record_id) {
            (Some(z), Some(r)) => {
                self.zone_id = z.clone();
                self.record_id = r.clone();
                self.update_record()
            },
            (Some(z), None) => {
                self.zone_id = z.clone();
                self.find_record()
            },
            (None, _) => {
                let url = match &self.config.zone_name {
                    Some(name) => zones_url(name.as_str()),
                    None => {
                        return self.fail(SyncError::MissingSetting);
                    },
                };
                self.phase = Phase::FindingZone;
                Action::Send(get_request(url, token.as_str()))
            },
        }
    }

    fn after_record_updated(&mut self) -> (a: Action)
        ensures
            (final(self).model(), a.model()) == after_record_updated(old(self).model()),
    {
        if !self.config.update_access {
            return self.save_ids(false);
        }
        let (token, account) = match (&self.credentials.bypass_token, &self.cache.account_id) {
            (Some(t), Some(a)) => (t.clone(), a.clone()),
            _ => {
                return self.fail(SyncError::MissingSetting);
            },
        };
        match &self.cache.group_id {
            Some(g) => {
                let url = group_url(account.as_str(), g.as_str());
                self.group_id = g.clone();
                self.phase = Phase::FetchingGroup;
                Action::Send(get_request(url, token.as_str()))
            },
            None => {
                if self.config.group_name.is_none() {
                    return self.fail(SyncError::MissingSetting);
                }
                self.phase = Phase::FindingGroup;
                Action::Send(get_request(groups_url(account.as_str()), token.as_str()))
            },
        }
    }

    /// Takes the outcome of the last action and gives the next action.
    pub fn step(&mut self, event: Event) -> (a: Action)
        ensures
            (final(self).model(), a.model()) == next(old(self).model(), event.model()),
    {
        match (self.phase, event) {
            (Phase::ObservingIp, Event::IpObserved(ip)) => {
                let same = match &self.cache.ip_address {
                    Some(cached) => crate::json::str_equal(cached.as_str(), ip.as_str()),
                    None => false,
                };
                if same && !self.config.reassert_unchanged_ip {
                    self.phase = Phase::Done;
                    return Action::Finish(Ok(()));
                }
                self.cache.ip_address = Some(ip.clone());
                self.ip = ip;
                self.phase = Phase::SavingIp;
                Action::WriteCache(self.cache.copy())
            },
            (Phase::SavingIp, Event::CacheWritten(ok)) => {
                if ok {
                    self.after_ip_saved()
                } else {
                    self.fail(SyncError::CacheWrite)
                }
            },
            (Phase::FindingZone, Event::Answer(a)) => match a {
                Err(err) => self.fail(SyncError::Provider(err)),
                Ok(recs) => match first_id(&recs) {
                    Err(_) => self.fail(SyncError::Provider(CloudflareError::ParseError)),
                    Ok(z) => {
                        self.zone_id = z;
                        self.find_record()
                    },
                },
            },
            (Phase::FindingRecord, Event::Answer(a)) => match a {
                Err(err) => self.fail(SyncError::Provider(err)),
                Ok(recs) => match first_id(&recs) {
                    Err(_) => self.fail(SyncError::Provider(CloudflareError::ParseError)),
                    Ok(r) => {
                        self.record_id = r;
                        self.update_record()
                    },
                },
            },
            (Phase::UpdatingRecord, Event::Answer(a)) => match a {
                Err(err) => self.fail(SyncError::Provider(err)),
                Ok(_) => self.after_record_updated(),
            },
            (Phase::FindingGroup, Event::Answer(a)) => match a {
                Err(err) => self.fail(SyncError::Provider(err)),
                Ok(recs) => {
                    let (token, account, name) = match (
                        &self.credentials.bypass_token,
                        &self.cache.account_id,
                        &self.config.group_name,
                    ) {
                        (Some(t), Some(a), Some(n)) => (t.clone(), a.clone(), n.clone()),
                        _ => {
                            return self.fail(SyncError::MissingSetting);
                        },
                    };
                    match resolve_group(&recs, name.as_str()) {
                        Err(err) => self.fail(SyncError::Provider(err)),
                        Ok(g) => {
                            let url = group_url(account.as_str(), g.as_str());
                            self.group_id = g;
                            self.phase = Phase::FetchingGroup;
                            Action::Send(get_request(url, token.as_str()))
                        },
                    }
                },
            },
            (Phase::FetchingGroup, Event::Answer(a)) => match a {
                Err(err) => self.fail(SyncError::Provider(err)),
                Ok(recs) => {
                    let (token, account) = match (&self.credentials.bypass_token, &self.cache.account_id) {
                        (Some(t), Some(a)) => (t.clone(), a.clone()),
                        _ => {
                            return self.fail(SyncError::MissingSetting);
                        },
                    };
                    if recs.len() == 0 {
                        return self.fail(SyncError::Provider(CloudflareError::ParseError));
                    }
                    assert(records_of(recs@)[0] == fields_of(recs@[0]));
                    match substitute_ip(&recs[0], self.ip.as_str()) {
                        Err(err) => self.fail(SyncError::Provider(err)),
                        Ok(doc) => {
                            let url = group_url(account.as_str(), self.group_id.as_str());
                            self.phase = Phase::UpdatingGroup;
                            Action::Send(put_request(url, token.as_str(), Json::Object(doc)))
                        },
                    }
                },
            },
            (Phase::UpdatingGroup, Event::Answer(a)) => match a {
                Err(err) => self.fail(SyncError::Provider(err)),
                Ok(_) => self.save_ids(true),
            },
            (Phase::SavingIds, Event::CacheWritten(_)) => {
                self.phase = Phase::Done;
                Action::Finish(Ok(()))
            },
            _ => self.fail(SyncError::UnexpectedEvent),
        }
    }
}

/// The order in which a run passes through its phases.
pub open spec fn rank(p: Phase) -> nat {
    match p {
        Phase::ObservingIp => 0,
        Phase::SavingIp => 1,
        Phase::FindingZone => 2,
        Phase::FindingRecord => 3,
        Phase::UpdatingRecord => 4,
        Phase::FindingGroup => 5,
        Phase::FetchingGroup => 6,
        Phase::UpdatingGroup => 7,
        Phase::SavingIds => 8,
        Phase::Done => 9,
    }
}

/// When the observed IP is the cached one, the run ends there with success
/// and asks for nothing else: no cache write and no provider call.
pub proof fn lemma_unchanged_ip_ends_run(s: SyncModel, ip: Seq<char>)
    requires
        s.phase == Phase::ObservingIp,
        s.cache.ip_address == Some(ip),
        !s.config.reassert_unchanged_ip,
    ensures
        next(s, EventModel::IpObserved(ip)).1 == ActionModel::Finish(Ok(())),
        next(s, EventModel::IpObserved(ip)).0.phase == Phase::Done,
{
}

/// A finished run stays finished and sends nothing, whatever event comes.
pub proof fn lemma_done_is_final(s: SyncModel, e: EventModel)
    requires
        s.phase == Phase::Done,
    ensures
        next(s, e).0.phase == Phase::Done,
        !(next(s, e).1 is Send),
{
}

/// When the observed IP differs from the cached one, or none is cached, the
/// run takes it as its IP, caches it, and asks for the cache to be written.
pub proof fn lemma_changed_ip_is_cached(s: SyncModel, ip: Seq<char>)
    requires
        s.phase == Phase::ObservingIp,
        s.cache.ip_address != Some(ip) || s.config.reassert_unchanged_ip,
    ensures
        next(s, EventModel::IpObserved(ip)).0.phase == Phase::SavingIp,
        next(s, EventModel::IpObserved(ip)).0.ip == ip,
        next(s, EventModel::IpObserved(ip)).0.cache == (CacheModel { ip_address: Some(ip), ..s.cache }),
        next(s, EventModel::IpObserved(ip)).1 == ActionModel::WriteCache(
            next(s, EventModel::IpObserved(ip)).0.cache,
        ),
{
}

/// Every step moves a run forward, so no phase is entered twice and the DNS
/// record is updated at most once. The observed IP is kept once it is set.
/// A `PUT` is only ever the record update or the group update, and the
/// record update is an A record whose content is the observed IP.
pub proof fn lemma_run_progress(s: SyncModel, e: EventModel)
    ensures
        s.phase != Phase::Done ==> rank(next(s, e).0.phase) > rank(s.phase),
        s.phase != Phase::ObservingIp ==> next(s, e).0.ip == s.ip,
        next(s, e).1 is Send && next(s, e).1->Send_0.method == Method::Put ==> next(s, e).0.phase
            == Phase::UpdatingRecord || next(s, e).0.phase == Phase::UpdatingGroup,
        next(s, e).0.phase == Phase::UpdatingRecord && s.phase != Phase::UpdatingRecord ==> ({
            let t = next(s, e).0;
            &&& t.ip == s.ip
            &&& t.token is Some
            &&& next(s, e).1 == ActionModel::Send(
                put_model(
                    record_url_model(t.zone_id, t.record_id),
                    t.token->Some_0,
                    JsonModel::Object(record_update_model(t.zone_id, t.config.record_name, t.ip)),
                ),
            )
        }),
{
}

/// Once the new IP is saved and the DNS token is present, every way of
/// resolving the zone and record ends in the record update when its
/// lookups succeed: at once when both are cached, after the record lookup
/// when only the zone is cached, and after both lookups otherwise.
pub proof fn lemma_resolution_reaches_record_update(s: SyncModel, zones: Seq<Fields>, recs: Seq<Fields>)
    requires
        s.token is Some,
        first_id_of(zones) is Some,
        first_id_of(recs) is Some,
    ensures
        s.phase == Phase::SavingIp && s.cache.zone_id is Some && s.cache.record_id is Some ==> next(
            s,
            EventModel::CacheWritten(true),
        ).0.phase == Phase::UpdatingRecord,
        s.phase == Phase::FindingRecord ==> next(s, EventModel::Answer(Ok(recs))).0.phase
            == Phase::UpdatingRecord,
        s.phase == Phase::FindingZone ==> next(s, EventModel::Answer(Ok(zones))).0.phase
            == Phase::FindingRecord && next(
            next(s, EventModel::Answer(Ok(zones))).0,
            EventModel::Answer(Ok(recs)),
        ).0.phase == Phase::UpdatingRecord,
        s.phase == Phase::SavingIp && s.cache.zone_id is Some && s.cache.record_id is None ==> next(
            s,
            EventModel::CacheWritten(true),
        ).0.phase == Phase::FindingRecord,
        s.phase == Phase::SavingIp && s.cache.zone_id is None && s.config.zone_name is Some ==> next(
            s,
            EventModel::CacheWritten(true),
        ).0.phase == Phase::FindingZone,
{
}

} // verus!
