use cf_wagdns::client::Method;
use cf_wagdns::error::CloudflareError;
use cf_wagdns::json::Json;
use cf_wagdns::sync::{Action, CachedState, Config, Credentials, Event, Phase, Orchestrator, SyncError};

fn s(v: &str) -> String {
    v.to_string()
}

fn rec(pairs: &[(&str, &str)]) -> Vec<(String, Json)> {
    pairs.iter().map(|(k, v)| (s(k), Json::Str(s(v)))).collect()
}

fn empty_cache() -> CachedState {
    CachedState { ip_address: None, zone_id: None, record_id: None, account_id: None, group_id: None }
}

fn config(update_access: bool) -> Config {
    Config {
        record_name: s("home"),
        zone_name: Some(s("example.com")),
        group_name: Some(s("staff")),
        update_access,
        reassert_unchanged_ip: false,
    }
}

fn creds() -> Credentials {
    Credentials { token: Some(s("dns-token")), bypass_token: Some(s("access-token")) }
}

fn str_fields(body: &Json) -> Vec<(String, String)> {
    match body {
        Json::Object(f) => f
            .iter()
            .map(|(k, v)| match v {
                Json::Str(x) => (k.clone(), x.clone()),
                _ => (k.clone(), s("?")),
            })
            .collect(),
        _ => panic!("not an object"),
    }
}

/// Runs the machine against scripted answers and records every request.
fn run(
    cfg: Config,
    cache: CachedState,
    ip: &str,
    mut answers: Vec<Result<Vec<Vec<(String, Json)>>, CloudflareError>>,
) -> (Vec<(Method, String, String, Option<Json>)>, Vec<CachedState>, Result<(), SyncError>) {
    let (mut m, mut action) = Orchestrator::new(cfg, creds(), cache);
    let mut sent = vec![];
    let mut writes = vec![];
    answers.reverse();
    loop {
        let event = match action {
            Action::ObserveIp => Event::IpObserved(s(ip)),
            Action::WriteCache(c) => {
                writes.push(c);
                Event::CacheWritten(true)
            },
            Action::Send(req) => {
                sent.push((req.method, req.url, req.authorization, req.body));
                Event::Answer(answers.pop().expect("an answer for each request"))
            },
            Action::Finish(outcome) => return (sent, writes, outcome),
        };
        action = m.step(event);
    }
}

#[test]
fn unchanged_ip_makes_no_calls() {
    let mut cache = empty_cache();
    cache.ip_address = Some(s("203.0.113.7"));
    let (sent, writes, outcome) = run(config(true), cache, "203.0.113.7", vec![]);
    assert!(sent.is_empty());
    assert!(writes.is_empty());
    assert_eq!(outcome, Ok(()));
}

#[test]
fn changed_ip_updates_the_record_once() {
    let mut cache = empty_cache();
    cache.ip_address = Some(s("198.51.100.1"));
    cache.zone_id = Some(s("z1"));
    cache.record_id = Some(s("r1"));
    let (sent, writes, outcome) = run(config(false), cache, "203.0.113.7", vec![Ok(vec![])]);
    assert_eq!(outcome, Ok(()));
    assert_eq!(sent.len(), 1);
    assert_eq!(sent[0].0, Method::Put);
    assert_eq!(sent[0].1, "https://api.cloudflare.com/client/v4/zones/z1/dns_records/r1");
    let body = str_fields(sent[0].3.as_ref().unwrap());
    assert!(body.contains(&(s("content"), s("203.0.113.7"))));
    assert_eq!(writes[0].ip_address, Some(s("203.0.113.7")));
}

#[test]
fn empty_cache_resolves_updates_and_persists() {
    let answers = vec![Ok(vec![rec(&[("id", "z1")])]), Ok(vec![rec(&[("id", "r1")])]), Ok(vec![])];
    let (sent, writes, outcome) = run(config(false), empty_cache(), "203.0.113.7", answers);
    assert_eq!(outcome, Ok(()));
    assert_eq!(sent.len(), 3);
    assert_eq!(sent[0].0, Method::Get);
    assert_eq!(sent[0].1, "https://api.cloudflare.com/client/v4/zones?name=example.com");
    assert_eq!(sent[0].2, "Bearer dns-token");
    assert_eq!(sent[1].1, "https://api.cloudflare.com/client/v4/zones/z1/dns_records?name=home");
    assert_eq!(sent[2].0, Method::Put);
    assert_eq!(sent[2].1, "https://api.cloudflare.com/client/v4/zones/z1/dns_records/r1");
    assert_eq!(
        str_fields(sent[2].3.as_ref().unwrap()),
        vec![
            (s("id"), s("z1")),
            (s("type"), s("A")),
            (s("name"), s("home")),
            (s("content"), s("203.0.113.7")),
        ]
    );
    let last = writes.last().unwrap();
    assert_eq!(last.zone_id, Some(s("z1")));
    assert_eq!(last.record_id, Some(s("r1")));
    assert_eq!(last.ip_address, Some(s("203.0.113.7")));
    assert_eq!(last.group_id, None);
}

#[test]
fn zone_cached_resolves_only_the_record() {
    let mut cache = empty_cache();
    cache.zone_id = Some(s("z1"));
    let answers = vec![Ok(vec![rec(&[("id", "r9")])]), Ok(vec![])];
    let (sent, _, outcome) = run(config(false), cache, "203.0.113.7", answers);
    assert_eq!(outcome, Ok(()));
    assert_eq!(sent.len(), 2);
    assert_eq!(sent[0].1, "https://api.cloudflare.com/client/v4/zones/z1/dns_records?name=home");
    assert_eq!(sent[1].1, "https://api.cloudflare.com/client/v4/zones/z1/dns_records/r9");
}

#[test]
fn access_group_is_resolved_and_rewritten() {
    let mut cache = empty_cache();
    cache.zone_id = Some(s("z1"));
    cache.record_id = Some(s("r1"));
    cache.account_id = Some(s("a1"));
    let group_doc = vec![
        (s("id"), Json::Str(s("g2"))),
        (s("name"), Json::Str(s("staff"))),
        (
            s("include"),
            Json::Array(vec![Json::Object(vec![(
                s("ip"),
                Json::Object(vec![(s("ip"), Json::Str(s("198.51.100.1")))]),
            )])]),
        ),
    ];
    let answers = vec![
        Ok(vec![]),
        Ok(vec![rec(&[("id", "g1"), ("name", "ops")]), rec(&[("id", "g2"), ("name", "staff")])]),
        Ok(vec![group_doc]),
        Ok(vec![]),
    ];
    let (sent, writes, outcome) = run(config(true), cache, "203.0.113.7", answers);
    assert_eq!(outcome, Ok(()));
    assert_eq!(sent.len(), 4);
    assert_eq!(sent[1].1, "https://api.cloudflare.com/client/v4/accounts/a1/access/groups");
    assert_eq!(sent[1].2, "Bearer access-token");
    assert_eq!(sent[2].1, "https://api.cloudflare.com/client/v4/accounts/a1/access/groups/g2");
    assert_eq!(sent[3].0, Method::Put);
    match sent[3].3.as_ref().unwrap() {
        Json::Object(f) => {
            assert_eq!(f[0].0, "include");
            match &f[0].1 {
                Json::Array(rules) => match &rules[0] {
                    Json::Object(r) => {
                        assert_eq!(str_fields(&r[0].1), vec![(s("ip"), s("203.0.113.7"))])
                    },
                    _ => panic!("rule is not an object"),
                },
                _ => panic!("include is not a list"),
            }
            assert_eq!(f[1].0, "name");
        },
        _ => panic!("body is not an object"),
    }
    assert_eq!(writes.last().unwrap().group_id, Some(s("g2")));
}

#[test]
fn failed_lookup_aborts_the_run() {
    let answers = vec![Err(CloudflareError::EmptyResponse)];
    let (sent, writes, outcome) = run(config(false), empty_cache(), "203.0.113.7", answers);
    assert_eq!(sent.len(), 1);
    assert_eq!(writes.len(), 1);
    assert_eq!(outcome, Err(SyncError::Provider(CloudflareError::EmptyResponse)));
}

#[test]
fn failed_ip_write_aborts_the_run() {
    let (mut m, _) = Orchestrator::new(config(false), creds(), empty_cache());
    let a = m.step(Event::IpObserved(s("203.0.113.7")));
    assert!(matches!(a, Action::WriteCache(_)));
    let a = m.step(Event::CacheWritten(false));
    assert!(matches!(a, Action::Finish(Err(SyncError::CacheWrite))));
    assert_eq!(m.phase, Phase::Done);
}

#[test]
fn missing_zone_name_is_reported() {
    let mut cfg = config(false);
    cfg.zone_name = None;
    let (sent, _, outcome) = run(cfg, empty_cache(), "203.0.113.7", vec![]);
    assert!(sent.is_empty());
    assert_eq!(outcome, Err(SyncError::MissingSetting));
}

#[test]
fn out_of_order_event_ends_the_run() {
    let (mut m, _) = Orchestrator::new(config(false), creds(), empty_cache());
    let a = m.step(Event::CacheWritten(true));
    assert!(matches!(a, Action::Finish(Err(SyncError::UnexpectedEvent))));
}

#[test]
fn reassert_switch_goes_on_with_unchanged_ip() {
    let mut cfg = config(false);
    cfg.reassert_unchanged_ip = true;
    let mut cache = empty_cache();
    cache.ip_address = Some(s("203.0.113.7"));
    cache.zone_id = Some(s("z1"));
    cache.record_id = Some(s("r1"));
    let (sent, _, outcome) = run(cfg, cache, "203.0.113.7", vec![Ok(vec![])]);
    assert_eq!(outcome, Ok(()));
    assert_eq!(sent.len(), 1);
    assert_eq!(sent[0].1, "https://api.cloudflare.com/client/v4/zones/z1/dns_records/r1");
}
