use cf_wagdns::client::{
    bearer, group_url, groups_url, parse_result, record_update, record_url, records_url,
    strip_line_terminator, zones_url, CloudflareResponse, CloudflareResult,
};
use cf_wagdns::error::CloudflareError;
use cf_wagdns::json::Json;

fn record(id: &str) -> Vec<(String, Json)> {
    vec![("id".to_string(), Json::Str(id.to_string()))]
}

fn envelope(result: Option<CloudflareResult>) -> CloudflareResponse {
    CloudflareResponse { errors: vec![], messages: None, result, result_info: None, success: true }
}

fn id_of(r: &[(String, Json)]) -> String {
    match &r[0].1 {
        Json::Str(s) => s.clone(),
        _ => panic!("no id"),
    }
}

#[test]
fn single_result_becomes_one_element_list() {
    let out = parse_result(envelope(Some(CloudflareResult::Single(record("g1"))))).unwrap();
    assert_eq!(out.len(), 1);
    assert_eq!(id_of(&out[0]), "g1");
}

#[test]
fn list_result_passes_through() {
    let list = vec![record("z1"), record("z2"), record("z3")];
    let out = parse_result(envelope(Some(CloudflareResult::Many(list)))).unwrap();
    assert_eq!(out.len(), 3);
    assert_eq!(id_of(&out[2]), "z3");
    let out = parse_result(envelope(Some(CloudflareResult::Many(vec![])))).unwrap();
    assert_eq!(out.len(), 0);
}

#[test]
fn missing_result_is_empty_response() {
    assert_eq!(parse_result(envelope(None)).err(), Some(CloudflareError::EmptyResponse));
}

#[test]
fn urls_follow_the_api_layout() {
    assert_eq!(zones_url("example.com"), "https://api.cloudflare.com/client/v4/zones?name=example.com");
    assert_eq!(
        records_url("z1", "home"),
        "https://api.cloudflare.com/client/v4/zones/z1/dns_records?name=home"
    );
    assert_eq!(record_url("z1", "r1"), "https://api.cloudflare.com/client/v4/zones/z1/dns_records/r1");
    assert_eq!(groups_url("a1"), "https://api.cloudflare.com/client/v4/accounts/a1/access/groups");
    assert_eq!(group_url("a1", "g1"), "https://api.cloudflare.com/client/v4/accounts/a1/access/groups/g1");
}

#[test]
fn bearer_header_carries_token() {
    assert_eq!(bearer("SECRET-REDACTED"), "Bearer SECRET-REDACTED");
}

#[test]
fn record_update_body_has_four_fields() {
    let body = record_update("z1", "home", "203.0.113.7");
    let keys: Vec<&str> = body.iter().map(|(k, _)| k.as_str()).collect();
    assert_eq!(keys, vec!["id", "type", "name", "content"]);
    let values: Vec<String> = body
        .iter()
        .map(|(_, v)| match v {
            Json::Str(s) => s.clone(),
            _ => panic!("not a string"),
        })
        .collect();
    assert_eq!(values, vec!["z1", "A", "home", "203.0.113.7"]);
}

#[test]
fn line_terminator_is_stripped() {
    assert_eq!(strip_line_terminator("203.0.113.7\n"), "203.0.113.7");
    assert_eq!(strip_line_terminator("203.0.113.7\r\n"), "203.0.113.7");
    assert_eq!(strip_line_terminator("203.0.113.7"), "203.0.113.7");
    assert_eq!(strip_line_terminator(""), "");
    assert_eq!(strip_line_terminator("\n"), "");
}

#[test]
fn error_messages() {
    assert_eq!(
        CloudflareError::EmptyResponse.message(),
        "Error getting data from Cloudflare: Empty response"
    );
    assert_eq!(
        CloudflareError::ReqwestError.message(),
        "Error getting data from Cloudflare: Reqwest failure"
    );
    assert_eq!(
        CloudflareError::Unsuccessful.message(),
        "Error getting data from Cloudflare: Unsuccessful"
    );
    assert_eq!(
        CloudflareError::ParseError.message(),
        "Error getting data from Cloudflare: Error parsing response"
    );
}

#[test]
fn response_error_is_described() {
    let e = cf_wagdns::client::CloudflareResponseError { code: 9109, message: "Invalid access token".to_string() };
    assert_eq!(e.describe(), "Cloudflare API call failed with code 9109 and message:\nInvalid access token");
    let e = cf_wagdns::client::CloudflareResponseError { code: -3, message: String::new() };
    assert_eq!(e.describe(), "Cloudflare API call failed with code -3 and message:\n");
}

#[test]
fn decimal_matches_display() {
    for i in [0, 7, 10, 99, 100, 1003, -1, -250, i32::MAX, i32::MIN] {
        assert_eq!(cf_wagdns::client::decimal_string(i), i.to_string());
    }
}
