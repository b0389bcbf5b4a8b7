use cf_wagdns::error::CloudflareError;
use cf_wagdns::json::Json;
use cf_wagdns::resolve::{first_id, resolve_group};

fn rec(pairs: &[(&str, &str)]) -> Vec<(String, Json)> {
    pairs.iter().map(|(k, v)| (k.to_string(), Json::Str(v.to_string()))).collect()
}

#[test]
fn two_groups_with_the_same_name_are_ambiguous() {
    let groups = vec![
        rec(&[("id", "g1"), ("name", "staff")]),
        rec(&[("id", "g2"), ("name", "staff")]),
        rec(&[("id", "g3"), ("name", "ops")]),
    ];
    assert_eq!(resolve_group(&groups, "staff").err(), Some(CloudflareError::Unsuccessful));
}

#[test]
fn one_group_with_the_name_gives_its_id() {
    let groups = vec![
        rec(&[("id", "g1"), ("name", "ops")]),
        rec(&[("id", "g2"), ("name", "staff")]),
        rec(&[("id", "g3"), ("name", "staffing")]),
    ];
    assert_eq!(resolve_group(&groups, "staff").unwrap(), "g2");
}

#[test]
fn no_group_with_the_name_is_unsuccessful() {
    let groups = vec![rec(&[("id", "g1"), ("name", "ops")])];
    assert_eq!(resolve_group(&groups, "staff").err(), Some(CloudflareError::Unsuccessful));
    assert_eq!(resolve_group(&vec![], "staff").err(), Some(CloudflareError::Unsuccessful));
}

#[test]
fn matching_group_without_id_is_parse_error() {
    let groups = vec![rec(&[("name", "staff")])];
    assert_eq!(resolve_group(&groups, "staff").err(), Some(CloudflareError::ParseError));
}

#[test]
fn first_id_takes_the_first_record() {
    let recs = vec![rec(&[("id", "r1")]), rec(&[("id", "r2")])];
    assert_eq!(first_id(&recs).unwrap(), "r1");
}

#[test]
fn first_id_fails_without_a_string_id() {
    assert_eq!(first_id(&vec![]).err(), Some(CloudflareError::ParseError));
    let recs = vec![vec![("id".to_string(), Json::Number("7".to_string()))]];
    assert_eq!(first_id(&recs).err(), Some(CloudflareError::ParseError));
}
