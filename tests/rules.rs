use cf_wagdns::error::CloudflareError;
use cf_wagdns::json::Json;
use cf_wagdns::rules::substitute_ip;

fn s(v: &str) -> String {
    v.to_string()
}

fn obj(fields: Vec<(&str, Json)>) -> Json {
    Json::Object(fields.into_iter().map(|(k, v)| (s(k), v)).collect())
}

fn fields(fields: Vec<(&str, Json)>) -> Vec<(String, Json)> {
    fields.into_iter().map(|(k, v)| (s(k), v)).collect()
}

fn ip_rule(ip: &str) -> Json {
    obj(vec![("ip", obj(vec![("ip", Json::Str(s(ip)))]))])
}

fn email_rule(email: &str) -> Json {
    obj(vec![("email", obj(vec![("email", Json::Str(s(email)))]))])
}

fn render_fields(f: &[(String, Json)]) -> String {
    format!(
        "{{{}}}",
        f.iter().map(|(k, v)| format!("{:?}:{}", k, render(v))).collect::<Vec<_>>().join(",")
    )
}

fn render(j: &Json) -> String {
    match j {
        Json::Null => s("null"),
        Json::Bool(b) => b.to_string(),
        Json::Number(n) => n.clone(),
        Json::Str(v) => format!("{:?}", v),
        Json::Array(v) => format!("[{}]", v.iter().map(render).collect::<Vec<_>>().join(",")),
        Json::Object(f) => render_fields(f),
    }
}

fn render_doc(d: &[(String, Json)]) -> String {
    render_fields(d)
}

fn sample_group() -> Vec<(String, Json)> {
    fields(vec![
        ("id", Json::Str(s("g1"))),
        ("name", Json::Str(s("staff"))),
        (
            "include",
            Json::Array(vec![
                obj(vec![(
                    "ip",
                    obj(vec![("ip", Json::Str(s("198.51.100.1"))), ("note", Json::Str(s("old")))]),
                )]),
                email_rule("a@example.com"),
            ]),
        ),
        ("require", Json::Array(vec![ip_rule("198.51.100.2")])),
        ("exclude", Json::Array(vec![ip_rule("192.0.2.9")])),
        ("created_at", Json::Str(s("2020-01-01"))),
        ("uid", Json::Number(s("42"))),
    ])
}

#[test]
fn substitute_rewrites_include_and_require() {
    let out = substitute_ip(&sample_group(), "203.0.113.7").unwrap();
    let expected = fields(vec![
        ("include", Json::Array(vec![ip_rule("203.0.113.7"), email_rule("a@example.com")])),
        ("require", Json::Array(vec![ip_rule("203.0.113.7")])),
        ("exclude", Json::Array(vec![ip_rule("192.0.2.9")])),
        ("name", Json::Str(s("staff"))),
    ]);
    assert_eq!(render_doc(&out), render_doc(&expected));
}

#[test]
fn substitute_is_idempotent() {
    let once = substitute_ip(&sample_group(), "203.0.113.7").unwrap();
    let twice = substitute_ip(&once, "203.0.113.7").unwrap();
    assert_eq!(render_doc(&once), render_doc(&twice));
}

#[test]
fn substitute_leaves_exclude_alone() {
    let out = substitute_ip(&sample_group(), "203.0.113.7").unwrap();
    let exclude = out.iter().find(|(k, _)| k == "exclude").unwrap();
    assert_eq!(render(&exclude.1), render(&Json::Array(vec![ip_rule("192.0.2.9")])));
}

#[test]
fn substitute_keeps_name_and_drops_other_fields() {
    let out = substitute_ip(&sample_group(), "203.0.113.7").unwrap();
    let keys: Vec<&str> = out.iter().map(|(k, _)| k.as_str()).collect();
    assert_eq!(keys, vec!["include", "require", "exclude", "name"]);
    assert_eq!(render(&out[3].1), "\"staff\"");
}

#[test]
fn substitute_keeps_only_present_rule_sets() {
    let doc = fields(vec![
        ("name", Json::Str(s("ops"))),
        ("require", Json::Array(vec![email_rule("b@example.com")])),
    ]);
    let out = substitute_ip(&doc, "203.0.113.7").unwrap();
    let expected = fields(vec![
        ("require", Json::Array(vec![email_rule("b@example.com")])),
        ("name", Json::Str(s("ops"))),
    ]);
    assert_eq!(render_doc(&out), render_doc(&expected));
}

#[test]
fn substitute_without_name_is_unsuccessful() {
    let doc = fields(vec![("include", Json::Array(vec![ip_rule("198.51.100.1")]))]);
    assert_eq!(substitute_ip(&doc, "203.0.113.7").err(), Some(CloudflareError::Unsuccessful));
}

#[test]
fn substitute_with_malformed_rule_set_is_parse_error() {
    let doc = fields(vec![
        ("name", Json::Str(s("staff"))),
        ("include", Json::Array(vec![obj(vec![("ip", Json::Str(s("not a bag")))])])),
    ]);
    assert_eq!(substitute_ip(&doc, "203.0.113.7").err(), Some(CloudflareError::ParseError));
    let doc = fields(vec![("exclude", Json::Str(s("nope")))]);
    assert_eq!(substitute_ip(&doc, "203.0.113.7").err(), Some(CloudflareError::ParseError));
}
