//! The access-group rule transformer: puts a new IP address into every IP
//! rule of a group's "include" and "require" rule sets.
use vstd::prelude::*;
use vstd::string::*;
use crate::error::CloudflareError;
use crate::json::{
    Json, JsonModel, Fields, field, fields_of, models_of, get_field, str_equal, lemma_fields_of,
    lemma_models_of, lemma_fields_push, lemma_models_push,
};

verus! {

/// The parameter bag of an IP rule that allows `ip`: `{"ip": ip}`.
pub open spec fn ip_bag(ip: Seq<char>) -> JsonModel {
    JsonModel::Object(seq![("ip"@, JsonModel::Str(ip))])
}

/// A parameter bag: an object whose values are strings.
pub open spec fn is_bag(v: JsonModel) -> bool {
    match v {
        JsonModel::Object(fs) => forall|i: int| 0 <= i < fs.len() ==> (#[trigger] fs[i]).1 is Str,
        _ => false,
    }
}

/// A rule: an object from rule-type names to parameter bags.
pub open spec fn is_rule(v: JsonModel) -> bool {
    match v {
        JsonModel::Object(fs) => forall|i: int| 0 <= i < fs.len() ==> #[trigger] is_bag(fs[i].1),
        _ => false,
    }
}

/// A rule set: an array of rules.
pub open spec fn is_rule_set(v: JsonModel) -> bool {
    match v {
        JsonModel::Array(rs) => forall|i: int| 0 <= i < rs.len() ==> #[trigger] is_rule(rs[i]),
        _ => false,
    }
}

/// One field of a rule, with its "ip" bag replaced.
pub open spec fn rewrite_field(p: (Seq<char>, JsonModel), ip: Seq<char>) -> (Seq<char>, JsonModel) {
    if p.0 == "ip"@ {
        (p.0, ip_bag(ip))
    } else {
        p
    }
}

/// A rule with its "ip" bag replaced by `{"ip": ip}`; other rules unchanged.
pub open spec fn rewrite_rule(r: JsonModel, ip: Seq<char>) -> JsonModel {
    match r {
        JsonModel::Object(fs) => JsonModel::Object(
            fs.map_values(|p: (Seq<char>, JsonModel)| rewrite_field(p, ip)),
        ),
        _ => r,
    }
}

/// A rule set with every IP rule rewritten to allow `ip`.
pub open spec fn rewrite_rules(v: JsonModel, ip: Seq<char>) -> JsonModel {
    match v {
        JsonModel::Array(rs) => JsonModel::Array(rs.map_values(|r: JsonModel| rewrite_rule(r, ip))),
        _ => v,
    }
}

/// The rule set `key` of `doc` is absent or has the shape of a rule set.
pub open spec fn section_ok(doc: Fields, key: Seq<char>) -> bool {
    match field(doc, key) {
        Some(v) => is_rule_set(v),
        None => true,
    }
}

/// The rule set `key` of `doc` as it stands in the new document: rewritten
/// where `rewrite` holds, as it was otherwise, and absent where it was absent.
pub open spec fn section(doc: Fields, key: Seq<char>, ip: Seq<char>, rewrite: bool) -> Fields {
    match field(doc, key) {
        Some(v) => seq![(key, if rewrite { rewrite_rules(v, ip) } else { v })],
        None => Seq::empty(),
    }
}

/// The access-group document that `doc` becomes once `ip` is put into its
/// "include" and "require" IP rules: the three rule sets that were present,
/// in the order include, require, exclude, then "name"; nothing else.
pub open spec fn substituted(doc: Fields, ip: Seq<char>) -> Result<Fields, CloudflareError> {
    if !section_ok(doc, "include"@) || !section_ok(doc, "require"@) || !section_ok(doc, "exclude"@) {
        Err(CloudflareError::ParseError)
    } else {
        match field(doc, "name"@) {
            None => Err(CloudflareError::Unsuccessful),
            Some(name) => Ok(
                section(doc, "include"@, ip, true) + section(doc, "require"@, ip, true) + section(
                    doc,
                    "exclude"@,
                    ip,
                    false,
                ) + seq![("name"@, name)],
            ),
        }
    }
}

/// Whether `v` is an object whose values are all strings.
fn check_bag(v: &Json) -> (r: bool)
    ensures
        r == is_bag(v.model()),
{
    match v {
        Json::Object(fs) => {
            proof {
                lemma_fields_of(*fs);
            }
            assert(v.model() == JsonModel::Object(fields_of(*fs)));
            let mut i: usize = 0;
            while i < fs.len()
                invariant
                    i <= fs.len(),
                    v.model() == JsonModel::Object(fields_of(*fs)),
                    fields_of(*fs).len() == fs.len(),
                    forall|j: int| 0 <= j < fs.len() ==> #[trigger] fields_of(*fs)[j] == (fs[j].0@, fs[j].1.model()),
                    forall|j: int| 0 <= j < i ==> (#[trigger] fields_of(*fs)[j]).1 is Str,
                decreases fs.len() - i,
            {
                match &fs[i].1 {
                    Json::Str(_) => {},
                    _ => {
                        assert(!(fields_of(*fs)[i as int].1 is Str));
                        return false;
                    },
                }
                i = i + 1;
            }
            true
        },
        _ => false,
    }
}

/// Whether `v` is an object whose values are all parameter bags.
fn check_rule(v: &Json) -> (r: bool)
    ensures
        r == is_rule(v.model()),
{
    match v {
        Json::Object(fs) => {
            proof {
                lemma_fields_of(*fs);
            }
            assert(v.model() == JsonModel::Object(fields_of(*fs)));
            let mut i: usize = 0;
            while i < fs.len()
                invariant
                    i <= fs.len(),
                    v.model() == JsonModel::Object(fields_of(*fs)),
                    fields_of(*fs).len() == fs.len(),
                    forall|j: int| 0 <= j < fs.len() ==> #[trigger] fields_of(*fs)[j] == (fs[j].0@, fs[j].1.model()),
                    forall|j: int| 0 <= j < i ==> #[trigger] is_bag(fields_of(*fs)[j].1),
                decreases fs.len() - i,
            {
                if !check_bag(&fs[i].1) {
                    proof {
                        lemma_not_rule(fields_of(*fs), i as int);
                    }
                    return false;
                }
                i = i + 1;
            }
            true
        },
        _ => false,
    }
}

/// Whether `v` has the shape of a rule set.
fn check_rule_set(v: &Json) -> (r: bool)
    ensures
        r == is_rule_set(v.model()),
{
    match v {
        Json::Array(rs) => {
            proof {
                lemma_models_of(*rs);
            }
            assert(v.model() == JsonModel::Array(models_of(*rs)));
            let mut i: usize = 0;
            while i < rs.len()
                invariant
                    i <= rs.len(),
                    v.model() == JsonModel::Array(models_of(*rs)),
                    models_of(*rs).len() == rs.len(),
                    forall|j: int| 0 <= j < rs.len() ==> #[trigger] models_of(*rs)[j] == rs[j].model(),
                    forall|j: int| 0 <= j < i ==> #[trigger] is_rule(models_of(*rs)[j]),
                decreases rs.len() - i,
            {
                if !check_rule(&rs[i]) {
                    proof {
                        lemma_not_rule_set(models_of(*rs), i as int);
                    }
                    return false;
                }
                i = i + 1;
            }
            true
        },
        _ => false,
    }
}

/// The parameter bag `{"ip": ip}`.
fn make_ip_bag(ip: &str) -> (r: Json)
    ensures
        r.model() == ip_bag(ip@),
{
    let key = String::from_str("ip");
    let value = Json::Str(String::from_str(ip));
    let fs: Vec<(String, Json)> = vec![(key, value)];
    proof {
        lemma_fields_of(fs);
        assert(fields_of(fs) =~= seq![("ip"@, JsonModel::Str(ip@))]);
    }
    Json::Object(fs)
}

/// `rule` with its "ip" bag, if it has one, replaced by `{"ip": ip}`.
fn rewrite_one_rule(rule: &Json, ip: &str) -> (r: Json)
    ensures
        r.model() == rewrite_rule(rule.model(), ip@),
{
    match rule {
        Json::Object(fs) => {
            proof {
                lemma_fields_of(*fs);
            }
            let ghost src = fields_of(*fs);
            let mut out: Vec<(String, Json)> = Vec::new();
            let mut i: usize = 0;
            while i < fs.len()
                invariant
                    i <= fs.len(),
                    src == fields_of(*fs),
                    src.len() == fs.len(),
                    forall|j: int| 0 <= j < fs.len() ==> #[trigger] src[j] == (fs[j].0@, fs[j].1.model()),
                    fields_of(out) =~= src.subrange(0, i as int).map_values(
                        |p: (Seq<char>, JsonModel)| rewrite_field(p, ip@),
                    ),
                decreases fs.len() - i,
            {
                let key = fs[i].0.clone();
                let value = if str_equal(fs[i].0.as_str(), "ip") {
                    make_ip_bag(ip)
                } else {
                    fs[i].1.deep_copy()
                };
                let ghost before = out;
                let ghost p = (key, value);
                out.push((key, value));
                proof {
                    lemma_fields_push(before, out, p);
                    assert(src.subrange(0, i + 1) =~= src.subrange(0, i as int).push(src[i as int]));
                }
                i = i + 1;
            }
            proof {
                assert(src.subrange(0, fs.len() as int) =~= src);
            }
            Json::Object(out)
        },
        _ => rule.deep_copy(),
    }
}

/// `rules` with every rule rewritten to allow `ip`.
fn rewrite_rule_set(rules: &Json, ip: &str) -> (r: Json)
    ensures
        r.model() == rewrite_rules(rules.model(), ip@),
{
    match rules {
        Json::Array(rs) => {
            proof {
                lemma_models_of(*rs);
            }
            let ghost src = models_of(*rs);
            let mut out: Vec<Json> = Vec::new();
            let mut i: usize = 0;
            while i < rs.len()
                invariant
                    i <= rs.len(),
                    src == models_of(*rs),
                    src.len() == rs.len(),
                    forall|j: int| 0 <= j < rs.len() ==> #[trigger] src[j] == rs[j].model(),
                    models_of(out) =~= src.subrange(0, i as int).map_values(
                        |r: JsonModel| rewrite_rule(r, ip@),
                    ),
                decreases rs.len() - i,
            {
                let x = rewrite_one_rule(&rs[i], ip);
                let ghost before = out;
                let ghost xg = x;
                out.push(x);
                proof {
                    lemma_models_push(before, out, xg);
                    assert(src.subrange(0, i + 1) =~= src.subrange(0, i as int).push(src[i as int]));
                }
                i = i + 1;
            }
            proof {
                assert(src.subrange(0, rs.len() as int) =~= src);
            }
            Json::Array(out)
        },
        _ => rules.deep_copy(),
    }
}

/// The document that an access group becomes once `ip` is put into the IP
/// rules of its "include" and "require" rule sets. "exclude" is copied
/// unchanged, "name" is kept, and every other field is left out.
///
/// Fails with `ParseError` where a present rule set does not have the shape
/// of one, and otherwise with `Unsuccessful` where the document has no name.
pub fn substitute_ip(document: &Vec<(String, Json)>, ip: &str) -> (r: Result<
    Vec<(String, Json)>,
    CloudflareError,
>)
    ensures
        match r {
            Ok(d) => substituted(fields_of(*document), ip@) == Ok::<Fields, CloudflareError>(fields_of(d)),
            Err(e) => substituted(fields_of(*document), ip@) == Err::<Fields, CloudflareError>(e),
        },
{
    let ghost doc = fields_of(*document);
    let included = get_field(document, "include");
    let require = get_field(document, "require");
    let exclude = get_field(document, "exclude");
    if let Some(v) = included {
        if !check_rule_set(v) {
            return Err(CloudflareError::ParseError);
        }
    }
    if let Some(v) = require {
        if !check_rule_set(v) {
            return Err(CloudflareError::ParseError);
        }
    }
    if let Some(v) = exclude {
        if !check_rule_set(v) {
            return Err(CloudflareError::ParseError);
        }
    }
    let name = match get_field(document, "name") {
        Some(n) => n,
        None => {
            return Err(CloudflareError::Unsuccessful);
        },
    };
    let mut out: Vec<(String, Json)> = Vec::new();
    proof {
        lemma_fields_of(out);
        assert(fields_of(out) =~= Seq::<(Seq<char>, JsonModel)>::empty());
    }
    if let Some(v) = included {
        let p = (String::from_str("include"), rewrite_rule_set(v, ip));
        let ghost before = out;
        let ghost pg = p;
        out.push(p);
        proof {
            lemma_fields_push(before, out, pg);
        }
    }
    assert(fields_of(out) =~= section(doc, "include"@, ip@, true));
    let ghost after_include = fields_of(out);
    if let Some(v) = require {
        let p = (String::from_str("require"), rewrite_rule_set(v, ip));
        let ghost before = out;
        let ghost pg = p;
        out.push(p);
        proof {
            lemma_fields_push(before, out, pg);
        }
    }
    assert(fields_of(out) =~= after_include + section(doc, "require"@, ip@, true));
    let ghost after_require = fields_of(out);
    if let Some(v) = exclude {
        let p = (String::from_str("exclude"), v.deep_copy());
        let ghost before = out;
        let ghost pg = p;
        out.push(p);
        proof {
            lemma_fields_push(before, out, pg);
        }
    }
    assert(fields_of(out) =~= after_require + section(doc, "exclude"@, ip@, false));
    let ghost after_exclude = fields_of(out);
    let p = (String::from_str("name"), name.deep_copy());
    let ghost before = out;
    let ghost pg = p;
    out.push(p);
    proof {
        lemma_fields_push(before, out, pg);
        assert(fields_of(out) =~= after_exclude + seq![("name"@, name.model())]);
    }
    Ok(out)
}

proof fn lemma_not_rule(fs: Fields, i: int)
    requires
        0 <= i < fs.len(),
        !is_bag(fs[i].1),
    ensures
        !is_rule(JsonModel::Object(fs)),
{
    let m = JsonModel::Object(fs);
    assert(m->Object_0 == fs);
    assert(is_rule(m) == (forall|j: int| 0 <= j < fs.len() ==> #[trigger] is_bag(fs[j].1)));
}

proof fn lemma_not_rule_set(rs: Seq<JsonModel>, i: int)
    requires
        0 <= i < rs.len(),
        !is_rule(rs[i]),
    ensures
        !is_rule_set(JsonModel::Array(rs)),
{
    let m = JsonModel::Array(rs);
    assert(m->Array_0 == rs);
    assert(is_rule_set(m) == (forall|j: int| 0 <= j < rs.len() ==> #[trigger] is_rule(rs[j])));
}

/// The first field named `k` in `a + b` is the one in `a`, if `a` has one.
pub proof fn lemma_field_concat(a: Fields, b: Fields, k: Seq<char>)
    ensures
        field(a + b, k) == (if field(a, k) is Some {
            field(a, k)
        } else {
            field(b, k)
        }),
    decreases a.len(),
{
    if a.len() == 0 {
        assert(a + b =~= b);
    } else {
        assert((a + b).drop_first() =~= a.drop_first() + b);
        lemma_field_concat(a.drop_first(), b, k);
    }
}

proof fn lemma_field_single(key: Seq<char>, v: JsonModel, k: Seq<char>)
    ensures
        field(seq![(key, v)], k) == (if k == key {
            Some(v)
        } else {
            None::<JsonModel>
        }),
{
    let s = seq![(key, v)];
    assert(s[0] == (key, v));
    assert(s.drop_first() =~= Seq::<(Seq<char>, JsonModel)>::empty());
    assert(field(s.drop_first(), k) is None);
}

proof fn lemma_field_section(doc: Fields, key: Seq<char>, ip: Seq<char>, rewrite: bool, k: Seq<char>)
    ensures
        field(section(doc, key, ip, rewrite), k) == (if k == key {
            match field(doc, key) {
                Some(v) => Some(if rewrite { rewrite_rules(v, ip) } else { v }),
                None => None,
            }
        } else {
            None::<JsonModel>
        }),
{
    match field(doc, key) {
        Some(v) => lemma_field_single(key, if rewrite { rewrite_rules(v, ip) } else { v }, k),
        None => {},
    }
}

proof fn lemma_keys_distinct()
    ensures
        "include"@ != "require"@,
        "include"@ != "exclude"@,
        "include"@ != "name"@,
        "require"@ != "exclude"@,
        "require"@ != "name"@,
        "exclude"@ != "name"@,
{
    reveal_strlit("include");
    reveal_strlit("require");
    reveal_strlit("exclude");
    reveal_strlit("name");
    assert("include"@[0] != "require"@[0]);
    assert("include"@[0] != "exclude"@[0]);
    assert("include"@[0] != "name"@[0]);
    assert("require"@[0] != "exclude"@[0]);
    assert("require"@[0] != "name"@[0]);
    assert("exclude"@[0] != "name"@[0]);
}

/// What each field of a transformed document holds.
pub proof fn lemma_substituted_field(doc: Fields, ip: Seq<char>, k: Seq<char>)
    requires
        substituted(doc, ip) is Ok,
    ensures
        k == "include"@ || k == "require"@ ==> field(substituted(doc, ip)->Ok_0, k) == match field(doc, k) {
            Some(v) => Some(rewrite_rules(v, ip)),
            None => None,
        },
        k == "exclude"@ || k == "name"@ ==> field(substituted(doc, ip)->Ok_0, k) == field(doc, k),
        k != "include"@ && k != "require"@ && k != "exclude"@ && k != "name"@ ==> field(
            substituted(doc, ip)->Ok_0,
            k,
        ) is None,
{
    let s1 = section(doc, "include"@, ip, true);
    let s2 = section(doc, "require"@, ip, true);
    let s3 = section(doc, "exclude"@, ip, false);
    let s4 = seq![("name"@, field(doc, "name"@)->Some_0)];
    lemma_keys_distinct();
    lemma_field_concat(s1 + s2 + s3, s4, k);
    lemma_field_concat(s1 + s2, s3, k);
    lemma_field_concat(s1, s2, k);
    lemma_field_section(doc, "include"@, ip, true, k);
    lemma_field_section(doc, "require"@, ip, true, k);
    lemma_field_section(doc, "exclude"@, ip, false, k);
    lemma_field_single("name"@, field(doc, "name"@)->Some_0, k);
}

proof fn lemma_rewrite_rule_idempotent(r: JsonModel, ip: Seq<char>)
    ensures
        rewrite_rule(rewrite_rule(r, ip), ip) == rewrite_rule(r, ip),
        is_rule(r) ==> is_rule(rewrite_rule(r, ip)),
{
    reveal_strlit("ip");
    assert(is_bag(ip_bag(ip))) by {
        let fs = seq![("ip"@, JsonModel::Str(ip))];
        assert(ip_bag(ip)->Object_0 == fs);
        assert(forall|i: int| 0 <= i < fs.len() ==> (#[trigger] fs[i]).1 is Str);
    }
    match r {
        JsonModel::Object(fs) => {
            let f1 = fs.map_values(|p: (Seq<char>, JsonModel)| rewrite_field(p, ip));
            let f2 = f1.map_values(|p: (Seq<char>, JsonModel)| rewrite_field(p, ip));
            assert(f2 =~= f1);
            if is_rule(r) {
                assert(r->Object_0 == fs);
                assert(forall|i: int| 0 <= i < fs.len() ==> #[trigger] is_bag(fs[i].1));
                assert(forall|i: int| 0 <= i < f1.len() ==> #[trigger] is_bag(f1[i].1)) by {
                    assert forall|i: int| 0 <= i < f1.len() implies #[trigger] is_bag(f1[i].1) by {
                        assert(is_bag(fs[i].1));
                    }
                }
                assert(rewrite_rule(r, ip)->Object_0 == f1);
            }
        },
        _ => {},
    }
}

proof fn lemma_rewrite_rules_idempotent(v: JsonModel, ip: Seq<char>)
    ensures
        rewrite_rules(rewrite_rules(v, ip), ip) == rewrite_rules(v, ip),
        is_rule_set(v) ==> is_rule_set(rewrite_rules(v, ip)),
{
    match v {
        JsonModel::Array(rs) => {
            let r1 = rs.map_values(|r: JsonModel| rewrite_rule(r, ip));
            let r2 = r1.map_values(|r: JsonModel| rewrite_rule(r, ip));
            assert forall|i: int| 0 <= i < rs.len() implies r2[i] == r1[i] && (is_rule(rs[i])
                ==> is_rule(r1[i])) by {
                lemma_rewrite_rule_idempotent(rs[i], ip);
            }
            assert(r2 =~= r1);
            if is_rule_set(v) {
                assert(v->Array_0 == rs);
                assert(forall|i: int| 0 <= i < rs.len() ==> #[trigger] is_rule(rs[i]));
                assert(forall|i: int| 0 <= i < r1.len() ==> #[trigger] is_rule(r1[i]));
                assert(rewrite_rules(v, ip)->Array_0 == r1);
            }
        },
        _ => {},
    }
}

/// Putting the same address into a group's rules a second time changes
/// nothing: the transformed document is its own transformation.
pub proof fn lemma_substitute_idempotent(doc: Fields, ip: Seq<char>)
    requires
        substituted(doc, ip) is Ok,
    ensures
        substituted(substituted(doc, ip)->Ok_0, ip) == substituted(doc, ip),
{
    let out = substituted(doc, ip)->Ok_0;
    lemma_substituted_field(doc, ip, "include"@);
    lemma_substituted_field(doc, ip, "require"@);
    lemma_substituted_field(doc, ip, "exclude"@);
    lemma_substituted_field(doc, ip, "name"@);
    match field(doc, "include"@) {
        Some(v) => lemma_rewrite_rules_idempotent(v, ip),
        None => {},
    }
    match field(doc, "require"@) {
        Some(v) => lemma_rewrite_rules_idempotent(v, ip),
        None => {},
    }
    assert(section(out, "include"@, ip, true) == section(doc, "include"@, ip, true));
    assert(section(out, "require"@, ip, true) == section(doc, "require"@, ip, true));
    assert(section(out, "exclude"@, ip, false) == section(doc, "exclude"@, ip, false));
}

/// The "exclude" rule set comes out exactly as it went in, IP rules and all.
pub proof fn lemma_exclude_untouched(doc: Fields, ip: Seq<char>)
    requires
        substituted(doc, ip) is Ok,
    ensures
        field(substituted(doc, ip)->Ok_0, "exclude"@) == field(doc, "exclude"@),
{
    lemma_substituted_field(doc, ip, "exclude"@);
}

/// The group's name is carried over, and every top-level field other than
/// the three rule sets and the name is dropped.
pub proof fn lemma_name_kept_others_dropped(doc: Fields, ip: Seq<char>, k: Seq<char>)
    requires
        substituted(doc, ip) is Ok,
    ensures
        field(substituted(doc, ip)->Ok_0, "name"@) == field(doc, "name"@),
        k != "include"@ && k != "require"@ && k != "exclude"@ && k != "name"@ ==> field(
            substituted(doc, ip)->Ok_0,
            k,
        ) is None,
{
    lemma_substituted_field(doc, ip, "name"@);
    lemma_substituted_field(doc, ip, k);
}

} // verus!
