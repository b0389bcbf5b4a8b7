//! The identifier resolver: picks the identifiers that update calls need out
//! of the provider's lookup results.
use vstd::prelude::*;
use crate::error::CloudflareError;
use crate::json::{Json, Fields, str_field, fields_of, get_str_field};

verus! {

/// The models of a list of records.
pub open spec fn records_of(v: Seq<Vec<(String, Json)>>) -> Seq<Fields> {
    v.map_values(|r: Vec<(String, Json)>| fields_of(r))
}

/// The string `id` of the first record, if there is a first record and its
/// `id` is a string.
pub open spec fn first_id_of(recs: Seq<Fields>) -> Option<Seq<char>> {
    if recs.len() == 0 {
        None
    } else {
        str_field(recs[0], "id"@)
    }
}

/// The identifier of the first record of a lookup. Records after the first
/// are not looked at. Fails with `ParseError` where there is no first
/// record, or its `id` is missing or not a string.
pub fn first_id(records: &Vec<Vec<(String, Json)>>) -> (r: Result<String, CloudflareError>)
    ensures
        match first_id_of(records_of(records@)) {
            Some(id) => r is Ok && r->Ok_0@ == id,
            None => r == Err::<String, CloudflareError>(CloudflareError::ParseError),
        },
{
    if records.len() == 0 {
        return Err(CloudflareError::ParseError);
    }
    assert(records_of(records@)[0] == fields_of(records@[0]));
    match get_str_field(&records[0], "id") {
        Some(id) => Ok(id.clone()),
        None => Err(CloudflareError::ParseError),
    }
}

/// A record whose `name` is the string `name`.
pub open spec fn has_name(rec: Fields, name: Seq<char>) -> bool {
    str_field(rec, "name"@) == Some(name)
}

/// The records named `name`, in order.
pub open spec fn named(recs: Seq<Fields>, name: Seq<char>) -> Seq<Fields> {
    recs.filter(|f: Fields| has_name(f, name))
}

/// What a group lookup yields: the `id` of the one record named `name`;
/// `Unsuccessful` where no record or more than one has that name;
/// `ParseError` where the one match has no string `id`.
pub open spec fn unique_id_of(recs: Seq<Fields>, name: Seq<char>) -> Result<Seq<char>, CloudflareError> {
    let m = named(recs, name);
    if m.len() != 1 {
        Err(CloudflareError::Unsuccessful)
    } else {
        match str_field(m[0], "id"@) {
            Some(id) => Ok(id),
            None => Err(CloudflareError::ParseError),
        }
    }
}

/// The identifier of the access group named `group_name` among the
/// account's groups. The name must match exactly one group.
pub fn resolve_group(groups: &Vec<Vec<(String, Json)>>, group_name: &str) -> (r: Result<String, CloudflareError>)
    ensures
        match unique_id_of(records_of(groups@), group_name@) {
            Ok(id) => r is Ok && r->Ok_0@ == id,
            Err(e) => r == Err::<String, CloudflareError>(e),
        },
{
    let ghost recs = records_of(groups@);
    let ghost pred = |f: Fields| has_name(f, group_name@);
    let mut count: usize = 0;
    let mut first: usize = 0;
    let mut i: usize = 0;
    while i < groups.len()
        invariant
            i <= groups.len(),
            recs == records_of(groups@),
            pred == (|f: Fields| has_name(f, group_name@)),
            count == recs.subrange(0, i as int).filter(pred).len(),
            count <= i,
            count > 0 ==> first < i && recs.subrange(0, i as int).filter(pred)[0] == recs[first as int],
        decreases groups.len() - i,
    {
        let ghost sub = recs.subrange(0, i as int);
        proof {
            assert(recs.subrange(0, i + 1).drop_last() =~= sub);
            reveal(Seq::filter);
        }
        let matches = match get_str_field(&groups[i], "name") {
            Some(n) => crate::json::str_equal(n.as_str(), group_name),
            None => false,
        };
        assert(recs[i as int] == fields_of(groups@[i as int]));
        if matches {
            if count == 0 {
                first = i;
            }
            count = count + 1;
        }
        i = i + 1;
    }
    assert(recs.subrange(0, groups.len() as int) =~= recs);
    if count != 1 {
        return Err(CloudflareError::Unsuccessful);
    }
    assert(recs[first as int] == fields_of(groups@[first as int]));
    match get_str_field(&groups[first], "id") {
        Some(id) => Ok(id.clone()),
        None => Err(CloudflareError::ParseError),
    }
}

} // verus!
