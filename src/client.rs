//! The provider client's logic: the response envelope and its normalisation,
//! and the requests it sends (addresses, headers, bodies).
use vstd::prelude::*;
use vstd::string::*;
use crate::error::CloudflareError;
use crate::json::{Json, JsonModel, Fields, fields_of, lemma_fields_of};

verus! {

/// One entry of an envelope's `errors` list.
pub struct CloudflareResponseError {
    pub code: i32,
    pub message: String,
}

/// The text of a single decimal digit.
pub open spec fn digit_text(d: nat) -> Seq<char> {
    if d == 0 { "0"@ } else if d == 1 { "1"@ } else if d == 2 { "2"@ } else if d == 3 { "3"@ }
    else if d == 4 { "4"@ } else if d == 5 { "5"@ } else if d == 6 { "6"@ } else if d == 7 { "7"@ }
    else if d == 8 { "8"@ } else { "9"@ }
}

/// `n` written in decimal, without leading zeros.
pub open spec fn digits(n: nat) -> Seq<char>
    decreases n,
{
    if n < 10 {
        digit_text(n)
    } else {
        digits(n / 10) + digit_text(n % 10)
    }
}

/// `i` written in decimal, with a leading '-' where it is negative.
pub open spec fn decimal(i: int) -> Seq<char> {
    if i < 0 {
        "-"@ + digits((-i) as nat)
    } else {
        digits(i as nat)
    }
}

fn digit_str(d: u32) -> (r: &'static str)
    requires
        d < 10,
    ensures
        r@ == digit_text(d as nat),
{
    if d == 0 { "0" } else if d == 1 { "1" } else if d == 2 { "2" } else if d == 3 { "3" }
    else if d == 4 { "4" } else if d == 5 { "5" } else if d == 6 { "6" } else if d == 7 { "7" }
    else if d == 8 { "8" } else { "9" }
}

fn digits_of(n: u32) -> (r: String)
    ensures
        r@ == digits(n as nat),
    decreases n,
{
    if n < 10 {
        String::from_str(digit_str(n))
    } else {
        digits_of(n / 10).concat(digit_str(n % 10))
    }
}

/// `i` written in decimal.
pub fn decimal_string(i: i32) -> (r: String)
    ensures
        r@ == decimal(i as int),
{
    if i < 0 {
        let magnitude: u32 = (-(i as i64)) as u32;
        String::from_str("-").concat(digits_of(magnitude).as_str())
    } else {
        digits_of(i as u32)
    }
}

impl CloudflareResponseError {
    /// A sentence that reports the error to a person.
    pub fn describe(&self) -> (r: String)
        ensures
            r@ == "Cloudflare API call failed with code "@ + decimal(self.code as int)
                + " and message:\n"@ + self.message@,
    {
        String::from_str("Cloudflare API call failed with code ").concat(
            decimal_string(self.code).as_str(),
        ).concat(" and message:\n").concat(self.message.as_str())
    }
}

/// The `result` of an envelope, which the provider sends either as a single
/// record or as a list of records.
pub enum CloudflareResult {
    Many(Vec<Vec<(String, Json)>>),
    Single(Vec<(String, Json)>),
}

/// An answer of the provider's API.
pub struct CloudflareResponse {
    pub errors: Vec<CloudflareResponseError>,
    pub messages: Option<Vec<Json>>,
    pub result: Option<CloudflareResult>,
    pub result_info: Option<Vec<(String, i32)>>,
    pub success: bool,
}

/// The records of an envelope as one list: a single record becomes a list
/// of one, a list passes through unchanged, and a missing result is an
/// `EmptyResponse` error.
pub fn parse_result(response: CloudflareResponse) -> (r: Result<Vec<Vec<(String, Json)>>, CloudflareError>)
    ensures
        match response.result {
            None => r == Err::<Vec<Vec<(String, Json)>>, CloudflareError>(CloudflareError::EmptyResponse),
            Some(CloudflareResult::Many(v)) => r == Ok::<Vec<Vec<(String, Json)>>, CloudflareError>(v),
            Some(CloudflareResult::Single(m)) => r is Ok && r->Ok_0@ == seq![m],
        },
{
    match response.result {
        Some(CloudflareResult::Many(v)) => Ok(v),
        Some(CloudflareResult::Single(m)) => Ok(vec![m]),
        None => Err(CloudflareError::EmptyResponse),
    }
}

/// HTTP methods that the client uses.
#[derive(Debug, Clone, Copy, PartialEq, Eq, Structural)]
pub enum Method {
    Get,
    Put,
}

/// A request to the provider's API.
pub struct Request {
    pub method: Method,
    pub url: String,
    /// The value of the `Authorization` header.
    pub authorization: String,
    pub body: Option<Json>,
}

pub open spec fn api_base() -> Seq<char> {
    "https://api.cloudflare.com/client/v4/"@
}

/// The `Authorization` header that carries `token`.
pub fn bearer(token: &str) -> (r: String)
    ensures
        r@ == "Bearer "@ + token@,
{
    String::from_str("Bearer ").concat(token)
}

/// The zones whose name is `zone_name`.
pub fn zones_url(zone_name: &str) -> (r: String)
    ensures
        r@ == api_base() + "zones?name="@ + zone_name@,
{
    String::from_str("https://api.cloudflare.com/client/v4/").concat("zones?name=").concat(zone_name)
}

/// The DNS records of zone `zone_id` whose name is `record_name`.
pub fn records_url(zone_id: &str, record_name: &str) -> (r: String)
    ensures
        r@ == api_base() + "zones/"@ + zone_id@ + "/dns_records?name="@ + record_name@,
{
    String::from_str("https://api.cloudflare.com/client/v4/").concat("zones/").concat(zone_id).concat(
        "/dns_records?name=",
    ).concat(record_name)
}

/// The DNS record `record_id` of zone `zone_id`.
pub fn record_url(zone_id: &str, record_id: &str) -> (r: String)
    ensures
        r@ == api_base() + "zones/"@ + zone_id@ + "/dns_records/"@ + record_id@,
{
    String::from_str("https://api.cloudflare.com/client/v4/").concat("zones/").concat(zone_id).concat(
        "/dns_records/",
    ).concat(record_id)
}

/// The access groups of account `account_id`.
pub fn groups_url(account_id: &str) -> (r: String)
    ensures
        r@ == api_base() + "accounts/"@ + account_id@ + "/access/groups"@,
{
    String::from_str("https://api.cloudflare.com/client/v4/").concat("accounts/").concat(
        account_id,
    ).concat("/access/groups")
}

/// The access group `group_id` of account `account_id`.
pub fn group_url(account_id: &str, group_id: &str) -> (r: String)
    ensures
        r@ == api_base() + "accounts/"@ + account_id@ + "/access/groups/"@ + group_id@,
{
    String::from_str("https://api.cloudflare.com/client/v4/").concat("accounts/").concat(
        account_id,
    ).concat("/access/groups/").concat(group_id)
}

/// The body of a DNS record update: an A record named `record_name` that
/// points at `ip`, sent with the zone's identifier as `id`.
pub open spec fn record_update_model(zone_id: Seq<char>, record_name: Seq<char>, ip: Seq<char>) -> Fields {
    seq![
        ("id"@, JsonModel::Str(zone_id)),
        ("type"@, JsonModel::Str("A"@)),
        ("name"@, JsonModel::Str(record_name)),
        ("content"@, JsonModel::Str(ip)),
    ]
}

/// The fields of a DNS record update.
pub fn record_update(zone_id: &str, record_name: &str, ip: &str) -> (r: Vec<(String, Json)>)
    ensures
        fields_of(r) == record_update_model(zone_id@, record_name@, ip@),
{
    let r = vec![
        (String::from_str("id"), Json::Str(String::from_str(zone_id))),
        (String::from_str("type"), Json::Str(String::from_str("A"))),
        (String::from_str("name"), Json::Str(String::from_str(record_name))),
        (String::from_str("content"), Json::Str(String::from_str(ip))),
    ];
    proof {
        lemma_fields_of(r);
        assert(fields_of(r) =~= record_update_model(zone_id@, record_name@, ip@));
    }
    r
}

/// `s` without its last character where that is `c`.
pub open spec fn strip_last(s: Seq<char>, c: char) -> Seq<char> {
    if s.len() > 0 && s.last() == c {
        s.drop_last()
    } else {
        s
    }
}

/// `body` without its trailing line terminator ("\n" or "\r\n"), if it has one.
pub open spec fn without_line_end(body: Seq<char>) -> Seq<char> {
    if body.len() > 0 && body.last() == '\n' {
        strip_last(body.drop_last(), '\r')
    } else {
        body
    }
}

/// The text of the IP echo service's answer without its line terminator.
pub fn strip_line_terminator(body: &str) -> (r: String)
    ensures
        r@ == without_line_end(body@),
{
    let n = body.unicode_len();
    if n == 0 || body.get_char(n - 1) != '\n' {
        return String::from_str(body);
    }
    let mut end = n - 1;
    if end > 0 && body.get_char(end - 1) == '\r' {
        end = end - 1;
    }
    let r = String::from_str(body.substring_char(0, end));
    assert(body@.drop_last() =~= body@.subrange(0, n - 1));
    assert(body@.drop_last().drop_last() =~= body@.subrange(0, end as int) || end == n - 1);
    r
}

} // verus!
