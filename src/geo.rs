//! Geolocation of a client address: whether to look it up, where, and how the
//! lookup service's JSON answer maps to a location.
use vstd::prelude::*;
use crate::text::{has_prefix, opt_view, starts_with};

verus! {

#[verifier::external_type_specification]
#[verifier::external_body]
pub struct ExJsonValue(serde_json::Value);

/// Whether serde_json reads `text` as one JSON document.
pub uninterp spec fn parses_as_json(text: Seq<char>) -> bool;

/// The members of a JSON object whose values are strings, by key; empty for
/// anything that is not an object.
pub uninterp spec fn string_members(v: serde_json::Value) -> Map<Seq<char>, Seq<char>>;

/// The string members of the value that serde_json reads from `text`.
pub uninterp spec fn body_string_members(text: Seq<char>) -> Map<Seq<char>, Seq<char>>;

/// Relies on `serde_json::from_str` into a `serde_json::Value`: whether it
/// succeeds, and the value it gives, depend on the text alone.
#[verifier::external_body]
fn parse_json(text: &str) -> (r: Option<serde_json::Value>)
    ensures
        r is Some == parses_as_json(text@),
        r matches Some(v) ==> string_members(v) == body_string_members(text@),
{
    serde_json::from_str::<serde_json::Value>(text).ok()
}

/// Relies on `serde_json::Value::get` with a string key and
/// `serde_json::Value::as_str`: the member `key` of an object, where it is a string.
#[verifier::external_body]
fn string_member(v: &serde_json::Value, key: &str) -> (r: Option<String>)
    ensures
        opt_view(r) == (if string_members(*v).contains_key(key@) {
            Some(string_members(*v)[key@])
        } else {
            None
        }),
{
    v.get(key).and_then(serde_json::Value::as_str).map(String::from)
}

/// The string member `key` of `v`, if it has one.
pub open spec fn member(v: serde_json::Value, key: Seq<char>) -> Option<Seq<char>> {
    if string_members(v).contains_key(key) {
        Some(string_members(v)[key])
    } else {
        None
    }
}

/// The string member `key` of the JSON document `text`, if it has one.
pub open spec fn body_member(text: Seq<char>, key: Seq<char>) -> Option<Seq<char>> {
    if body_string_members(text).contains_key(key) {
        Some(body_string_members(text)[key])
    } else {
        None
    }
}

/// Where a client is, as far as the lookup service told. Each part is absent
/// when the service did not give it as a string.
pub struct GeoLocation {
    pub country: Option<String>,
    pub region: Option<String>,
    pub city: Option<String>,
    pub org: Option<String>,
    pub timezone: Option<String>,
    pub postal: Option<String>,
}

/// Loopback and private addresses are not looked up.
pub open spec fn skips_lookup(ip: Seq<char>) -> bool {
    has_prefix(ip, "127."@) || has_prefix(ip, "192.168."@) || has_prefix(ip, "10."@)
}

pub open spec fn lookup_url_of(ip: Seq<char>) -> Seq<char> {
    "http://ip-api.com/json/"@ + ip
}

/// `geo` holds what the JSON object `v` gives for each part of a location.
pub open spec fn geo_matches_json(geo: GeoLocation, v: serde_json::Value) -> bool {
    &&& opt_view(geo.country) == member(v, "country"@)
    &&& opt_view(geo.region) == member(v, "regionName"@)
    &&& opt_view(geo.city) == member(v, "city"@)
    &&& opt_view(geo.org) == member(v, "org"@)
    &&& opt_view(geo.timezone) == member(v, "timezone"@)
    &&& opt_view(geo.postal) == member(v, "zip"@)
}

/// `geo` holds what the JSON document `text` gives for each part of a location.
pub open spec fn geo_matches_body(geo: GeoLocation, text: Seq<char>) -> bool {
    &&& opt_view(geo.country) == body_member(text, "country"@)
    &&& opt_view(geo.region) == body_member(text, "regionName"@)
    &&& opt_view(geo.city) == body_member(text, "city"@)
    &&& opt_view(geo.org) == body_member(text, "org"@)
    &&& opt_view(geo.timezone) == body_member(text, "timezone"@)
    &&& opt_view(geo.postal) == body_member(text, "zip"@)
}

/// The address to ask about `ip`, or `None` where no lookup is to be made.
pub fn geo_lookup_url(ip: &str) -> (r: Option<String>)
    ensures
        r is None <==> skips_lookup(ip@),
        r matches Some(u) ==> u@ == lookup_url_of(ip@),
{
    if starts_with(ip, "127.") || starts_with(ip, "192.168.") || starts_with(ip, "10.") {
        return None;
    }
    let mut url = String::from_str("http://ip-api.com/json/");
    url.append(ip);
    Some(url)
}

/// Maps the service's JSON answer to a location: `regionName` gives the
/// region and `zip` the postal code; the other parts keep their names.
pub fn geo_from_json(v: &serde_json::Value) -> (r: GeoLocation)
    ensures
        geo_matches_json(r, *v),
{
    GeoLocation {
        country: string_member(v, "country"),
        region: string_member(v, "regionName"),
        city: string_member(v, "city"),
        org: string_member(v, "org"),
        timezone: string_member(v, "timezone"),
        postal: string_member(v, "zip"),
    }
}

/// Reads the service's answer body: a location where it is JSON, else `None`.
pub fn geo_from_body(body: &str) -> (r: Option<GeoLocation>)
    ensures
        r is Some == parses_as_json(body@),
        r matches Some(g) ==> geo_matches_body(g, body@),
{
    match parse_json(body) {
        Some(v) => Some(geo_from_json(&v)),
        None => None,
    }
}

/// Reads the service's answer: no location unless the response was a
/// success and its body is JSON.
pub fn geo_from_response(success: bool, body: &str) -> (r: Option<GeoLocation>)
    ensures
        r is Some == (success && parses_as_json(body@)),
        r matches Some(g) ==> geo_matches_body(g, body@),
{
    if !success {
        return None;
    }
    geo_from_body(body)
}

} // verus!
