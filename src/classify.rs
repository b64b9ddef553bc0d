//! How a request is classified: its client address, how it reached us, and
//! what kind of client it looks like.
use vstd::prelude::*;
use crate::geo::GeoLocation;
use crate::request::{
    has_header, header_text, pair_view, readable_pairs, HeaderView, RequestHeaders,
};
use crate::text::{before_comma, contains, has_prefix, has_substring, starts_with, trim};

verus! {

/// The address that forwarding headers and the peer give for the client:
/// `CF-Connecting-IP`, then `X-Real-IP` as they stand, then the first entry of
/// `X-Forwarded-For` trimmed, then the peer. A header whose value is not
/// readable is passed over.
pub open spec fn client_ip_of(hs: Seq<HeaderView>, peer: Seq<char>) -> Seq<char> {
    match header_text(hs, "CF-Connecting-IP"@) {
        Some(v) => v,
        None => match header_text(hs, "X-Real-IP"@) {
            Some(v) => v,
            None => match header_text(hs, "X-Forwarded-For"@) {
                Some(v) => trim(before_comma(v)),
                None => peer,
            },
        },
    }
}

/// The label of the first forwarding header present.
pub open spec fn connection_label(hs: Seq<HeaderView>) -> Seq<char> {
    if has_header(hs, "CF-Connecting-IP"@) {
        "Cloudflare"@
    } else if has_header(hs, "X-Real-IP"@) {
        "Proxy/Load Balancer"@
    } else if has_header(hs, "X-Forwarded-For"@) {
        "Forwarded"@
    } else {
        "Direct"@
    }
}

pub open spec fn looks_mobile(ua: Seq<char>) -> bool {
    ||| has_substring(ua, "Mobile"@)
    ||| has_substring(ua, "Android"@)
    ||| has_substring(ua, "iPhone"@)
    ||| has_substring(ua, "iPad"@)
    ||| has_substring(ua, "iPod"@)
    ||| has_substring(ua, "BlackBerry"@)
    ||| has_substring(ua, "Opera Mini"@)
}

pub open spec fn looks_tor(hs: Seq<HeaderView>) -> bool {
    has_header(hs, "X-Tor-Exit-Node"@) || has_header(hs, "X-Tor"@)
}

/// Any forwarding through `X-VPN` or `X-Forwarded-For`, or an address that
/// starts like a private range, counts.
pub open spec fn looks_vpn(hs: Seq<HeaderView>, ip: Seq<char>) -> bool {
    ||| has_header(hs, "X-VPN"@)
    ||| has_header(hs, "X-Forwarded-For"@)
    ||| has_prefix(ip, "10."@)
    ||| has_prefix(ip, "192.168."@)
    ||| has_prefix(ip, "172."@)
}

/// The user agent named by the headers, or `Unknown`.
pub open spec fn user_agent_of(hs: Seq<HeaderView>) -> Seq<char> {
    match header_text(hs, "User-Agent"@) {
        Some(v) => v,
        None => "Unknown"@,
    }
}

/// Resolves the client's address; `peer_ip` is the address of the socket peer.
pub fn get_client_ip(headers: &RequestHeaders, peer_ip: &str) -> (r: String)
    ensures
        r@ == client_ip_of(headers@, peer_ip@),
{
    if let Some(ip) = headers.get_str("CF-Connecting-IP") {
        return ip;
    }
    if let Some(ip) = headers.get_str("X-Real-IP") {
        return ip;
    }
    if let Some(list) = headers.get_str("X-Forwarded-For") {
        return crate::text::first_field_trimmed(list.as_str());
    }
    String::from_str(peer_ip)
}

pub fn detect_connection_type(headers: &RequestHeaders) -> (r: String)
    ensures
        r@ == connection_label(headers@),
{
    if headers.contains("CF-Connecting-IP") {
        String::from_str("Cloudflare")
    } else if headers.contains("X-Real-IP") {
        String::from_str("Proxy/Load Balancer")
    } else if headers.contains("X-Forwarded-For") {
        String::from_str("Forwarded")
    } else {
        String::from_str("Direct")
    }
}

/// Whether a user agent names a phone or tablet (case-sensitive match).
pub fn is_mobile_device(user_agent: &str) -> (r: bool)
    ensures
        r == looks_mobile(user_agent@),
{
    contains(user_agent, "Mobile") || contains(user_agent, "Android") || contains(
        user_agent,
        "iPhone",
    ) || contains(user_agent, "iPad") || contains(user_agent, "iPod") || contains(
        user_agent,
        "BlackBerry",
    ) || contains(user_agent, "Opera Mini")
}

pub fn detect_tor(headers: &RequestHeaders) -> (r: bool)
    ensures
        r == looks_tor(headers@),
{
    headers.contains("X-Tor-Exit-Node") || headers.contains("X-Tor")
}

/// `ip` is the client address as resolved.
pub fn detect_vpn(headers: &RequestHeaders, ip: &str) -> (r: bool)
    ensures
        r == looks_vpn(headers@, ip@),
{
    headers.contains("X-VPN") || headers.contains("X-Forwarded-For") || starts_with(ip, "10.")
        || starts_with(ip, "192.168.") || starts_with(ip, "172.")
}

/// Everything reported about one request.
pub struct IpInfo {
    pub ip: String,
    pub user_agent: String,
    /// The request's headers with readable values, in arrival order.
    pub headers: Vec<(String, String)>,
    pub geo: Option<GeoLocation>,
    pub connection_type: String,
    pub is_mobile: bool,
    pub is_tor: bool,
    pub is_vpn: bool,
}

/// Gathers the report on a request from its headers and peer address, with
/// `geo` as the lookup on the resolved address gave it (or `None`).
pub fn build_ip_info(headers: &RequestHeaders, peer_ip: &str, geo: Option<GeoLocation>) -> (r:
    IpInfo)
    ensures
        r.ip@ == client_ip_of(headers@, peer_ip@),
        r.user_agent@ == user_agent_of(headers@),
        r.headers@.map_values(|p: (String, String)| pair_view(p)) == readable_pairs(headers@),
        r.geo == geo,
        r.connection_type@ == connection_label(headers@),
        r.is_mobile == looks_mobile(user_agent_of(headers@)),
        r.is_tor == looks_tor(headers@),
        r.is_vpn == looks_vpn(headers@, client_ip_of(headers@, peer_ip@)),
{
    let ip = get_client_ip(headers, peer_ip);
    let user_agent = match headers.get_str("User-Agent") {
        Some(ua) => ua,
        None => String::from_str("Unknown"),
    };
    let connection_type = detect_connection_type(headers);
    let is_mobile = is_mobile_device(user_agent.as_str());
    let is_tor = detect_tor(headers);
    let is_vpn = detect_vpn(headers, ip.as_str());
    let pairs = headers.readable_pairs();
    IpInfo {
        ip,
        user_agent,
        headers: pairs,
        geo,
        connection_type,
        is_mobile,
        is_tor,
        is_vpn,
    }
}

/// A readable `CF-Connecting-IP` decides the client address, whatever the other
/// headers and the peer say.
pub proof fn lemma_cloudflare_ip_wins(hs: Seq<HeaderView>, peer: Seq<char>, v: Seq<char>)
    requires
        header_text(hs, "CF-Connecting-IP"@) == Some(v),
    ensures
        client_ip_of(hs, peer) == v,
{
}

/// Without any of the three forwarding headers, the client address is the peer's.
pub proof fn lemma_no_forwarding_gives_peer(hs: Seq<HeaderView>, peer: Seq<char>)
    requires
        !has_header(hs, "CF-Connecting-IP"@),
        !has_header(hs, "X-Real-IP"@),
        !has_header(hs, "X-Forwarded-For"@),
    ensures
        client_ip_of(hs, peer) == peer,
{
}

/// An empty `X-Forwarded-For` gives an empty client address, where neither
/// `CF-Connecting-IP` nor `X-Real-IP` has a readable value to take first.
pub proof fn lemma_empty_forwarded_for_gives_empty(hs: Seq<HeaderView>, peer: Seq<char>)
    requires
        header_text(hs, "CF-Connecting-IP"@) is None,
        header_text(hs, "X-Real-IP"@) is None,
        header_text(hs, "X-Forwarded-For"@) == Some(Seq::<char>::empty()),
    ensures
        client_ip_of(hs, peer) == Seq::<char>::empty(),
{
    assert(before_comma(Seq::<char>::empty()) == Seq::<char>::empty());
}

/// `CF-Connecting-IP` takes precedence over `X-Real-IP` in the connection label.
pub proof fn lemma_cloudflare_label_first(hs: Seq<HeaderView>)
    requires
        has_header(hs, "CF-Connecting-IP"@),
        has_header(hs, "X-Real-IP"@),
    ensures
        connection_label(hs) == "Cloudflare"@,
{
}

} // verus!
