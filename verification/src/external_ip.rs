//! Where the external address is asked for, and what an answer gives.
use vstd::prelude::*;

use crate::config::{env_var, var_name, EnvState, Setting};

verus! {

/// The endpoint for a setting: the configured one, else `default`.
pub open spec fn spec_endpoint(configured: Option<Seq<char>>, default: Seq<char>) -> Seq<char> {
    match configured {
        Some(v) => v,
        None => default,
    }
}

/// The endpoint that reports the IPv4 address: `CLOUDFLAREDDNS_IPV4_API_ENDPOINT`
/// when set, else `https://api.ipify.org`.
pub fn ipv4_endpoint(env: &EnvState) -> (r: String)
    ensures
        r@ == spec_endpoint(
            env_var(env@, var_name(Setting::Ipv4Endpoint)),
            "https://api.ipify.org"@,
        ),
{
    match env.var(Setting::Ipv4Endpoint.var_name()) {
        Some(v) => v,
        None => "https://api.ipify.org".to_owned(),
    }
}

/// The endpoint that reports the IPv6 address: `CLOUDFLAREDDNS_IPV6_API_ENDPOINT`
/// when set, else `https://api6.ipify.org`.
pub fn ipv6_endpoint(env: &EnvState) -> (r: String)
    ensures
        r@ == spec_endpoint(
            env_var(env@, var_name(Setting::Ipv6Endpoint)),
            "https://api6.ipify.org"@,
        ),
{
    match env.var(Setting::Ipv6Endpoint.var_name()) {
        Some(v) => v,
        None => "https://api6.ipify.org".to_owned(),
    }
}

/// What an answer of the endpoint gives: its body when the body is an IP
/// address, else an error that names it.
pub open spec fn spec_address_from_body(body: Seq<char>, is_ip_address: bool) -> Result<
    Seq<char>,
    Seq<char>,
> {
    if is_ip_address {
        Ok(body)
    } else {
        Err("IP address "@ + body + " is invalid"@)
    }
}

/// The view of a result whose both sides are text.
pub open spec fn text_pair(r: Result<String, String>) -> Result<Seq<char>, Seq<char>> {
    match r {
        Ok(s) => Ok(s@),
        Err(e) => Err(e@),
    }
}

/// What an answer of the endpoint gives; `is_ip_address` tells whether the body
/// reads as an IPv4 or IPv6 address.
pub fn address_from_body(body: String, is_ip_address: bool) -> (r: Result<String, String>)
    ensures
        text_pair(r) == spec_address_from_body(body@, is_ip_address),
{
    if is_ip_address {
        Ok(body)
    } else {
        let mut message = "IP address ".to_owned();
        message.append(body.as_str());
        message.append(" is invalid");
        Err(message)
    }
}

/// The error reported when the endpoint answers with a failure status.
pub fn endpoint_failure(detail: &str) -> (r: String)
    ensures
        r@ == "Retrieving the IP address API endpoint failed: "@ + detail@,
{
    let mut message = "Retrieving the IP address API endpoint failed: ".to_owned();
    message.append(detail);
    message
}

/// A configured endpoint is used as it is; only an unset one falls back to the
/// default.
pub proof fn lemma_configured_endpoint_wins(configured: Seq<char>, default: Seq<char>)
    ensures
        spec_endpoint(Some(configured), default) == configured,
        spec_endpoint(None, default) == default,
{
}

/// An answer that is an address is passed on unchanged; any other answer is
/// refused with an error that quotes it.
pub proof fn lemma_address_answer(body: Seq<char>)
    ensures
        spec_address_from_body(body, true) == Ok::<Seq<char>, Seq<char>>(body),
        spec_address_from_body(body, false) == Err::<Seq<char>, Seq<char>>(
            "IP address "@ + body + " is invalid"@,
        ),
{
}

} // verus!
