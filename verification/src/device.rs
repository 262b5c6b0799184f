//! The device handle and the management-plane request shapes.
//!
//! `Nanoleaf` holds the connection configuration (address and access token)
//! and the last power state the device reported. The functions here compute
//! the exact URL and body text of each management-plane request; performing
//! the HTTP calls, and decoding their JSON responses, happens outside this
//! crate, which only receives the decoded plain values back.

use vstd::prelude::*;
use vstd::string::StringExecFns;

verus! {

/// The management-plane URL of one request: fixed scheme and control port,
/// the path namespace scoped by the access token, then the target path.
pub open spec fn spec_api_url(ip: Seq<char>, token: Seq<char>, target: Seq<char>) -> Seq<char> {
    "http://"@ + ip + ":16021/api/v1/"@ + token + target
}

/// A handle on one device: where to reach it, the credential to use, and the
/// power state it last reported (unknown until first queried).
#[derive(Debug)]
pub struct Nanoleaf {
    pub access_token: Option<String>,
    pub ip: Option<String>,
    pub on: Option<bool>,
}

impl Nanoleaf {
    /// A handle with no connection configuration yet.
    pub fn new() -> (s: Self)
        ensures
            s.access_token is None,
            s.ip is None,
            s.on is None,
    {
        Nanoleaf { access_token: None, ip: None, on: None }
    }

    /// A handle preloaded with the device address and access token.
    pub fn preload(ip: &str, access_token: &str) -> (s: Self)
        ensures
            s.ip matches Some(i) && i@ == ip@,
            s.access_token matches Some(t) && t@ == access_token@,
            s.on is None,
    {
        Nanoleaf { access_token: Some(access_token.to_owned()), ip: Some(ip.to_owned()), on: None }
    }

    /// The full URL of a management-plane request against this handle, or
    /// nothing while the handle has no address or no token.
    pub fn api_url(&self, target: &str) -> (r: Option<String>)
        ensures
            r is Some <==> (self.ip is Some && self.access_token is Some),
            r matches Some(u) ==> (self.ip matches Some(ip) && self.access_token matches Some(tok)
                && u@ == spec_api_url(ip@, tok@, target@)),
    {
        match (&self.ip, &self.access_token) {
            (Some(ip), Some(token)) => {
                let mut url = String::from_str("http://");
                url.append(ip.as_str());
                url.append(":16021/api/v1/");
                url.append(token.as_str());
                url.append(target);
                Some(url)
            },
            _ => None,
        }
    }

    /// Record the power value decoded from the device's state response; the
    /// connection configuration is untouched.
    pub fn set_on_value(&mut self, value: Option<bool>)
        ensures
            final(self).on == value,
            final(self).ip == old(self).ip,
            final(self).access_token == old(self).access_token,
    {
        self.on = value;
    }

    /// The body of the state-write request that turns the panels on or off.
    pub fn set_state_body(state: bool) -> (r: String)
        ensures
            state ==> r@ == "{\"on\":{\"value\":true}}"@,
            !state ==> r@ == "{\"on\":{\"value\":false}}"@,
    {
        if state {
            String::from_str("{\"on\":{\"value\":true}}")
        } else {
            String::from_str("{\"on\":{\"value\":false}}")
        }
    }

    /// The body of the effects-write request that arms external-control
    /// streaming with the protocol version this crate's encoder speaks.
    pub fn open_socket_body() -> (r: String)
        ensures
            r@
                == "{\"write\":{\"animType\":\"extControl\",\"command\":\"display\",\"extControlVersion\":\"v2\"}}"@,
    {
        String::from_str(
            "{\"write\":{\"animType\":\"extControl\",\"command\":\"display\",\"extControlVersion\":\"v2\"}}",
        )
    }
}

} // verus!
