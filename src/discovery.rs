use crate::supervisor::Ngrok;
use vstd::prelude::*;
use vstd::string::*;

verus! {

/// Why the public address of the tunnel could not be learnt.
#[derive(Clone, Debug)]
pub enum TunnelError {
    /// No process was started.
    NotRunning,
    /// The status endpoint could not be reached; the transport's words.
    Unreachable(String),
    /// The status endpoint answered with something that is not a tunnel list.
    MalformedResponse,
    /// The list is empty: the process has not set its tunnel up yet.
    NoTunnelsYet,
    /// The first tunnel's address is not a URL.
    InvalidPublicUrl,
}

/// The normalised text of `s` parsed as a URL, or `None` where it is none.
pub uninterp spec fn parsed_url(s: Seq<char>) -> Option<Seq<char>>;

/// Relies on `url::Url::parse` (re-exported by reqwest) and `Url::as_str`:
/// whether `s` is a URL, and its serialisation.
#[verifier::external_body]
fn parse_url(s: &str) -> (r: Option<String>)
    ensures
        opt_string_view(r) == parsed_url(s@),
{
    reqwest::Url::parse(s).ok().map(|u| u.as_str().to_owned())
}

pub open spec fn opt_string_view(o: Option<String>) -> Option<Seq<char>> {
    match o {
        Some(s) => Some(s@),
        None => None,
    }
}

/// What a tunnel list yields: the first entry wins.
pub open spec fn first_public_url(tunnels: Seq<Seq<char>>) -> Result<Seq<char>, TunnelError> {
    if tunnels.len() == 0 {
        Err(TunnelError::NoTunnelsYet)
    } else {
        match parsed_url(tunnels[0]) {
            Some(u) => Ok(u),
            None => Err(TunnelError::InvalidPublicUrl),
        }
    }
}

pub open spec fn result_view(r: Result<String, TunnelError>) -> Result<Seq<char>, TunnelError> {
    match r {
        Ok(s) => Ok(s@),
        Err(e) => Err(e),
    }
}

/// What the status endpoint's answer yields: `Err` with the transport's
/// words where it was not reached, `None` where its body is not a tunnel
/// list, else the tunnels' public addresses in order.
pub open spec fn discovery_outcome(
    running: bool,
    response: Result<Option<Seq<Seq<char>>>, String>,
) -> Result<Seq<char>, TunnelError> {
    if !running {
        Err(TunnelError::NotRunning)
    } else {
        match response {
            Err(e) => Err(TunnelError::Unreachable(e)),
            Ok(None) => Err(TunnelError::MalformedResponse),
            Ok(Some(t)) => first_public_url(t),
        }
    }
}

pub open spec fn response_view(r: Result<Option<Vec<String>>, String>) -> Result<Option<Seq<Seq<char>>>, String> {
    match r {
        Ok(Some(v)) => Ok(Some(v.deep_view())),
        Ok(None) => Ok(None),
        Err(e) => Err(e),
    }
}

/// The public address of the first tunnel of a list.
pub fn select_public_url(tunnels: &Vec<String>) -> (r: Result<String, TunnelError>)
    ensures
        result_view(r) == first_public_url(tunnels.deep_view()),
{
    if tunnels.len() == 0 {
        return Err(TunnelError::NoTunnelsYet);
    }
    match parse_url(tunnels[0].as_str()) {
        Some(u) => Ok(u),
        None => Err(TunnelError::InvalidPublicUrl),
    }
}

impl Ngrok {
    /// Interprets the status endpoint's answer; fails with `NotRunning`
    /// before anything else when no process was started.
    pub fn fetch_url(&self, response: Result<Option<Vec<String>>, String>) -> (r: Result<String, TunnelError>)
        ensures
            result_view(r) == discovery_outcome(self.is_running(), response_view(response)),
    {
        if !self.is_run() {
            return Err(TunnelError::NotRunning);
        }
        match response {
            Err(e) => Err(TunnelError::Unreachable(e)),
            Ok(None) => Err(TunnelError::MalformedResponse),
            Ok(Some(t)) => select_public_url(&t),
        }
    }
}

} // verus!
