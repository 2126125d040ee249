//! The lifecycle handle's verified core: endpoint validation at
//! construction, the validated configuration the renewal loop runs with,
//! and the one-shot cancellation signal that teardown fires exactly once.
//!
//! The handle's executor itself (the background runtime, the join on
//! teardown) is driver work and lives outside this crate; everything the
//! driver decides with, it takes from here.

use vstd::prelude::*;
use vstd::string::StringExecFns;
use crate::client::refresh_url;

verus! {

#[verifier::external_type_specification]
#[verifier::external_body]
pub struct ExUrl(reqwest::Url);

/// Whether a string parses as a well-formed absolute URL.  What exactly the
/// URL grammar admits is the URL crate's affair; nothing else is assumed of
/// it.
pub uninterp spec fn parses_as_url(s: Seq<char>) -> bool;

/// Relies on reqwest::Url::parse (the url crate's parser): it returns `Ok`
/// exactly on well-formed absolute URLs, and its outcome depends on the
/// characters of the input alone.
#[verifier::external_body]
fn parse_url(s: &str) -> (r: Option<reqwest::Url>)
    ensures
        r is Some <==> parses_as_url(s@),
{
    reqwest::Url::parse(s).ok()
}

/// The construction failure: the configured endpoint is not a well-formed
/// URL.  Fatal, surfaced synchronously to the constructor's caller; nothing
/// is started.
#[derive(Debug, Clone)]
pub struct ConfigError {
    /// The rejected endpoint string.
    pub endpoint: String,
}

impl ConfigError {
    /// A human-readable account of the failure.
    pub fn message(&self) -> (r: String)
        ensures
            r@ == "endpoint is not a well-formed URL: "@ + self.endpoint@,
    {
        String::from_str("endpoint is not a well-formed URL: ").concat(self.endpoint.as_str())
    }
}

/// A validated renewal configuration: the parsed refresh URL, the resource
/// identifier sent as the `ticket` query value, and the nominal lease
/// lifetime that sets the renewal cadence.
pub struct HeartbeatConfig {
    refresh_url: reqwest::Url,
    refresh_url_text: String,
    resource_id: String,
    ttl_seconds: u64,
}

impl HeartbeatConfig {
    /// The text the refresh URL was parsed from, for contracts.
    pub closed spec fn refresh_text(self) -> Seq<char> {
        self.refresh_url_text@
    }

    /// The resource identifier, for contracts.
    pub closed spec fn id(self) -> Seq<char> {
        self.resource_id@
    }

    /// The nominal lease lifetime in seconds, for contracts.
    pub closed spec fn ttl(self) -> u64 {
        self.ttl_seconds
    }

    /// The refresh URL text is indeed a well-formed URL.
    pub closed spec fn wf(self) -> bool {
        parses_as_url(self.refresh_url_text@)
    }

    /// Validate `(endpoint, resourceId, ttlSeconds)` into a configuration.
    ///
    /// The refresh URL is the endpoint with `/refresh` appended, and
    /// validation is exactly its parse: construction succeeds if and only
    /// if that string is a well-formed URL, and fails fast with
    /// [`ConfigError`] otherwise.  Nothing here blocks: no request is made
    /// and no executor is started.
    pub fn new(endpoint: &str, resource_id: String, ttl_seconds: u64) -> (r: Result<
        HeartbeatConfig,
        ConfigError,
    >)
        ensures
            r is Ok <==> parses_as_url(endpoint@ + "/refresh"@),
            r matches Ok(c) ==> c.refresh_text() == endpoint@ + "/refresh"@ && c.id()
                == resource_id@ && c.ttl() == ttl_seconds && c.wf(),
            r matches Err(e) ==> e.endpoint@ == endpoint@,
    {
        let text = refresh_url(endpoint);
        match parse_url(text.as_str()) {
            Some(url) => Ok(
                HeartbeatConfig {
                    refresh_url: url,
                    refresh_url_text: text,
                    resource_id,
                    ttl_seconds,
                },
            ),
            None => Err(ConfigError { endpoint: String::from_str(endpoint) }),
        }
    }

    /// The parsed refresh URL, for the driver to post to.
    pub fn url(&self) -> &reqwest::Url {
        &self.refresh_url
    }

    /// The refresh URL as text.
    pub fn url_text(&self) -> (r: &String)
        ensures
            r@ == self.refresh_text(),
    {
        &self.refresh_url_text
    }

    /// The resource identifier.
    pub fn resource_id(&self) -> (r: &String)
        ensures
            r@ == self.id(),
    {
        &self.resource_id
    }

    /// The nominal lease lifetime in seconds.
    pub fn ttl_seconds(&self) -> (r: u64)
        ensures
            r == self.ttl(),
    {
        self.ttl_seconds
    }
}

/// The model of the cancellation token's send side: a single-use, one-shot
/// signal.  Firing is idempotent from the caller's perspective — the send
/// happens at most once — and once fired it stays fired for any subsequent
/// check.
pub struct CancelSignal {
    fired: bool,
}

impl CancelSignal {
    /// Whether the signal has been fired, for contracts.
    pub closed spec fn is_fired(self) -> bool {
        self.fired
    }

    /// A fresh, unfired signal.
    pub fn new() -> (r: CancelSignal)
        ensures
            !r.is_fired(),
    {
        CancelSignal { fired: false }
    }

    /// Fire the signal.  Returns whether this call was the first: the send
    /// side must be used exactly when `first` holds, so the underlying
    /// one-shot channel is used at most once however often teardown runs.
    pub fn fire(&mut self) -> (first: bool)
        ensures
            final(self).is_fired(),
            first == !old(self).is_fired(),
    {
        let first = !self.fired;
        self.fired = true;
        first
    }

    /// Whether the signal has been fired: true from the first `fire` on.
    pub fn observed(&self) -> (r: bool)
        ensures
            r == self.is_fired(),
    {
        self.fired
    }
}

} // verus!
