//! The request forwarder's decisions: configuration checks, building the
//! outbound request, classifying an upstream call into a tagged outcome, and
//! the status code each outcome is answered with.
use vstd::prelude::*;
use crate::headers::{bearer_bytes, bearer_value, header_views, outbound_headers, outbound_spec, Header};
use crate::text::{contains_seq, has_prefix, str_contains, str_has_prefix};
use crate::url::{opt_view, rewrite_url, upstream_url};
use vstd::string::{StringExecFns, StringSliceAdditionalSpecFns};
use vstd::utf8::encode_utf8;

verus! {

/// Upper bound, in seconds, on one upstream call.
pub const REQUEST_TIMEOUT_SECS: u64 = 300;

/// How long, in seconds, an idle pooled upstream connection is kept.
pub const POOL_IDLE_TIMEOUT_SECS: u64 = 300;

/// Idle pooled connections kept per upstream host.
pub const POOL_MAX_IDLE_PER_HOST: usize = 32;

/// Initial HTTP/2 stream and connection window, in bytes.
pub const HTTP2_WINDOW_BYTES: u32 = 1048576;

/// A byte that may stand in a header value: visible ASCII, obs-text or a tab.
pub open spec fn valid_header_byte(b: u8) -> bool {
    (b >= 32 && b != 127) || b == 9
}

/// Every byte of `v` may stand in a header value.
pub open spec fn valid_header_value(v: Seq<u8>) -> bool {
    forall|i: int| 0 <= i < v.len() ==> valid_header_byte(#[trigger] v[i])
}

/// Whether the HTTP library accepts `s` as a request URI.
pub uninterp spec fn uri_parses(s: Seq<char>) -> bool;

/// Relies on `hyper::header::HeaderValue::from_bytes` (http 0.2), which
/// accepts exactly the values whose bytes are all valid header bytes.
#[verifier::external_body]
fn header_value_accepted(v: &[u8]) -> (r: bool)
    ensures
        r == valid_header_value(v@),
{
    hyper::header::HeaderValue::from_bytes(v).is_ok()
}

/// Relies on parsing a `hyper::Uri` from text: whether the text is a URI the
/// request builder takes depends on the text alone.
#[verifier::external_body]
fn uri_accepted(s: &str) -> (r: bool)
    ensures
        r == uri_parses(s@),
{
    s.parse::<hyper::Uri>().is_ok()
}

pub open spec fn http_scheme() -> Seq<char> {
    seq!['h', 't', 't', 'p', ':', '/', '/']
}

pub open spec fn https_scheme() -> Seq<char> {
    seq!['h', 't', 't', 'p', 's', ':', '/', '/']
}

/// The remote base URL declares the scheme `http` or `https`.
pub open spec fn valid_remote(url: Seq<char>) -> bool {
    has_prefix(url, http_scheme()) || has_prefix(url, https_scheme())
}

/// Whether `url` starts with `http://` or `https://`.
pub fn is_valid_remote_url(url: &str) -> (r: bool)
    ensures
        r == valid_remote(url@),
{
    proof {
        reveal_strlit("http://");
        reveal_strlit("https://");
        assert("http://"@ =~= http_scheme());
        assert("https://"@ =~= https_scheme());
    }
    str_has_prefix(url, "http://") || str_has_prefix(url, "https://")
}

/// A configuration was refused before serving.
#[derive(Debug, PartialEq, Eq, Structural)]
pub enum ConfigError {
    /// The remote base URL does not start with `http://` or `https://`.
    InvalidRemoteScheme,
}

/// The resolved configuration: local bind address, remote base URL and an
/// optional bearer credential. Read-only once built.
pub struct ProxyConfig {
    local_addr: String,
    remote_url: String,
    api_key: Option<String>,
}

/// The view of an optional owned text.
pub open spec fn opt_string_view(o: Option<String>) -> Option<Seq<char>> {
    match o {
        Some(s) => Some(s@),
        None => None,
    }
}

impl ProxyConfig {
    pub closed spec fn spec_local_addr(&self) -> Seq<char> {
        self.local_addr@
    }

    pub closed spec fn spec_remote_url(&self) -> Seq<char> {
        self.remote_url@
    }

    pub closed spec fn spec_api_key(&self) -> Option<Seq<char>> {
        opt_string_view(self.api_key)
    }

    /// Well-formed: the remote base URL is `http` or `https`.
    pub open spec fn wf(&self) -> bool {
        valid_remote(self.spec_remote_url())
    }

    /// Checks and builds a configuration; refused exactly when the remote base
    /// URL is neither `http://...` nor `https://...`.
    pub fn new(local_addr: String, remote_url: String, api_key: Option<String>) -> (r: Result<
        ProxyConfig,
        ConfigError,
    >)
        ensures
            r is Ok <==> valid_remote(remote_url@),
            r matches Err(e) ==> e == ConfigError::InvalidRemoteScheme,
            r matches Ok(c) ==> c.wf() && c.spec_local_addr() == local_addr@ && c.spec_remote_url()
                == remote_url@ && c.spec_api_key() == opt_string_view(api_key),
    {
        if !is_valid_remote_url(remote_url.as_str()) {
            return Err(ConfigError::InvalidRemoteScheme);
        }
        Ok(ProxyConfig { local_addr, remote_url, api_key })
    }

    pub fn local_addr(&self) -> (r: &str)
        ensures
            r@ == self.spec_local_addr(),
    {
        self.local_addr.as_str()
    }

    pub fn remote_url(&self) -> (r: &str)
        ensures
            r@ == self.spec_remote_url(),
    {
        self.remote_url.as_str()
    }

    pub fn api_key(&self) -> (r: Option<&str>)
        ensures
            opt_view(r) == self.spec_api_key(),
    {
        match &self.api_key {
            Some(k) => Some(k.as_str()),
            None => None,
        }
    }
}

/// The terminal result of forwarding one request.
#[derive(Debug, PartialEq, Eq, Structural)]
pub enum ProxyOutcome {
    /// Upstream answered with this status; headers and body are relayed as they come.
    Relayed(u16),
    /// The upstream call failed at the transport level.
    UpstreamError,
    /// The upstream call did not answer within the time bound.
    Timeout,
    /// The outbound request could not be built.
    BuildError,
}

impl ProxyOutcome {
    /// The HTTP status the client receives for this outcome.
    pub open spec fn spec_status(self) -> u16 {
        match self {
            ProxyOutcome::Relayed(s) => s,
            ProxyOutcome::UpstreamError => 502,
            ProxyOutcome::Timeout => 504,
            ProxyOutcome::BuildError => 500,
        }
    }

    pub fn status_code(&self) -> (r: u16)
        ensures
            r == self.spec_status(),
    {
        match self {
            ProxyOutcome::Relayed(s) => *s,
            ProxyOutcome::UpstreamError => 502,
            ProxyOutcome::Timeout => 504,
            ProxyOutcome::BuildError => 500,
        }
    }

    /// The body the proxy itself writes for an outcome it originates; a
    /// relayed outcome carries the upstream body instead.
    pub fn error_body(&self) -> (r: Option<String>)
        ensures
            self is Relayed <==> r is None,
            self is UpstreamError ==> (r matches Some(b) && b@ == "Bad Gateway"@),
            self is Timeout ==> (r matches Some(b) && b@ == "Gateway Timeout"@),
            self is BuildError ==> (r matches Some(b) && b@ == "Internal Server Error"@),
    {
        match self {
            ProxyOutcome::Relayed(_) => None,
            ProxyOutcome::UpstreamError => Some(String::from_str("Bad Gateway")),
            ProxyOutcome::Timeout => Some(String::from_str("Gateway Timeout")),
            ProxyOutcome::BuildError => Some(String::from_str("Internal Server Error")),
        }
    }
}

/// The outcome of a finished upstream call: a call past the time bound is a
/// timeout whatever else happened; otherwise an answer is relayed with its
/// status and a missing answer is a transport failure.
pub open spec fn classify_spec(timed_out: bool, upstream_status: Option<u16>) -> ProxyOutcome {
    if timed_out {
        ProxyOutcome::Timeout
    } else {
        match upstream_status {
            Some(s) => ProxyOutcome::Relayed(s),
            None => ProxyOutcome::UpstreamError,
        }
    }
}

/// Classifies a finished upstream call.
pub fn classify(timed_out: bool, upstream_status: Option<u16>) -> (r: ProxyOutcome)
    ensures
        r == classify_spec(timed_out, upstream_status),
{
    if timed_out {
        ProxyOutcome::Timeout
    } else {
        match upstream_status {
            Some(s) => ProxyOutcome::Relayed(s),
            None => ProxyOutcome::UpstreamError,
        }
    }
}

/// The outbound request: the absolute upstream URL and its header list. The
/// method and body are those of the inbound request.
pub struct OutboundRequest {
    pub url: String,
    pub headers: Vec<Header>,
}

/// The credential's bytes as the header carries them.
pub open spec fn credential_bytes(k: Option<Seq<char>>) -> Option<Seq<u8>> {
    match k {
        Some(c) => Some(encode_utf8(c)),
        None => None,
    }
}

/// The outbound request can be built: the URL parses and the bearer value,
/// if any, holds only valid header bytes.
pub open spec fn buildable(url: Seq<char>, credential: Option<Seq<char>>) -> bool {
    uri_parses(url) && match credential {
        Some(c) => valid_header_value(bearer_value(encode_utf8(c))),
        None => true,
    }
}

/// Derives the outbound request from the configuration and the inbound path,
/// query and headers; fails with `BuildError` exactly when the upstream URL
/// does not parse or the credential makes an invalid header value.
pub fn plan_request(
    config: &ProxyConfig,
    path_and_query: Option<&str>,
    inbound: &Vec<Header>,
) -> (r: Result<OutboundRequest, ProxyOutcome>)
    ensures
        r is Ok <==> buildable(
            upstream_url(config.spec_remote_url(), opt_view(path_and_query)),
            config.spec_api_key(),
        ),
        r matches Err(e) ==> e == ProxyOutcome::BuildError,
        r matches Ok(o) ==> o.url@ == upstream_url(config.spec_remote_url(), opt_view(path_and_query))
            && header_views(o.headers@) == outbound_spec(
            header_views(inbound@),
            credential_bytes(config.spec_api_key()),
        ),
{
    let url = rewrite_url(config.remote_url(), path_and_query);
    if !uri_accepted(url.as_str()) {
        return Err(ProxyOutcome::BuildError);
    }
    let key = config.api_key();
    match key {
        Some(k) => {
            let v = bearer_bytes(k);
            if !header_value_accepted(v.as_slice()) {
                return Err(ProxyOutcome::BuildError);
            }
        },
        None => {},
    }
    let headers = outbound_headers(inbound, key);
    Ok(OutboundRequest { url, headers })
}

/// A call that exceeded the time bound is answered with exactly 504, and a
/// transport failure with exactly 502, whatever the upstream reported.
pub proof fn lemma_origin_statuses(upstream_status: Option<u16>)
    ensures
        classify_spec(true, upstream_status).spec_status() == 504,
        classify_spec(false, None).spec_status() == 502,
        upstream_status matches Some(s) ==> classify_spec(false, upstream_status).spec_status() == s,
{
}

pub open spec fn chat_path() -> Seq<char> {
    seq!['/', 'a', 'p', 'i', '/', 'c', 'h', 'a', 't']
}

pub open spec fn generate_path() -> Seq<char> {
    seq!['/', 'a', 'p', 'i', '/', 'g', 'e', 'n', 'e', 'r', 'a', 't', 'e']
}

pub open spec fn stream_marker() -> Seq<char> {
    seq!['s', 't', 'r', 'e', 'a', 'm']
}

/// Whether a request path names an incremental-generation endpoint. Advisory
/// only: every body is relayed the same way.
pub fn is_streaming_request(path: &str) -> (r: bool)
    ensures
        r == (contains_seq(path@, chat_path()) || contains_seq(path@, generate_path())),
{
    proof {
        reveal_strlit("/api/chat");
        reveal_strlit("/api/generate");
        assert("/api/chat"@ =~= chat_path());
        assert("/api/generate"@ =~= generate_path());
    }
    str_contains(path, "/api/chat") || str_contains(path, "/api/generate")
}

/// Whether a request path holds any of the given markers.
pub fn path_has_marker(path: &str, markers: &Vec<String>) -> (r: bool)
    ensures
        r == exists|i: int| 0 <= i < markers@.len() && contains_seq(path@, #[trigger] markers@[i]@),
{
    let mut i: usize = 0;
    while i < markers.len()
        invariant
            i <= markers@.len(),
            forall|k: int| 0 <= k < i ==> !contains_seq(path@, #[trigger] markers@[k]@),
        decreases markers@.len() - i,
    {
        if str_contains(path, markers[i].as_str()) {
            return true;
        }
        i = i + 1;
    }
    false
}

/// Whether a declared content type marks a streamed response (this covers
/// `text/event-stream`). Advisory only.
pub fn is_streaming_content_type(content_type: &str) -> (r: bool)
    ensures
        r == contains_seq(content_type@, stream_marker()),
{
    proof {
        reveal_strlit("stream");
        assert("stream"@ =~= stream_marker());
    }
    str_contains(content_type, "stream")
}

} // verus!
