//! Configuration shared by the REST and WebSocket clients.

use crate::error::{Error, Result};
use crate::{DEFAULT_ACCESS_WINDOW_MS, DEFAULT_REST_URL, DEFAULT_TIMEOUT_SECS, DEFAULT_WS_URL};
use std::time::Duration;
use vstd::prelude::*;
use vstd::string::StringExecFns;

verus! {

/// The duration of a whole number of seconds.
pub uninterp spec fn duration_from_secs(secs: u64) -> Duration;

/// `Duration::from_secs` of std. Claimed: the duration is the named
/// `duration_from_secs` of the seconds, so the same seconds always give the
/// same duration. Nothing more is claimed of the value, which the library
/// only carries to the HTTP and WebSocket transports.
pub assume_specification[ Duration::from_secs ](secs: u64) -> (d: Duration)
    ensures
        d == duration_from_secs(secs),
;

/// How std's `Debug` writes a duration, such as `30s`.
pub uninterp spec fn duration_debug(d: Duration) -> Seq<char>;

/// `Clone` of std's `Duration`, a `Copy` type. Claimed: the clone equals the original.
pub assume_specification[ <Duration as Clone>::clone ](d: &Duration) -> (r: Duration)
    ensures
        r == *d,
;

/// Configuration shared by the REST and WebSocket clients.
#[derive(Clone)]
pub struct ClientConfig {
    pub api_key: Option<String>,
    pub api_secret: Option<String>,
    pub rest_url: String,
    pub ws_url: String,
    /// Time in milliseconds during which a signed request stays valid.
    pub access_window_ms: u64,
    /// HTTP request timeout.
    pub timeout: Duration,
    /// Whether plain `http`/`ws` URLs are accepted in place of `https`/`wss`.
    pub allow_insecure_transport: bool,
}

/// Keeps text that is non-empty, drops the empty text.
pub open spec fn non_empty(v: Option<Seq<char>>) -> Option<Seq<char>> {
    match v {
        Some(s) => if s.len() == 0 { None } else { Some(s) },
        None => None,
    }
}

impl ClientConfig {
    /// Both the API key and the secret are set.
    pub open spec fn spec_has_credentials(&self) -> bool {
        self.api_key is Some && self.api_secret is Some
    }

    /// The configuration without credentials that points at the public Bitvavo endpoints.
    pub open spec fn is_default_public(&self) -> bool {
        &&& self.api_key is None
        &&& self.api_secret is None
        &&& self.rest_url@ == DEFAULT_REST_URL@
        &&& self.ws_url@ == DEFAULT_WS_URL@
        &&& self.access_window_ms == DEFAULT_ACCESS_WINDOW_MS
        &&& self.timeout == duration_from_secs(DEFAULT_TIMEOUT_SECS)
        &&& !self.allow_insecure_transport
    }

    /// `self` and `other` agree on every field but, perhaps, the credentials.
    pub open spec fn same_except_credentials(&self, other: &Self) -> bool {
        &&& self.rest_url == other.rest_url
        &&& self.ws_url == other.ws_url
        &&& self.access_window_ms == other.access_window_ms
        &&& self.timeout == other.timeout
        &&& self.allow_insecure_transport == other.allow_insecure_transport
    }
}

impl Default for ClientConfig {
    fn default() -> (c: Self)
        ensures
            c.is_default_public(),
    {
        ClientConfig {
            api_key: None,
            api_secret: None,
            rest_url: String::from_str(DEFAULT_REST_URL),
            ws_url: String::from_str(DEFAULT_WS_URL),
            access_window_ms: DEFAULT_ACCESS_WINDOW_MS,
            timeout: Duration::from_secs(DEFAULT_TIMEOUT_SECS),
            allow_insecure_transport: false,
        }
    }
}

impl ClientConfig {
    /// Creates a configuration without credentials for public endpoints.
    pub fn new() -> (c: Self)
        ensures
            c.is_default_public(),
    {
        Self::default()
    }

    /// Creates a configuration with API credentials; every other field has its default.
    pub fn with_credentials(api_key: &str, api_secret: &str) -> (c: Self)
        ensures
            c.api_key.deep_view() == Some(api_key@),
            c.api_secret.deep_view() == Some(api_secret@),
            c.spec_has_credentials(),
            c.rest_url@ == DEFAULT_REST_URL@,
            c.ws_url@ == DEFAULT_WS_URL@,
            c.access_window_ms == DEFAULT_ACCESS_WINDOW_MS,
            c.timeout == duration_from_secs(DEFAULT_TIMEOUT_SECS),
            !c.allow_insecure_transport,
    {
        let base = Self::default();
        ClientConfig {
            api_key: Some(String::from_str(api_key)),
            api_secret: Some(String::from_str(api_secret)),
            ..base
        }
    }

    /// The configuration that the `BITVAVO_API_KEY` and `BITVAVO_API_SECRET`
    /// environment variables give: a variable that is unset or empty leaves
    /// its credential out; every other field has its default.
    pub fn from_env_values(api_key: Option<&str>, api_secret: Option<&str>) -> (c: Self)
        ensures
            c.api_key.deep_view() == non_empty(api_key.deep_view()),
            c.api_secret.deep_view() == non_empty(api_secret.deep_view()),
            c.spec_has_credentials() <==> (non_empty(api_key.deep_view()) is Some && non_empty(
                api_secret.deep_view(),
            ) is Some),
            c.rest_url@ == DEFAULT_REST_URL@,
            c.ws_url@ == DEFAULT_WS_URL@,
            c.access_window_ms == DEFAULT_ACCESS_WINDOW_MS,
            c.timeout == duration_from_secs(DEFAULT_TIMEOUT_SECS),
            !c.allow_insecure_transport,
    {
        let base = Self::default();
        ClientConfig { api_key: keep_non_empty(api_key), api_secret: keep_non_empty(api_secret), ..base }
    }

    /// Overrides the REST base URL.
    pub fn rest_url(self, url: &str) -> (c: Self)
        ensures
            c.rest_url@ == url@,
            c == (ClientConfig { rest_url: c.rest_url, ..self }),
    {
        ClientConfig { rest_url: String::from_str(url), ..self }
    }

    /// Overrides the WebSocket URL.
    pub fn ws_url(self, url: &str) -> (c: Self)
        ensures
            c.ws_url@ == url@,
            c == (ClientConfig { ws_url: c.ws_url, ..self }),
    {
        ClientConfig { ws_url: String::from_str(url), ..self }
    }

    /// Sets the access window in milliseconds.
    pub fn access_window_ms(self, window: u64) -> (c: Self)
        ensures
            c == (ClientConfig { access_window_ms: window, ..self }),
    {
        ClientConfig { access_window_ms: window, ..self }
    }

    /// Sets the HTTP request timeout.
    pub fn timeout(self, timeout: Duration) -> (c: Self)
        ensures
            c == (ClientConfig { timeout, ..self }),
    {
        ClientConfig { timeout, ..self }
    }

    /// Accepts plain `http` and `ws` URLs. Meant for local test servers only.
    pub fn danger_allow_insecure_transport(self, allow: bool) -> (c: Self)
        ensures
            c == (ClientConfig { allow_insecure_transport: allow, ..self }),
    {
        ClientConfig { allow_insecure_transport: allow, ..self }
    }

    /// Returns `true` when both API key and secret are set.
    pub fn has_credentials(&self) -> (b: bool)
        ensures
            b == self.spec_has_credentials(),
    {
        self.api_key.is_some() && self.api_secret.is_some()
    }

    /// The API key and secret, or `MissingCredentials` when either is unset.
    pub fn credentials(&self) -> (r: Result<(&str, &str)>)
        ensures
            self.spec_has_credentials() ==> (r matches Ok((k, s)) && Some(k@) == self.api_key.deep_view()
                && Some(s@) == self.api_secret.deep_view()),
            !self.spec_has_credentials() ==> r == Err::<(&str, &str), Error>(Error::MissingCredentials),
    {
        match (&self.api_key, &self.api_secret) {
            (Some(key), Some(secret)) => Ok((key.as_str(), secret.as_str())),
            _ => Err(Error::MissingCredentials),
        }
    }
}

fn keep_non_empty(v: Option<&str>) -> (r: Option<String>)
    ensures
        r.deep_view() == non_empty(v.deep_view()),
{
    match v {
        Some(s) => {
            if s.is_empty() {
                None
            } else {
                Some(String::from_str(s))
            }
        },
        None => None,
    }
}

/// How std's `Debug` writes a string: quoted, with special characters escaped.
pub uninterp spec fn debug_str(s: Seq<char>) -> Seq<char>;

/// Computes `format!("{:?}", s)`, std's `Debug` of a string. Claimed: the
/// text depends on the string alone (it is the named `debug_str`); nothing is
/// claimed of its form.
#[verifier::external_body]
fn str_debug_text(s: &str) -> (r: String)
    ensures
        r@ == debug_str(s@),
{
    format!("{:?}", s)
}

/// Computes `format!("{:?}", d)`, std's `Debug` of a duration. Claimed: the
/// text depends on the duration alone (it is the named `duration_debug`);
/// nothing is claimed of its form.
#[verifier::external_body]
fn duration_debug_text(d: &Duration) -> (r: String)
    ensures
        r@ == duration_debug(*d),
{
    format!("{:?}", d)
}

/// What the debug text shows of a credential: that it is set, never its value.
pub open spec fn redacted(set: bool) -> Seq<char> {
    if set {
        "Some(\"<redacted>\")"@
    } else {
        "None"@
    }
}

/// The debug text of a configuration, given the debug text of its timeout.
pub open spec fn config_debug_text(c: ClientConfig, timeout: Seq<char>) -> Seq<char> {
    "ClientConfig { api_key: "@ + redacted(c.api_key is Some) + ", api_secret: "@ + redacted(
        c.api_secret is Some,
    ) + ", rest_url: "@ + debug_str(c.rest_url@) + ", ws_url: "@ + debug_str(c.ws_url@)
        + ", access_window_ms: "@ + crate::text::decimal(c.access_window_ms as nat) + ", timeout: "@ + timeout
        + " }"@
}

/// The debug text never depends on the API key or secret: two configurations
/// that differ only in the values of their credentials, not in which are
/// set, read the same.
pub proof fn lemma_debug_text_redacts_credentials(c1: ClientConfig, c2: ClientConfig, timeout: Seq<char>)
    requires
        c1.same_except_credentials(&c2),
        (c1.api_key is Some) == (c2.api_key is Some),
        (c1.api_secret is Some) == (c2.api_secret is Some),
    ensures
        config_debug_text(c1, timeout) == config_debug_text(c2, timeout),
{
}

fn push_redacted(out: &mut String, set: bool)
    ensures
        final(out)@ == old(out)@ + redacted(set),
{
    if set {
        out.append("Some(\"<redacted>\")");
    } else {
        out.append("None");
    }
}

impl ClientConfig {
    /// The debug text with the given text for the timeout.
    pub fn debug_text_with_timeout(&self, timeout: &str) -> (s: String)
        ensures
            s@ == config_debug_text(*self, timeout@),
    {
        let mut s = String::from_str("ClientConfig { api_key: ");
        push_redacted(&mut s, self.api_key.is_some());
        s.append(", api_secret: ");
        push_redacted(&mut s, self.api_secret.is_some());
        s.append(", rest_url: ");
        s.append(str_debug_text(self.rest_url.as_str()).as_str());
        s.append(", ws_url: ");
        s.append(str_debug_text(self.ws_url.as_str()).as_str());
        s.append(", access_window_ms: ");
        crate::text::push_decimal(&mut s, self.access_window_ms);
        s.append(", timeout: ");
        s.append(timeout);
        s.append(" }");
        assert(s@ =~= config_debug_text(*self, timeout@));
        s
    }

    /// The text that `Debug` would show: every field but the transport
    /// switch, with the API key and secret redacted. The timeout is written as
    /// std's `Debug` writes a duration, such as `30s`.
    pub fn debug_text(&self) -> (s: String)
        ensures
            s@ == config_debug_text(*self, duration_debug(self.timeout)),
    {
        let timeout = duration_debug_text(&self.timeout);
        self.debug_text_with_timeout(timeout.as_str())
    }
}

} // verus!
