//! The envelope header: extracting the connection descriptor from a raw
//! payload, and deriving the canonical upstream URL from it.
//!
//! A payload is a newline-separated text whose first line is a JSON
//! document holding a `dsn` field; the descriptor is drawn from that field
//! and everything after the first line is carried through untouched.

use vstd::prelude::*;

use crate::strutil::{
    first_line, spec_contains_seq, spec_dec_str, spec_first_line, u16_to_string,
};

verus! {

/// Why a payload yields no message: the header line is missing or is not
/// a JSON document (`InvalidBody`), or it is one whose `dsn` field is
/// absent, not a string, or not a parseable connection string
/// (`InvalidDsn`).
#[derive(Clone, Copy, Debug, PartialEq, Eq, Structural)]
pub enum SentryError {
    InvalidDsn,
    InvalidBody,
}

/// The mathematical content of a connection descriptor: scheme, host
/// (scheme and port stripped), resolved port, embedded credential and
/// project segment.
pub ghost struct DsnModel {
    pub https: bool,
    pub host: Seq<char>,
    pub port: u16,
    pub public_key: Seq<char>,
    pub project_id: Seq<char>,
}

/// A connection descriptor extracted from a payload header. `port` is the
/// explicit port of the connection string, or the scheme's default where
/// none was given.
pub struct Dsn {
    pub https: bool,
    pub host: String,
    pub port: u16,
    pub public_key: String,
    pub project_id: String,
}

impl View for Dsn {
    type V = DsnModel;

    open spec fn view(&self) -> DsnModel {
        DsnModel {
            https: self.https,
            host: self.host@,
            port: self.port,
            public_key: self.public_key@,
            project_id: self.project_id@,
        }
    }
}

/// Whether a line parses as a JSON document.
pub uninterp spec fn json_parses(s: Seq<char>) -> bool;

/// The string held by the `dsn` field of the JSON document on the given
/// line, or `None` where the field is absent or not a string.
pub uninterp spec fn json_dsn_field(s: Seq<char>) -> Option<Seq<char>>;

/// Whether a string parses as a connection-string URI.
pub uninterp spec fn dsn_parses(s: Seq<char>) -> bool;

/// Whether the scheme of the connection string is `https`.
pub uninterp spec fn dsn_https(s: Seq<char>) -> bool;

/// The host of the connection string.
pub uninterp spec fn dsn_host(s: Seq<char>) -> Seq<char>;

/// The port of the connection string, explicit or the scheme's default.
pub uninterp spec fn dsn_port(s: Seq<char>) -> u16;

/// The embedded credential of the connection string.
pub uninterp spec fn dsn_public_key(s: Seq<char>) -> Seq<char>;

/// The project segment of the connection string.
pub uninterp spec fn dsn_project_id(s: Seq<char>) -> Seq<char>;

/// The descriptor denoted by a connection string, meaningful where
/// `dsn_parses` holds of it.
pub open spec fn spec_dsn_model(s: Seq<char>) -> DsnModel {
    DsnModel {
        https: dsn_https(s),
        host: dsn_host(s),
        port: dsn_port(s),
        public_key: dsn_public_key(s),
        project_id: dsn_project_id(s),
    }
}

/// Relies on serde_json::from_str::<Value>, serde_json::Value::get and
/// serde_json::Value::as_str: whether a line is a JSON document, and what
/// string its `dsn` field holds, are functions of the line's characters
/// alone. `None` is a line that is no JSON document; `Some(None)` a
/// document whose `dsn` field is absent or not a string.
#[verifier::external_body]
fn extract_dsn_field(header: &str) -> (r: Option<Option<String>>)
    ensures
        (r is Some) == json_parses(header@),
        r matches Some(Some(d)) ==> json_dsn_field(header@) == Some(d@),
        r matches Some(None) ==> json_dsn_field(header@) is None,
{
    match serde_json::from_str::<serde_json::Value>(header) {
        Err(_) => None,
        Ok(doc) => match doc.get("dsn") {
            None => Some(None),
            Some(value) => match value.as_str() {
                None => Some(None),
                Some(dsn) => Some(Some(dsn.to_string())),
            },
        },
    }
}

/// Relies on sentry_types::Dsn::from_str and the accessors scheme, host,
/// port, public_key and project_id: a connection string has the shape
/// `scheme://public_key@host[:port]/project_id`, the scheme is http or
/// https, `port` resolves to the scheme's default where none is given,
/// and every part returned is a function of the characters alone.
#[verifier::external_body]
fn parse_dsn(s: &str) -> (r: Option<Dsn>)
    ensures
        (r is Some) == dsn_parses(s@),
        r matches Some(d) ==> d.https == dsn_https(s@) && d.host@ == dsn_host(s@) && d.port
            == dsn_port(s@) && d.public_key@ == dsn_public_key(s@) && d.project_id@
            == dsn_project_id(s@),
{
    match <sentry_types::Dsn as std::str::FromStr>::from_str(s) {
        Err(_) => None,
        Ok(d) => Some(Dsn {
            https: match d.scheme() {
                sentry_types::Scheme::Https => true,
                sentry_types::Scheme::Http => false,
            },
            host: d.host().to_string(),
            port: d.port(),
            public_key: d.public_key().to_string(),
            project_id: d.project_id().value().to_string(),
        }),
    }
}

/// An accepted envelope: the parsed descriptor, and the raw payload which
/// is forwarded byte for byte, non-header lines included.
pub struct SentryMessage {
    pub dsn: Dsn,
    pub body: String,
}

/// A payload with no header line, or whose header line is not a JSON
/// document.
pub open spec fn spec_body_invalid(body: Seq<char>) -> bool {
    body.len() == 0 || !json_parses(spec_first_line(body))
}

/// The `dsn` string of the payload's header, where there is one.
pub open spec fn spec_dsn_of(body: Seq<char>) -> Option<Seq<char>> {
    json_dsn_field(spec_first_line(body))
}

/// The `dsn` string of the payload's header, defaulting to empty;
/// meaningful where `spec_dsn_of` is `Some`.
pub open spec fn spec_dsn_str(body: Seq<char>) -> Seq<char> {
    match spec_dsn_of(body) {
        Option::Some(ds) => ds,
        Option::None => Seq::empty(),
    }
}

/// A structurally valid payload: a JSON header whose `dsn` field holds a
/// parseable connection string.
pub open spec fn spec_parses_ok(body: Seq<char>) -> bool {
    &&& !spec_body_invalid(body)
    &&& spec_dsn_of(body) is Some
    &&& dsn_parses(spec_dsn_str(body))
}

/// A payload whose header is a JSON document but whose `dsn` field is
/// absent, not a string, or no parseable connection string.
pub open spec fn spec_dsn_invalid(body: Seq<char>) -> bool {
    !spec_body_invalid(body) && !spec_parses_ok(body)
}

impl SentryMessage {
    /// Parses a raw payload into a message. Fails with `InvalidBody`
    /// exactly where the payload has no header line or the header is not
    /// a JSON document, and with `InvalidDsn` exactly where the header
    /// parses but carries no usable connection string.
    pub fn try_from(body: String) -> (r: Result<SentryMessage, SentryError>)
        ensures
            r matches Err(SentryError::InvalidBody) <==> spec_body_invalid(body@),
            r matches Err(SentryError::InvalidDsn) <==> spec_dsn_invalid(body@),
            (r is Ok) <==> spec_parses_ok(body@),
            r matches Ok(m) ==> m.body@ == body@ && m.dsn@ == spec_dsn_model(
                spec_dsn_str(body@),
            ),
    {
        if body.as_str().unicode_len() == 0 {
            return Err(SentryError::InvalidBody);
        }
        let header = first_line(body.as_str());
        match extract_dsn_field(header.as_str()) {
            None => Err(SentryError::InvalidBody),
            Some(None) => Err(SentryError::InvalidDsn),
            Some(Some(ds)) => match parse_dsn(ds.as_str()) {
                None => Err(SentryError::InvalidDsn),
                Some(d) => Ok(SentryMessage { dsn: d, body }),
            },
        }
    }
}

/// The scheme's name.
pub open spec fn spec_scheme_str(https: bool) -> Seq<char> {
    if https {
        "https"@
    } else {
        "http"@
    }
}

/// The port implied by a scheme when the connection string names none.
pub open spec fn spec_default_port(https: bool) -> u16 {
    if https {
        443u16
    } else {
        80u16
    }
}

/// The `:{port}` part of the upstream URL, present only for a port other
/// than the scheme's default.
pub open spec fn spec_port_part(https: bool, port: u16) -> Seq<char> {
    if port == spec_default_port(https) {
        Seq::empty()
    } else {
        ":"@ + spec_dec_str(port as int)
    }
}

/// The canonical upstream endpoint for a descriptor:
/// `{scheme}://{host}[:{port}]/api/{project_id}/envelope/`.
pub open spec fn spec_envelope_api_url(m: DsnModel) -> Seq<char> {
    spec_scheme_str(m.https) + "://"@ + m.host + spec_port_part(m.https, m.port) + "/api/"@
        + m.project_id + "/envelope/"@
}

/// The upstream URL with the credential appended as a query parameter.
pub open spec fn spec_upstream_url(m: DsnModel) -> Seq<char> {
    spec_envelope_api_url(m) + "?sentry_key="@ + m.public_key
}

impl Dsn {
    /// The canonical upstream endpoint for this descriptor, with no query
    /// string.
    pub fn envelope_api_url(&self) -> (r: String)
        ensures
            r@ == spec_envelope_api_url(self@),
    {
        let mut url = String::new();
        if self.https {
            url.append("https");
        } else {
            url.append("http");
        }
        url.append("://");
        url.append(self.host.as_str());
        let default: u16 = if self.https {
            443
        } else {
            80
        };
        if self.port != default {
            url.append(":");
            let p = u16_to_string(self.port);
            url.append(p.as_str());
        }
        url.append("/api/");
        url.append(self.project_id.as_str());
        url.append("/envelope/");
        proof {
            assert(url@ =~= spec_envelope_api_url(self@));
        }
        url
    }

    /// The full upstream URL, credential included.
    pub fn upstream_url(&self) -> (r: String)
        ensures
            r@ == spec_upstream_url(self@),
    {
        let mut url = self.envelope_api_url();
        url.append("?sentry_key=");
        url.append(self.public_key.as_str());
        proof {
            assert(url@ =~= spec_upstream_url(self@));
        }
        url
    }
}

/// Law: the upstream URL built from a descriptor names the descriptor's
/// own host and project: both occur contiguously in it, at the places the
/// canonical form gives them.
pub proof fn lemma_upstream_url_names_host_and_project(m: DsnModel)
    ensures
        spec_contains_seq(spec_upstream_url(m), m.host),
        spec_contains_seq(spec_upstream_url(m), m.project_id),
{
    let url = spec_upstream_url(m);
    let i: int = spec_scheme_str(m.https).len() as int + "://"@.len() as int;
    assert(url.subrange(i, i + m.host.len() as int) =~= m.host);
    let j: int = i + m.host.len() + spec_port_part(m.https, m.port).len() + "/api/"@.len();
    assert(url.subrange(j, j + m.project_id.len() as int) =~= m.project_id);
}

} // verus!
