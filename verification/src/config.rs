//! The relay's process-wide configuration: two optional allowlists, the
//! inbound path, the listen port and the permitted cross-origin sources.
//! It is built once from raw environment values and then only read.

use vstd::prelude::*;

use crate::strutil::{
    parse_u16, spec_all_digits, spec_dec_val, spec_split, spec_strip_scheme, split_on,
    strip_scheme, vec_contains_str,
};

verus! {

/// Immutable relay configuration. An absent allowlist means that the
/// corresponding check passes for every value.
#[derive(Debug, Clone)]
pub struct TunnelConfig {
    pub sentry_hosts: Option<Vec<String>>,
    pub allowed_project_ids: Option<Vec<String>>,
    pub tunnel_path: String,
    pub listen_port: u16,
    pub cors_allowed_origins: Option<Vec<String>>,
}

/// The listen port denoted by a raw configuration value: a decimal number
/// that fits in a `u16`, and 3000 where the value is absent or malformed.
pub open spec fn spec_port_value(port: Option<String>) -> u16 {
    match port {
        Option::None => 3000,
        Option::Some(p) => if p@.len() > 0 && spec_all_digits(p@) && spec_dec_val(p@)
            <= u16::MAX {
            spec_dec_val(p@) as u16
        } else {
            3000
        },
    }
}

impl TunnelConfig {
    /// A host passes when no host allowlist is configured, or when the
    /// configured list holds it, by exact, case-sensitive match.
    pub open spec fn spec_allows_host(&self, h: Seq<char>) -> bool {
        match self.sentry_hosts {
            Option::None => true,
            Option::Some(v) => v.deep_view().contains(h),
        }
    }

    /// A project passes when no project allowlist is configured, or when
    /// the configured list holds it, by exact, case-sensitive match.
    pub open spec fn spec_allows_project(&self, p: Seq<char>) -> bool {
        match self.allowed_project_ids {
            Option::None => true,
            Option::Some(v) => v.deep_view().contains(p),
        }
    }

    /// Builds the configuration from the raw environment values, each
    /// `None` where the variable is unset. Allowlists and cross-origin
    /// sources are comma-separated; host entries lose a leading scheme;
    /// a malformed port falls back to the default.
    pub fn from_env_values(
        hosts: Option<String>,
        project_ids: Option<String>,
        cors_origins: Option<String>,
        tunnel_path: Option<String>,
        listen_port: Option<String>,
    ) -> (r: TunnelConfig)
        ensures
            (r.sentry_hosts is Some) == (hosts is Some),
            hosts matches Some(h) ==> r.sentry_hosts matches Some(v) && v.deep_view()
                == spec_split(h@, ',').map_values(|p: Seq<char>| spec_strip_scheme(p)),
            (r.allowed_project_ids is Some) == (project_ids is Some),
            project_ids matches Some(p) ==> r.allowed_project_ids matches Some(v)
                && v.deep_view() == spec_split(p@, ','),
            (r.cors_allowed_origins is Some) == (cors_origins is Some),
            cors_origins matches Some(o) ==> r.cors_allowed_origins matches Some(v)
                && v.deep_view() == spec_split(o@, ','),
            tunnel_path matches Some(p) ==> r.tunnel_path@ == p@,
            tunnel_path is None ==> r.tunnel_path@ == "/tunnel"@,
            r.listen_port == spec_port_value(listen_port),
    {
        let sentry_hosts = match hosts {
            None => None,
            Some(h) => {
                let pieces = split_on(h.as_str(), ',');
                let mut stripped: Vec<String> = Vec::new();
                let mut i: usize = 0;
                while i < pieces.len()
                    invariant
                        0 <= i <= pieces.len(),
                        stripped@.len() == i,
                        forall|j: int|
                            0 <= j < i ==> stripped.deep_view()[j] == spec_strip_scheme(
                                pieces.deep_view()[j],
                            ),
                    decreases pieces.len() - i,
                {
                    let piece = strip_scheme(pieces[i].as_str());
                    let ghost prev = stripped.deep_view();
                    stripped.push(piece);
                    proof {
                        assert(forall|j: int|
                            0 <= j < i ==> #[trigger] stripped.deep_view()[j] == prev[j]);
                        assert(stripped.deep_view()[i as int] == spec_strip_scheme(
                            pieces.deep_view()[i as int],
                        ));
                    }
                    i = i + 1;
                }
                proof {
                    assert(stripped.deep_view() =~~= spec_split(h@, ',').map_values(
                        |p: Seq<char>| spec_strip_scheme(p),
                    ));
                }
                Some(stripped)
            },
        };
        let allowed_project_ids = match project_ids {
            None => None,
            Some(p) => Some(split_on(p.as_str(), ',')),
        };
        let cors_allowed_origins = match cors_origins {
            None => None,
            Some(o) => Some(split_on(o.as_str(), ',')),
        };
        let tunnel_path = match tunnel_path {
            None => String::from_str("/tunnel"),
            Some(p) => p,
        };
        let listen_port: u16 = match listen_port {
            None => 3000,
            Some(p) => match parse_u16(p.as_str()) {
                Some(v) => v,
                None => 3000,
            },
        };
        TunnelConfig { sentry_hosts, allowed_project_ids, tunnel_path, listen_port, cors_allowed_origins }
    }

    /// Checks a parsed host against the host allowlist.
    pub fn is_allowed_host(&self, host: &str) -> (r: bool)
        ensures
            r == self.spec_allows_host(host@),
    {
        match &self.sentry_hosts {
            None => true,
            Some(hosts) => vec_contains_str(hosts, host),
        }
    }

    /// Checks a parsed project identifier against the project allowlist.
    pub fn is_allowed_project(&self, project_id: &str) -> (r: bool)
        ensures
            r == self.spec_allows_project(project_id@),
    {
        match &self.allowed_project_ids {
            None => true,
            Some(ids) => vec_contains_str(ids, project_id),
        }
    }
}

} // verus!
