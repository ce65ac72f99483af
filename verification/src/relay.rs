//! The relay decision for one inbound payload: parse, check the
//! allowlists, and either plan the upstream call or refuse; and the
//! translation of the upstream's answer into the caller-facing response.

use vstd::prelude::*;

use crate::config::TunnelConfig;
use crate::sentry::{
    dsn_host, dsn_project_id, spec_dsn_model, spec_dsn_str, spec_parses_ok, spec_upstream_url,
    SentryMessage,
};

verus! {

/// What to do with one inbound payload: refuse it as malformed, refuse it
/// as disallowed, or forward the given body to the given upstream URL.
pub enum RelayPlan {
    Reject,
    Forbid,
    Forward { url: String, body: String },
}

/// The four terminal outcomes of one relayed request.
pub enum RelayOutcome {
    Rejected,
    Forbidden,
    Forwarded,
    UpstreamError { status: u16, body: String },
}

/// A caller-facing response: a status, a body, and whether the
/// content-type is declared as JSON.
pub struct RelayResponse {
    pub status: u16,
    pub body: String,
    pub json_content_type: bool,
}

/// Whether the parsed destination passes both allowlists.
pub open spec fn spec_allowed(body: Seq<char>, cfg: TunnelConfig) -> bool {
    cfg.spec_allows_host(dsn_host(spec_dsn_str(body))) && cfg.spec_allows_project(
        dsn_project_id(spec_dsn_str(body)),
    )
}

/// A structurally valid payload whose destination fails an allowlist.
pub open spec fn spec_forbidden(body: Seq<char>, cfg: TunnelConfig) -> bool {
    spec_parses_ok(body) && !spec_allowed(body, cfg)
}

/// A structurally valid payload whose destination passes both allowlists.
pub open spec fn spec_forwarded(body: Seq<char>, cfg: TunnelConfig) -> bool {
    spec_parses_ok(body) && spec_allowed(body, cfg)
}

/// Decides one request. A malformed payload is rejected and a disallowed
/// destination forbidden, in either case without an upstream call; only
/// an allowed one yields a forwarding plan, whose body is the inbound
/// payload unchanged and whose URL is the canonical upstream URL of the
/// parsed descriptor, credential included.
pub fn plan_relay(body: String, config: &TunnelConfig) -> (r: RelayPlan)
    ensures
        (r is Reject) <==> !spec_parses_ok(body@),
        (r is Forbid) <==> spec_forbidden(body@, *config),
        (r is Forward) <==> spec_forwarded(body@, *config),
        r matches RelayPlan::Forward { url, body: fwd } ==> fwd@ == body@ && url@
            == spec_upstream_url(spec_dsn_model(spec_dsn_str(body@))),
{
    match SentryMessage::try_from(body) {
        Err(_) => RelayPlan::Reject,
        Ok(m) => {
            let host_ok = config.is_allowed_host(m.dsn.host.as_str());
            let project_ok = config.is_allowed_project(m.dsn.project_id.as_str());
            if !host_ok || !project_ok {
                RelayPlan::Forbid
            } else {
                let url = m.dsn.upstream_url();
                RelayPlan::Forward { url, body: m.body }
            }
        },
    }
}

/// Whether an upstream status is a success.
pub open spec fn spec_success_status(status: u16) -> bool {
    200 <= status < 300
}

/// Translates the upstream's answer: a success hides the upstream body
/// behind a no-content success, a failure is echoed with its exact status
/// and exact body.
pub fn map_upstream(status: u16, upstream_body: String) -> (r: RelayOutcome)
    ensures
        spec_success_status(status) ==> r is Forwarded,
        !spec_success_status(status) ==> (r matches RelayOutcome::UpstreamError {
            status: s,
            body: b,
        } && s == status && b@ == upstream_body@),
{
    if 200 <= status && status < 300 {
        RelayOutcome::Forwarded
    } else {
        RelayOutcome::UpstreamError { status, body: upstream_body }
    }
}

/// The caller-facing response for each outcome: a bare client error for a
/// malformed payload, an empty JSON-typed forbidden response, a bare
/// no-content success, and the upstream's own status and body, JSON-typed,
/// for an upstream failure.
pub fn response_for(outcome: RelayOutcome) -> (r: RelayResponse)
    ensures
        outcome is Rejected ==> r.status == 400 && r.body@.len() == 0 && !r.json_content_type,
        outcome is Forbidden ==> r.status == 403 && r.body@.len() == 0 && r.json_content_type,
        outcome is Forwarded ==> r.status == 204 && r.body@.len() == 0 && !r.json_content_type,
        outcome matches RelayOutcome::UpstreamError { status, body } ==> r.status == status
            && r.body@ == body@ && r.json_content_type,
{
    match outcome {
        RelayOutcome::Rejected => RelayResponse {
            status: 400,
            body: String::new(),
            json_content_type: false,
        },
        RelayOutcome::Forbidden => RelayResponse {
            status: 403,
            body: String::new(),
            json_content_type: true,
        },
        RelayOutcome::Forwarded => RelayResponse {
            status: 204,
            body: String::new(),
            json_content_type: false,
        },
        RelayOutcome::UpstreamError { status, body } => RelayResponse {
            status,
            body,
            json_content_type: true,
        },
    }
}

/// Law: a configured host allowlist that excludes the parsed host forces
/// the forbidden outcome, whatever the project allowlist holds; no
/// forwarding plan exists for such a payload, so no upstream call is
/// made.
pub proof fn lemma_excluded_host_forbidden(body: Seq<char>, cfg: TunnelConfig)
    requires
        spec_parses_ok(body),
        cfg.sentry_hosts is Some,
        !cfg.spec_allows_host(dsn_host(spec_dsn_str(body))),
    ensures
        spec_forbidden(body, cfg),
        !spec_forwarded(body, cfg),
{
}

/// Law: a configured project allowlist that excludes the parsed project
/// forces the forbidden outcome, whatever the host allowlist holds; no
/// forwarding plan exists for such a payload, so no upstream call is
/// made.
pub proof fn lemma_excluded_project_forbidden(body: Seq<char>, cfg: TunnelConfig)
    requires
        spec_parses_ok(body),
        cfg.allowed_project_ids is Some,
        !cfg.spec_allows_project(dsn_project_id(spec_dsn_str(body))),
    ensures
        spec_forbidden(body, cfg),
        !spec_forwarded(body, cfg),
{
}

/// Law: with neither allowlist configured, every structurally valid
/// payload is planned for forwarding.
pub proof fn lemma_open_config_forwards(body: Seq<char>, cfg: TunnelConfig)
    requires
        cfg.sentry_hosts is None,
        cfg.allowed_project_ids is None,
        spec_parses_ok(body),
    ensures
        spec_forwarded(body, cfg),
{
}

} // verus!
