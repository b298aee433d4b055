//! What is recorded of a request that comes in.
use vstd::prelude::*;

use crate::digest;
use crate::http::api_log;
use crate::http::api_log::header_for_log;
use crate::http::body_log;
use crate::http::body_log::body_log_fields;
use crate::http::body_log::logs_payload;
use crate::http::body_log::payload_for_log;
use crate::http::body_log::BodyLogFields;
use crate::http::routes::is_flow_capture_request;
use crate::text;

verus! {

/// The headers of a request that the log shows, and whether those are there that it does
/// not show.
#[derive(Debug, Clone)]
pub struct InboundHeaders {
    /// `content-type`.
    pub content_type: Option<String>,
    /// `user-agent`.
    pub user_agent: Option<String>,
    /// `anthropic-version`.
    pub anthropic_version: Option<String>,
    /// `anthropic-beta`.
    pub anthropic_beta: Option<String>,
    /// `openai-beta`.
    pub openai_beta: Option<String>,
    /// `x-request-id`.
    pub request_id: Option<String>,
    /// Whether there is an `authorization`.
    pub authorization_present: bool,
    /// Whether there is an `x-api-key`.
    pub x_api_key_present: bool,
}

/// What is recorded of a request.
#[derive(Debug, Clone)]
pub struct InboundRecord {
    /// `content-type`.
    pub content_type: String,
    /// `user-agent`.
    pub user_agent: String,
    /// `anthropic-version`.
    pub anthropic_version: String,
    /// `anthropic-beta`.
    pub anthropic_beta: String,
    /// `openai-beta`.
    pub openai_beta: String,
    /// `x-request-id`.
    pub request_id: String,
    /// Whether there is an `authorization`.
    pub authorization_present: bool,
    /// Whether there is an `x-api-key`.
    pub x_api_key_present: bool,
    /// What the log says of the body; nothing where it carries a secret.
    pub body: Option<BodyLogFields>,
    /// The body itself, where it may be logged.
    pub payload: Option<String>,
    /// Whether the request is followed as a flow.
    pub follows_flow: bool,
}

/// A header as it is logged.
pub open spec fn shown_header(t: Option<String>) -> Seq<char> {
    match t {
        Some(t) => api_log::compact(t@),
        None => seq![],
    }
}

fn show_header(t: &Option<String>) -> (r: String)
    ensures
        r@ == shown_header(*t),
{
    match t {
        Some(t) => header_for_log(Some(t.as_str())),
        None => header_for_log(None),
    }
}

/// Whether what the log says of a body is what it may say.
pub open spec fn is_body_of(
    fields: Option<BodyLogFields>,
    path: Seq<char>,
    body: Seq<u8>,
) -> bool {
    match fields {
        Some(f) => {
            &&& !body_log::carries_secret(path)
            &&& f.bytes == body.len()
            &&& f.sha256@ == digest::hex_text(digest::sha256_digest(body))
            &&& f.summary@ == body_log::body_summary(path, body)
        },
        None => body_log::carries_secret(path),
    }
}

/// What is recorded of a request.
pub fn inbound_record(
    method: &str,
    path: &str,
    headers: &InboundHeaders,
    body: &[u8],
    flows_enabled: bool,
) -> (r: InboundRecord)
    ensures
        r.content_type@ == shown_header(headers.content_type),
        r.user_agent@ == shown_header(headers.user_agent),
        r.anthropic_version@ == shown_header(headers.anthropic_version),
        r.anthropic_beta@ == shown_header(headers.anthropic_beta),
        r.openai_beta@ == shown_header(headers.openai_beta),
        r.request_id@ == shown_header(headers.request_id),
        r.authorization_present == headers.authorization_present,
        r.x_api_key_present == headers.x_api_key_present,
        is_body_of(r.body, path@, body@),
        text::opt_view(r.payload) == if !body_log::carries_secret(path@) && body@.len()
            <= api_log::API_LOG_PAYLOAD_DUMP_LIMIT_BYTES {
            Some(body_log::payload(body@))
        } else {
            None
        },
        r.follows_flow == (flows_enabled && method@ == "POST"@ && (path@ == "/v1/responses"@
            || path@ == "/v1/messages"@ || path@ == "/v1/chat/completions"@)),
{
    let payload = if logs_payload(path, body.len()) {
        Some(payload_for_log(body))
    } else {
        None
    };
    InboundRecord {
        content_type: show_header(&headers.content_type),
        user_agent: show_header(&headers.user_agent),
        anthropic_version: show_header(&headers.anthropic_version),
        anthropic_beta: show_header(&headers.anthropic_beta),
        openai_beta: show_header(&headers.openai_beta),
        request_id: show_header(&headers.request_id),
        authorization_present: headers.authorization_present,
        x_api_key_present: headers.x_api_key_present,
        body: body_log_fields(path, body),
        payload,
        follows_flow: flows_enabled && is_flow_capture_request(method, path),
    }
}

/// What the log says of a body is its length, its digest and its summary; of a body that
/// carries a secret it says nothing.
pub proof fn law_secret_body_is_not_logged(
    fields: Option<BodyLogFields>,
    path: Seq<char>,
    body: Seq<u8>,
)
    requires
        is_body_of(fields, path, body),
    ensures
        fields is None <==> body_log::carries_secret(path),
        fields matches Some(f) ==> f.bytes == body.len() && f.sha256@.len() == 2
            * digest::sha256_digest(body).len() && f.summary@ == body_log::body_summary(path, body),
{
}

/// A header that is missing is shown as nothing.
pub proof fn law_missing_header_is_blank(t: String)
    ensures
        shown_header(None).len() == 0,
        shown_header(Some(t)) == api_log::compact(t@),
{
}

} // verus!
