//! What the gateway does at its routes: which requests it follows, which headers it
//! passes on, and what it answers.
use vstd::prelude::*;

use crate::error;
use crate::error::AppError;
use crate::json;
use crate::json::Json;
use crate::json::JsonMap;
use crate::json::JsonView;
use crate::proxy_headers;
use crate::proxy_headers::header_name_eq;
use crate::proxy_headers::is_hop_by_hop_header;
use crate::raw::SseEvent;
use crate::text;

verus! {

// --- Routes ------------------------------------------------------------------------------------

/// Which routes there are.
#[derive(Debug, Clone, Copy, PartialEq, Eq, Structural)]
pub struct RouterOptions {
    /// Whether the debug UI is wanted.
    pub with_debug_ui: bool,
    /// Whether the protected routes may be there.
    pub register_protected_routes: bool,
}

impl Default for RouterOptions {
    fn default() -> (r: Self)
        ensures
            r == (RouterOptions { with_debug_ui: false, register_protected_routes: false }),
    {
        RouterOptions { with_debug_ui: false, register_protected_routes: false }
    }
}

impl RouterOptions {
    /// Whether the protected routes are there: they are wanted, they may be, and sessions
    /// can be checked.
    pub fn registers_protected_routes(&self, has_auth: bool) -> (r: bool)
        ensures
            r == (self.with_debug_ui && self.register_protected_routes && has_auth),
    {
        self.with_debug_ui && self.register_protected_routes && has_auth
    }
}

/// Whether a request is followed as a flow: it is posted to one of the three surfaces.
pub fn is_flow_capture_request(method: &str, path: &str) -> (r: bool)
    ensures
        r == (method@ == "POST"@ && (path@ == "/v1/responses"@ || path@ == "/v1/messages"@ || path@
            == "/v1/chat/completions"@)),
{
    text::str_eq(method, "POST") && (text::str_eq(path, "/v1/responses") || text::str_eq(
        path,
        "/v1/messages",
    ) || text::str_eq(path, "/v1/chat/completions"))
}

// --- Ending a flow -----------------------------------------------------------------------------

/// Why a change is refused.
#[derive(Debug, Clone, PartialEq, Eq)]
pub struct MutationDenied {
    /// HTTP status.
    pub status: u16,
    /// Message.
    pub message: String,
}

/// What came of ending a flow.
#[derive(Debug, Clone, PartialEq, Eq)]
pub enum FlowKillOutcome {
    /// The flow was ended.
    Killed,
    /// There is no live flow with that id.
    NotFound,
    /// It is not allowed.
    Denied(MutationDenied),
}

/// What is to be done to end a flow.
#[derive(Debug, Clone, PartialEq, Eq)]
pub enum KillStep {
    /// Nothing; this came of it.
    Done(FlowKillOutcome),
    /// The flow is to be aborted.
    Abort,
}

/// What is to be done to end a flow. Where it is not allowed, nothing is: not even
/// whether the flow is live is looked at.
pub fn begin_kill(denied: Option<MutationDenied>) -> (r: KillStep)
    ensures
        r == match denied {
            Some(d) => KillStep::Done(FlowKillOutcome::Denied(d)),
            None => KillStep::Abort,
        },
{
    match denied {
        Some(d) => KillStep::Done(FlowKillOutcome::Denied(d)),
        None => KillStep::Abort,
    }
}

/// What came of ending a flow that was to be aborted.
pub fn flow_kill_outcome(aborted: bool) -> (r: FlowKillOutcome)
    ensures
        r == if aborted {
            FlowKillOutcome::Killed
        } else {
            FlowKillOutcome::NotFound
        },
{
    if aborted {
        FlowKillOutcome::Killed
    } else {
        FlowKillOutcome::NotFound
    }
}

/// What a client is answered that wants to end a flow.
pub open spec fn kill_answer(outcome: FlowKillOutcome, api_call_id: Seq<char>) -> (u16, JsonView) {
    match outcome {
        FlowKillOutcome::Killed => {
            let m = json::put_text(seq![], "api_call_id"@, api_call_id);
            (200, JsonView::Object(json::set_member(m, "killed"@, JsonView::Bool(true))))
        },
        FlowKillOutcome::NotFound => (
            404,
            JsonView::Object(json::put_text(seq![], "error"@, "no live flow for that id"@)),
        ),
        FlowKillOutcome::Denied(d) => (
            d.status,
            JsonView::Object(json::put_text(seq![], "error"@, d.message@)),
        ),
    }
}

/// What a client is answered that wants to end a flow.
pub fn kill_response(outcome: &FlowKillOutcome, api_call_id: &str) -> (r: (u16, Json))
    ensures
        (r.0, r.1@) == kill_answer(*outcome, api_call_id@),
{
    let mut m = JsonMap::new();
    let status: u16 = match outcome {
        FlowKillOutcome::Killed => {
            m.put_text("api_call_id", api_call_id);
            m.put("killed", Json::Bool(true));
            200
        },
        FlowKillOutcome::NotFound => {
            m.put_text("error", "no live flow for that id");
            404
        },
        FlowKillOutcome::Denied(d) => {
            m.put_text("error", d.message.as_str());
            d.status
        },
    };
    (status, m.into_json())
}

// --- Headers -----------------------------------------------------------------------------------

/// Whether a header of an upstream's response is passed on.
pub open spec fn is_passed_on(name: Seq<char>) -> bool {
    !proxy_headers::is_hop_by_hop(name) && !proxy_headers::same_header(name, "content-length"@)
}

/// Whether a header of an upstream's response is passed on.
pub fn should_proxy_response_header(name: &str) -> (r: bool)
    ensures
        r == is_passed_on(name@),
{
    !is_hop_by_hop_header(name) && !header_name_eq(name, "content-length")
}

/// Whether a header of a client's request is passed on to the upstream, which is reached
/// with a credential of its own.
pub open spec fn is_sent_on(name: Seq<char>) -> bool {
    &&& !proxy_headers::is_hop_by_hop(name)
    &&& !proxy_headers::same_header(name, "authorization"@)
    &&& !proxy_headers::same_header(name, "host"@)
    &&& !proxy_headers::same_header(name, "content-length"@)
}

/// Whether a header of a client's request is passed on to the upstream.
pub fn should_proxy_request_header(name: &str) -> (r: bool)
    ensures
        r == is_sent_on(name@),
{
    !is_hop_by_hop_header(name) && !header_name_eq(name, "authorization") && !header_name_eq(
        name,
        "host",
    ) && !header_name_eq(name, "content-length")
}

/// Neither direction passes a hop-by-hop header on, and what goes to the upstream could
/// come back from it.
pub proof fn law_directions_agree(name: Seq<char>)
    ensures
        proxy_headers::is_hop_by_hop(name) ==> !is_sent_on(name) && !is_passed_on(name),
        is_sent_on(name) ==> is_passed_on(name),
{
}

/// Those of the first `n` headers that are passed on, by their index.
pub open spec fn passed_on(names: Seq<Seq<char>>, n: int) -> Seq<usize>
    decreases n,
{
    if n <= 0 || n > names.len() {
        Seq::empty()
    } else if is_passed_on(names[n - 1]) {
        passed_on(names, n - 1).push((n - 1) as usize)
    } else {
        passed_on(names, n - 1)
    }
}

/// The headers of an upstream's response that are passed on, by their index.
pub fn proxied_headers(names: &Vec<String>) -> (r: Vec<usize>)
    ensures
        r@ == passed_on(text::strings_view(names@), names@.len() as int),
{
    let ghost views = text::strings_view(names@);
    let mut out: Vec<usize> = Vec::new();
    let mut i: usize = 0;
    while i < names.len()
        invariant
            i <= names@.len(),
            views == text::strings_view(names@),
            out@ == passed_on(views, i as int),
        decreases names@.len() - i,
    {
        if should_proxy_response_header(names[i].as_str()) {
            out.push(i);
        }
        i += 1;
    }
    out
}

/// Whether bytes can be the value of a header: no control codes but the tab.
pub open spec fn is_header_value(bytes: Seq<u8>) -> bool {
    forall|i: int|
        0 <= i < bytes.len() ==> ((#[trigger] bytes[i]) >= 32 && bytes[i] != 127) || bytes[i] == 9
}

/// `http::HeaderValue::from_str`: whether a text can be the value of a header. It can
/// where each of its bytes is 32 or more and not 127, or is a tab.
#[verifier::external_body]
fn can_be_header_value(t: &str) -> (r: bool)
    ensures
        r == is_header_value(vstd::utf8::encode_utf8(t@)),
{
    axum::http::HeaderValue::from_str(t).is_ok()
}

/// The headers that tell which model answered: that model, and the one that was asked
/// for where it is another.
pub struct ModelHeaders {
    /// The model that answered.
    pub served: Option<String>,
    /// The model that was asked for.
    pub requested: Option<String>,
}

/// A text that can be the value of a header and is not empty.
pub open spec fn header_text(t: Seq<char>) -> Option<Seq<char>> {
    if t.len() > 0 && is_header_value(vstd::utf8::encode_utf8(t)) {
        Some(t)
    } else {
        None
    }
}

/// The headers that tell which model answered.
pub fn model_headers(requested: &str, served: &str) -> (r: ModelHeaders)
    ensures
        text::opt_view(r.served) == header_text(served@),
        text::opt_view(r.requested) == if proxy_headers::same_header(requested@, served@) {
            None
        } else {
            header_text(requested@)
        },
{
    let served_header = if !served.is_empty() && can_be_header_value(served) {
        Some(served.to_owned())
    } else {
        None
    };
    let requested_header = if !requested.is_empty() && !header_name_eq(requested, served)
        && can_be_header_value(requested) {
        Some(requested.to_owned())
    } else {
        None
    };
    ModelHeaders { served: served_header, requested: requested_header }
}

/// The entity tag of a list of models: clients of the Messages surface get none, since
/// theirs is another list.
pub fn models_etag(anthropic_models: bool, etag: Option<String>) -> (r: Result<
    Option<String>,
    AppError,
>)
    ensures
        match etag {
            Some(t) => if anthropic_models {
                r == Ok::<Option<String>, AppError>(None)
            } else if is_header_value(vstd::utf8::encode_utf8(t@)) {
                r == Ok::<Option<String>, AppError>(Some(t))
            } else {
                r matches Err(e) && e@ == error::internal_view(
                    "invalid ETag header: failed to parse header value"@,
                )
            },
            None => r == Ok::<Option<String>, AppError>(None),
        },
{
    match etag {
        Some(t) => if anthropic_models {
            Ok(None)
        } else if can_be_header_value(t.as_str()) {
            Ok(Some(t))
        } else {
            Err(AppError::internal("invalid ETag header: failed to parse header value"))
        },
        None => Ok(None),
    }
}

// --- Answers -----------------------------------------------------------------------------------

/// The type of error that clients of the Messages surface get.
pub open spec fn messages_error_type(status: u16) -> Seq<char> {
    if status == 400 || status == 409 {
        "invalid_request_error"@
    } else {
        "api_error"@
    }
}

/// What clients of the Messages surface are answered where something went wrong.
pub open spec fn messages_error(e: error::ErrorView) -> JsonView {
    let inner = json::put_text(seq![], "type"@, messages_error_type(e.status));
    let inner = json::put_text(inner, "message"@, e.message);
    JsonView::Object(
        json::set_member(json::tagged("error"@), "error"@, JsonView::Object(inner)),
    )
}

/// What clients of the Messages surface are answered where something went wrong.
pub fn anthropic_error_response(err: &AppError) -> (r: (u16, Json))
    ensures
        r.0 == err@.status,
        r.1@ == messages_error(err@),
{
    let status = err.status_code();
    let kind = if status == 400 || status == 409 {
        "invalid_request_error"
    } else {
        "api_error"
    };
    let mut inner = JsonMap::new();
    inner.put_text("type", kind);
    inner.put_text("message", err.describe().as_str());
    let mut m = JsonMap::of_type("error");
    m.put("error", inner.into_json());
    (status, m.into_json())
}

/// The message of a failed response.
pub open spec fn failure_message(data: JsonView) -> Seq<char> {
    let message = match json::field(data, "response"@) {
        Some(response) => match json::field(response, "error"@) {
            Some(error) => json::text_field(error, "message"@),
            None => None,
        },
        None => None,
    };
    match message {
        Some(t) => t,
        None => "upstream request failed"@,
    }
}

/// What the events of a stream come to: the response so far, or the message of a
/// failure, after which nothing counts.
pub open spec fn collected(events: Seq<SseEvent>) -> Result<Option<JsonView>, Seq<char>>
    decreases events.len(),
{
    if events.len() == 0 {
        Ok(None)
    } else {
        match collected(events.drop_last()) {
            Ok(before) => collected_next(before, events.last()),
            Err(message) => Err(message),
        }
    }
}

/// What one more event makes of the response so far.
pub open spec fn collected_next(before: Option<JsonView>, event: SseEvent) -> Result<
    Option<JsonView>,
    Seq<char>,
> {
    if event.event@ == "response.completed"@ || event.event@ == "response.incomplete"@ {
        Ok(json::field(event.data@, "response"@))
    } else if event.event@ == "response.failed"@ {
        Err(failure_message(event.data@))
    } else {
        Ok(before)
    }
}

/// Collects the response out of the events of a stream.
pub struct ResponsesCollector {
    final_payload: Option<Json>,
}

impl View for ResponsesCollector {
    type V = Option<JsonView>;

    closed spec fn view(&self) -> Option<JsonView> {
        json::opt_json_view(self.final_payload)
    }
}

fn failure_message_of(data: &Json) -> (r: String)
    ensures
        r@ == failure_message(data@),
{
    let message = match data.field("response") {
        Some(response) => match response.field("error") {
            Some(error) => error.text_field("message"),
            None => None,
        },
        None => None,
    };
    match message {
        Some(t) => t.to_owned(),
        None => "upstream request failed".to_owned(),
    }
}

impl ResponsesCollector {
    /// No response so far.
    pub fn new() -> (r: Self)
        ensures
            r@ is None,
    {
        ResponsesCollector { final_payload: None }
    }

    /// Takes one more event; a failure ends the collection.
    pub fn process(&mut self, event: &SseEvent) -> (r: Result<(), AppError>)
        ensures
            match r {
                Ok(_) => collected_next(old(self)@, *event) == Ok::<Option<JsonView>, Seq<char>>(
                    final(self)@,
                ),
                Err(e) => collected_next(old(self)@, *event) matches Err(message) && e@
                    == error::upstream_view(message) && final(self)@ == old(self)@,
            },
    {
        let name = event.event.as_str();
        if text::str_eq(name, "response.completed") || text::str_eq(name, "response.incomplete") {
            self.final_payload = match event.data.field("response") {
                Some(v) => Some(v.copy()),
                None => None,
            };
            Ok(())
        } else if text::str_eq(name, "response.failed") {
            Err(AppError::upstream(failure_message_of(&event.data).as_str()))
        } else {
            Ok(())
        }
    }

    /// The response, which a stream must have brought.
    pub fn into_response(self) -> (r: Result<Json, AppError>)
        ensures
            match r {
                Ok(v) => self@ == Some(v@),
                Err(e) => self@ is None && e@ == error::upstream_view(
                    "stream ended before a final response resource was emitted"@,
                ),
            },
    {
        match self.final_payload {
            Some(v) => Ok(v),
            None => Err(
                AppError::upstream("stream ended before a final response resource was emitted"),
            ),
        }
    }
}

/// A failure stays one, whatever follows it.
pub proof fn law_failure_is_final(events: Seq<SseEvent>, more: Seq<SseEvent>)
    requires
        collected(events) is Err,
    ensures
        collected(events + more) == collected(events),
    decreases more.len(),
{
    if more.len() == 0 {
        assert(events + more =~= events);
    } else {
        law_failure_is_final(events, more.drop_last());
        assert((events + more).drop_last() =~= events + more.drop_last());
    }
}

/// Events that are neither terminal nor a failure do not change the response.
pub proof fn law_other_events_change_nothing(before: Option<JsonView>, event: SseEvent)
    requires
        event.event@ != "response.completed"@,
        event.event@ != "response.incomplete"@,
        event.event@ != "response.failed"@,
    ensures
        collected_next(before, event) == Ok::<Option<JsonView>, Seq<char>>(before),
{
}

} // verus!
