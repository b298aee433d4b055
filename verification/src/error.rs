//! The gateway's error: what the operator sees, what the client sees, and how the
//! failover layer treats it.
use vstd::prelude::*;

use crate::redaction;
use crate::text;

verus! {

/// The result of a gateway operation.
pub type AppResult<T> = Result<T, AppError>;

/// Structured code of a context overflow that the client must fix by shrinking
/// its input.
pub const CONTEXT_LENGTH_EXCEEDED_CODE: &'static str = "context_length_exceeded";

/// How the failover layer treats a failed upstream attempt.
#[derive(Debug, Clone, Copy, PartialEq, Eq, Structural)]
pub enum FailoverDisposition {
    /// Provider-shaped failure: retry elsewhere and cool the provider.
    Failover,
    /// Request-shaped failure: retry elsewhere, the provider stays healthy.
    FailoverNoCooldown,
    /// Surface as it is.
    Terminal,
}

impl Default for FailoverDisposition {
    fn default() -> (r: Self)
        ensures
            r == FailoverDisposition::Failover,
    {
        FailoverDisposition::Failover
    }
}

/// An error of the gateway.
#[derive(Debug)]
pub struct AppError {
    /// HTTP status.
    pub status: u16,
    /// Operator detail.
    pub message: String,
    /// What the client is told.
    pub client_message: String,
    /// Structured machine code.
    pub code: Option<String>,
    /// JSON request path of a client-correctable error.
    pub param: Option<String>,
    /// How the failover layer treats it.
    pub failover: FailoverDisposition,
}

/// The contents of an [`AppError`].
#[verifier::ext_equal]
pub struct ErrorView {
    /// HTTP status.
    pub status: u16,
    /// Operator detail.
    pub message: Seq<char>,
    /// What the client is told.
    pub client_message: Seq<char>,
    /// Structured machine code.
    pub code: Option<Seq<char>>,
    /// JSON request path.
    pub param: Option<Seq<char>>,
    /// How the failover layer treats it.
    pub failover: FailoverDisposition,
}

impl View for AppError {
    type V = ErrorView;

    open spec fn view(&self) -> ErrorView {
        ErrorView {
            status: self.status,
            message: self.message@,
            client_message: self.client_message@,
            code: text::opt_view(self.code),
            param: text::opt_view(self.param),
            failover: self.failover,
        }
    }
}

/// An error whose operator detail and client message are the same text.
pub open spec fn shown(
    status: u16,
    message: Seq<char>,
    code: Option<Seq<char>>,
    failover: FailoverDisposition,
) -> ErrorView {
    ErrorView { status, message, client_message: message, code, param: None, failover }
}

/// An error whose operator detail is kept from the client.
pub open spec fn hidden(
    status: u16,
    message: Seq<char>,
    client_message: Seq<char>,
    code: Option<Seq<char>>,
    failover: FailoverDisposition,
) -> ErrorView {
    ErrorView { status, message, client_message, code, param: None, failover }
}

/// A failed upstream request.
pub open spec fn upstream_view(message: Seq<char>) -> ErrorView {
    hidden(
        502,
        message,
        "the upstream request failed"@,
        None,
        FailoverDisposition::Failover,
    )
}

/// A prompt that cannot fit the upstream window.
pub open spec fn prompt_too_long_view(message: Seq<char>) -> ErrorView {
    hidden(
        400,
        message,
        "prompt is too long for the selected model; reduce the input or output limit"@,
        Some(CONTEXT_LENGTH_EXCEEDED_CODE@),
        FailoverDisposition::Terminal,
    )
}

/// An error inside the gateway.
pub open spec fn internal_view(message: Seq<char>) -> ErrorView {
    hidden(
        500,
        message,
        "internal server error"@,
        Some("internal_error"@),
        FailoverDisposition::Failover,
    )
}

/// An upstream response that did not come in time.
pub open spec fn gateway_timeout_view(message: Seq<char>) -> ErrorView {
    hidden(
        504,
        message,
        "the upstream response timed out"@,
        Some("upstream_timeout"@),
        FailoverDisposition::Failover,
    )
}

/// The error that a terminal event's `message` and `code` stand for, before an
/// explicit status or parameter.
pub open spec fn terminal_event_base(message: Seq<char>, code: Option<Seq<char>>) -> ErrorView {
    match code {
        None => upstream_view(message),
        Some(c) => if c == CONTEXT_LENGTH_EXCEEDED_CODE@ {
            prompt_too_long_view(message)
        } else if c == "internal_error"@ {
            internal_view(message)
        } else if c == "upstream_timeout"@ {
            gateway_timeout_view(message)
        } else if c == "rate_limit_exceeded"@ {
            shown(429, message, Some(c), FailoverDisposition::Terminal)
        } else if c == "request_too_large"@ {
            shown(413, message, Some(c), FailoverDisposition::Terminal)
        } else if c == "unsupported_media_type"@ {
            shown(415, message, Some(c), FailoverDisposition::Terminal)
        } else if c == "unprocessable_entity"@ {
            shown(422, message, Some(c), FailoverDisposition::Terminal)
        } else if c == "invalid_request_error"@ {
            shown(400, message, Some(c), FailoverDisposition::Failover)
        } else {
            ErrorView { code: Some(c), ..upstream_view(message) }
        },
    }
}

/// A status code of three digits.
pub open spec fn is_status(status: u16) -> bool {
    100 <= status <= 999
}

/// The error that a terminal event stands for.
pub open spec fn terminal_event_view(
    message: Seq<char>,
    code: Option<Seq<char>>,
    status: Option<u16>,
    param: Option<Seq<char>>,
) -> ErrorView {
    let base = ErrorView { param, ..terminal_event_base(message, code) };
    match status {
        Some(s) if is_status(s) => ErrorView {
            status: s,
            failover: FailoverDisposition::Terminal,
            ..base
        },
        _ => base,
    }
}

/// What a client gets to see of an error, as a JSON error object's fields.
#[derive(Debug)]
pub struct ErrorPayload {
    /// The client message.
    pub message: String,
    /// The error type.
    pub kind: String,
    /// JSON request path.
    pub param: Option<String>,
    /// Structured machine code.
    pub code: Option<String>,
}

/// The error type that goes with a status.
pub open spec fn error_kind(status: u16) -> Seq<char> {
    if 400 <= status < 500 {
        "invalid_request_error"@
    } else {
        "server_error"@
    }
}

fn shown_error(
    status: u16,
    message: &str,
    code: Option<&str>,
    failover: FailoverDisposition,
) -> (r: AppError)
    ensures
        r@ == shown(status, message@, text::opt_str_view(code), failover),
{
    AppError {
        status,
        message: message.to_owned(),
        client_message: message.to_owned(),
        code: text::opt_owned(code),
        param: None,
        failover,
    }
}

fn hidden_error(
    status: u16,
    message: &str,
    client_message: &str,
    code: Option<&str>,
    failover: FailoverDisposition,
) -> (r: AppError)
    ensures
        r@ == hidden(status, message@, client_message@, text::opt_str_view(code), failover),
{
    AppError {
        status,
        message: message.to_owned(),
        client_message: client_message.to_owned(),
        code: text::opt_owned(code),
        param: None,
        failover,
    }
}

impl AppError {
    /// A request that the client must correct.
    pub fn bad_request(message: &str) -> (r: Self)
        ensures
            r@ == shown(400, message@, None, FailoverDisposition::Failover),
    {
        shown_error(400, message, None, FailoverDisposition::Failover)
    }

    /// Something that does not exist.
    pub fn not_found(message: &str) -> (r: Self)
        ensures
            r@ == shown(404, message@, None, FailoverDisposition::Failover),
    {
        shown_error(404, message, None, FailoverDisposition::Failover)
    }

    /// A missing or wrong credential.
    pub fn unauthorized(message: &str) -> (r: Self)
        ensures
            r@ == shown(401, message@, Some("invalid_api_key"@), FailoverDisposition::Terminal),
    {
        shown_error(401, message, Some("invalid_api_key"), FailoverDisposition::Terminal)
    }

    /// A body of a media type that is not served.
    pub fn unsupported_media_type(message: &str) -> (r: Self)
        ensures
            r@ == shown(
                415,
                message@,
                Some("unsupported_media_type"@),
                FailoverDisposition::Terminal,
            ),
    {
        shown_error(415, message, Some("unsupported_media_type"), FailoverDisposition::Terminal)
    }

    /// A body over the limit.
    pub fn payload_too_large(limit_bytes: usize) -> (r: Self)
        ensures
            r@ == shown(
                413,
                "request body exceeds the "@ + text::decimal(limit_bytes as nat) + "-byte limit"@,
                Some("request_too_large"@),
                FailoverDisposition::Terminal,
            ),
    {
        let mut message = "request body exceeds the ".to_owned();
        message.append(text::decimal_of(limit_bytes as u128).as_str());
        message.append("-byte limit");
        shown_error(
            413,
            message.as_str(),
            Some("request_too_large"),
            FailoverDisposition::Terminal,
        )
    }

    /// A request at odds with the present state.
    pub fn conflict(message: &str) -> (r: Self)
        ensures
            r@ == shown(409, message@, None, FailoverDisposition::Failover),
    {
        shown_error(409, message, None, FailoverDisposition::Failover)
    }

    /// A failed upstream request; the detail is kept from the client.
    pub fn upstream(message: &str) -> (r: Self)
        ensures
            r@ == upstream_view(message@),
    {
        hidden_error(
            502,
            message,
            "the upstream request failed",
            None,
            FailoverDisposition::Failover,
        )
    }

    /// An upstream response that did not come in time.
    pub fn gateway_timeout(message: &str) -> (r: Self)
        ensures
            r@ == gateway_timeout_view(message@),
    {
        hidden_error(
            504,
            message,
            "the upstream response timed out",
            Some("upstream_timeout"),
            FailoverDisposition::Failover,
        )
    }

    /// The model kept asking for a tool that was not offered.
    pub fn unknown_tool_repair_exhausted() -> (r: Self)
        ensures
            r@ == (ErrorView {
                code: Some("invalid_tool_call"@),
                ..upstream_view(
                    "the model requested a tool that is not available and could not recover; the request was ended without completing the tool call"@,
                )
            }),
    {
        Self::upstream(
            "the model requested a tool that is not available and could not recover; the request was ended without completing the tool call",
        ).with_code("invalid_tool_call")
    }

    /// The error with a structured code.
    pub fn with_code(self, code: &str) -> (r: Self)
        ensures
            r@ == (ErrorView { code: Some(code@), ..self@ }),
    {
        let mut error = self;
        error.code = Some(code.to_owned());
        error
    }

    /// The error with a JSON request path.
    pub fn with_param(self, param: &str) -> (r: Self)
        ensures
            r@ == (ErrorView { param: Some(param@), ..self@ }),
    {
        let mut error = self;
        error.param = Some(param.to_owned());
        error
    }

    /// A request field that is not supported.
    pub fn unsupported_parameter(param: &str) -> (r: Self)
        ensures
            r@ == (ErrorView {
                code: Some("unsupported_parameter"@),
                param: Some(param@),
                ..shown(
                    400,
                    "unsupported parameter: "@ + param@,
                    None,
                    FailoverDisposition::Failover,
                )
            }),
    {
        let mut message = "unsupported parameter: ".to_owned();
        message.append(param);
        Self::bad_request(message.as_str()).with_code("unsupported_parameter").with_param(param)
    }

    /// An upstream error with an explicit failover disposition.
    pub fn upstream_with_disposition(message: &str, disposition: FailoverDisposition) -> (r: Self)
        ensures
            r@ == (ErrorView { failover: disposition, ..upstream_view(message@) }),
    {
        let mut error = Self::upstream(message);
        error.failover = disposition;
        error
    }

    /// A prompt that cannot fit the upstream window: no retry can help.
    pub fn prompt_too_long(message: &str) -> (r: Self)
        ensures
            r@ == prompt_too_long_view(message@),
    {
        hidden_error(
            400,
            message,
            "prompt is too long for the selected model; reduce the input or output limit",
            Some(CONTEXT_LENGTH_EXCEEDED_CODE),
            FailoverDisposition::Terminal,
        )
    }

    /// The error that a terminal event's message, code, status and parameter
    /// stand for. A status that is no HTTP status is left out of account.
    pub fn from_terminal_event(
        message: &str,
        code: Option<&str>,
        status: Option<u16>,
        param: Option<&str>,
    ) -> (r: Self)
        ensures
            r@ == terminal_event_view(
                message@,
                text::opt_str_view(code),
                status,
                text::opt_str_view(param),
            ),
    {
        let mut error = match code {
            Some(c) => if text::str_eq(c, CONTEXT_LENGTH_EXCEEDED_CODE) {
                Self::prompt_too_long(message)
            } else if text::str_eq(c, "internal_error") {
                Self::internal(message)
            } else if text::str_eq(c, "upstream_timeout") {
                Self::gateway_timeout(message)
            } else if text::str_eq(c, "rate_limit_exceeded") {
                shown_error(429, message, Some(c), FailoverDisposition::Terminal)
            } else if text::str_eq(c, "request_too_large") {
                shown_error(413, message, Some(c), FailoverDisposition::Terminal)
            } else if text::str_eq(c, "unsupported_media_type") {
                Self::unsupported_media_type(message)
            } else if text::str_eq(c, "unprocessable_entity") {
                shown_error(422, message, Some(c), FailoverDisposition::Terminal)
            } else if text::str_eq(c, "invalid_request_error") {
                Self::bad_request(message).with_code("invalid_request_error")
            } else {
                Self::upstream(message).with_code(c)
            },
            None => Self::upstream(message),
        };
        if let Some(s) = status {
            if s >= 100 && s <= 999 {
                error.status = s;
                error.failover = FailoverDisposition::Terminal;
            }
        }
        error.param = text::opt_owned(param);
        error
    }

    /// An error inside the gateway; the detail is kept from the client.
    pub fn internal(message: &str) -> (r: Self)
        ensures
            r@ == internal_view(message@),
    {
        hidden_error(
            500,
            message,
            "internal server error",
            Some("internal_error"),
            FailoverDisposition::Failover,
        )
    }

    /// The client went away.
    pub fn cancelled() -> (r: Self)
        ensures
            r@ == shown(499, "client disconnected"@, None, FailoverDisposition::Failover),
    {
        shown_error(499, "client disconnected", None, FailoverDisposition::Failover)
    }

    /// Whether the error says that the client went away.
    pub fn is_cancelled(&self) -> (r: bool)
        ensures
            r == (self@.status == 499),
    {
        self.status == 499
    }

    /// The HTTP status.
    pub fn status_code(&self) -> (r: u16)
        ensures
            r == self@.status,
    {
        self.status
    }

    /// How the failover layer treats the error.
    pub fn failover_disposition(&self) -> (r: FailoverDisposition)
        ensures
            r == self@.failover,
    {
        self.failover
    }

    /// The operator detail.
    pub fn describe(&self) -> (r: String)
        ensures
            r@ == self@.message,
    {
        self.message.clone()
    }

    /// What the client gets to see.
    pub fn payload(&self) -> (r: ErrorPayload)
        ensures
            r.message@ == self@.client_message,
            r.kind@ == error_kind(self@.status),
            text::opt_view(r.param) == self@.param,
            text::opt_view(r.code) == self@.code,
    {
        let kind = if self.status >= 400 && self.status < 500 {
            "invalid_request_error"
        } else {
            "server_error"
        };
        ErrorPayload {
            message: self.client_message.clone(),
            kind: kind.to_owned(),
            param: self.param.clone(),
            code: self.code.clone(),
        }
    }

    /// The operator detail as it may be logged.
    pub fn operator_detail(&self) -> (r: String)
        ensures
            r@ == redaction::bounded(redaction::uris_redacted(self@.message, 0), 2048),
    {
        bounded_operator_detail(self.message.as_str(), 2048)
    }
}

/// `message` with image URIs redacted, cut after `max_chars` characters.
pub fn bounded_operator_detail(message: &str, max_chars: usize) -> (r: String)
    ensures
        r@ == redaction::bounded(redaction::uris_redacted(message@, 0), max_chars as nat),
{
    let redacted = redaction::redact_image_uris(message);
    redaction::bound_chars(redacted.as_str(), max_chars)
}

/// What the client is told of an upstream failure, of an internal one, of a
/// timeout and of an overlong prompt does not depend on the operator detail.
pub proof fn law_operator_detail_is_hidden(a: Seq<char>, b: Seq<char>)
    ensures
        upstream_view(a).client_message == upstream_view(b).client_message,
        internal_view(a).client_message == internal_view(b).client_message,
        gateway_timeout_view(a).client_message == gateway_timeout_view(b).client_message,
        prompt_too_long_view(a).client_message == prompt_too_long_view(b).client_message,
{
}

/// An event rebuilt from an error's own message, code, status and parameter has
/// that error's status, and is surfaced as it is.
pub proof fn law_terminal_event_keeps_status(e: ErrorView)
    requires
        is_status(e.status),
    ensures
        terminal_event_view(e.message, e.code, Some(e.status), e.param).status == e.status,
        terminal_event_view(e.message, e.code, Some(e.status), e.param).param == e.param,
        terminal_event_view(e.message, e.code, Some(e.status), e.param).code == e.code,
        terminal_event_view(e.message, e.code, Some(e.status), e.param).failover
            == FailoverDisposition::Terminal,
{
}

/// A terminal event keeps its message for the operator, its code and its parameter, whatever
/// they are, and an explicit status wins.
pub proof fn law_terminal_event_keeps_what_it_says(
    message: Seq<char>,
    code: Option<Seq<char>>,
    status: Option<u16>,
    param: Option<Seq<char>>,
)
    ensures
        terminal_event_view(message, code, status, param).message == message,
        terminal_event_view(message, code, status, param).code == code,
        terminal_event_view(message, code, status, param).param == param,
        status is Some && 100 <= status->0 <= 999 ==> terminal_event_view(
            message,
            code,
            status,
            param,
        ).status == status->0,
        status is None || status->0 < 100 || status->0 > 999 ==> terminal_event_view(
            message,
            code,
            status,
            param,
        ).status == terminal_event_view(message, code, None, param).status,
{
}

/// The status that each code stands for; any other code, or none, is an upstream failure.
pub proof fn law_code_stands_for_its_status(message: Seq<char>, code: Seq<char>)
    ensures
        terminal_event_base(message, Some("context_length_exceeded"@)).status == 400,
        terminal_event_base(message, Some("internal_error"@)).status == 500,
        terminal_event_base(message, Some("upstream_timeout"@)).status == 504,
        terminal_event_base(message, Some("rate_limit_exceeded"@)).status == 429,
        terminal_event_base(message, Some("request_too_large"@)).status == 413,
        terminal_event_base(message, Some("unsupported_media_type"@)).status == 415,
        terminal_event_base(message, Some("unprocessable_entity"@)).status == 422,
        terminal_event_base(message, Some("invalid_request_error"@)).status == 400,
        code != "context_length_exceeded"@ && code != "internal_error"@
            && code != "upstream_timeout"@ && code != "rate_limit_exceeded"@
            && code != "request_too_large"@ && code != "unsupported_media_type"@
            && code != "unprocessable_entity"@ && code != "invalid_request_error"@
            ==> terminal_event_base(message, Some(code)).status == 502,
        terminal_event_base(message, None).status == 502,
{
    reveal_strlit("context_length_exceeded");
    reveal_strlit("internal_error");
    reveal_strlit("upstream_timeout");
    reveal_strlit("rate_limit_exceeded");
    reveal_strlit("request_too_large");
    reveal_strlit("unsupported_media_type");
    reveal_strlit("unprocessable_entity");
    reveal_strlit("invalid_request_error");
    assert("context_length_exceeded"@.len() == 23);
    assert("internal_error"@.len() == 14);
    assert("upstream_timeout"@.len() == 16);
    assert("rate_limit_exceeded"@.len() == 19);
    assert("request_too_large"@.len() == 17);
    assert("unsupported_media_type"@.len() == 22);
    assert("unprocessable_entity"@.len() == 20);
    assert("invalid_request_error"@.len() == 21);
}

/// What the client must correct is shown to it as it is told; what failed behind the gateway
/// is not.
pub proof fn law_client_is_told_what_it_can_correct(message: Seq<char>, code: Seq<char>)
    ensures
        ({
            let e = terminal_event_base(message, Some(code));
            &&& 400 <= e.status < 500 && code != "context_length_exceeded"@ ==> e.client_message
                == message
            &&& e.status >= 500 ==> e.client_message == terminal_event_base(
                Seq::<char>::empty(),
                Some(code),
            ).client_message
        }),
        upstream_view(message).message == message,
        internal_view(message).message == message,
        gateway_timeout_view(message).message == message,
        prompt_too_long_view(message).message == message,
{
}

/// An error is the client's just where its status says so.
pub proof fn law_kind_is_by_status(status: u16)
    ensures
        error_kind(status) == "invalid_request_error"@ <==> 400 <= status <= 499,
        error_kind(status) == "server_error"@ <==> status < 400 || status > 499,
{
    reveal_strlit("invalid_request_error");
    reveal_strlit("server_error");
    assert("invalid_request_error"@.len() == 21);
    assert("server_error"@.len() == 12);
}

/// Whatever the detail, a failure has its own status and code, tells the client what it may
/// know, and is tried elsewhere, all but a prompt that is too long.
pub proof fn law_failure_is_told_by_its_kind(message: Seq<char>)
    ensures
        upstream_view(message).status == 502,
        upstream_view(message).code is None,
        upstream_view(message).client_message == "the upstream request failed"@,
        upstream_view(message).failover is Failover,
        internal_view(message).status == 500,
        internal_view(message).code == Some("internal_error"@),
        internal_view(message).client_message == "internal server error"@,
        internal_view(message).failover is Failover,
        gateway_timeout_view(message).status == 504,
        gateway_timeout_view(message).code == Some("upstream_timeout"@),
        gateway_timeout_view(message).client_message == "the upstream response timed out"@,
        gateway_timeout_view(message).failover is Failover,
        prompt_too_long_view(message).status == 400,
        prompt_too_long_view(message).code == Some("context_length_exceeded"@),
        prompt_too_long_view(message).client_message
            == "prompt is too long for the selected model; reduce the input or output limit"@,
        prompt_too_long_view(message).failover is Terminal,
        upstream_view(message).param is None,
        internal_view(message).param is None,
        gateway_timeout_view(message).param is None,
        prompt_too_long_view(message).param is None,
{
}

/// A failure that the client can correct is not tried elsewhere, but for one that is only said
/// to be invalid.
pub proof fn law_correctable_failure_is_final(message: Seq<char>, code: Seq<char>)
    ensures
        code == "rate_limit_exceeded"@ || code == "request_too_large"@ || code
            == "unsupported_media_type"@ || code == "unprocessable_entity"@ || code
            == "context_length_exceeded"@ ==> terminal_event_base(message, Some(code)).failover
            is Terminal,
        code == "invalid_request_error"@ || code == "internal_error"@ || code == "upstream_timeout"@
            ==> terminal_event_base(message, Some(code)).failover is Failover,
        terminal_event_base(message, None) == upstream_view(message),
{
    reveal_strlit("context_length_exceeded");
    reveal_strlit("internal_error");
    reveal_strlit("upstream_timeout");
    reveal_strlit("rate_limit_exceeded");
    reveal_strlit("request_too_large");
    reveal_strlit("unsupported_media_type");
    reveal_strlit("unprocessable_entity");
    reveal_strlit("invalid_request_error");
    assert("context_length_exceeded"@.len() == 23);
    assert("internal_error"@.len() == 14);
    assert("upstream_timeout"@.len() == 16);
    assert("rate_limit_exceeded"@.len() == 19);
    assert("request_too_large"@.len() == 17);
    assert("unsupported_media_type"@.len() == 22);
    assert("unprocessable_entity"@.len() == 20);
    assert("invalid_request_error"@.len() == 21);
}

/// A status has three digits.
pub proof fn law_status_has_three_digits(status: u16)
    ensures
        is_status(status) <==> text::decimal(status as nat).len() == 3 && status >= 100,
{
    reveal_with_fuel(text::decimal, 6);
}

/// An error that is shown tells the client what it tells the operator, and one that is hidden
/// does not; both keep their status, code and disposition.
pub proof fn law_shown_and_hidden(
    status: u16,
    message: Seq<char>,
    told: Seq<char>,
    code: Option<Seq<char>>,
    failover: FailoverDisposition,
)
    ensures
        shown(status, message, code, failover) == hidden(status, message, message, code, failover),
        hidden(status, message, told, code, failover).status == status,
        hidden(status, message, told, code, failover).message == message,
        hidden(status, message, told, code, failover).client_message == told,
        hidden(status, message, told, code, failover).code == code,
        hidden(status, message, told, code, failover).failover == failover,
        hidden(status, message, told, code, failover).param is None,
{
}

} // verus!
