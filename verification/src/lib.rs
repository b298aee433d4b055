//! The decision core of an LLM gateway: what it accepts, forwards, redacts,
//! stores and reports, stated as contracts and proved.
pub mod capability_laws;
pub mod digest;
pub mod error;
pub mod http;
pub mod json;
pub mod json_doc;
pub mod json_string;
pub mod json_text;
pub mod log_rotation;
pub mod metrics;
pub mod models;
pub mod monitor;
pub mod monitor_laws;
pub mod proxy_headers;
pub mod raw;
pub mod redaction;
pub mod redaction_laws;
pub mod replay;
pub mod request_log;
pub mod request_log_laws;
pub mod response_store;
pub mod responses_capabilities;
pub mod search;
pub mod search_laws;
pub mod sse_guard;
pub mod startup;
pub mod text;
pub mod text_laws;
pub mod view_laws;
pub mod written_text;
