//! What is seen of a value is what its fields hold.
use vstd::prelude::*;

use crate::error::AppError;
use crate::metrics::counts::BucketKey;
use crate::request_log::PairReport;
use crate::responses_capabilities::ResponsesCapabilities;
use crate::responses_capabilities::ResponsesCapabilitiesConfig;
use crate::search::BraveWebResult;
use crate::sse_guard::ScanState;
use crate::startup::UpstreamLeaf;
use crate::text;

verus! {

/// What is seen of an error is what its fields hold.
pub proof fn law_seen_app_error(x: AppError)
    ensures
        x@.status == x.status,
        x@.message == x.message@,
        x@.client_message == x.client_message@,
        x@.code == match x.code {
            Some(t) => Some(t@),
            None => None,
        },
        x@.param == match x.param {
            Some(t) => Some(t@),
            None => None,
        },
        x@.failover == x.failover,
{
}

/// What is seen of a key is what its fields hold.
pub proof fn law_seen_bucket_key(x: BucketKey)
    ensures
        x@.status == x.status,
        x@.model == x.model@,
        x@.endpoint == x.endpoint@,
        x@.upstream == x.upstream@,
{
}

/// What is seen of a pair is what its fields hold.
pub proof fn law_seen_pair_report(x: PairReport)
    ensures
        x@.previous_line == x.previous_line as int,
        x@.current_line == x.current_line as int,
        x@.previous_len == x.previous_len as nat,
        x@.current_len == x.current_len as nat,
        x@.common_prefix_bytes == x.common_prefix_bytes as int,
        x@.differing_paths == text::strings_view(x.differing_paths@),
        x@.previous_boundary_preview == x.previous_boundary_preview@,
        x@.current_boundary_preview == x.current_boundary_preview@,
{
}

/// What is seen of a declaration is what its fields hold.
pub proof fn law_seen_responses_capabilities_config(x: ResponsesCapabilitiesConfig)
    ensures
        x@.parallel_tool_calls == x.parallel_tool_calls,
        x@.reasoning_summary == x.reasoning_summary,
        x@.encrypted_reasoning == x.encrypted_reasoning,
        x@.agent_message_encrypted_content == x.agent_message_encrypted_content,
        x@.input_image == x.input_image,
        x@.input_file == x.input_file,
        x@.truncation_auto == x.truncation_auto,
        x@.text_verbosity == x.text_verbosity,
        x@.service_tiers == text::opt_strings_view(x.service_tiers),
        x@.prompt_cache_key == x.prompt_cache_key,
        x@.prompt_cache_retention == text::opt_strings_view(x.prompt_cache_retention),
{
}

/// What is seen of what a backend supports is what its fields hold.
pub proof fn law_seen_responses_capabilities(x: ResponsesCapabilities)
    ensures
        x@.parallel_tool_calls == x.parallel_tool_calls,
        x@.structured_outputs == x.structured_outputs@,
        x@.reasoning_summary == x.reasoning_summary,
        x@.encrypted_reasoning == x.encrypted_reasoning,
        x@.agent_message_encrypted_content == x.agent_message_encrypted_content,
        x@.input_image == x.input_image,
        x@.input_file == x.input_file,
        x@.truncation_auto == x.truncation_auto,
        x@.text_verbosity == x.text_verbosity,
        x@.service_tiers == text::strings_view(x.service_tiers@),
        x@.prompt_cache_key == x.prompt_cache_key,
        x@.prompt_cache_retention == text::strings_view(x.prompt_cache_retention@),
{
}

/// What is seen of a scan is what its fields hold.
pub proof fn law_seen_scan_state(x: ScanState)
    ensures
        x@.since == x.since_boundary as nat,
        x@.carry == x.carry@,
        x@.in_run == x.in_eol_run,
{
}

/// What is seen of an upstream is what its fields hold.
pub proof fn law_seen_upstream_leaf(x: UpstreamLeaf)
    ensures
        x@.base_url == x.base_url@,
        x@.api_key == match x.api_key {
            Some(t) => Some(t@),
            None => None,
        },
        x@.request_log_path == match x.request_log_path {
            Some(t) => Some(t@),
            None => None,
        },
{
}

/// What is seen of a result of a search is what its fields hold.
pub proof fn law_seen_result(x: BraveWebResult)
    ensures
        x@.title == x.title@,
        x@.url == x.url@,
        x@.description == x.description@,
{
}

} // verus!
