//! Which requests a backend takes, said of the request and of what the backend declares.
use vstd::prelude::*;

use crate::digest;
use crate::json;
use crate::json::JsonView;
use crate::models::responses;
use crate::models::responses::ContentItem;
use crate::models::responses::FunctionCallOutputContent;
use crate::models::responses::ResponseItem;
use crate::models::responses::ResponsesRequest;
use crate::models::responses::ToolSpec;
use crate::responses_capabilities;
use crate::responses_capabilities::AgentMessageEncryptedContentCapability;
use crate::responses_capabilities::CapabilitiesView;
use crate::responses_capabilities::CapabilityCandidate;
use crate::responses_capabilities::CapabilityPlan;
use crate::responses_capabilities::ConfigView;
use crate::responses_capabilities::EncryptedReasoningCapability;
use crate::responses_capabilities::InputFileCapability;
use crate::responses_capabilities::InputImageCapability;
use crate::responses_capabilities::PromptCacheKeyCapability;
use crate::responses_capabilities::ReasoningSummaryCapability;
use crate::responses_capabilities::StructuredOutputCapability;
use crate::responses_capabilities::TextVerbosityCapability;
use crate::responses_capabilities::TruncationAutoCapability;
use crate::text;
use crate::text_laws;

verus! {

// --- Layers ------------------------------------------------------------------------------------

/// What the upper layer declares holds, and where it declares nothing, what the lower one does.
pub proof fn law_upper_layer_wins(lower: ConfigView, upper: ConfigView)
    ensures
        upper.parallel_tool_calls is Some
            ==> lower.overlaid(upper).parallel_tool_calls == upper.parallel_tool_calls,
        upper.parallel_tool_calls is None
            ==> lower.overlaid(upper).parallel_tool_calls == lower.parallel_tool_calls,
        upper.structured_outputs is Some
            ==> lower.overlaid(upper).structured_outputs == upper.structured_outputs,
        upper.structured_outputs is None
            ==> lower.overlaid(upper).structured_outputs == lower.structured_outputs,
        upper.reasoning_summary is Some
            ==> lower.overlaid(upper).reasoning_summary == upper.reasoning_summary,
        upper.reasoning_summary is None
            ==> lower.overlaid(upper).reasoning_summary == lower.reasoning_summary,
        upper.encrypted_reasoning is Some
            ==> lower.overlaid(upper).encrypted_reasoning == upper.encrypted_reasoning,
        upper.encrypted_reasoning is None
            ==> lower.overlaid(upper).encrypted_reasoning == lower.encrypted_reasoning,
        upper.agent_message_encrypted_content is Some
            ==> lower.overlaid(upper).agent_message_encrypted_content
                == upper.agent_message_encrypted_content,
        upper.agent_message_encrypted_content is None
            ==> lower.overlaid(upper).agent_message_encrypted_content
                == lower.agent_message_encrypted_content,
        upper.input_image is Some ==> lower.overlaid(upper).input_image == upper.input_image,
        upper.input_image is None ==> lower.overlaid(upper).input_image == lower.input_image,
        upper.input_file is Some ==> lower.overlaid(upper).input_file == upper.input_file,
        upper.input_file is None ==> lower.overlaid(upper).input_file == lower.input_file,
        upper.truncation_auto is Some
            ==> lower.overlaid(upper).truncation_auto == upper.truncation_auto,
        upper.truncation_auto is None
            ==> lower.overlaid(upper).truncation_auto == lower.truncation_auto,
        upper.text_verbosity is Some
            ==> lower.overlaid(upper).text_verbosity == upper.text_verbosity,
        upper.text_verbosity is None
            ==> lower.overlaid(upper).text_verbosity == lower.text_verbosity,
        upper.service_tiers is Some ==> lower.overlaid(upper).service_tiers == upper.service_tiers,
        upper.service_tiers is None ==> lower.overlaid(upper).service_tiers == lower.service_tiers,
        upper.prompt_cache_key is Some
            ==> lower.overlaid(upper).prompt_cache_key == upper.prompt_cache_key,
        upper.prompt_cache_key is None
            ==> lower.overlaid(upper).prompt_cache_key == lower.prompt_cache_key,
        upper.prompt_cache_retention is Some
            ==> lower.overlaid(upper).prompt_cache_retention == upper.prompt_cache_retention,
        upper.prompt_cache_retention is None
            ==> lower.overlaid(upper).prompt_cache_retention == lower.prompt_cache_retention,
{
}

/// What is declared is what can be done.
pub proof fn law_declared_holds(layer: ConfigView)
    ensures
        layer.parallel_tool_calls is Some
            ==> layer.resolved().parallel_tool_calls == layer.parallel_tool_calls->0,
        layer.structured_outputs is Some
            ==> layer.resolved().structured_outputs == layer.structured_outputs->0,
        layer.reasoning_summary is Some
            ==> layer.resolved().reasoning_summary == layer.reasoning_summary->0,
        layer.encrypted_reasoning is Some
            ==> layer.resolved().encrypted_reasoning == layer.encrypted_reasoning->0,
        layer.agent_message_encrypted_content is Some
            ==> layer.resolved().agent_message_encrypted_content
                == layer.agent_message_encrypted_content->0,
        layer.input_image is Some ==> layer.resolved().input_image == layer.input_image->0,
        layer.input_file is Some ==> layer.resolved().input_file == layer.input_file->0,
        layer.truncation_auto is Some
            ==> layer.resolved().truncation_auto == layer.truncation_auto->0,
        layer.text_verbosity is Some ==> layer.resolved().text_verbosity == layer.text_verbosity->0,
        layer.service_tiers is Some ==> layer.resolved().service_tiers == layer.service_tiers->0,
        layer.prompt_cache_key is Some
            ==> layer.resolved().prompt_cache_key == layer.prompt_cache_key->0,
        layer.prompt_cache_retention is Some
            ==> layer.resolved().prompt_cache_retention == layer.prompt_cache_retention->0,
{
}

/// What is not declared is refused: plain text alone is understood without a declaration.
pub proof fn law_undeclared_is_refused(layer: ConfigView)
    ensures
        layer.parallel_tool_calls is None ==> !layer.resolved().parallel_tool_calls,
        layer.structured_outputs is None ==> forall|x: StructuredOutputCapability| #[trigger]
            layer.resolved().structured_outputs.contains(x)
                <==> x == StructuredOutputCapability::Text,
        layer.reasoning_summary is None
            ==> layer.resolved().reasoning_summary == ReasoningSummaryCapability::Unsupported,
        layer.encrypted_reasoning is None
            ==> layer.resolved().encrypted_reasoning == EncryptedReasoningCapability::Unsupported,
        layer.agent_message_encrypted_content is None
            ==> layer.resolved().agent_message_encrypted_content
                == AgentMessageEncryptedContentCapability::Unsupported,
        layer.input_image is None ==> layer.resolved().input_image == InputImageCapability::Reject,
        layer.input_file is None
            ==> layer.resolved().input_file == InputFileCapability::Unsupported,
        layer.truncation_auto is None
            ==> layer.resolved().truncation_auto == TruncationAutoCapability::Unsupported,
        layer.text_verbosity is None
            ==> layer.resolved().text_verbosity == TextVerbosityCapability::Unsupported,
        layer.prompt_cache_key is None
            ==> layer.resolved().prompt_cache_key == PromptCacheKeyCapability::Unsupported,
        layer.service_tiers is None ==> layer.resolved().service_tiers.len() == 0,
        layer.prompt_cache_retention is None ==> layer.resolved().prompt_cache_retention.len() == 0,
{
    let plain = seq![StructuredOutputCapability::Text];
    assert(plain[0] == StructuredOutputCapability::Text);
}

// --- Searching for the first fault --------------------------------------------------------------

proof fn lemma_none<T, U>(s: Seq<T>, f: spec_fn(int, T) -> Option<U>, i: int)
    requires
        0 <= i <= s.len(),
    ensures
        text::first_some(s, f, i) is None <==> forall|k: int|
            i <= k < s.len() ==> #[trigger] f(k, s[k]) is None,
    decreases s.len() - i,
{
    if i < s.len() {
        lemma_none(s, f, i + 1);
        if text::first_some(s, f, i) is None {
            assert forall|k: int| i <= k < s.len() implies #[trigger] f(k, s[k]) is None by {
                if k > i {
                    assert(f(k, s[k]) is None);
                }
            }
        }
        if forall|k: int| i <= k < s.len() ==> #[trigger] f(k, s[k]) is None {
            assert(f(i, s[i]) is None);
        }
    }
}

proof fn lemma_first<T, U>(s: Seq<T>, f: spec_fn(int, T) -> Option<U>, i: int) -> (at: int)
    requires
        0 <= i <= s.len(),
        text::first_some(s, f, i) is Some,
    ensures
        i <= at < s.len(),
        f(at, s[at]) == text::first_some(s, f, i),
        forall|k: int| i <= k < at ==> #[trigger] f(k, s[k]) is None,
    decreases s.len() - i,
{
    if f(i, s[i]) is Some {
        i
    } else {
        lemma_first(s, f, i + 1)
    }
}

// --- What a supported request is ----------------------------------------------------------------

proof fn lemma_reserved(extra: Seq<(Seq<char>, JsonView)>)
    ensures
        responses_capabilities::reserved_in(extra) is None <==> (!json::has_member(
            extra,
            "background"@,
        ) && !json::has_member(extra, "conversation"@) && !json::has_member(
            extra,
            "max_tool_calls"@,
        ) && !json::has_member(extra, "prompt"@) && !json::has_member(extra, "safety_identifier"@)
            && !json::has_member(extra, "top_logprobs"@)),
{
    reveal_with_fuel(text::first_some, 7);
}

/// A request is taken with an output format just where the backend declares the format
/// which its type names.
pub proof fn law_format_is_declared(request: ResponsesRequest, caps: CapabilitiesView)
    requires
        request.text is Some,
        request.text->0.format is Some,
    ensures
        (request.text->0.format->0).kind@ == "text"@ ==> (
        responses_capabilities::format_refused(request, caps) is None
            <==> caps.structured_outputs.contains(
            StructuredOutputCapability::Text,
        )),
        (request.text->0.format->0).kind@ == "json_object"@ ==> (
        responses_capabilities::format_refused(request, caps) is None
            <==> caps.structured_outputs.contains(
            StructuredOutputCapability::JsonObject,
        )),
        (request.text->0.format->0).kind@ == "json_schema"@ ==> (
        responses_capabilities::format_refused(request, caps) is None
            <==> caps.structured_outputs.contains(
            StructuredOutputCapability::JsonSchema,
        )),
        (request.text->0.format->0).kind@ != "text"@ && (request.text->0.format->0).kind@
            != "json_object"@ && (request.text->0.format->0).kind@ != "json_schema"@ ==>
            responses_capabilities::format_refused(request, caps) == Some("text.format.type"@),
        responses_capabilities::format_refused(request, caps) is Some
            ==> responses_capabilities::format_refused(
            request,
            caps,
        ) == Some("text.format"@) || responses_capabilities::format_refused(request, caps) == Some(
            "text.format.type"@,
        ),
{
    reveal_strlit("text");
    reveal_strlit("json_object");
    reveal_strlit("json_schema");
    assert("text"@.len() == 4);
    assert("json_object"@.len() == 11);
    assert("json_schema"@.len() == 11);
    assert("json_object"@[5] != "json_schema"@[5]);
}

/// A content part is refused in a message just where it is an image and images are, a file
/// that the model does not read, or of no known type; in a function's output it may besides
/// be neither output text nor a refusal.
pub proof fn law_refused_parts(part: ContentItem, caps: CapabilitiesView, function_output: bool)
    ensures
        part is InputText ==> !responses_capabilities::part_refused(part, caps, function_output),
        part is InputImage ==> (responses_capabilities::part_refused(part, caps, function_output)
            <==> caps.input_image == InputImageCapability::Reject),
        part is InputFile ==> (responses_capabilities::part_refused(part, caps, function_output)
            <==> caps.input_file != InputFileCapability::Native),
        part is OutputText || part is Refusal ==> (responses_capabilities::part_refused(
            part,
            caps,
            function_output,
        ) <==> function_output),
        part is Other ==> responses_capabilities::part_refused(part, caps, function_output),
{
}

/// The path of a part that is refused is that of the first one, by its index.
pub proof fn law_first_refused_part_is_named(
    content: Seq<ContentItem>,
    base: Seq<char>,
    caps: CapabilitiesView,
    function_output: bool,
    at: int,
)
    requires
        0 <= at < content.len(),
        responses_capabilities::part_refused(content[at], caps, function_output),
        forall|k: int|
            0 <= k < at ==> !responses_capabilities::part_refused(
                #[trigger] content[k],
                caps,
                function_output,
            ),
    ensures
        responses_capabilities::content_refused(content, base, caps, function_output) == Some(
            text::indexed(base, at),
        ),
{
    let f = responses_capabilities::part_check(base, caps, function_output);
    lemma_none(content, f, 0);
    assert(f(at, content[at]) is Some);
    let first = lemma_first(content, f, 0);
    if first < at {
        assert(!responses_capabilities::part_refused(content[first], caps, function_output));
    } else if at < first {
        assert(f(at, content[at]) is None);
    }
}

/// Content is refused just where one of its parts is.
pub proof fn law_content_is_refused_by_its_parts(
    content: Seq<ContentItem>,
    base: Seq<char>,
    caps: CapabilitiesView,
    function_output: bool,
)
    ensures
        responses_capabilities::content_refused(content, base, caps, function_output) is None
            <==> forall|k: int|
            0 <= k < content.len() ==> !responses_capabilities::part_refused(
                #[trigger] content[k],
                caps,
                function_output,
            ),
{
    let f = responses_capabilities::part_check(base, caps, function_output);
    lemma_none(content, f, 0);
    if responses_capabilities::content_refused(content, base, caps, function_output) is None {
        assert forall|k: int| 0 <= k < content.len() implies !responses_capabilities::part_refused(
            #[trigger] content[k],
            caps,
            function_output,
        ) by {
            assert(f(k, content[k]) is None);
        }
    }
}

/// What is refused in an item: in a message and in an output any part that is, in a message
/// between agents what is encrypted where that is not handled, and every generated image.
pub proof fn law_refused_items(item: ResponseItem, base: Seq<char>, i: int, caps: CapabilitiesView)
    ensures
        item matches ResponseItem::Message { content, .. } ==>
            responses_capabilities::item_refused(item, base, i, caps)
            == responses_capabilities::content_refused(
            content@,
            text::indexed(base, i) + ".content"@,
            caps,
            false,
        ),
        item matches ResponseItem::FunctionCallOutput {
            output: FunctionCallOutputContent::Content(content),
            ..
        } ==> responses_capabilities::item_refused(item, base, i, caps)
            == responses_capabilities::content_refused(
            content@,
            text::indexed(base, i) + ".output"@,
            caps,
            true,
        ),
        item matches ResponseItem::CustomToolCallOutput {
            output: FunctionCallOutputContent::Content(content),
            ..
        } ==> responses_capabilities::item_refused(item, base, i, caps)
            == responses_capabilities::content_refused(
            content@,
            text::indexed(base, i) + ".output"@,
            caps,
            true,
        ),
        item matches ResponseItem::AgentMessage { content, .. } ==> (
        responses_capabilities::item_refused(item, base, i, caps) is None <==> (
        caps.agent_message_encrypted_content
            == AgentMessageEncryptedContentCapability::PlaintextCompat || forall|k: int|
            0 <= k < content@.len() ==> (#[trigger] content@[k]) is InputText)),
        item is ImageGenerationCall ==> responses_capabilities::item_refused(item, base, i, caps)
            == Some(text::indexed(base, i)),
        item is ItemReference || item is Reasoning || item is FunctionCall || item is CustomToolCall
            || item is ToolSearchCall || item is ToolSearchOutput || item is LocalShellCall
            || item is WebSearchCall ==> responses_capabilities::item_refused(item, base, i, caps)
            is None,
        item matches ResponseItem::FunctionCallOutput { output: FunctionCallOutputContent::Text(_), .. }
            ==> responses_capabilities::item_refused(item, base, i, caps) is None,
        item matches ResponseItem::CustomToolCallOutput {
            output: FunctionCallOutputContent::Text(_),
            ..
        } ==> responses_capabilities::item_refused(item, base, i, caps) is None,
{
    if let ResponseItem::AgentMessage { content, .. } = item {
        let f = responses_capabilities::encrypted_part_check();
        lemma_none(content@, f, 0);
        if responses_capabilities::encrypted_part(content@) is None {
            assert forall|k: int| 0 <= k < content@.len() implies
                (#[trigger] content@[k]) is InputText by {
                assert(f(k, content@[k]) is None);
            }
        } else {
            let k = lemma_first(content@, f, 0);
            assert(content@[k] is EncryptedContent);
        }
    }
}

/// The first item with something that is refused decides what is named.
pub proof fn law_first_refused_item_is_named(
    items: Seq<ResponseItem>,
    base: Seq<char>,
    caps: CapabilitiesView,
    at: int,
)
    requires
        0 <= at < items.len(),
        responses_capabilities::item_refused(items[at], base, at, caps) is Some,
        forall|k: int|
            0 <= k < at ==> responses_capabilities::item_refused(#[trigger] items[k], base, k, caps)
                is None,
    ensures
        responses_capabilities::items_refused(items, base, caps)
            == responses_capabilities::item_refused(items[at], base, at, caps),
{
    let f = responses_capabilities::item_check(base, caps);
    lemma_none(items, f, 0);
    assert(f(at, items[at]) is Some);
    let first = lemma_first(items, f, 0);
    if first < at {
        assert(responses_capabilities::item_refused(items[first], base, first, caps) is None);
    } else if at < first {
        assert(f(at, items[at]) is None);
    }
}

proof fn lemma_items(items: Seq<ResponseItem>, base: Seq<char>, caps: CapabilitiesView)
    ensures
        responses_capabilities::items_refused(items, base, caps) is None <==> forall|k: int|
            0 <= k < items.len() ==> responses_capabilities::item_refused(
                #[trigger] items[k],
                base,
                k,
                caps,
            ) is None,
{
    let f = responses_capabilities::item_check(base, caps);
    lemma_none(items, f, 0);
    if responses_capabilities::items_refused(items, base, caps) is None {
        assert forall|k: int| 0 <= k < items.len() implies responses_capabilities::item_refused(
            #[trigger] items[k],
            base,
            k,
            caps,
        ) is None by {
            assert(f(k, items[k]) is None);
        }
    }
}

proof fn lemma_encrypted(items: Seq<ResponseItem>, base: Seq<char>)
    ensures
        responses_capabilities::encrypted_reasoning_in(items, base) is None <==> forall|k: int|
            0 <= k < items.len() ==> !((#[trigger] items[k]) is Reasoning
                && items[k]->Reasoning_encrypted_content is Some),
{
    let f = responses_capabilities::encrypted_reasoning_check(base);
    lemma_none(items, f, 0);
    if responses_capabilities::encrypted_reasoning_in(items, base) is None {
        assert forall|k: int| 0 <= k < items.len() implies !((#[trigger] items[k]) is Reasoning
            && items[k]->Reasoning_encrypted_content is Some) by {
            assert(f(k, items[k]) is None);
        }
    }
}

proof fn lemma_includes(includes: Seq<String>, caps: CapabilitiesView)
    ensures
        responses_capabilities::include_refused(includes, caps) is None <==> forall|k: int|
            0 <= k < includes.len() ==> ((#[trigger] includes[k])@
                == "web_search_call.action.sources"@ || (includes[k]@
                == "reasoning.encrypted_content"@ && caps.encrypted_reasoning
                == EncryptedReasoningCapability::Passthrough)),
{
    reveal_strlit("web_search_call.action.sources");
    reveal_strlit("reasoning.encrypted_content");
    assert("web_search_call.action.sources"@.len() == 30);
    assert("reasoning.encrypted_content"@.len() == 27);
    let f = responses_capabilities::include_check(caps);
    lemma_none(includes, f, 0);
    if responses_capabilities::include_refused(includes, caps) is None {
        assert forall|k: int| 0 <= k < includes.len() implies ((#[trigger] includes[k])@
            == "web_search_call.action.sources"@ || (includes[k]@ == "reasoning.encrypted_content"@
            && caps.encrypted_reasoning == EncryptedReasoningCapability::Passthrough)) by {
            assert(f(k, includes[k]) is None);
        }
    }
}

proof fn lemma_tools(tools: Seq<ToolSpec>)
    ensures
        responses_capabilities::image_tool_refused(tools) is None <==> forall|k: int|
            0 <= k < tools.len() ==> !((#[trigger] tools[k]) is ImageGeneration),
        responses_capabilities::web_search_refused(tools) is None <==> forall|k: int|
            0 <= k < tools.len() ==> ((#[trigger] tools[k]) is WebSearch ==> (
            tools[k]->WebSearch_external_web_access is None && tools[k]->WebSearch_filters is None
                && tools[k]->WebSearch_user_location is None
                && tools[k]->WebSearch_search_context_size is None
                && tools[k]->WebSearch_search_content_types is None)),
{
    let f = responses_capabilities::image_tool_check();
    lemma_none(tools, f, 0);
    if responses_capabilities::image_tool_refused(tools) is None {
        assert forall|k: int| 0 <= k < tools.len() implies !((
        #[trigger] tools[k]) is ImageGeneration) by {
            assert(f(k, tools[k]) is None);
        }
    }
    let g = responses_capabilities::web_search_check();
    lemma_none(tools, g, 0);
    if responses_capabilities::web_search_refused(tools) is None {
        assert forall|k: int| 0 <= k < tools.len() && (#[trigger] tools[k]) is WebSearch implies (
        tools[k]->WebSearch_external_web_access is None && tools[k]->WebSearch_filters is None
            && tools[k]->WebSearch_user_location is None
            && tools[k]->WebSearch_search_context_size is None
            && tools[k]->WebSearch_search_content_types is None) by {
            assert(g(k, tools[k]) is None);
        }
    }
}

/// A request that is taken asks for nothing that the backend does not declare.
pub proof fn law_taken_request_is_supported(request: ResponsesRequest, caps: CapabilitiesView)
    requires
        responses_capabilities::refused(request, caps) is None,
    ensures
        !json::has_member(request.extra_body@, "background"@),
        !json::has_member(request.extra_body@, "conversation"@),
        !json::has_member(request.extra_body@, "max_tool_calls"@),
        !json::has_member(request.extra_body@, "prompt"@),
        !json::has_member(request.extra_body@, "safety_identifier"@),
        !json::has_member(request.extra_body@, "top_logprobs"@),
        request.parallel_tool_calls == Some(true) ==> caps.parallel_tool_calls,
        responses_capabilities::format_refused(request, caps) is None,
        request.reasoning is Some && request.reasoning->0.summary is Some
            && (request.reasoning->0.summary->0)@ != "none"@ ==> caps.reasoning_summary
            == ReasoningSummaryCapability::Upstream,
        forall|k: int|
            0 <= k < request.includes@.len() ==> ((#[trigger] request.includes@[k])@
                == "web_search_call.action.sources"@ || (request.includes@[k]@
                == "reasoning.encrypted_content"@ && caps.encrypted_reasoning
                == EncryptedReasoningCapability::Passthrough)),
        caps.encrypted_reasoning == EncryptedReasoningCapability::Passthrough || forall|k: int|
            0 <= k < request.input@.len() ==> !((#[trigger] request.input@[k]) is Reasoning
                && request.input@[k]->Reasoning_encrypted_content is Some),
        caps.encrypted_reasoning == EncryptedReasoningCapability::Passthrough || forall|k: int|
            0 <= k < responses::instruction_items(request.instructions).len() ==> !((
            #[trigger] responses::instruction_items(request.instructions)[k]) is Reasoning
                && responses::instruction_items(
                request.instructions,
            )[k]->Reasoning_encrypted_content is Some),
        forall|k: int|
            0 <= k < responses::instruction_items(request.instructions).len()
                ==> responses_capabilities::item_refused(
                #[trigger] responses::instruction_items(request.instructions)[k],
                "instructions"@,
                k,
                caps,
            ) is None,
        forall|k: int|
            0 <= k < request.input@.len() ==> responses_capabilities::item_refused(
                #[trigger] request.input@[k],
                "input"@,
                k,
                caps,
            ) is None,
        request.truncation is Some && (request.truncation->0)@ != JsonView::Text("disabled"@)
            ==> caps.truncation_auto == TruncationAutoCapability::Upstream,
        request.text is Some && request.text->0.verbosity is Some ==> caps.text_verbosity
            == TextVerbosityCapability::Upstream,
        request.service_tier is Some ==> caps.service_tiers.contains((request.service_tier->0)@),
        request.prompt_cache_key is Some ==> caps.prompt_cache_key
            != PromptCacheKeyCapability::Unsupported,
        request.prompt_cache_retention is Some ==> caps.prompt_cache_retention.contains(
            (request.prompt_cache_retention->0)@,
        ),
        forall|k: int|
            0 <= k < request.tools@.len() ==> !((#[trigger] request.tools@[k]) is ImageGeneration),
        forall|k: int|
            0 <= k < request.tools@.len() ==> ((#[trigger] request.tools@[k]) is WebSearch ==> (
            request.tools@[k]->WebSearch_external_web_access is None
                && request.tools@[k]->WebSearch_filters is None
                && request.tools@[k]->WebSearch_user_location is None
                && request.tools@[k]->WebSearch_search_context_size is None
                && request.tools@[k]->WebSearch_search_content_types is None)),
{
    lemma_reserved(request.extra_body@);
    lemma_includes(request.includes@, caps);
    let items = responses::instruction_items(request.instructions);
    lemma_encrypted(items, "instructions"@);
    lemma_encrypted(request.input@, "input"@);
    lemma_items(items, "instructions"@, caps);
    lemma_items(request.input@, "input"@, caps);
    lemma_tools(request.tools@);
}

/// A request that asks for nothing but what the backend declares is taken.
pub proof fn law_supported_request_is_taken(request: ResponsesRequest, caps: CapabilitiesView)
    requires
        !json::has_member(request.extra_body@, "background"@),
        !json::has_member(request.extra_body@, "conversation"@),
        !json::has_member(request.extra_body@, "max_tool_calls"@),
        !json::has_member(request.extra_body@, "prompt"@),
        !json::has_member(request.extra_body@, "safety_identifier"@),
        !json::has_member(request.extra_body@, "top_logprobs"@),
        request.parallel_tool_calls == Some(true) ==> caps.parallel_tool_calls,
        responses_capabilities::format_refused(request, caps) is None,
        request.reasoning is Some && request.reasoning->0.summary is Some
            && (request.reasoning->0.summary->0)@ != "none"@ ==> caps.reasoning_summary
            == ReasoningSummaryCapability::Upstream,
        forall|k: int|
            0 <= k < request.includes@.len() ==> ((#[trigger] request.includes@[k])@
                == "web_search_call.action.sources"@ || (request.includes@[k]@
                == "reasoning.encrypted_content"@ && caps.encrypted_reasoning
                == EncryptedReasoningCapability::Passthrough)),
        caps.encrypted_reasoning == EncryptedReasoningCapability::Passthrough || forall|k: int|
            0 <= k < request.input@.len() ==> !((#[trigger] request.input@[k]) is Reasoning
                && request.input@[k]->Reasoning_encrypted_content is Some),
        caps.encrypted_reasoning == EncryptedReasoningCapability::Passthrough || forall|k: int|
            0 <= k < responses::instruction_items(request.instructions).len() ==> !((
            #[trigger] responses::instruction_items(request.instructions)[k]) is Reasoning
                && responses::instruction_items(
                request.instructions,
            )[k]->Reasoning_encrypted_content is Some),
        forall|k: int|
            0 <= k < responses::instruction_items(request.instructions).len()
                ==> responses_capabilities::item_refused(
                #[trigger] responses::instruction_items(request.instructions)[k],
                "instructions"@,
                k,
                caps,
            ) is None,
        forall|k: int|
            0 <= k < request.input@.len() ==> responses_capabilities::item_refused(
                #[trigger] request.input@[k],
                "input"@,
                k,
                caps,
            ) is None,
        request.truncation is Some && (request.truncation->0)@ != JsonView::Text("disabled"@)
            ==> caps.truncation_auto == TruncationAutoCapability::Upstream,
        request.text is Some && request.text->0.verbosity is Some ==> caps.text_verbosity
            == TextVerbosityCapability::Upstream,
        request.service_tier is Some ==> caps.service_tiers.contains((request.service_tier->0)@),
        request.prompt_cache_key is Some ==> caps.prompt_cache_key
            != PromptCacheKeyCapability::Unsupported,
        request.prompt_cache_retention is Some ==> caps.prompt_cache_retention.contains(
            (request.prompt_cache_retention->0)@,
        ),
        forall|k: int|
            0 <= k < request.tools@.len() ==> !((#[trigger] request.tools@[k]) is ImageGeneration),
        forall|k: int|
            0 <= k < request.tools@.len() ==> ((#[trigger] request.tools@[k]) is WebSearch ==> (
            request.tools@[k]->WebSearch_external_web_access is None
                && request.tools@[k]->WebSearch_filters is None
                && request.tools@[k]->WebSearch_user_location is None
                && request.tools@[k]->WebSearch_search_context_size is None
                && request.tools@[k]->WebSearch_search_content_types is None)),
    ensures
        responses_capabilities::refused(request, caps) is None,
{
    lemma_reserved(request.extra_body@);
    lemma_includes(request.includes@, caps);
    let items = responses::instruction_items(request.instructions);
    lemma_encrypted(items, "instructions"@);
    lemma_encrypted(request.input@, "input"@);
    lemma_items(items, "instructions"@, caps);
    lemma_items(request.input@, "input"@, caps);
    lemma_tools(request.tools@);
}

proof fn lemma_same_items(
    items: Seq<ResponseItem>,
    base: Seq<char>,
    a: CapabilitiesView,
    b: CapabilitiesView,
)
    requires
        a.input_image == b.input_image,
        a.input_file == b.input_file,
        a.agent_message_encrypted_content == b.agent_message_encrypted_content,
        responses_capabilities::items_refused(items, base, a) is None,
    ensures
        responses_capabilities::items_refused(items, base, b) is None,
{
    lemma_items(items, base, a);
    lemma_items(items, base, b);
    assert forall|k: int| 0 <= k < items.len() implies responses_capabilities::item_refused(
        #[trigger] items[k],
        base,
        k,
        b,
    ) is None by {
        assert(responses_capabilities::item_refused(items[k], base, k, a) is None);
        if let Some((content, function_output)) = responses_capabilities::item_content(items[k]) {
            let path = responses_capabilities::content_path(base, k, function_output);
            law_content_is_refused_by_its_parts(content, path, a, function_output);
            law_content_is_refused_by_its_parts(content, path, b, function_output);
            assert forall|j: int|
                0 <= j < content.len() implies !responses_capabilities::part_refused(
                #[trigger] content[j],
                b,
                function_output,
            ) by {
                assert(!responses_capabilities::part_refused(content[j], a, function_output));
            }
        }
    }
}

proof fn lemma_same_includes(includes: Seq<String>, a: CapabilitiesView, b: CapabilitiesView)
    requires
        a.encrypted_reasoning == b.encrypted_reasoning,
        responses_capabilities::include_refused(includes, a) is None,
    ensures
        responses_capabilities::include_refused(includes, b) is None,
{
    lemma_includes(includes, a);
    lemma_includes(includes, b);
}

/// Where a request is refused, and would not be with another declaration of parallel tool
/// calls, then
/// `parallel_tool_calls` is what is named.
pub proof fn law_parallel_tool_calls_is_named(
    request: ResponsesRequest,
    caps: CapabilitiesView,
    other: CapabilitiesView,
)
    requires
        responses_capabilities::refused(request, caps) is Some,
        responses_capabilities::refused(request, other) is None,
        other.structured_outputs == caps.structured_outputs,
        other.reasoning_summary == caps.reasoning_summary,
        other.encrypted_reasoning == caps.encrypted_reasoning,
        other.agent_message_encrypted_content == caps.agent_message_encrypted_content,
        other.input_image == caps.input_image,
        other.input_file == caps.input_file,
        other.truncation_auto == caps.truncation_auto,
        other.text_verbosity == caps.text_verbosity,
        other.service_tiers == caps.service_tiers,
        other.prompt_cache_key == caps.prompt_cache_key,
        other.prompt_cache_retention == caps.prompt_cache_retention,
    ensures
        responses_capabilities::refused(request, caps) == Some("parallel_tool_calls"@),
{
    let items = responses::instruction_items(request.instructions);
    lemma_same_items(items, "instructions"@, other, caps);
    lemma_same_items(request.input@, "input"@, other, caps);
    lemma_same_includes(request.includes@, other, caps);
}

/// Where a request is refused, and would not be with another declaration of output formats, then
/// `text.format` is what is named.
pub proof fn law_structured_outputs_is_named(
    request: ResponsesRequest,
    caps: CapabilitiesView,
    other: CapabilitiesView,
)
    requires
        responses_capabilities::refused(request, caps) is Some,
        responses_capabilities::refused(request, other) is None,
        other.parallel_tool_calls == caps.parallel_tool_calls,
        other.reasoning_summary == caps.reasoning_summary,
        other.encrypted_reasoning == caps.encrypted_reasoning,
        other.agent_message_encrypted_content == caps.agent_message_encrypted_content,
        other.input_image == caps.input_image,
        other.input_file == caps.input_file,
        other.truncation_auto == caps.truncation_auto,
        other.text_verbosity == caps.text_verbosity,
        other.service_tiers == caps.service_tiers,
        other.prompt_cache_key == caps.prompt_cache_key,
        other.prompt_cache_retention == caps.prompt_cache_retention,
    ensures
        responses_capabilities::refused(request, caps) == Some("text.format"@),
{
    let items = responses::instruction_items(request.instructions);
    lemma_same_items(items, "instructions"@, other, caps);
    lemma_same_items(request.input@, "input"@, other, caps);
    lemma_same_includes(request.includes@, other, caps);
}

/// Where a request is refused, and would not be with another declaration of reasoning
/// summaries, then
/// `reasoning.summary` is what is named.
pub proof fn law_reasoning_summary_is_named(
    request: ResponsesRequest,
    caps: CapabilitiesView,
    other: CapabilitiesView,
)
    requires
        responses_capabilities::refused(request, caps) is Some,
        responses_capabilities::refused(request, other) is None,
        other.parallel_tool_calls == caps.parallel_tool_calls,
        other.structured_outputs == caps.structured_outputs,
        other.encrypted_reasoning == caps.encrypted_reasoning,
        other.agent_message_encrypted_content == caps.agent_message_encrypted_content,
        other.input_image == caps.input_image,
        other.input_file == caps.input_file,
        other.truncation_auto == caps.truncation_auto,
        other.text_verbosity == caps.text_verbosity,
        other.service_tiers == caps.service_tiers,
        other.prompt_cache_key == caps.prompt_cache_key,
        other.prompt_cache_retention == caps.prompt_cache_retention,
    ensures
        responses_capabilities::refused(request, caps) == Some("reasoning.summary"@),
{
    let items = responses::instruction_items(request.instructions);
    lemma_same_items(items, "instructions"@, other, caps);
    lemma_same_items(request.input@, "input"@, other, caps);
    lemma_same_includes(request.includes@, other, caps);
}

/// Where a request is refused, and would not be with another declaration of truncation, then
/// `truncation` is what is named.
pub proof fn law_truncation_auto_is_named(
    request: ResponsesRequest,
    caps: CapabilitiesView,
    other: CapabilitiesView,
)
    requires
        responses_capabilities::refused(request, caps) is Some,
        responses_capabilities::refused(request, other) is None,
        other.parallel_tool_calls == caps.parallel_tool_calls,
        other.structured_outputs == caps.structured_outputs,
        other.reasoning_summary == caps.reasoning_summary,
        other.encrypted_reasoning == caps.encrypted_reasoning,
        other.agent_message_encrypted_content == caps.agent_message_encrypted_content,
        other.input_image == caps.input_image,
        other.input_file == caps.input_file,
        other.text_verbosity == caps.text_verbosity,
        other.service_tiers == caps.service_tiers,
        other.prompt_cache_key == caps.prompt_cache_key,
        other.prompt_cache_retention == caps.prompt_cache_retention,
    ensures
        responses_capabilities::refused(request, caps) == Some("truncation"@),
{
    let items = responses::instruction_items(request.instructions);
    lemma_same_items(items, "instructions"@, other, caps);
    lemma_same_items(request.input@, "input"@, other, caps);
    lemma_same_includes(request.includes@, other, caps);
}

/// Where a request is refused, and would not be with another declaration of verbosity, then
/// `text.verbosity` is what is named.
pub proof fn law_text_verbosity_is_named(
    request: ResponsesRequest,
    caps: CapabilitiesView,
    other: CapabilitiesView,
)
    requires
        responses_capabilities::refused(request, caps) is Some,
        responses_capabilities::refused(request, other) is None,
        other.parallel_tool_calls == caps.parallel_tool_calls,
        other.structured_outputs == caps.structured_outputs,
        other.reasoning_summary == caps.reasoning_summary,
        other.encrypted_reasoning == caps.encrypted_reasoning,
        other.agent_message_encrypted_content == caps.agent_message_encrypted_content,
        other.input_image == caps.input_image,
        other.input_file == caps.input_file,
        other.truncation_auto == caps.truncation_auto,
        other.service_tiers == caps.service_tiers,
        other.prompt_cache_key == caps.prompt_cache_key,
        other.prompt_cache_retention == caps.prompt_cache_retention,
    ensures
        responses_capabilities::refused(request, caps) == Some("text.verbosity"@),
{
    let items = responses::instruction_items(request.instructions);
    lemma_same_items(items, "instructions"@, other, caps);
    lemma_same_items(request.input@, "input"@, other, caps);
    lemma_same_includes(request.includes@, other, caps);
}

/// Where a request is refused, and would not be with another declaration of service tiers, then
/// `service_tier` is what is named.
pub proof fn law_service_tiers_is_named(
    request: ResponsesRequest,
    caps: CapabilitiesView,
    other: CapabilitiesView,
)
    requires
        responses_capabilities::refused(request, caps) is Some,
        responses_capabilities::refused(request, other) is None,
        other.parallel_tool_calls == caps.parallel_tool_calls,
        other.structured_outputs == caps.structured_outputs,
        other.reasoning_summary == caps.reasoning_summary,
        other.encrypted_reasoning == caps.encrypted_reasoning,
        other.agent_message_encrypted_content == caps.agent_message_encrypted_content,
        other.input_image == caps.input_image,
        other.input_file == caps.input_file,
        other.truncation_auto == caps.truncation_auto,
        other.text_verbosity == caps.text_verbosity,
        other.prompt_cache_key == caps.prompt_cache_key,
        other.prompt_cache_retention == caps.prompt_cache_retention,
    ensures
        responses_capabilities::refused(request, caps) == Some("service_tier"@),
{
    let items = responses::instruction_items(request.instructions);
    lemma_same_items(items, "instructions"@, other, caps);
    lemma_same_items(request.input@, "input"@, other, caps);
    lemma_same_includes(request.includes@, other, caps);
}

/// Where a request is refused, and would not be with another declaration of cache keys, then
/// `prompt_cache_key` is what is named.
pub proof fn law_prompt_cache_key_is_named(
    request: ResponsesRequest,
    caps: CapabilitiesView,
    other: CapabilitiesView,
)
    requires
        responses_capabilities::refused(request, caps) is Some,
        responses_capabilities::refused(request, other) is None,
        other.parallel_tool_calls == caps.parallel_tool_calls,
        other.structured_outputs == caps.structured_outputs,
        other.reasoning_summary == caps.reasoning_summary,
        other.encrypted_reasoning == caps.encrypted_reasoning,
        other.agent_message_encrypted_content == caps.agent_message_encrypted_content,
        other.input_image == caps.input_image,
        other.input_file == caps.input_file,
        other.truncation_auto == caps.truncation_auto,
        other.text_verbosity == caps.text_verbosity,
        other.service_tiers == caps.service_tiers,
        other.prompt_cache_retention == caps.prompt_cache_retention,
    ensures
        responses_capabilities::refused(request, caps) == Some("prompt_cache_key"@),
{
    let items = responses::instruction_items(request.instructions);
    lemma_same_items(items, "instructions"@, other, caps);
    lemma_same_items(request.input@, "input"@, other, caps);
    lemma_same_includes(request.includes@, other, caps);
}

/// Where a request is refused, and would not be with another declaration of cache retention, then
/// `prompt_cache_retention` is what is named.
pub proof fn law_prompt_cache_retention_is_named(
    request: ResponsesRequest,
    caps: CapabilitiesView,
    other: CapabilitiesView,
)
    requires
        responses_capabilities::refused(request, caps) is Some,
        responses_capabilities::refused(request, other) is None,
        other.parallel_tool_calls == caps.parallel_tool_calls,
        other.structured_outputs == caps.structured_outputs,
        other.reasoning_summary == caps.reasoning_summary,
        other.encrypted_reasoning == caps.encrypted_reasoning,
        other.agent_message_encrypted_content == caps.agent_message_encrypted_content,
        other.input_image == caps.input_image,
        other.input_file == caps.input_file,
        other.truncation_auto == caps.truncation_auto,
        other.text_verbosity == caps.text_verbosity,
        other.service_tiers == caps.service_tiers,
        other.prompt_cache_key == caps.prompt_cache_key,
    ensures
        responses_capabilities::refused(request, caps) == Some("prompt_cache_retention"@),
{
    let items = responses::instruction_items(request.instructions);
    lemma_same_items(items, "instructions"@, other, caps);
    lemma_same_items(request.input@, "input"@, other, caps);
    lemma_same_includes(request.includes@, other, caps);
}

/// A field that no backend supports is refused by its name, before anything else.
pub proof fn law_reserved_field_is_named(request: ResponsesRequest, caps: CapabilitiesView)
    ensures
        json::has_member(request.extra_body@, "background"@)
            ==> responses_capabilities::refused(request, caps) == Some("background"@),
        json::has_member(request.extra_body@, "conversation"@)
            && !json::has_member(request.extra_body@, "background"@)
            ==> responses_capabilities::refused(request, caps) == Some("conversation"@),
        json::has_member(request.extra_body@, "max_tool_calls"@)
            && !json::has_member(request.extra_body@, "background"@)
            && !json::has_member(request.extra_body@, "conversation"@)
            ==> responses_capabilities::refused(request, caps) == Some("max_tool_calls"@),
        json::has_member(request.extra_body@, "prompt"@)
            && !json::has_member(request.extra_body@, "background"@)
            && !json::has_member(request.extra_body@, "conversation"@)
            && !json::has_member(request.extra_body@, "max_tool_calls"@)
            ==> responses_capabilities::refused(request, caps) == Some("prompt"@),
        json::has_member(request.extra_body@, "safety_identifier"@)
            && !json::has_member(request.extra_body@, "background"@)
            && !json::has_member(request.extra_body@, "conversation"@)
            && !json::has_member(request.extra_body@, "max_tool_calls"@)
            && !json::has_member(request.extra_body@, "prompt"@)
            ==> responses_capabilities::refused(request, caps) == Some("safety_identifier"@),
        json::has_member(request.extra_body@, "top_logprobs"@)
            && !json::has_member(request.extra_body@, "background"@)
            && !json::has_member(request.extra_body@, "conversation"@)
            && !json::has_member(request.extra_body@, "max_tool_calls"@)
            && !json::has_member(request.extra_body@, "prompt"@)
            && !json::has_member(request.extra_body@, "safety_identifier"@)
            ==> responses_capabilities::refused(request, caps) == Some("top_logprobs"@),
{
    reveal_with_fuel(text::first_some, 7);
}

// --- Fallbacks ----------------------------------------------------------------------------------

/// A request has an input image just where a message, or the output of a function or of a
/// custom tool, has one among its parts.
pub proof fn law_images_are_found(request: ResponsesRequest)
    ensures
        responses_capabilities::image_path(request) is Some <==> ((exists|i: int, k: int|
            #![trigger image_at(request.input@, i, k)]
            image_at(request.input@, i, k)) || (exists|i: int, k: int|
            #![trigger image_at(responses::instruction_items(request.instructions), i, k)]
            image_at(responses::instruction_items(request.instructions), i, k))),
{
    lemma_images(request.input@, "input"@);
    lemma_images(responses::instruction_items(request.instructions), "instructions"@);
}

/// Whether part `k` of item `i` is an input image.
pub open spec fn image_at(items: Seq<ResponseItem>, i: int, k: int) -> bool {
    0 <= i < items.len() && match items[i] {
        ResponseItem::Message { content, .. } => 0 <= k < content@.len()
            && content@[k] is InputImage,
        ResponseItem::FunctionCallOutput { output, .. } => match output {
            FunctionCallOutputContent::Content(content) => 0 <= k < content@.len()
                && content@[k] is InputImage,
            FunctionCallOutputContent::Text(_) => false,
        },
        ResponseItem::CustomToolCallOutput { output, .. } => match output {
            FunctionCallOutputContent::Content(content) => 0 <= k < content@.len()
                && content@[k] is InputImage,
            FunctionCallOutputContent::Text(_) => false,
        },
        _ => false,
    }
}

proof fn lemma_images(items: Seq<ResponseItem>, base: Seq<char>)
    ensures
        responses_capabilities::image_in(items, base) is Some <==> exists|i: int, k: int| #[trigger]
            image_at(items, i, k),
{
    let f = responses_capabilities::item_image_check(base);
    let g = responses_capabilities::image_part_check();
    lemma_none(items, f, 0);
    if responses_capabilities::image_in(items, base) is Some {
        let i = lemma_first(items, f, 0);
        let content = (responses_capabilities::item_content(items[i])->0).0;
        let k = lemma_first(content, g, 0);
        assert(image_at(items, i, k));
    } else {
        assert forall|i: int, k: int| !(#[trigger] image_at(items, i, k)) by {
            if image_at(items, i, k) {
                assert(f(i, items[i]) is None);
                let content = (responses_capabilities::item_content(items[i])->0).0;
                lemma_none(content, g, 0);
                assert(g(k, content[k]) is Some);
            }
        }
    }
}

/// A backend may take a request over just where it supports it, and, where there are images,
/// handles them as the primary does.
pub proof fn law_fallback_treats_images_alike(
    request: ResponsesRequest,
    a: CapabilityCandidate,
    primary_image: InputImageCapability,
)
    ensures
        responses_capabilities::can_take(request, a, primary_image)
            ==> responses_capabilities::refused(request, a.capabilities@) is None,
        responses_capabilities::can_take(request, a, primary_image)
            && responses_capabilities::image_path(request) is Some ==> a.capabilities.input_image
            == primary_image,
        responses_capabilities::refused(request, a.capabilities@) is None && (
        responses_capabilities::image_path(request) is None || a.capabilities.input_image
            == primary_image) ==> responses_capabilities::can_take(request, a, primary_image),
{
}

/// Without candidates nothing is ruled out; with some, the first one is the primary.
pub proof fn law_first_candidate_is_primary(request: ResponsesRequest, plan: CapabilityPlan)
    ensures
        responses_capabilities::plan_targets(request, plan) is None
            <==> plan.candidates@.len() == 0,
        plan.candidates@.len() > 0 ==> responses_capabilities::primary_capabilities(plan)
            == plan.candidates@[0].capabilities@,
{
}

// --- What is prepared ---------------------------------------------------------------------------

/// A request that is admitted keeps what it asked for: only what it left open is filled in,
/// and beside the marks of the gateway no member changes.
pub proof fn law_prepared_keeps_the_request(
    before: ResponsesRequest,
    after: ResponsesRequest,
    caps: CapabilitiesView,
    key: Seq<char>,
)
    requires
        responses_capabilities::prepared(before, after, caps),
    ensures
        after.model == before.model,
        after.input == before.input,
        after.instructions == before.instructions,
        after.tools == before.tools,
        after.prompt_cache_key == before.prompt_cache_key,
        before.parallel_tool_calls is Some ==> after.parallel_tool_calls
            == before.parallel_tool_calls,
        before.parallel_tool_calls is None ==> after.parallel_tool_calls == Some(
            caps.parallel_tool_calls,
        ),
        key != responses_capabilities::AGENT_MESSAGE_PLAINTEXT_COMPAT_EXTENSION@ && key
            != responses_capabilities::PROMPT_CACHE_AFFINITY_EXTENSION@ && key
            != responses_capabilities::FORWARD_PROMPT_CACHE_KEY_EXTENSION@ ==> json::member(
            after.extra_body@,
            key,
        ) == json::member(before.extra_body@, key),
        before.prompt_cache_key is None && key
            != responses_capabilities::AGENT_MESSAGE_PLAINTEXT_COMPAT_EXTENSION@ ==> json::member(
            after.extra_body@,
            key,
        ) == json::member(before.extra_body@, key),
{
    broadcast use json::lemma_member_of_set;

    if key != responses_capabilities::AGENT_MESSAGE_PLAINTEXT_COMPAT_EXTENSION@ {
        json::law_removal_keeps_others(
            before.extra_body@,
            responses_capabilities::AGENT_MESSAGE_PLAINTEXT_COMPAT_EXTENSION@,
            key,
        );
    }
}

/// What an admitted request is marked with: that encrypted content between agents is read as
/// plain text, where it is; a digest of its cache key, where it has one; and that the key goes
/// upstream, where it does.
pub proof fn law_prepared_marks(
    before: ResponsesRequest,
    after: ResponsesRequest,
    caps: CapabilitiesView,
)
    requires
        responses_capabilities::prepared(before, after, caps),
        json::keys_ascend(before.extra_body@),
    ensures
        json::member(after.extra_body@, "llmconduit_agent_message_plaintext_compat"@) == (
        if caps.agent_message_encrypted_content
            == AgentMessageEncryptedContentCapability::PlaintextCompat {
            Some(JsonView::Bool(true))
        } else {
            None
        }),
        before.prompt_cache_key is Some ==> json::member(
            after.extra_body@,
            "llmconduit_prompt_cache_affinity_sha256"@,
        ) == Some(
            JsonView::Text(
                digest::hex_text(
                    digest::sha256_digest(
                        vstd::utf8::encode_utf8((before.prompt_cache_key->0)@),
                    ),
                ),
            ),
        ),
        before.prompt_cache_key is Some && caps.prompt_cache_key
            == PromptCacheKeyCapability::Upstream ==> json::member(
            after.extra_body@,
            "llmconduit_forward_prompt_cache_key"@,
        ) == Some(JsonView::Bool(true)),
        before.prompt_cache_key is None || caps.prompt_cache_key
            != PromptCacheKeyCapability::Upstream ==> json::member(
            after.extra_body@,
            "llmconduit_forward_prompt_cache_key"@,
        ) == json::member(before.extra_body@, "llmconduit_forward_prompt_cache_key"@),
{
    broadcast use json::lemma_member_of_set;

    reveal_strlit("llmconduit_agent_message_plaintext_compat");
    reveal_strlit("llmconduit_forward_prompt_cache_key");
    reveal_strlit("llmconduit_prompt_cache_affinity_sha256");
    assert("llmconduit_agent_message_plaintext_compat"@.len() == 41);
    assert("llmconduit_forward_prompt_cache_key"@.len() == 35);
    assert("llmconduit_prompt_cache_affinity_sha256"@.len() == 39);
    json::law_removed_member_is_gone(
        before.extra_body@,
        "llmconduit_agent_message_plaintext_compat"@,
    );
    json::law_removal_keeps_others(
        before.extra_body@,
        "llmconduit_agent_message_plaintext_compat"@,
        "llmconduit_forward_prompt_cache_key"@,
    );
}

// --- What is named ------------------------------------------------------------------------------

/// The first tool that generates images is named by its place.
pub proof fn law_image_tool_is_named(tools: Seq<ToolSpec>, at: int)
    requires
        0 <= at < tools.len(),
        tools[at] is ImageGeneration,
        forall|k: int| 0 <= k < at ==> !((#[trigger] tools[k]) is ImageGeneration),
    ensures
        responses_capabilities::image_tool_refused(tools) == Some(
            "tools"@ + "["@ + text::decimal(at as nat) + "]"@,
        ),
{
    let f = responses_capabilities::image_tool_check();
    text_laws::law_first_that_gives_is_found(tools, f, 0, at);
}

/// The first search with a control is named by its place and by the first of its controls.
pub proof fn law_web_search_control_is_named(tools: Seq<ToolSpec>, at: int)
    requires
        0 <= at < tools.len(),
        forall|k: int|
            0 <= k < at ==> (#[trigger] tools[k]) is WebSearch
                ==> tools[k]->WebSearch_external_web_access is None
                && tools[k]->WebSearch_filters is None && tools[k]->WebSearch_user_location is None
                && tools[k]->WebSearch_search_context_size is None
                && tools[k]->WebSearch_search_content_types is None,
        tools[at] is WebSearch,
    ensures
        ({
            let named = responses_capabilities::web_search_refused(tools);
            let place = "tools"@ + "["@ + text::decimal(at as nat) + "]"@;
            let no_access = tools[at]->WebSearch_external_web_access is None;
            let no_filters = no_access && tools[at]->WebSearch_filters is None;
            let no_location = no_filters && tools[at]->WebSearch_user_location is None;
            let no_size = no_location && tools[at]->WebSearch_search_context_size is None;
            &&& !no_access ==> named == Some(place + ".external_web_access"@)
            &&& no_access && !no_filters ==> named == Some(place + ".filters"@)
            &&& no_filters && !no_location ==> named == Some(place + ".user_location"@)
            &&& no_location && !no_size ==> named == Some(place + ".search_context_size"@)
            &&& no_size && tools[at]->WebSearch_search_content_types is Some ==> named == Some(
                place + ".search_content_types"@,
            )
        }),
{
    let f = responses_capabilities::web_search_check();
    assert forall|j: int| 0 <= j < at implies f(j, #[trigger] tools[j]) is None by {}
    text_laws::law_first_that_gives_is_found(tools, f, 0, at);
}

/// What is asked for beside the answer is refused at the first place that is not supported:
/// encrypted reasoning where it is not passed through, and whatever is not known.
pub proof fn law_unsupported_extra_is_named(
    includes: Seq<String>,
    caps: CapabilitiesView,
    at: int,
)
    requires
        0 <= at < includes.len(),
        forall|k: int|
            0 <= k < at ==> (#[trigger] includes[k])@ == "web_search_call.action.sources"@ || (
            includes[k]@ == "reasoning.encrypted_content"@ && caps.encrypted_reasoning
                is Passthrough),
        includes[at]@ != "web_search_call.action.sources"@,
        includes[at]@ == "reasoning.encrypted_content"@ ==> !(caps.encrypted_reasoning
            is Passthrough),
    ensures
        responses_capabilities::include_refused(includes, caps) == Some(
            "include"@ + "["@ + text::decimal(at as nat) + "]"@,
        ),
{
    reveal_strlit("web_search_call.action.sources");
    reveal_strlit("reasoning.encrypted_content");
    assert("web_search_call.action.sources"@.len() == 30);
    assert("reasoning.encrypted_content"@.len() == 27);
    let f = responses_capabilities::include_check(caps);
    assert forall|j: int| 0 <= j < at implies f(j, #[trigger] includes[j]) is None by {}
    text_laws::law_first_that_gives_is_found(includes, f, 0, at);
}

/// The first reasoning that is encrypted is named by its place among the items.
pub proof fn law_encrypted_reasoning_is_named(items: Seq<ResponseItem>, base: Seq<char>, at: int)
    requires
        0 <= at < items.len(),
        items[at] is Reasoning,
        items[at]->Reasoning_encrypted_content is Some,
        forall|k: int|
            0 <= k < at && (#[trigger] items[k]) is Reasoning
                ==> items[k]->Reasoning_encrypted_content is None,
    ensures
        responses_capabilities::encrypted_reasoning_in(items, base) == Some(
            base + "["@ + text::decimal(at as nat) + "]"@ + ".encrypted_content"@,
        ),
{
    let f = responses_capabilities::encrypted_reasoning_check(base);
    assert forall|j: int| 0 <= j < at implies f(j, #[trigger] items[j]) is None by {}
    text_laws::law_first_that_gives_is_found(items, f, 0, at);
}

/// Instructions are looked at before the input, for images as for encrypted reasoning.
pub proof fn law_instructions_come_first(request: ResponsesRequest)
    ensures
        ({
            let items = responses::instruction_items(request.instructions);
            let reasoning = responses_capabilities::encrypted_reasoning_in(
                items,
                "instructions"@,
            );
            let image = responses_capabilities::image_in(items, "instructions"@);
            &&& reasoning is Some ==> responses_capabilities::encrypted_reasoning_path(request)
                == reasoning
            &&& reasoning is None ==> responses_capabilities::encrypted_reasoning_path(request)
                == responses_capabilities::encrypted_reasoning_in(request.input@, "input"@)
            &&& image is Some ==> responses_capabilities::image_path(request) == image
            &&& image is None ==> responses_capabilities::image_path(request)
                == responses_capabilities::image_in(request.input@, "input"@)
        }),
{
}

/// The first image of a message is named by the message and by its place in it.
pub proof fn law_image_is_named(
    items: Seq<ResponseItem>,
    base: Seq<char>,
    content: Vec<ContentItem>,
    at: int,
    k: int,
)
    requires
        0 <= at < items.len(),
        items[at] is Message,
        items[at]->Message_content == content,
        0 <= k < content@.len(),
        content@[k] is InputImage,
        forall|j: int| 0 <= j < k ==> !((#[trigger] content@[j]) is InputImage),
        forall|i: int, j: int| 0 <= i < at ==> !(#[trigger] image_at(items, i, j)),
    ensures
        responses_capabilities::image_in(items, base) == Some(
            base + "["@ + text::decimal(at as nat) + "]"@ + ".content"@ + "["@ + text::decimal(
                k as nat,
            ) + "]"@,
        ),
{
    let f = responses_capabilities::item_image_check(base);
    let g = responses_capabilities::image_part_check();
    text_laws::law_first_that_gives_is_found(content@, g, 0, k);
    assert forall|j: int| 0 <= j < at implies f(j, #[trigger] items[j]) is None by {
        if responses_capabilities::item_content(items[j]) is Some {
            let parts = (responses_capabilities::item_content(items[j])->0).0;
            if text::first_some(parts, g, 0) is Some {
                let p = lemma_first(parts, g, 0);
                assert(image_at(items, j, p));
            }
        }
    }
    text_laws::law_first_that_gives_is_found(items, f, 0, at);
}

/// Of what is refused at once the first is named: parallel calls of tools, the format of the
/// text, the summary of reasoning, what is asked for beside the answer, encrypted reasoning, the
/// instructions, the input, the truncation, the verbosity, the tier, the cache, and the tools.
pub proof fn law_refusals_are_in_order(request: ResponsesRequest, caps: CapabilitiesView)
    requires
        responses_capabilities::reserved_in(request.extra_body@) is None,
    ensures
        ({
            let named = responses_capabilities::refused(request, caps);
            let calls = request.parallel_tool_calls == Some(true) && !caps.parallel_tool_calls;
            let format = responses_capabilities::format_refused(request, caps);
            let summary = responses_capabilities::asks_for_summary(request)
                && !(caps.reasoning_summary is Upstream);
            let extra = responses_capabilities::include_refused(request.includes@, caps);
            &&& calls ==> named == Some("parallel_tool_calls"@)
            &&& !calls && format is Some ==> named == format
            &&& !calls && format is None && summary ==> named == Some("reasoning.summary"@)
            &&& !calls && format is None && !summary && extra is Some ==> named == extra
        }),
{
}

/// A summary is asked for unless it is none, and so is truncation unless it is disabled.
pub proof fn law_what_is_asked_for(request: ResponsesRequest)
    ensures
        request.reasoning is None ==> !responses_capabilities::asks_for_summary(request),
        request.reasoning matches Some(r) ==> (responses_capabilities::asks_for_summary(request)
            <==> (r.summary matches Some(s) && s@ != "none"@)),
        responses_capabilities::asks_for_truncation(request) <==> (
        request.truncation matches Some(mode) && mode@ != JsonView::Text("disabled"@)),
{
}

} // verus!
