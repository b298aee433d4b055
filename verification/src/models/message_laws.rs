//! What the texts on the Messages surface tell: every field under its own name.
use vstd::prelude::*;

use crate::json;
use crate::json_string;
use crate::json_text;
use crate::models::anthropic;
use crate::models::anthropic::AnthropicContentBlockStart;
use crate::models::anthropic::AnthropicDelta;
use crate::models::anthropic::AnthropicErrorBody;
use crate::models::anthropic::AnthropicMessageDeltaBody;
use crate::models::anthropic::AnthropicMessageResponse;
use crate::models::anthropic::AnthropicMessageStart;
use crate::models::anthropic::AnthropicMessageUsage;
use crate::models::anthropic::AnthropicResponseContentBlock;
use crate::models::anthropic::AnthropicStreamEvent;
use crate::models::anthropic::AnthropicUsage;
use crate::models::message_text;
use crate::text;
use crate::written_text;

verus! {

/// The tokens that are known are told, each under its own name.
pub proof fn law_event_usage_tells(x: AnthropicUsage)
    requires
        anthropic::usage_text(x) is Some,
    ensures
        x.input_tokens is Some
            ==> written_text::tells(
                anthropic::usage_text(x),
                "input_tokens"@,
                text::decimal((x.input_tokens->0) as nat),
            ),
        x.output_tokens is Some
            ==> written_text::tells(
                anthropic::usage_text(x),
                "output_tokens"@,
                text::decimal((x.output_tokens->0) as nat),
            ),
{
    broadcast use written_text::lemma_put;

    let m = Some(Seq::<Seq<char>>::empty());
    let m = anthropic::put_opt_number(m, "input_tokens"@, x.input_tokens);
    let m = anthropic::put_opt_number(m, "output_tokens"@, x.output_tokens);
    if x.input_tokens is Some {
        written_text::lemma_object_tells(
            m,
            "input_tokens"@,
            text::decimal((x.input_tokens->0) as nat),
        );
    }
    if x.output_tokens is Some {
        written_text::lemma_object_tells(
            m,
            "output_tokens"@,
            text::decimal((x.output_tokens->0) as nat),
        );
    }
}

/// A message at its start tells each of its fields under its own name.
pub proof fn law_message_start_text_tells(x: AnthropicMessageStart)
    requires
        anthropic::message_start_text(x) is Some,
    ensures
        written_text::tells(anthropic::message_start_text(x), "id"@, json_string::quoted(x.id@)),
        written_text::tells(
            anthropic::message_start_text(x),
            "type"@,
            json_string::quoted(x.kind@),
        ),
        written_text::tells(
            anthropic::message_start_text(x),
            "role"@,
            json_string::quoted(x.role@),
        ),
        written_text::tells(
            anthropic::message_start_text(x),
            "content"@,
            json_text::array_text(json_text::value_texts(x.content@))->0,
        ),
        written_text::tells(
            anthropic::message_start_text(x),
            "model"@,
            json_string::quoted(x.model@),
        ),
        written_text::tells(
            anthropic::message_start_text(x),
            "stop_reason"@,
            json_text::value_or_null(x.stop_reason)->0,
        ),
        written_text::tells(
            anthropic::message_start_text(x),
            "stop_sequence"@,
            json_text::value_or_null(x.stop_sequence)->0,
        ),
        written_text::tells(
            anthropic::message_start_text(x),
            "usage"@,
            anthropic::usage_text(x.usage)->0,
        ),
{
    broadcast use written_text::lemma_put;

    let m = Some(Seq::<Seq<char>>::empty());
    let m = json_text::put_text(m, "id"@, x.id@);
    let m = json_text::put_text(m, "type"@, x.kind@);
    let m = json_text::put_text(m, "role"@, x.role@);
    let m = json_text::put(
        m,
        "content"@,
        json_text::array_text(json_text::value_texts(x.content@)),
    );
    let m = json_text::put_text(m, "model"@, x.model@);
    let m = json_text::put(m, "stop_reason"@, json_text::value_or_null(x.stop_reason));
    let m = json_text::put(m, "stop_sequence"@, json_text::value_or_null(x.stop_sequence));
    let m = json_text::put(m, "usage"@, anthropic::usage_text(x.usage));
    written_text::lemma_object_tells(m, "id"@, json_string::quoted(x.id@));
    written_text::lemma_object_tells(m, "type"@, json_string::quoted(x.kind@));
    written_text::lemma_object_tells(m, "role"@, json_string::quoted(x.role@));
    written_text::lemma_object_tells(
        m,
        "content"@,
        json_text::array_text(json_text::value_texts(x.content@))->0,
    );
    written_text::lemma_object_tells(m, "model"@, json_string::quoted(x.model@));
    written_text::lemma_object_tells(m, "stop_reason"@, json_text::value_or_null(x.stop_reason)->0);
    written_text::lemma_object_tells(
        m,
        "stop_sequence"@,
        json_text::value_or_null(x.stop_sequence)->0,
    );
    written_text::lemma_object_tells(m, "usage"@, anthropic::usage_text(x.usage)->0);
}

/// A block of the type text tells at its start each of its fields under its own name.
pub proof fn law_block_start_text_text_tells(item: AnthropicContentBlockStart)
    requires
        item is Text,
        anthropic::block_start_text(item) is Some,
    ensures
        written_text::tells(
            anthropic::block_start_text(item),
            "type"@,
            json_string::quoted("text"@),
        ),
        written_text::tells(
            anthropic::block_start_text(item),
            "text"@,
            json_string::quoted(item->Text_text@),
        ),
{
    broadcast use written_text::lemma_put;

    if let AnthropicContentBlockStart::Text { text } = item {
    let m = json_text::tagged("text"@);
    let m = json_text::put_text(m, "text"@, text@);
    written_text::lemma_object_tells(m, "type"@, json_string::quoted("text"@));
    written_text::lemma_object_tells(m, "text"@, json_string::quoted(text@));
    }
}

/// A block of the type tool use tells at its start each of its fields under its own name.
pub proof fn law_block_start_text_tool_use_tells(item: AnthropicContentBlockStart)
    requires
        item is ToolUse,
        anthropic::block_start_text(item) is Some,
    ensures
        written_text::tells(
            anthropic::block_start_text(item),
            "type"@,
            json_string::quoted("tool_use"@),
        ),
        written_text::tells(
            anthropic::block_start_text(item),
            "id"@,
            json_string::quoted(item->ToolUse_id@),
        ),
        written_text::tells(
            anthropic::block_start_text(item),
            "name"@,
            json_string::quoted(item->ToolUse_name@),
        ),
        written_text::tells(
            anthropic::block_start_text(item),
            "input"@,
            json::rendered_json(item->ToolUse_input@)->0,
        ),
{
    broadcast use written_text::lemma_put;

    if let AnthropicContentBlockStart::ToolUse { id, name, input } = item {
    let m = json_text::tagged("tool_use"@);
    let m = json_text::put_text(m, "id"@, id@);
    let m = json_text::put_text(m, "name"@, name@);
    let m = json_text::put(m, "input"@, json::rendered_json(input@));
    written_text::lemma_object_tells(m, "type"@, json_string::quoted("tool_use"@));
    written_text::lemma_object_tells(m, "id"@, json_string::quoted(id@));
    written_text::lemma_object_tells(m, "name"@, json_string::quoted(name@));
    written_text::lemma_object_tells(m, "input"@, json::rendered_json(input@)->0);
    }
}

/// A block of the type thinking tells at its start each of its fields under its own name.
pub proof fn law_block_start_text_thinking_tells(item: AnthropicContentBlockStart)
    requires
        item is Thinking,
        anthropic::block_start_text(item) is Some,
    ensures
        written_text::tells(
            anthropic::block_start_text(item),
            "type"@,
            json_string::quoted("thinking"@),
        ),
        written_text::tells(
            anthropic::block_start_text(item),
            "thinking"@,
            json_string::quoted(item->Thinking_thinking@),
        ),
{
    broadcast use written_text::lemma_put;

    if let AnthropicContentBlockStart::Thinking { thinking } = item {
    let m = json_text::tagged("thinking"@);
    let m = json_text::put_text(m, "thinking"@, thinking@);
    written_text::lemma_object_tells(m, "type"@, json_string::quoted("thinking"@));
    written_text::lemma_object_tells(m, "thinking"@, json_string::quoted(thinking@));
    }
}

/// A piece of the type text delta tells its type and what it adds.
pub proof fn law_delta_text_text_delta_tells(item: AnthropicDelta)
    requires
        item is TextDelta,
        anthropic::delta_text(item) is Some,
    ensures
        written_text::tells(
            anthropic::delta_text(item),
            "type"@,
            json_string::quoted("text_delta"@),
        ),
        written_text::tells(
            anthropic::delta_text(item),
            "text"@,
            json_string::quoted(item->TextDelta_text@),
        ),
{
    broadcast use written_text::lemma_put;

    if let AnthropicDelta::TextDelta { text } = item {
    let m = json_text::tagged("text_delta"@);
    let m = json_text::put_text(m, "text"@, text@);
    written_text::lemma_object_tells(m, "type"@, json_string::quoted("text_delta"@));
    written_text::lemma_object_tells(m, "text"@, json_string::quoted(text@));
    }
}

/// A piece of the type input json delta tells its type and what it adds.
pub proof fn law_delta_text_input_json_delta_tells(item: AnthropicDelta)
    requires
        item is InputJsonDelta,
        anthropic::delta_text(item) is Some,
    ensures
        written_text::tells(
            anthropic::delta_text(item),
            "type"@,
            json_string::quoted("input_json_delta"@),
        ),
        written_text::tells(
            anthropic::delta_text(item),
            "partial_json"@,
            json_string::quoted(item->InputJsonDelta_partial_json@),
        ),
{
    broadcast use written_text::lemma_put;

    if let AnthropicDelta::InputJsonDelta { partial_json } = item {
    let m = json_text::tagged("input_json_delta"@);
    let m = json_text::put_text(m, "partial_json"@, partial_json@);
    written_text::lemma_object_tells(m, "type"@, json_string::quoted("input_json_delta"@));
    written_text::lemma_object_tells(m, "partial_json"@, json_string::quoted(partial_json@));
    }
}

/// A piece of the type thinking delta tells its type and what it adds.
pub proof fn law_delta_text_thinking_delta_tells(item: AnthropicDelta)
    requires
        item is ThinkingDelta,
        anthropic::delta_text(item) is Some,
    ensures
        written_text::tells(
            anthropic::delta_text(item),
            "type"@,
            json_string::quoted("thinking_delta"@),
        ),
        written_text::tells(
            anthropic::delta_text(item),
            "thinking"@,
            json_string::quoted(item->ThinkingDelta_thinking@),
        ),
{
    broadcast use written_text::lemma_put;

    if let AnthropicDelta::ThinkingDelta { thinking } = item {
    let m = json_text::tagged("thinking_delta"@);
    let m = json_text::put_text(m, "thinking"@, thinking@);
    written_text::lemma_object_tells(m, "type"@, json_string::quoted("thinking_delta"@));
    written_text::lemma_object_tells(m, "thinking"@, json_string::quoted(thinking@));
    }
}

/// A piece of the type signature delta tells its type and what it adds.
pub proof fn law_delta_text_signature_delta_tells(item: AnthropicDelta)
    requires
        item is SignatureDelta,
        anthropic::delta_text(item) is Some,
    ensures
        written_text::tells(
            anthropic::delta_text(item),
            "type"@,
            json_string::quoted("signature_delta"@),
        ),
        written_text::tells(
            anthropic::delta_text(item),
            "signature"@,
            json_string::quoted(item->SignatureDelta_signature@),
        ),
{
    broadcast use written_text::lemma_put;

    if let AnthropicDelta::SignatureDelta { signature } = item {
    let m = json_text::tagged("signature_delta"@);
    let m = json_text::put_text(m, "signature"@, signature@);
    written_text::lemma_object_tells(m, "type"@, json_string::quoted("signature_delta"@));
    written_text::lemma_object_tells(m, "signature"@, json_string::quoted(signature@));
    }
}

/// How a message ended is told under its own names.
pub proof fn law_message_delta_text_tells(x: AnthropicMessageDeltaBody)
    requires
        anthropic::message_delta_text(x) is Some,
    ensures
        written_text::tells(
            anthropic::message_delta_text(x),
            "stop_reason"@,
            json_string::quoted(x.stop_reason@),
        ),
        written_text::tells(
            anthropic::message_delta_text(x),
            "stop_sequence"@,
            json_text::value_or_null(x.stop_sequence)->0,
        ),
{
    broadcast use written_text::lemma_put;

    let m = Some(Seq::<Seq<char>>::empty());
    let m = json_text::put_text(m, "stop_reason"@, x.stop_reason@);
    let m = json_text::put(m, "stop_sequence"@, json_text::value_or_null(x.stop_sequence));
    written_text::lemma_object_tells(m, "stop_reason"@, json_string::quoted(x.stop_reason@));
    written_text::lemma_object_tells(
        m,
        "stop_sequence"@,
        json_text::value_or_null(x.stop_sequence)->0,
    );
}

/// An error tells its type and its message.
pub proof fn law_event_error_tells(x: AnthropicErrorBody)
    requires
        anthropic::error_text(x) is Some,
    ensures
        written_text::tells(anthropic::error_text(x), "type"@, json_string::quoted(x.kind@)),
        written_text::tells(anthropic::error_text(x), "message"@, json_string::quoted(x.message@)),
{
    broadcast use written_text::lemma_put;

    let m = Some(Seq::<Seq<char>>::empty());
    let m = json_text::put_text(m, "type"@, x.kind@);
    let m = json_text::put_text(m, "message"@, x.message@);
    written_text::lemma_object_tells(m, "type"@, json_string::quoted(x.kind@));
    written_text::lemma_object_tells(m, "message"@, json_string::quoted(x.message@));
}

/// An event of the type message start tells its type, and each of its fields under its own name.
pub proof fn law_event_text_message_start_tells(item: AnthropicStreamEvent)
    requires
        item is MessageStart,
        anthropic::event_text(item) is Some,
    ensures
        written_text::tells(
            anthropic::event_text(item),
            "type"@,
            json_string::quoted("message_start"@),
        ),
        written_text::tells(
            anthropic::event_text(item),
            "message"@,
            anthropic::message_start_text(item->MessageStart_message)->0,
        ),
{
    broadcast use written_text::lemma_put;

    if let AnthropicStreamEvent::MessageStart { message } = item {
    let m = json_text::tagged("message_start"@);
    let m = json_text::put(m, "message"@, anthropic::message_start_text(message));
    written_text::lemma_object_tells(m, "type"@, json_string::quoted("message_start"@));
    written_text::lemma_object_tells(m, "message"@, anthropic::message_start_text(message)->0);
    }
}

/// An event of the type content block start tells its type, and each of its fields under its
/// own name.
pub proof fn law_event_text_content_block_start_tells(item: AnthropicStreamEvent)
    requires
        item is ContentBlockStart,
        anthropic::event_text(item) is Some,
    ensures
        written_text::tells(
            anthropic::event_text(item),
            "type"@,
            json_string::quoted("content_block_start"@),
        ),
        written_text::tells(
            anthropic::event_text(item),
            "index"@,
            text::decimal(item->ContentBlockStart_index as nat),
        ),
        written_text::tells(
            anthropic::event_text(item),
            "content_block"@,
            anthropic::block_start_text(item->ContentBlockStart_content_block)->0,
        ),
{
    broadcast use written_text::lemma_put;

    if let AnthropicStreamEvent::ContentBlockStart { index, content_block } = item {
    let m = json_text::tagged("content_block_start"@);
    let m = json_text::put(m, "index"@, Some(text::decimal(index as nat)));
    let m = json_text::put(m, "content_block"@, anthropic::block_start_text(content_block));
    written_text::lemma_object_tells(m, "type"@, json_string::quoted("content_block_start"@));
    written_text::lemma_object_tells(m, "index"@, text::decimal(index as nat));
    written_text::lemma_object_tells(
        m,
        "content_block"@,
        anthropic::block_start_text(content_block)->0,
    );
    }
}

/// An event of the type content block delta tells its type, and each of its fields under its
/// own name.
pub proof fn law_event_text_content_block_delta_tells(item: AnthropicStreamEvent)
    requires
        item is ContentBlockDelta,
        anthropic::event_text(item) is Some,
    ensures
        written_text::tells(
            anthropic::event_text(item),
            "type"@,
            json_string::quoted("content_block_delta"@),
        ),
        written_text::tells(
            anthropic::event_text(item),
            "index"@,
            text::decimal(item->ContentBlockDelta_index as nat),
        ),
        written_text::tells(
            anthropic::event_text(item),
            "delta"@,
            anthropic::delta_text(item->ContentBlockDelta_delta)->0,
        ),
{
    broadcast use written_text::lemma_put;

    if let AnthropicStreamEvent::ContentBlockDelta { index, delta } = item {
    let m = json_text::tagged("content_block_delta"@);
    let m = json_text::put(m, "index"@, Some(text::decimal(index as nat)));
    let m = json_text::put(m, "delta"@, anthropic::delta_text(delta));
    written_text::lemma_object_tells(m, "type"@, json_string::quoted("content_block_delta"@));
    written_text::lemma_object_tells(m, "index"@, text::decimal(index as nat));
    written_text::lemma_object_tells(m, "delta"@, anthropic::delta_text(delta)->0);
    }
}

/// An event of the type content block stop tells its type, and each of its fields under its own
/// name.
pub proof fn law_event_text_content_block_stop_tells(item: AnthropicStreamEvent)
    requires
        item is ContentBlockStop,
        anthropic::event_text(item) is Some,
    ensures
        written_text::tells(
            anthropic::event_text(item),
            "type"@,
            json_string::quoted("content_block_stop"@),
        ),
        written_text::tells(
            anthropic::event_text(item),
            "index"@,
            text::decimal(item->ContentBlockStop_index as nat),
        ),
{
    broadcast use written_text::lemma_put;

    if let AnthropicStreamEvent::ContentBlockStop { index } = item {
    let m = json_text::tagged("content_block_stop"@);
    let m = json_text::put(m, "index"@, Some(text::decimal(index as nat)));
    written_text::lemma_object_tells(m, "type"@, json_string::quoted("content_block_stop"@));
    written_text::lemma_object_tells(m, "index"@, text::decimal(index as nat));
    }
}

/// An event of the type message delta tells its type, and each of its fields under its own name.
pub proof fn law_event_text_message_delta_tells(item: AnthropicStreamEvent)
    requires
        item is MessageDelta,
        anthropic::event_text(item) is Some,
    ensures
        written_text::tells(
            anthropic::event_text(item),
            "type"@,
            json_string::quoted("message_delta"@),
        ),
        written_text::tells(
            anthropic::event_text(item),
            "delta"@,
            anthropic::message_delta_text(item->MessageDelta_delta)->0,
        ),
        written_text::tells(
            anthropic::event_text(item),
            "usage"@,
            anthropic::usage_text(item->MessageDelta_usage)->0,
        ),
{
    broadcast use written_text::lemma_put;

    if let AnthropicStreamEvent::MessageDelta { delta, usage } = item {
    let m = json_text::tagged("message_delta"@);
    let m = json_text::put(m, "delta"@, anthropic::message_delta_text(delta));
    let m = json_text::put(m, "usage"@, anthropic::usage_text(usage));
    written_text::lemma_object_tells(m, "type"@, json_string::quoted("message_delta"@));
    written_text::lemma_object_tells(m, "delta"@, anthropic::message_delta_text(delta)->0);
    written_text::lemma_object_tells(m, "usage"@, anthropic::usage_text(usage)->0);
    }
}

/// An event of the type message stop tells its type, and each of its fields under its own name.
pub proof fn law_event_text_message_stop_tells(item: AnthropicStreamEvent)
    requires
        item is MessageStop,
        anthropic::event_text(item) is Some,
    ensures
        written_text::tells(
            anthropic::event_text(item),
            "type"@,
            json_string::quoted("message_stop"@),
        ),
{
    broadcast use written_text::lemma_put;

    if let AnthropicStreamEvent::MessageStop = item {
    let m = json_text::tagged("message_stop"@);
    written_text::lemma_object_tells(m, "type"@, json_string::quoted("message_stop"@));
    }
}

/// An event of the type ping tells its type, and each of its fields under its own name.
pub proof fn law_event_text_ping_tells(item: AnthropicStreamEvent)
    requires
        item is Ping,
        anthropic::event_text(item) is Some,
    ensures
        written_text::tells(anthropic::event_text(item), "type"@, json_string::quoted("ping"@)),
{
    broadcast use written_text::lemma_put;

    if let AnthropicStreamEvent::Ping = item {
    let m = json_text::tagged("ping"@);
    written_text::lemma_object_tells(m, "type"@, json_string::quoted("ping"@));
    }
}

/// An event of the type error tells its type, and each of its fields under its own name.
pub proof fn law_event_text_error_tells(item: AnthropicStreamEvent)
    requires
        item is Error,
        anthropic::event_text(item) is Some,
    ensures
        written_text::tells(anthropic::event_text(item), "type"@, json_string::quoted("error"@)),
        written_text::tells(
            anthropic::event_text(item),
            "error"@,
            anthropic::error_text(item->Error_error)->0,
        ),
{
    broadcast use written_text::lemma_put;

    if let AnthropicStreamEvent::Error { error } = item {
    let m = json_text::tagged("error"@);
    let m = json_text::put(m, "error"@, anthropic::error_text(error));
    written_text::lemma_object_tells(m, "type"@, json_string::quoted("error"@));
    written_text::lemma_object_tells(m, "error"@, anthropic::error_text(error)->0);
    }
}

/// A block of the type text tells each of its fields under its own name.
pub proof fn law_block_text_text_tells(item: AnthropicResponseContentBlock)
    requires
        item is Text,
        message_text::block_text(item) is Some,
    ensures
        written_text::tells(message_text::block_text(item), "type"@, json_string::quoted("text"@)),
        written_text::tells(
            message_text::block_text(item),
            "text"@,
            json_string::quoted(item->Text_text@),
        ),
{
    broadcast use written_text::lemma_put;

    if let AnthropicResponseContentBlock::Text { text } = item {
    let m = json_text::tagged("text"@);
    let m = json_text::put_text(m, "text"@, text@);
    written_text::lemma_object_tells(m, "type"@, json_string::quoted("text"@));
    written_text::lemma_object_tells(m, "text"@, json_string::quoted(text@));
    }
}

/// A block of the type thinking tells each of its fields under its own name.
pub proof fn law_block_text_thinking_tells(item: AnthropicResponseContentBlock)
    requires
        item is Thinking,
        message_text::block_text(item) is Some,
    ensures
        written_text::tells(
            message_text::block_text(item),
            "type"@,
            json_string::quoted("thinking"@),
        ),
        written_text::tells(
            message_text::block_text(item),
            "thinking"@,
            json_string::quoted(item->Thinking_thinking@),
        ),
{
    broadcast use written_text::lemma_put;

    if let AnthropicResponseContentBlock::Thinking { thinking } = item {
    let m = json_text::tagged("thinking"@);
    let m = json_text::put_text(m, "thinking"@, thinking@);
    written_text::lemma_object_tells(m, "type"@, json_string::quoted("thinking"@));
    written_text::lemma_object_tells(m, "thinking"@, json_string::quoted(thinking@));
    }
}

/// A block of the type tool use tells each of its fields under its own name.
pub proof fn law_block_text_tool_use_tells(item: AnthropicResponseContentBlock)
    requires
        item is ToolUse,
        message_text::block_text(item) is Some,
    ensures
        written_text::tells(
            message_text::block_text(item),
            "type"@,
            json_string::quoted("tool_use"@),
        ),
        written_text::tells(
            message_text::block_text(item),
            "id"@,
            json_string::quoted(item->ToolUse_id@),
        ),
        written_text::tells(
            message_text::block_text(item),
            "name"@,
            json_string::quoted(item->ToolUse_name@),
        ),
        written_text::tells(
            message_text::block_text(item),
            "input"@,
            json::rendered_json(item->ToolUse_input@)->0,
        ),
{
    broadcast use written_text::lemma_put;

    if let AnthropicResponseContentBlock::ToolUse { id, name, input } = item {
    let m = json_text::tagged("tool_use"@);
    let m = json_text::put_text(m, "id"@, id@);
    let m = json_text::put_text(m, "name"@, name@);
    let m = json_text::put(m, "input"@, json::rendered_json(input@));
    written_text::lemma_object_tells(m, "type"@, json_string::quoted("tool_use"@));
    written_text::lemma_object_tells(m, "id"@, json_string::quoted(id@));
    written_text::lemma_object_tells(m, "name"@, json_string::quoted(name@));
    written_text::lemma_object_tells(m, "input"@, json::rendered_json(input@)->0);
    }
}

/// The tokens of a response are told, each under its own name.
pub proof fn law_message_usage_tells(item: AnthropicMessageUsage)
    requires
        message_text::usage_text(item) is Some,
    ensures
        written_text::tells(
            message_text::usage_text(item),
            "input_tokens"@,
            text::decimal(item.input_tokens as nat),
        ),
        written_text::tells(
            message_text::usage_text(item),
            "output_tokens"@,
            text::decimal(item.output_tokens as nat),
        ),
{
    broadcast use written_text::lemma_put;

    let m = Some(Seq::<Seq<char>>::empty());
    let m = json_text::put(m, "input_tokens"@, Some(text::decimal(item.input_tokens as nat)));
    let m = json_text::put(m, "output_tokens"@, Some(text::decimal(item.output_tokens as nat)));
    written_text::lemma_object_tells(m, "input_tokens"@, text::decimal(item.input_tokens as nat));
    written_text::lemma_object_tells(m, "output_tokens"@, text::decimal(item.output_tokens as nat));
}

/// A response tells each of its fields under its own name.
pub proof fn law_message_response_tells(item: AnthropicMessageResponse)
    requires
        message_text::response_text(item) is Some,
    ensures
        written_text::tells(
            message_text::response_text(item),
            "id"@,
            json_string::quoted(item.id@),
        ),
        written_text::tells(
            message_text::response_text(item),
            "type"@,
            json_string::quoted(item.kind@),
        ),
        written_text::tells(
            message_text::response_text(item),
            "role"@,
            json_string::quoted(item.role@),
        ),
        written_text::tells(
            message_text::response_text(item),
            "content"@,
            message_text::blocks_text(item.content@)->0,
        ),
        written_text::tells(
            message_text::response_text(item),
            "model"@,
            json_string::quoted(item.model@),
        ),
        written_text::tells(
            message_text::response_text(item),
            "stop_reason"@,
            json_string::quoted(item.stop_reason@),
        ),
        written_text::tells(
            message_text::response_text(item),
            "stop_sequence"@,
            (match item.stop_sequence {
                Some(x) => json::rendered_json(x@),
                None => Some("null"@),
            })->0,
        ),
        written_text::tells(
            message_text::response_text(item),
            "usage"@,
            message_text::usage_text(item.usage)->0,
        ),
{
    broadcast use written_text::lemma_put;

    let m = Some(Seq::<Seq<char>>::empty());
    let m = json_text::put_text(m, "id"@, item.id@);
    let m = json_text::put_text(m, "type"@, item.kind@);
    let m = json_text::put_text(m, "role"@, item.role@);
    let m = json_text::put(m, "content"@, message_text::blocks_text(item.content@));
    let m = json_text::put_text(m, "model"@, item.model@);
    let m = json_text::put_text(m, "stop_reason"@, item.stop_reason@);
    let m = json_text::put(
        m,
        "stop_sequence"@,
        match item.stop_sequence { Some(x) => json::rendered_json(x@), None => Some("null"@), },
    );
    let m = json_text::put(m, "usage"@, message_text::usage_text(item.usage));
    written_text::lemma_object_tells(m, "id"@, json_string::quoted(item.id@));
    written_text::lemma_object_tells(m, "type"@, json_string::quoted(item.kind@));
    written_text::lemma_object_tells(m, "role"@, json_string::quoted(item.role@));
    written_text::lemma_object_tells(m, "content"@, message_text::blocks_text(item.content@)->0);
    written_text::lemma_object_tells(m, "model"@, json_string::quoted(item.model@));
    written_text::lemma_object_tells(m, "stop_reason"@, json_string::quoted(item.stop_reason@));
    written_text::lemma_object_tells(
        m,
        "stop_sequence"@,
        (match item.stop_sequence {
            Some(x) => json::rendered_json(x@),
            None => Some("null"@),
        })->0,
    );
    written_text::lemma_object_tells(m, "usage"@, message_text::usage_text(item.usage)->0);
}

} // verus!
