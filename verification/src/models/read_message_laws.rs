//! What is read of the values on the messages surface, and when.
use vstd::prelude::*;

use crate::json::JsonView;
use crate::json;
use crate::models::anthropic::AnthropicImageSource;
use crate::models::anthropic::AnthropicMessage;
use crate::models::anthropic::AnthropicRequest;
use crate::models::anthropic::AnthropicTextBlock;
use crate::models::anthropic::AnthropicThinking;
use crate::models::anthropic::AnthropicTool;
use crate::models::anthropic::AnthropicToolChoice;
use crate::models::read_chat;
use crate::models::read_laws::lemma_any_object;
use crate::models::read_laws::lemma_texts;
use crate::models::read_messages;
use crate::models::reading;

verus! {

/// A block of the system prompt of the type `text` is read by its members, each under its own name.
pub proof fn law_text_block_text_is_read(m: Seq<(Seq<char>, JsonView)>, x: AnthropicTextBlock)
    requires
        json::member(m, "type"@) == Some(JsonView::Text("text"@)),
        read_messages::text_block_from(JsonView::Object(m)) == Some(x@),
    ensures
        x is Text,
        reading::text(json::member(m, "text"@), x->text),
{
    reveal_strlit("text");
    assert("text"@.len() == 4);
}

/// A block of the system prompt of the type `text` is read just where each member is what it
/// should be.
pub proof fn law_text_block_text_is_readable(m: Seq<(Seq<char>, JsonView)>)
    requires
        json::member(m, "type"@) == Some(JsonView::Text("text"@)),
    ensures
        read_messages::text_block_from(JsonView::Object(m)) is Some
            <==> reading::can_text(json::member(m, "text"@)),
{
    reveal_strlit("text");
    assert("text"@.len() == 4);
}

/// The source of an image is read by its members, each under its own name.
pub proof fn law_image_source_is_read(m: Seq<(Seq<char>, JsonView)>, x: AnthropicImageSource)
    requires
        read_messages::image_source_from(JsonView::Object(m)) == Some(x@),
    ensures
        reading::text(json::member(m, "type"@), x.kind),
        reading::opt_text(json::member(m, "media_type"@), x.media_type),
        reading::opt_text(json::member(m, "data"@), x.data),
        reading::opt_text(json::member(m, "url"@), x.url),
        reading::opt_text(json::member(m, "file_id"@), x.file_id),
{
}

/// The source of an image is read just where each member is what it should be.
pub proof fn law_image_source_is_readable(m: Seq<(Seq<char>, JsonView)>)
    ensures
        read_messages::image_source_from(JsonView::Object(m)) is Some
            <==> reading::can_text(json::member(m, "type"@))
                && reading::can_opt_text(json::member(m, "media_type"@))
                && reading::can_opt_text(json::member(m, "data"@))
                && reading::can_opt_text(json::member(m, "url"@))
                && reading::can_opt_text(json::member(m, "file_id"@)),
{
}

/// The source of an image may be an array of its fields, which are then taken in their order.
pub proof fn law_image_source_by_position(items: Seq<JsonView>)
    ensures
        1 <= items.len() <= 5
            ==> read_messages::image_source_from(JsonView::Array(items))
                == read_messages::image_source_from(
                    JsonView::Object(
                        Seq::new(
                            items.len(),
                            |i: int| (
                            seq!["type"@, "media_type"@, "data"@, "url"@, "file_id"@][i], items[i]
                            ),
                        ),
                    ),
                ),
        !(1 <= items.len() <= 5)
            ==> read_messages::image_source_from(JsonView::Array(items)) is None,
{
}

/// A message is read by its members, each under its own name.
pub proof fn law_turn_is_read(m: Seq<(Seq<char>, JsonView)>, x: AnthropicMessage)
    requires
        read_messages::turn_from(JsonView::Object(m)) == Some(x@),
    ensures
        reading::text(json::member(m, "role"@), x.role),
        json::member(m, "content"@) is Some,
        read_messages::body_from(json::member(m, "content"@)->0) == Some(x.content@),
{
}

/// A message is read just where each member is what it should be.
pub proof fn law_turn_is_readable(m: Seq<(Seq<char>, JsonView)>)
    ensures
        read_messages::turn_from(JsonView::Object(m)) is Some
            <==> reading::can_text(json::member(m, "role"@)) && json::member(m, "content"@) is Some
                && read_messages::body_from(json::member(m, "content"@)->0) is Some,
{
}

/// A message may be an array of its fields, which are then taken in their order.
pub proof fn law_turn_by_position(items: Seq<JsonView>)
    ensures
        2 <= items.len() <= 2
            ==> read_messages::turn_from(JsonView::Array(items))
                == read_messages::turn_from(
                    JsonView::Object(
                        Seq::new(items.len(), |i: int| (seq!["role"@, "content"@][i], items[i])),
                    ),
                ),
        !(2 <= items.len() <= 2) ==> read_messages::turn_from(JsonView::Array(items)) is None,
{
}

/// The choice of a tool of the type `auto` is read by its members, each under its own name.
pub proof fn law_tool_choice_auto_is_read(m: Seq<(Seq<char>, JsonView)>, x: AnthropicToolChoice)
    requires
        json::member(m, "type"@) == Some(JsonView::Text("auto"@)),
        read_messages::tool_choice_from(JsonView::Object(m)) == Some(x@),
    ensures
        x is Auto,
{
    reveal_strlit("auto");
    reveal_strlit("any");
    reveal_strlit("none");
    reveal_strlit("tool");
    assert("auto"@.len() == 4);
    assert("any"@.len() == 3);
    assert("none"@.len() == 4);
    assert("tool"@.len() == 4);
    assert("auto"@[0] != "none"@[0]);
    assert("auto"@[0] != "tool"@[0]);
    assert("none"@[0] != "tool"@[0]);
}

/// The choice of a tool of the type `auto` is read just where each member is what it should be.
pub proof fn law_tool_choice_auto_is_readable(m: Seq<(Seq<char>, JsonView)>)
    requires
        json::member(m, "type"@) == Some(JsonView::Text("auto"@)),
    ensures
        read_messages::tool_choice_from(JsonView::Object(m)) is Some <==> true,
{
    reveal_strlit("auto");
    reveal_strlit("any");
    reveal_strlit("none");
    reveal_strlit("tool");
    assert("auto"@.len() == 4);
    assert("any"@.len() == 3);
    assert("none"@.len() == 4);
    assert("tool"@.len() == 4);
    assert("auto"@[0] != "none"@[0]);
    assert("auto"@[0] != "tool"@[0]);
    assert("none"@[0] != "tool"@[0]);
}

/// The choice of a tool of the type `any` is read by its members, each under its own name.
pub proof fn law_tool_choice_any_is_read(m: Seq<(Seq<char>, JsonView)>, x: AnthropicToolChoice)
    requires
        json::member(m, "type"@) == Some(JsonView::Text("any"@)),
        read_messages::tool_choice_from(JsonView::Object(m)) == Some(x@),
    ensures
        x is Any,
{
    reveal_strlit("auto");
    reveal_strlit("any");
    reveal_strlit("none");
    reveal_strlit("tool");
    assert("auto"@.len() == 4);
    assert("any"@.len() == 3);
    assert("none"@.len() == 4);
    assert("tool"@.len() == 4);
    assert("auto"@[0] != "none"@[0]);
    assert("auto"@[0] != "tool"@[0]);
    assert("none"@[0] != "tool"@[0]);
}

/// The choice of a tool of the type `any` is read just where each member is what it should be.
pub proof fn law_tool_choice_any_is_readable(m: Seq<(Seq<char>, JsonView)>)
    requires
        json::member(m, "type"@) == Some(JsonView::Text("any"@)),
    ensures
        read_messages::tool_choice_from(JsonView::Object(m)) is Some <==> true,
{
    reveal_strlit("auto");
    reveal_strlit("any");
    reveal_strlit("none");
    reveal_strlit("tool");
    assert("auto"@.len() == 4);
    assert("any"@.len() == 3);
    assert("none"@.len() == 4);
    assert("tool"@.len() == 4);
    assert("auto"@[0] != "none"@[0]);
    assert("auto"@[0] != "tool"@[0]);
    assert("none"@[0] != "tool"@[0]);
}

/// The choice of a tool of the type `none` is read by its members, each under its own name.
pub proof fn law_tool_choice_none_is_read(m: Seq<(Seq<char>, JsonView)>, x: AnthropicToolChoice)
    requires
        json::member(m, "type"@) == Some(JsonView::Text("none"@)),
        read_messages::tool_choice_from(JsonView::Object(m)) == Some(x@),
    ensures
        x is NoTool,
{
    reveal_strlit("auto");
    reveal_strlit("any");
    reveal_strlit("none");
    reveal_strlit("tool");
    assert("auto"@.len() == 4);
    assert("any"@.len() == 3);
    assert("none"@.len() == 4);
    assert("tool"@.len() == 4);
    assert("auto"@[0] != "none"@[0]);
    assert("auto"@[0] != "tool"@[0]);
    assert("none"@[0] != "tool"@[0]);
}

/// The choice of a tool of the type `none` is read just where each member is what it should be.
pub proof fn law_tool_choice_none_is_readable(m: Seq<(Seq<char>, JsonView)>)
    requires
        json::member(m, "type"@) == Some(JsonView::Text("none"@)),
    ensures
        read_messages::tool_choice_from(JsonView::Object(m)) is Some <==> true,
{
    reveal_strlit("auto");
    reveal_strlit("any");
    reveal_strlit("none");
    reveal_strlit("tool");
    assert("auto"@.len() == 4);
    assert("any"@.len() == 3);
    assert("none"@.len() == 4);
    assert("tool"@.len() == 4);
    assert("auto"@[0] != "none"@[0]);
    assert("auto"@[0] != "tool"@[0]);
    assert("none"@[0] != "tool"@[0]);
}

/// The choice of a tool of the type `tool` is read by its members, each under its own name.
pub proof fn law_tool_choice_tool_is_read(m: Seq<(Seq<char>, JsonView)>, x: AnthropicToolChoice)
    requires
        json::member(m, "type"@) == Some(JsonView::Text("tool"@)),
        read_messages::tool_choice_from(JsonView::Object(m)) == Some(x@),
    ensures
        x is Tool,
        reading::text(json::member(m, "name"@), x->name),
{
    reveal_strlit("auto");
    reveal_strlit("any");
    reveal_strlit("none");
    reveal_strlit("tool");
    assert("auto"@.len() == 4);
    assert("any"@.len() == 3);
    assert("none"@.len() == 4);
    assert("tool"@.len() == 4);
    assert("auto"@[0] != "none"@[0]);
    assert("auto"@[0] != "tool"@[0]);
    assert("none"@[0] != "tool"@[0]);
}

/// The choice of a tool of the type `tool` is read just where each member is what it should be.
pub proof fn law_tool_choice_tool_is_readable(m: Seq<(Seq<char>, JsonView)>)
    requires
        json::member(m, "type"@) == Some(JsonView::Text("tool"@)),
    ensures
        read_messages::tool_choice_from(JsonView::Object(m)) is Some
            <==> reading::can_text(json::member(m, "name"@)),
{
    reveal_strlit("auto");
    reveal_strlit("any");
    reveal_strlit("none");
    reveal_strlit("tool");
    assert("auto"@.len() == 4);
    assert("any"@.len() == 3);
    assert("none"@.len() == 4);
    assert("tool"@.len() == 4);
    assert("auto"@[0] != "none"@[0]);
    assert("auto"@[0] != "tool"@[0]);
    assert("none"@[0] != "tool"@[0]);
}

/// A way to reason of the type `enabled` is read by its members, each under its own name.
pub proof fn law_thinking_mode_enabled_is_read(m: Seq<(Seq<char>, JsonView)>, x: AnthropicThinking)
    requires
        json::member(m, "type"@) == Some(JsonView::Text("enabled"@)),
        read_messages::thinking_mode_from(JsonView::Object(m)) == Some(x@),
    ensures
        x is Enabled,
        reading::opt_u64(json::member(m, "budget_tokens"@), x->Enabled_budget_tokens),
{
    reveal_strlit("enabled");
    reveal_strlit("adaptive");
    reveal_strlit("disabled");
    assert("enabled"@.len() == 7);
    assert("adaptive"@.len() == 8);
    assert("disabled"@.len() == 8);
    assert("adaptive"@[0] != "disabled"@[0]);
}

/// A way to reason of the type `enabled` is read just where each member is what it should be.
pub proof fn law_thinking_mode_enabled_is_readable(m: Seq<(Seq<char>, JsonView)>)
    requires
        json::member(m, "type"@) == Some(JsonView::Text("enabled"@)),
    ensures
        read_messages::thinking_mode_from(JsonView::Object(m)) is Some
            <==> reading::can_opt_u64(json::member(m, "budget_tokens"@)),
{
    reveal_strlit("enabled");
    reveal_strlit("adaptive");
    reveal_strlit("disabled");
    assert("enabled"@.len() == 7);
    assert("adaptive"@.len() == 8);
    assert("disabled"@.len() == 8);
    assert("adaptive"@[0] != "disabled"@[0]);
}

/// A way to reason of the type `adaptive` is read by its members, each under its own name.
pub proof fn law_thinking_mode_adaptive_is_read(m: Seq<(Seq<char>, JsonView)>, x: AnthropicThinking)
    requires
        json::member(m, "type"@) == Some(JsonView::Text("adaptive"@)),
        read_messages::thinking_mode_from(JsonView::Object(m)) == Some(x@),
    ensures
        x is Adaptive,
        reading::opt_u64(json::member(m, "budget_tokens"@), x->Adaptive_budget_tokens),
{
    reveal_strlit("enabled");
    reveal_strlit("adaptive");
    reveal_strlit("disabled");
    assert("enabled"@.len() == 7);
    assert("adaptive"@.len() == 8);
    assert("disabled"@.len() == 8);
    assert("adaptive"@[0] != "disabled"@[0]);
}

/// A way to reason of the type `adaptive` is read just where each member is what it should be.
pub proof fn law_thinking_mode_adaptive_is_readable(m: Seq<(Seq<char>, JsonView)>)
    requires
        json::member(m, "type"@) == Some(JsonView::Text("adaptive"@)),
    ensures
        read_messages::thinking_mode_from(JsonView::Object(m)) is Some
            <==> reading::can_opt_u64(json::member(m, "budget_tokens"@)),
{
    reveal_strlit("enabled");
    reveal_strlit("adaptive");
    reveal_strlit("disabled");
    assert("enabled"@.len() == 7);
    assert("adaptive"@.len() == 8);
    assert("disabled"@.len() == 8);
    assert("adaptive"@[0] != "disabled"@[0]);
}

/// A way to reason of the type `disabled` is read by its members, each under its own name.
pub proof fn law_thinking_mode_disabled_is_read(m: Seq<(Seq<char>, JsonView)>, x: AnthropicThinking)
    requires
        json::member(m, "type"@) == Some(JsonView::Text("disabled"@)),
        read_messages::thinking_mode_from(JsonView::Object(m)) == Some(x@),
    ensures
        x is Disabled,
{
    reveal_strlit("enabled");
    reveal_strlit("adaptive");
    reveal_strlit("disabled");
    assert("enabled"@.len() == 7);
    assert("adaptive"@.len() == 8);
    assert("disabled"@.len() == 8);
    assert("adaptive"@[0] != "disabled"@[0]);
}

/// A way to reason of the type `disabled` is read just where each member is what it should be.
pub proof fn law_thinking_mode_disabled_is_readable(m: Seq<(Seq<char>, JsonView)>)
    requires
        json::member(m, "type"@) == Some(JsonView::Text("disabled"@)),
    ensures
        read_messages::thinking_mode_from(JsonView::Object(m)) is Some <==> true,
{
    reveal_strlit("enabled");
    reveal_strlit("adaptive");
    reveal_strlit("disabled");
    assert("enabled"@.len() == 7);
    assert("adaptive"@.len() == 8);
    assert("disabled"@.len() == 8);
    assert("adaptive"@[0] != "disabled"@[0]);
}

/// A tool is read by its members, each under its own name.
pub proof fn law_anthropic_tool_is_read(m: Seq<(Seq<char>, JsonView)>, x: AnthropicTool)
    requires
        read_chat::anthropic_tool_from(JsonView::Object(m)) == Some(x@),
    ensures
        reading::text(json::member(m, "name"@), x.name),
        reading::opt_text(json::member(m, "description"@), x.description),
        reading::schema(json::member(m, "input_schema"@), x.input_schema),
{
    lemma_any_object();
}

/// A tool is read just where each member is what it should be.
pub proof fn law_anthropic_tool_is_readable(m: Seq<(Seq<char>, JsonView)>)
    ensures
        read_chat::anthropic_tool_from(JsonView::Object(m)) is Some
            <==> reading::can_text(json::member(m, "name"@))
                && reading::can_opt_text(json::member(m, "description"@))
                && reading::can_schema(json::member(m, "input_schema"@)),
{
}

/// A tool may be an array of its fields, which are then taken in their order.
pub proof fn law_anthropic_tool_by_position(items: Seq<JsonView>)
    ensures
        1 <= items.len() <= 3
            ==> read_chat::anthropic_tool_from(JsonView::Array(items))
                == read_chat::anthropic_tool_from(
                    JsonView::Object(
                        Seq::new(
                            items.len(),
                            |i: int| (seq!["name"@, "description"@, "input_schema"@][i], items[i]),
                        ),
                    ),
                ),
        !(1 <= items.len() <= 3) ==> read_chat::anthropic_tool_from(JsonView::Array(items)) is None,
{
}

/// A request is read by its members, each under its own name.
pub proof fn law_messages_request_is_read(m: Seq<(Seq<char>, JsonView)>, x: AnthropicRequest)
    requires
        read_messages::messages_request_from(JsonView::Object(m)) == Some(x@),
    ensures
        reading::text(json::member(m, "model"@), x.model),
        reading::opt_u64(json::member(m, "max_tokens"@), x.max_tokens),
        x.system is None <==> reading::nothing(json::member(m, "system"@)),
        x.system is Some
            ==> read_messages::system_from(json::member(m, "system"@)->0) == Some((x.system->0)@),
        json::member(m, "messages"@) matches Some(JsonView::Array(values))
            && values.len() == x.messages@.len() && forall|i: int| 0 <= i < values.len()
            ==> read_messages::turn_from(values[i]) == Some((#[trigger] x.messages@[i])@),
        x.tools is None <==> reading::nothing(json::member(m, "tools"@)),
        x.tools is Some
            ==> (
            json::member(m, "tools"@) matches Some(JsonView::Array(values))
                && values.len() == (x.tools->0)@.len() && forall|i: int| 0 <= i < values.len()
                ==> read_chat::anthropic_tool_from(values[i])
                    == Some((#[trigger] (x.tools->0)@[i])@)
            ),
        x.tool_choice is None <==> reading::nothing(json::member(m, "tool_choice"@)),
        x.tool_choice is Some
            ==> read_messages::tool_choice_from(json::member(m, "tool_choice"@)->0)
                == Some((x.tool_choice->0)@),
        reading::flag_or_false(json::member(m, "stream"@), x.stream),
        reading::opt_number(json::member(m, "temperature"@), x.temperature),
        reading::opt_number(json::member(m, "top_p"@), x.top_p),
        reading::opt_u32(json::member(m, "top_k"@), x.top_k),
        reading::opt_texts(json::member(m, "stop_sequences"@), x.stop_sequences),
        reading::opt_value(json::member(m, "metadata"@), x.metadata),
        x.thinking is None <==> reading::nothing(json::member(m, "thinking"@)),
        x.thinking is Some
            ==> read_messages::thinking_mode_from(json::member(m, "thinking"@)->0)
                == Some((x.thinking->0)@),
        reading::opt_value(json::member(m, "output_config"@), x.output_config),
{
    if json::member(m, "messages"@) is Some {
        let values = (json::member(m, "messages"@)->0)->Array_0;
        let read = read_messages::each_turn_from(values)->0;
        let contents = read_messages::turns_view(x.messages@);
        assert(read == contents);
        assert forall|i: int| 0 <= i < values.len() implies
            read_messages::turn_from(values[i]) == Some((#[trigger] x.messages@[i])@) by {
            assert(read[i] == read_messages::turn_from(values[i])->0);
            assert(contents[i] == x.messages@[i]@);
        }
    }
    if x.tools is Some {
        let values = (json::member(m, "tools"@)->0)->Array_0;
        let read = read_messages::each_anthropic_tool_from(values)->0;
        let contents = read_messages::opt_tools_view(x.tools)->0;
        assert(read == contents);
        assert forall|i: int| 0 <= i < values.len() implies
            read_chat::anthropic_tool_from(values[i]) == Some((#[trigger] (x.tools->0)@[i])@) by {
            assert(read[i] == read_chat::anthropic_tool_from(values[i])->0);
            assert(contents[i] == (x.tools->0)@[i]@);
        }
    }
    if x.stop_sequences is Some {
        lemma_texts((json::member(m, "stop_sequences"@)->0)->Array_0, x.stop_sequences->0);
    }
}

/// A request is read just where each member is what it should be.
pub proof fn law_messages_request_is_readable(m: Seq<(Seq<char>, JsonView)>)
    ensures
        read_messages::messages_request_from(JsonView::Object(m)) is Some
            <==> reading::can_text(json::member(m, "model"@))
                && reading::can_opt_u64(json::member(m, "max_tokens"@))
                && (
                reading::nothing(json::member(m, "system"@))
                    || read_messages::system_from(json::member(m, "system"@)->0) is Some
                )
                && (
                json::member(m, "messages"@) matches Some(JsonView::Array(values))
                    && forall|i: int| 0 <= i < values.len()
                    ==> read_messages::turn_from(#[trigger] values[i]) is Some
                )
                && (
                reading::nothing(json::member(m, "tools"@))
                    || (
                    json::member(m, "tools"@) matches Some(JsonView::Array(values))
                        && forall|i: int| 0 <= i < values.len()
                        ==> read_chat::anthropic_tool_from(#[trigger] values[i]) is Some
                    )
                )
                && (
                reading::nothing(json::member(m, "tool_choice"@))
                    || read_messages::tool_choice_from(json::member(m, "tool_choice"@)->0) is Some
                )
                && reading::can_flag_or_false(json::member(m, "stream"@))
                && reading::can_opt_number(json::member(m, "temperature"@))
                && reading::can_opt_number(json::member(m, "top_p"@))
                && reading::can_opt_u32(json::member(m, "top_k"@))
                && reading::can_opt_texts(json::member(m, "stop_sequences"@))
                && reading::can_opt_value(json::member(m, "metadata"@))
                && (
                reading::nothing(json::member(m, "thinking"@))
                    || read_messages::thinking_mode_from(json::member(m, "thinking"@)->0) is Some
                )
                && reading::can_opt_value(json::member(m, "output_config"@)),
{
}

/// A request may be an array of its fields, which are then taken in their order.
pub proof fn law_messages_request_by_position(items: Seq<JsonView>)
    ensures
        4 <= items.len() <= 14
            ==> read_messages::messages_request_from(JsonView::Array(items))
                == read_messages::messages_request_from(
                    JsonView::Object(
                        Seq::new(
                            items.len(),
                            |i: int| (
                            seq![
                                "model"@,
                                "max_tokens"@,
                                "system"@,
                                "messages"@,
                                "tools"@,
                                "tool_choice"@,
                                "stream"@,
                                "temperature"@,
                                "top_p"@,
                                "top_k"@,
                                "stop_sequences"@,
                                "metadata"@,
                                "thinking"@,
                                "output_config"@,
                            ][i], items[i]
                            ),
                        ),
                    ),
                ),
        !(4 <= items.len() <= 14)
            ==> read_messages::messages_request_from(JsonView::Array(items)) is None,
{
}

} // verus!
