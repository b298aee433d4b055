//! What is written of an item: every field under its own name.
use vstd::prelude::*;

use crate::json;
use crate::json::JsonView;
use crate::models::responses;
use crate::models::wire;
use crate::models::written;
use crate::models::responses::AgentMessageInputContent;
use crate::models::responses::LocalShellAction;
use crate::models::responses::ReasoningContentItem;
use crate::models::responses::ReasoningSummaryItem;
use crate::models::responses::ResponseItem;
use crate::models::responses::WebSearchAction;

verus! {

/// Each field of an item of the type item reference is written under its own name, and nothing
/// else is.
pub proof fn law_item_item_reference_members(item: ResponseItem)
    requires
        item is ItemReference,
    ensures
        wire::item_json(item) is Object,
        json::member(wire::item_json(item)->Object_0, "type"@)
            == Some(JsonView::Text("item_reference"@)),
        json::member(wire::item_json(item)->Object_0, "id"@)
            == Some(JsonView::Text(item->ItemReference_id@)),
        forall|k: Seq<char>|
            k != "type"@ && k != "id"@
                ==> (#[trigger] json::member(wire::item_json(item)->Object_0, k)) is None,
{
    broadcast use written::group_members;

    reveal_strlit("type");
    reveal_strlit("id");
    assert("type"@.len() == 4);
    assert("id"@.len() == 2);
}

/// Each field of an item of the type message is written under its own name, and nothing else is.
pub proof fn law_item_message_members(item: ResponseItem)
    requires
        item is Message,
    ensures
        wire::item_json(item) is Object,
        json::member(wire::item_json(item)->Object_0, "type"@) == Some(JsonView::Text("message"@)),
        json::member(wire::item_json(item)->Object_0, "id"@) == written::opt_text(item->Message_id),
        json::member(wire::item_json(item)->Object_0, "role"@)
            == Some(JsonView::Text(item->Message_role@)),
        json::member(wire::item_json(item)->Object_0, "content"@)
            == Some(responses::contents_json(item->Message_content@)),
        json::member(wire::item_json(item)->Object_0, "phase"@)
            == written::opt_text(item->Message_phase),
        forall|k: Seq<char>|
            k != "type"@ && k != "id"@ && k != "role"@ && k != "content"@ && k != "phase"@
                ==> (#[trigger] json::member(wire::item_json(item)->Object_0, k)) is None,
{
    broadcast use written::group_members;

    reveal_strlit("type");
    reveal_strlit("id");
    reveal_strlit("role");
    reveal_strlit("content");
    reveal_strlit("phase");
    assert("type"@.len() == 4);
    assert("id"@.len() == 2);
    assert("role"@.len() == 4);
    assert("content"@.len() == 7);
    assert("phase"@.len() == 5);
    assert("type"@[0] != "role"@[0]);
}

/// Each field of an item of the type agent message is written under its own name, and nothing
/// else is.
pub proof fn law_item_agent_message_members(item: ResponseItem)
    requires
        item is AgentMessage,
    ensures
        wire::item_json(item) is Object,
        json::member(wire::item_json(item)->Object_0, "type"@)
            == Some(JsonView::Text("agent_message"@)),
        json::member(wire::item_json(item)->Object_0, "id"@)
            == written::opt_text(item->AgentMessage_id),
        json::member(wire::item_json(item)->Object_0, "content"@)
            == Some(wire::agent_contents_json(item->AgentMessage_content@)),
        forall|k: Seq<char>|
            k != "type"@ && k != "id"@ && k != "content"@
                ==> (#[trigger] json::member(wire::item_json(item)->Object_0, k)) is None,
{
    broadcast use written::group_members;

    reveal_strlit("type");
    reveal_strlit("id");
    reveal_strlit("content");
    assert("type"@.len() == 4);
    assert("id"@.len() == 2);
    assert("content"@.len() == 7);
}

/// Each field of an item of the type reasoning is written under its own name, and nothing else is.
pub proof fn law_item_reasoning_members(item: ResponseItem)
    requires
        item is Reasoning,
    ensures
        wire::item_json(item) is Object,
        json::member(wire::item_json(item)->Object_0, "type"@)
            == Some(JsonView::Text("reasoning"@)),
        json::member(wire::item_json(item)->Object_0, "id"@)
            == Some(JsonView::Text(item->Reasoning_id@)),
        json::member(wire::item_json(item)->Object_0, "summary"@)
            == Some(wire::summaries_json(item->Reasoning_summary@)),
        json::member(wire::item_json(item)->Object_0, "content"@)
            == (match item->Reasoning_content {
                Some(x) => Some(wire::reasonings_json(x@)),
                None => None,
            }),
        json::member(wire::item_json(item)->Object_0, "encrypted_content"@)
            == written::opt_text(item->Reasoning_encrypted_content),
        forall|k: Seq<char>|
            k != "type"@ && k != "id"@ && k != "summary"@ && k != "content"@
                && k != "encrypted_content"@
                ==> (#[trigger] json::member(wire::item_json(item)->Object_0, k)) is None,
{
    broadcast use written::group_members;

    reveal_strlit("type");
    reveal_strlit("id");
    reveal_strlit("summary");
    reveal_strlit("content");
    reveal_strlit("encrypted_content");
    assert("type"@.len() == 4);
    assert("id"@.len() == 2);
    assert("summary"@.len() == 7);
    assert("content"@.len() == 7);
    assert("encrypted_content"@.len() == 17);
    assert("summary"@[0] != "content"@[0]);
}

/// Each field of an item of the type function call is written under its own name, and nothing
/// else is.
pub proof fn law_item_function_call_members(item: ResponseItem)
    requires
        item is FunctionCall,
    ensures
        wire::item_json(item) is Object,
        json::member(wire::item_json(item)->Object_0, "type"@)
            == Some(JsonView::Text("function_call"@)),
        json::member(wire::item_json(item)->Object_0, "id"@)
            == written::opt_text(item->FunctionCall_id),
        json::member(wire::item_json(item)->Object_0, "name"@)
            == Some(JsonView::Text(item->FunctionCall_name@)),
        json::member(wire::item_json(item)->Object_0, "namespace"@)
            == written::opt_text(item->FunctionCall_namespace),
        json::member(wire::item_json(item)->Object_0, "arguments"@)
            == Some(JsonView::Text(item->FunctionCall_arguments@)),
        json::member(wire::item_json(item)->Object_0, "call_id"@)
            == Some(JsonView::Text(item->FunctionCall_call_id@)),
        forall|k: Seq<char>|
            k != "type"@ && k != "id"@ && k != "name"@ && k != "namespace"@ && k != "arguments"@
                && k != "call_id"@
                ==> (#[trigger] json::member(wire::item_json(item)->Object_0, k)) is None,
{
    broadcast use written::group_members;

    reveal_strlit("type");
    reveal_strlit("id");
    reveal_strlit("name");
    reveal_strlit("namespace");
    reveal_strlit("arguments");
    reveal_strlit("call_id");
    assert("type"@.len() == 4);
    assert("id"@.len() == 2);
    assert("name"@.len() == 4);
    assert("namespace"@.len() == 9);
    assert("arguments"@.len() == 9);
    assert("call_id"@.len() == 7);
    assert("type"@[0] != "name"@[0]);
    assert("namespace"@[0] != "arguments"@[0]);
}

/// Each field of an item of the type function call output is written under its own name, and
/// nothing else is.
pub proof fn law_item_function_call_output_members(item: ResponseItem)
    requires
        item is FunctionCallOutput,
    ensures
        wire::item_json(item) is Object,
        json::member(wire::item_json(item)->Object_0, "type"@)
            == Some(JsonView::Text("function_call_output"@)),
        json::member(wire::item_json(item)->Object_0, "call_id"@)
            == Some(JsonView::Text(item->FunctionCallOutput_call_id@)),
        json::member(wire::item_json(item)->Object_0, "output"@)
            == Some(responses::output_json(item->FunctionCallOutput_output)),
        forall|k: Seq<char>|
            k != "type"@ && k != "call_id"@ && k != "output"@
                ==> (#[trigger] json::member(wire::item_json(item)->Object_0, k)) is None,
{
    broadcast use written::group_members;

    reveal_strlit("type");
    reveal_strlit("call_id");
    reveal_strlit("output");
    assert("type"@.len() == 4);
    assert("call_id"@.len() == 7);
    assert("output"@.len() == 6);
}

/// Each field of an item of the type custom tool call is written under its own name, and
/// nothing else is.
pub proof fn law_item_custom_tool_call_members(item: ResponseItem)
    requires
        item is CustomToolCall,
    ensures
        wire::item_json(item) is Object,
        json::member(wire::item_json(item)->Object_0, "type"@)
            == Some(JsonView::Text("custom_tool_call"@)),
        json::member(wire::item_json(item)->Object_0, "id"@)
            == written::opt_text(item->CustomToolCall_id),
        json::member(wire::item_json(item)->Object_0, "status"@)
            == written::opt_text(item->CustomToolCall_status),
        json::member(wire::item_json(item)->Object_0, "call_id"@)
            == Some(JsonView::Text(item->CustomToolCall_call_id@)),
        json::member(wire::item_json(item)->Object_0, "name"@)
            == Some(JsonView::Text(item->CustomToolCall_name@)),
        json::member(wire::item_json(item)->Object_0, "input"@)
            == Some(JsonView::Text(item->CustomToolCall_input@)),
        forall|k: Seq<char>|
            k != "type"@ && k != "id"@ && k != "status"@ && k != "call_id"@ && k != "name"@
                && k != "input"@
                ==> (#[trigger] json::member(wire::item_json(item)->Object_0, k)) is None,
{
    broadcast use written::group_members;

    reveal_strlit("type");
    reveal_strlit("id");
    reveal_strlit("status");
    reveal_strlit("call_id");
    reveal_strlit("name");
    reveal_strlit("input");
    assert("type"@.len() == 4);
    assert("id"@.len() == 2);
    assert("status"@.len() == 6);
    assert("call_id"@.len() == 7);
    assert("name"@.len() == 4);
    assert("input"@.len() == 5);
    assert("type"@[0] != "name"@[0]);
}

/// Each field of an item of the type custom tool call output is written under its own name, and
/// nothing else is.
pub proof fn law_item_custom_tool_call_output_members(item: ResponseItem)
    requires
        item is CustomToolCallOutput,
    ensures
        wire::item_json(item) is Object,
        json::member(wire::item_json(item)->Object_0, "type"@)
            == Some(JsonView::Text("custom_tool_call_output"@)),
        json::member(wire::item_json(item)->Object_0, "call_id"@)
            == Some(JsonView::Text(item->CustomToolCallOutput_call_id@)),
        json::member(wire::item_json(item)->Object_0, "name"@)
            == written::opt_text(item->CustomToolCallOutput_name),
        json::member(wire::item_json(item)->Object_0, "output"@)
            == Some(responses::output_json(item->CustomToolCallOutput_output)),
        forall|k: Seq<char>|
            k != "type"@ && k != "call_id"@ && k != "name"@ && k != "output"@
                ==> (#[trigger] json::member(wire::item_json(item)->Object_0, k)) is None,
{
    broadcast use written::group_members;

    reveal_strlit("type");
    reveal_strlit("call_id");
    reveal_strlit("name");
    reveal_strlit("output");
    assert("type"@.len() == 4);
    assert("call_id"@.len() == 7);
    assert("name"@.len() == 4);
    assert("output"@.len() == 6);
    assert("type"@[0] != "name"@[0]);
}

/// Each field of an item of the type tool search call is written under its own name, and
/// nothing else is.
pub proof fn law_item_tool_search_call_members(item: ResponseItem)
    requires
        item is ToolSearchCall,
    ensures
        wire::item_json(item) is Object,
        json::member(wire::item_json(item)->Object_0, "type"@)
            == Some(JsonView::Text("tool_search_call"@)),
        json::member(wire::item_json(item)->Object_0, "id"@)
            == written::opt_text(item->ToolSearchCall_id),
        json::member(wire::item_json(item)->Object_0, "call_id"@)
            == written::opt_text(item->ToolSearchCall_call_id),
        json::member(wire::item_json(item)->Object_0, "status"@)
            == written::opt_text(item->ToolSearchCall_status),
        json::member(wire::item_json(item)->Object_0, "execution"@)
            == Some(JsonView::Text(item->ToolSearchCall_execution@)),
        json::member(wire::item_json(item)->Object_0, "arguments"@)
            == Some(item->ToolSearchCall_arguments@),
        forall|k: Seq<char>|
            k != "type"@ && k != "id"@ && k != "call_id"@ && k != "status"@ && k != "execution"@
                && k != "arguments"@
                ==> (#[trigger] json::member(wire::item_json(item)->Object_0, k)) is None,
{
    broadcast use written::group_members;

    reveal_strlit("type");
    reveal_strlit("id");
    reveal_strlit("call_id");
    reveal_strlit("status");
    reveal_strlit("execution");
    reveal_strlit("arguments");
    assert("type"@.len() == 4);
    assert("id"@.len() == 2);
    assert("call_id"@.len() == 7);
    assert("status"@.len() == 6);
    assert("execution"@.len() == 9);
    assert("arguments"@.len() == 9);
    assert("execution"@[0] != "arguments"@[0]);
}

/// Each field of an item of the type tool search output is written under its own name, and
/// nothing else is.
pub proof fn law_item_tool_search_output_members(item: ResponseItem)
    requires
        item is ToolSearchOutput,
    ensures
        wire::item_json(item) is Object,
        json::member(wire::item_json(item)->Object_0, "type"@)
            == Some(JsonView::Text("tool_search_output"@)),
        json::member(wire::item_json(item)->Object_0, "call_id"@)
            == written::opt_text(item->ToolSearchOutput_call_id),
        json::member(wire::item_json(item)->Object_0, "status"@)
            == Some(JsonView::Text(item->ToolSearchOutput_status@)),
        json::member(wire::item_json(item)->Object_0, "execution"@)
            == Some(JsonView::Text(item->ToolSearchOutput_execution@)),
        json::member(wire::item_json(item)->Object_0, "tools"@)
            == Some(written::values(item->ToolSearchOutput_tools@)),
        forall|k: Seq<char>|
            k != "type"@ && k != "call_id"@ && k != "status"@ && k != "execution"@ && k != "tools"@
                ==> (#[trigger] json::member(wire::item_json(item)->Object_0, k)) is None,
{
    broadcast use written::group_members;

    reveal_strlit("type");
    reveal_strlit("call_id");
    reveal_strlit("status");
    reveal_strlit("execution");
    reveal_strlit("tools");
    assert("type"@.len() == 4);
    assert("call_id"@.len() == 7);
    assert("status"@.len() == 6);
    assert("execution"@.len() == 9);
    assert("tools"@.len() == 5);
    written::lemma_values(item->ToolSearchOutput_tools@);
}

/// Each field of an item of the type local shell call is written under its own name, and
/// nothing else is.
pub proof fn law_item_local_shell_call_members(item: ResponseItem)
    requires
        item is LocalShellCall,
    ensures
        wire::item_json(item) is Object,
        json::member(wire::item_json(item)->Object_0, "type"@)
            == Some(JsonView::Text("local_shell_call"@)),
        json::member(wire::item_json(item)->Object_0, "id"@)
            == written::opt_text(item->LocalShellCall_id),
        json::member(wire::item_json(item)->Object_0, "call_id"@)
            == written::opt_text(item->LocalShellCall_call_id),
        json::member(wire::item_json(item)->Object_0, "status"@)
            == Some(JsonView::Text(item->LocalShellCall_status@)),
        json::member(wire::item_json(item)->Object_0, "action"@)
            == Some(wire::shell_action_json(item->LocalShellCall_action)),
        forall|k: Seq<char>|
            k != "type"@ && k != "id"@ && k != "call_id"@ && k != "status"@ && k != "action"@
                ==> (#[trigger] json::member(wire::item_json(item)->Object_0, k)) is None,
{
    broadcast use written::group_members;

    reveal_strlit("type");
    reveal_strlit("id");
    reveal_strlit("call_id");
    reveal_strlit("status");
    reveal_strlit("action");
    assert("type"@.len() == 4);
    assert("id"@.len() == 2);
    assert("call_id"@.len() == 7);
    assert("status"@.len() == 6);
    assert("action"@.len() == 6);
    assert("status"@[0] != "action"@[0]);
}

/// Each field of an item of the type web search call is written under its own name, and nothing
/// else is.
pub proof fn law_item_web_search_call_members(item: ResponseItem)
    requires
        item is WebSearchCall,
    ensures
        wire::item_json(item) is Object,
        json::member(wire::item_json(item)->Object_0, "type"@)
            == Some(JsonView::Text("web_search_call"@)),
        json::member(wire::item_json(item)->Object_0, "id"@)
            == written::opt_text(item->WebSearchCall_id),
        json::member(wire::item_json(item)->Object_0, "status"@)
            == written::opt_text(item->WebSearchCall_status),
        json::member(wire::item_json(item)->Object_0, "action"@)
            == (match item->WebSearchCall_action {
                Some(x) => Some(wire::web_action_json(x)),
                None => None,
            }),
        forall|k: Seq<char>|
            k != "type"@ && k != "id"@ && k != "status"@ && k != "action"@
                ==> (#[trigger] json::member(wire::item_json(item)->Object_0, k)) is None,
{
    broadcast use written::group_members;

    reveal_strlit("type");
    reveal_strlit("id");
    reveal_strlit("status");
    reveal_strlit("action");
    assert("type"@.len() == 4);
    assert("id"@.len() == 2);
    assert("status"@.len() == 6);
    assert("action"@.len() == 6);
    assert("status"@[0] != "action"@[0]);
}

/// Each field of an item of the type image generation call is written under its own name, and
/// nothing else is.
pub proof fn law_item_image_generation_call_members(item: ResponseItem)
    requires
        item is ImageGenerationCall,
    ensures
        wire::item_json(item) is Object,
        json::member(wire::item_json(item)->Object_0, "type"@)
            == Some(JsonView::Text("image_generation_call"@)),
        json::member(wire::item_json(item)->Object_0, "id"@)
            == Some(JsonView::Text(item->ImageGenerationCall_id@)),
        json::member(wire::item_json(item)->Object_0, "status"@)
            == Some(JsonView::Text(item->ImageGenerationCall_status@)),
        json::member(wire::item_json(item)->Object_0, "revised_prompt"@)
            == written::opt_text(item->ImageGenerationCall_revised_prompt),
        json::member(wire::item_json(item)->Object_0, "result"@)
            == Some(JsonView::Text(item->ImageGenerationCall_result@)),
        forall|k: Seq<char>|
            k != "type"@ && k != "id"@ && k != "status"@ && k != "revised_prompt"@ && k != "result"@
                ==> (#[trigger] json::member(wire::item_json(item)->Object_0, k)) is None,
{
    broadcast use written::group_members;

    reveal_strlit("type");
    reveal_strlit("id");
    reveal_strlit("status");
    reveal_strlit("revised_prompt");
    reveal_strlit("result");
    assert("type"@.len() == 4);
    assert("id"@.len() == 2);
    assert("status"@.len() == 6);
    assert("revised_prompt"@.len() == 14);
    assert("result"@.len() == 6);
    assert("status"@[0] != "result"@[0]);
}

/// Each field of an agent's input text is written under its own name, and nothing else is.
pub proof fn law_agent_content_input_text_members(item: AgentMessageInputContent)
    requires
        item is InputText,
    ensures
        wire::agent_content_json(item) is Object,
        json::member(wire::agent_content_json(item)->Object_0, "type"@)
            == Some(JsonView::Text("input_text"@)),
        json::member(wire::agent_content_json(item)->Object_0, "text"@)
            == Some(JsonView::Text(item->InputText_text@)),
        forall|k: Seq<char>|
            k != "type"@ && k != "text"@
                ==> (#[trigger] json::member(wire::agent_content_json(item)->Object_0, k)) is None,
{
    broadcast use written::group_members;

    reveal_strlit("type");
    reveal_strlit("text");
    assert("type"@.len() == 4);
    assert("text"@.len() == 4);
    assert("type"@[1] != "text"@[1]);
}

/// Each field of an agent's encrypted content is written under its own name, and nothing else is.
pub proof fn law_agent_content_encrypted_content_members(item: AgentMessageInputContent)
    requires
        item is EncryptedContent,
    ensures
        wire::agent_content_json(item) is Object,
        json::member(wire::agent_content_json(item)->Object_0, "type"@)
            == Some(JsonView::Text("encrypted_content"@)),
        json::member(wire::agent_content_json(item)->Object_0, "encrypted_content"@)
            == Some(JsonView::Text(item->EncryptedContent_encrypted_content@)),
        forall|k: Seq<char>|
            k != "type"@ && k != "encrypted_content"@
                ==> (#[trigger] json::member(wire::agent_content_json(item)->Object_0, k)) is None,
{
    broadcast use written::group_members;

    reveal_strlit("type");
    reveal_strlit("encrypted_content");
    assert("type"@.len() == 4);
    assert("encrypted_content"@.len() == 17);
}

/// Each field of a summary text is written under its own name, and nothing else is.
pub proof fn law_summary_summary_text_members(item: ReasoningSummaryItem)
    requires
        item is SummaryText,
    ensures
        wire::summary_json(item) is Object,
        json::member(wire::summary_json(item)->Object_0, "type"@)
            == Some(JsonView::Text("summary_text"@)),
        json::member(wire::summary_json(item)->Object_0, "text"@)
            == Some(JsonView::Text(item->SummaryText_text@)),
        forall|k: Seq<char>|
            k != "type"@ && k != "text"@
                ==> (#[trigger] json::member(wire::summary_json(item)->Object_0, k)) is None,
{
    broadcast use written::group_members;

    reveal_strlit("type");
    reveal_strlit("text");
    assert("type"@.len() == 4);
    assert("text"@.len() == 4);
    assert("type"@[1] != "text"@[1]);
}

/// Each field of reasoning of the type reasoning text is written under its own name, and
/// nothing else is.
pub proof fn law_reasoning_reasoning_text_members(item: ReasoningContentItem)
    requires
        item is ReasoningText,
    ensures
        wire::reasoning_json(item) is Object,
        json::member(wire::reasoning_json(item)->Object_0, "type"@)
            == Some(JsonView::Text("reasoning_text"@)),
        json::member(wire::reasoning_json(item)->Object_0, "text"@)
            == Some(JsonView::Text(item->ReasoningText_text@)),
        forall|k: Seq<char>|
            k != "type"@ && k != "text"@
                ==> (#[trigger] json::member(wire::reasoning_json(item)->Object_0, k)) is None,
{
    broadcast use written::group_members;

    reveal_strlit("type");
    reveal_strlit("text");
    assert("type"@.len() == 4);
    assert("text"@.len() == 4);
    assert("type"@[1] != "text"@[1]);
}

/// Each field of reasoning of the type text is written under its own name, and nothing else is.
pub proof fn law_reasoning_text_members(item: ReasoningContentItem)
    requires
        item is Text,
    ensures
        wire::reasoning_json(item) is Object,
        json::member(wire::reasoning_json(item)->Object_0, "type"@)
            == Some(JsonView::Text("text"@)),
        json::member(wire::reasoning_json(item)->Object_0, "text"@)
            == Some(JsonView::Text(item->Text_text@)),
        forall|k: Seq<char>|
            k != "type"@ && k != "text"@
                ==> (#[trigger] json::member(wire::reasoning_json(item)->Object_0, k)) is None,
{
    broadcast use written::group_members;

    reveal_strlit("type");
    reveal_strlit("text");
    assert("type"@.len() == 4);
    assert("text"@.len() == 4);
    assert("type"@[1] != "text"@[1]);
}

/// Each field of a shell action exec is written under its own name, and nothing else is.
pub proof fn law_shell_action_exec_members(item: LocalShellAction)
    requires
        item is Exec,
    ensures
        wire::shell_action_json(item) is Object,
        json::member(wire::shell_action_json(item)->Object_0, "type"@)
            == Some(JsonView::Text("exec"@)),
        json::member(wire::shell_action_json(item)->Object_0, "command"@)
            == Some(written::texts(item->Exec_0.command@)),
        json::member(wire::shell_action_json(item)->Object_0, "timeout_ms"@)
            == written::opt_unsigned(item->Exec_0.timeout_ms),
        json::member(wire::shell_action_json(item)->Object_0, "working_directory"@)
            == written::opt_text(item->Exec_0.working_directory),
        json::member(wire::shell_action_json(item)->Object_0, "env"@)
            == (match item->Exec_0.env {
                Some(x) => Some(JsonView::Object(wire::env_members(x@, x@.len() as int))),
                None => None,
            }),
        json::member(wire::shell_action_json(item)->Object_0, "user"@)
            == written::opt_text(item->Exec_0.user),
        forall|k: Seq<char>|
            k != "type"@ && k != "command"@ && k != "timeout_ms"@ && k != "working_directory"@
                && k != "env"@ && k != "user"@
                ==> (#[trigger] json::member(wire::shell_action_json(item)->Object_0, k)) is None,
{
    broadcast use written::group_members;

    reveal_strlit("type");
    reveal_strlit("command");
    reveal_strlit("timeout_ms");
    reveal_strlit("working_directory");
    reveal_strlit("env");
    reveal_strlit("user");
    assert("type"@.len() == 4);
    assert("command"@.len() == 7);
    assert("timeout_ms"@.len() == 10);
    assert("working_directory"@.len() == 17);
    assert("env"@.len() == 3);
    assert("user"@.len() == 4);
    assert("type"@[0] != "user"@[0]);
    written::lemma_texts(item->Exec_0.command@);
}

/// Each field of a web action search is written under its own name, and nothing else is.
pub proof fn law_web_action_search_members(item: WebSearchAction)
    requires
        item is Search,
    ensures
        wire::web_action_json(item) is Object,
        json::member(wire::web_action_json(item)->Object_0, "type"@)
            == Some(JsonView::Text("search"@)),
        json::member(wire::web_action_json(item)->Object_0, "query"@)
            == written::opt_text(item->Search_query),
        json::member(wire::web_action_json(item)->Object_0, "queries"@)
            == written::opt_texts(item->Search_queries),
        json::member(wire::web_action_json(item)->Object_0, "sources"@)
            == written::opt_values(item->Search_sources),
        forall|k: Seq<char>|
            k != "type"@ && k != "query"@ && k != "queries"@ && k != "sources"@
                ==> (#[trigger] json::member(wire::web_action_json(item)->Object_0, k)) is None,
{
    broadcast use written::group_members;

    reveal_strlit("type");
    reveal_strlit("query");
    reveal_strlit("queries");
    reveal_strlit("sources");
    assert("type"@.len() == 4);
    assert("query"@.len() == 5);
    assert("queries"@.len() == 7);
    assert("sources"@.len() == 7);
    assert("queries"@[0] != "sources"@[0]);
    if let Some(x) = item->Search_queries {
        written::lemma_texts(x@);
    }
    if let Some(x) = item->Search_sources {
        written::lemma_values(x@);
    }
}

/// Each field of a web action open page is written under its own name, and nothing else is.
pub proof fn law_web_action_open_page_members(item: WebSearchAction)
    requires
        item is OpenPage,
    ensures
        wire::web_action_json(item) is Object,
        json::member(wire::web_action_json(item)->Object_0, "type"@)
            == Some(JsonView::Text("open_page"@)),
        json::member(wire::web_action_json(item)->Object_0, "url"@)
            == written::opt_text(item->OpenPage_url),
        forall|k: Seq<char>|
            k != "type"@ && k != "url"@
                ==> (#[trigger] json::member(wire::web_action_json(item)->Object_0, k)) is None,
{
    broadcast use written::group_members;

    reveal_strlit("type");
    reveal_strlit("url");
    assert("type"@.len() == 4);
    assert("url"@.len() == 3);
}

/// Each field of a web action find in page is written under its own name, and nothing else is.
pub proof fn law_web_action_find_in_page_members(item: WebSearchAction)
    requires
        item is FindInPage,
    ensures
        wire::web_action_json(item) is Object,
        json::member(wire::web_action_json(item)->Object_0, "type"@)
            == Some(JsonView::Text("find_in_page"@)),
        json::member(wire::web_action_json(item)->Object_0, "url"@)
            == written::opt_text(item->FindInPage_url),
        json::member(wire::web_action_json(item)->Object_0, "pattern"@)
            == written::opt_text(item->FindInPage_pattern),
        forall|k: Seq<char>|
            k != "type"@ && k != "url"@ && k != "pattern"@
                ==> (#[trigger] json::member(wire::web_action_json(item)->Object_0, k)) is None,
{
    broadcast use written::group_members;

    reveal_strlit("type");
    reveal_strlit("url");
    reveal_strlit("pattern");
    assert("type"@.len() == 4);
    assert("url"@.len() == 3);
    assert("pattern"@.len() == 7);
}

/// Each field of a web action other is written under its own name, and nothing else is.
pub proof fn law_web_action_other_members(item: WebSearchAction)
    requires
        item is Other,
    ensures
        wire::web_action_json(item) is Object,
        json::member(wire::web_action_json(item)->Object_0, "type"@)
            == Some(JsonView::Text("other"@)),
        forall|k: Seq<char>|
            k != "type"@
                ==> (#[trigger] json::member(wire::web_action_json(item)->Object_0, k)) is None,
{
    broadcast use written::group_members;

    reveal_strlit("type");
    assert("type"@.len() == 4);
}

/// What is written of a list is each element, in order.
pub proof fn law_items_in_order(items: Seq<ResponseItem>, i: int)
    requires
        0 <= i < items.len(),
    ensures
        wire::items_json(items) is Array,
        wire::items_json(items)->Array_0.len() == items.len(),
        wire::items_json(items)->Array_0[i] == wire::item_json(items[i]),
{
}

/// What is written of a list is each element, in order.
pub proof fn law_agent_contents_in_order(items: Seq<AgentMessageInputContent>, i: int)
    requires
        0 <= i < items.len(),
    ensures
        wire::agent_contents_json(items) is Array,
        wire::agent_contents_json(items)->Array_0.len() == items.len(),
        wire::agent_contents_json(items)->Array_0[i] == wire::agent_content_json(items[i]),
{
}

/// What is written of a list is each element, in order.
pub proof fn law_summaries_in_order(items: Seq<ReasoningSummaryItem>, i: int)
    requires
        0 <= i < items.len(),
    ensures
        wire::summaries_json(items) is Array,
        wire::summaries_json(items)->Array_0.len() == items.len(),
        wire::summaries_json(items)->Array_0[i] == wire::summary_json(items[i]),
{
}

/// What is written of a list is each element, in order.
pub proof fn law_reasonings_in_order(items: Seq<ReasoningContentItem>, i: int)
    requires
        0 <= i < items.len(),
    ensures
        wire::reasonings_json(items) is Array,
        wire::reasonings_json(items)->Array_0.len() == items.len(),
        wire::reasonings_json(items)->Array_0[i] == wire::reasoning_json(items[i]),
{
}

} // verus!
