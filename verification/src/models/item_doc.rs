//! Items of the Responses surface as they are written, which stand for the JSON that they
//! are.
use vstd::prelude::*;

use crate::json_doc;
use crate::json_doc::Doc;
use crate::models::item_text;
use crate::models::responses;
use crate::models::responses::AgentMessageInputContent;
use crate::models::responses::ContentItem;
use crate::models::responses::FunctionCallOutputContent;
use crate::models::responses::LocalShellAction;
use crate::models::responses::ReasoningContentItem;
use crate::models::responses::ReasoningSummaryItem;
use crate::models::responses::ResponseItem;
use crate::models::responses::WebSearchAction;
use crate::models::wire;
use crate::text;

verus! {

/// A content part as it is written.
pub open spec fn content_doc(item: ContentItem) -> Doc {
    match item {
        ContentItem::InputText { text } => {
            let m = json_doc::tagged("input_text"@);
            let m = json_doc::put_text(m, "text"@, text@);
            Doc::Object(m)
        },
        ContentItem::InputImage { image_url, file_id, detail } => {
            let m = json_doc::tagged("input_image"@);
            let m = json_doc::put_opt_text(m, "image_url"@, text::opt_view(image_url));
            let m = json_doc::put_opt_text(m, "file_id"@, text::opt_view(file_id));
            let m = json_doc::put_opt_text(m, "detail"@, text::opt_view(detail));
            Doc::Object(m)
        },
        ContentItem::InputFile { file_id, file_url, filename, file_data } => {
            let m = json_doc::tagged("input_file"@);
            let m = json_doc::put_opt_text(m, "file_id"@, text::opt_view(file_id));
            let m = json_doc::put_opt_text(m, "file_url"@, text::opt_view(file_url));
            let m = json_doc::put_opt_text(m, "filename"@, text::opt_view(filename));
            let m = json_doc::put_opt_text(m, "file_data"@, text::opt_view(file_data));
            Doc::Object(m)
        },
        ContentItem::OutputText { text } => {
            let m = json_doc::tagged("output_text"@);
            let m = json_doc::put_text(m, "text"@, text@);
            Doc::Object(m)
        },
        ContentItem::Refusal { refusal } => {
            let m = json_doc::tagged("refusal"@);
            let m = json_doc::put_text(m, "refusal"@, refusal@);
            Doc::Object(m)
        },
        ContentItem::Other(value) => Doc::Value(value@),
    }
}

proof fn lemma_content(item: ContentItem)
    ensures
        json_doc::text_of(content_doc(item)) == item_text::content_text(item),
        json_doc::value_of(content_doc(item)) == responses::content_json(item@),
{
    broadcast use json_doc::group_members;

}

/// Content parts as they are written.
pub open spec fn contents_doc(items: Seq<ContentItem>) -> Doc {
    Doc::Array(items.map_values(|item: ContentItem| content_doc(item)))
}

proof fn lemma_contents(items: Seq<ContentItem>)
    ensures
        json_doc::text_of(contents_doc(items)) == item_text::contents_text(items),
        json_doc::value_of(contents_doc(items)) == responses::contents_json(items),
{
    let docs = items.map_values(|item: ContentItem| content_doc(item));
    let shown = items.map_values(|item: ContentItem| item_text::content_text(item));
    let meant = items.map_values(|item: ContentItem| responses::content_json(item@));
    assert forall|i: int| 0 <= i < docs.len() implies json_doc::text_of(#[trigger] docs[i])
        == shown[i] && json_doc::value_of(docs[i]) == meant[i] by {
        lemma_content(items[i]);
    }
    json_doc::lemma_array(docs, shown, meant);
}

/// Function output as it is written.
pub open spec fn output_doc(output: FunctionCallOutputContent) -> Doc {
    match output {
        FunctionCallOutputContent::Text(t) => Doc::Text(t@),
        FunctionCallOutputContent::Content(content) => contents_doc(content@),
    }
}

proof fn lemma_output(output: FunctionCallOutputContent)
    ensures
        json_doc::text_of(output_doc(output)) == item_text::output_text(output),
        json_doc::value_of(output_doc(output)) == responses::output_json(output),
{
    if let FunctionCallOutputContent::Content(content) = output {
        lemma_contents(content@);
    }
}

/// A part of an agent message as it is written.
pub open spec fn agent_content_doc(item: AgentMessageInputContent) -> Doc {
    match item {
        AgentMessageInputContent::InputText { text } => {
            let m = json_doc::tagged("input_text"@);
            let m = json_doc::put_text(m, "text"@, text@);
            Doc::Object(m)
        },
        AgentMessageInputContent::EncryptedContent { encrypted_content } => {
            let m = json_doc::tagged("encrypted_content"@);
            let m = json_doc::put_text(m, "encrypted_content"@, encrypted_content@);
            Doc::Object(m)
        },
    }
}

proof fn lemma_agent_content(item: AgentMessageInputContent)
    ensures
        json_doc::text_of(agent_content_doc(item)) == item_text::agent_content_text(item),
        json_doc::value_of(agent_content_doc(item)) == wire::agent_content_json(item),
{
    broadcast use json_doc::group_members;

}

/// Parts of an agent message as they are written.
pub open spec fn agent_contents_doc(items: Seq<AgentMessageInputContent>) -> Doc {
    Doc::Array(items.map_values(|item: AgentMessageInputContent| agent_content_doc(item)))
}

proof fn lemma_agent_contents(items: Seq<AgentMessageInputContent>)
    ensures
        json_doc::text_of(agent_contents_doc(items)) == item_text::agent_contents_text(items),
        json_doc::value_of(agent_contents_doc(items)) == wire::agent_contents_json(items),
{
    let docs = items.map_values(|item: AgentMessageInputContent| agent_content_doc(item));
    let shown = items.map_values(
        |item: AgentMessageInputContent| item_text::agent_content_text(item),
    );
    let meant = items.map_values(|item: AgentMessageInputContent| wire::agent_content_json(item));
    assert forall|i: int| 0 <= i < docs.len() implies json_doc::text_of(#[trigger] docs[i])
        == shown[i] && json_doc::value_of(docs[i]) == meant[i] by {
        lemma_agent_content(items[i]);
    }
    json_doc::lemma_array(docs, shown, meant);
}

/// A part of a reasoning summary as it is written.
pub open spec fn summary_doc(item: ReasoningSummaryItem) -> Doc {
    match item {
        ReasoningSummaryItem::SummaryText { text } => {
            let m = json_doc::tagged("summary_text"@);
            let m = json_doc::put_text(m, "text"@, text@);
            Doc::Object(m)
        },
    }
}

proof fn lemma_summary(item: ReasoningSummaryItem)
    ensures
        json_doc::text_of(summary_doc(item)) == item_text::summary_text(item),
        json_doc::value_of(summary_doc(item)) == wire::summary_json(item),
{
    broadcast use json_doc::group_members;

}

/// The parts of a reasoning summary as they are written.
pub open spec fn summaries_doc(items: Seq<ReasoningSummaryItem>) -> Doc {
    Doc::Array(items.map_values(|item: ReasoningSummaryItem| summary_doc(item)))
}

proof fn lemma_summaries(items: Seq<ReasoningSummaryItem>)
    ensures
        json_doc::text_of(summaries_doc(items)) == item_text::summaries_text(items),
        json_doc::value_of(summaries_doc(items)) == wire::summaries_json(items),
{
    let docs = items.map_values(|item: ReasoningSummaryItem| summary_doc(item));
    let shown = items.map_values(|item: ReasoningSummaryItem| item_text::summary_text(item));
    let meant = items.map_values(|item: ReasoningSummaryItem| wire::summary_json(item));
    assert forall|i: int| 0 <= i < docs.len() implies json_doc::text_of(#[trigger] docs[i])
        == shown[i] && json_doc::value_of(docs[i]) == meant[i] by {
        lemma_summary(items[i]);
    }
    json_doc::lemma_array(docs, shown, meant);
}

/// A part of reasoning as it is written.
pub open spec fn reasoning_doc(item: ReasoningContentItem) -> Doc {
    match item {
        ReasoningContentItem::ReasoningText { text } => {
            let m = json_doc::tagged("reasoning_text"@);
            let m = json_doc::put_text(m, "text"@, text@);
            Doc::Object(m)
        },
        ReasoningContentItem::Text { text } => {
            let m = json_doc::tagged("text"@);
            let m = json_doc::put_text(m, "text"@, text@);
            Doc::Object(m)
        },
    }
}

proof fn lemma_reasoning_part(item: ReasoningContentItem)
    ensures
        json_doc::text_of(reasoning_doc(item)) == item_text::reasoning_text(item),
        json_doc::value_of(reasoning_doc(item)) == wire::reasoning_json(item),
{
    broadcast use json_doc::group_members;

}

/// The parts of reasoning as they are written.
pub open spec fn reasonings_doc(items: Seq<ReasoningContentItem>) -> Doc {
    Doc::Array(items.map_values(|item: ReasoningContentItem| reasoning_doc(item)))
}

proof fn lemma_reasonings(items: Seq<ReasoningContentItem>)
    ensures
        json_doc::text_of(reasonings_doc(items)) == item_text::reasonings_text(items),
        json_doc::value_of(reasonings_doc(items)) == wire::reasonings_json(items),
{
    let docs = items.map_values(|item: ReasoningContentItem| reasoning_doc(item));
    let shown = items.map_values(|item: ReasoningContentItem| item_text::reasoning_text(item));
    let meant = items.map_values(|item: ReasoningContentItem| wire::reasoning_json(item));
    assert forall|i: int| 0 <= i < docs.len() implies json_doc::text_of(#[trigger] docs[i])
        == shown[i] && json_doc::value_of(docs[i]) == meant[i] by {
        lemma_reasoning_part(items[i]);
    }
    json_doc::lemma_array(docs, shown, meant);
}

/// The members that the first `n` variables are.
pub open spec fn env_members(env: Seq<(String, String)>, n: int) -> json_doc::Members
    decreases n,
{
    if n <= 0 || n > env.len() {
        Seq::empty()
    } else {
        json_doc::put_text(env_members(env, n - 1), env[n - 1].0@, env[n - 1].1@)
    }
}

proof fn lemma_env(env: Seq<(String, String)>, n: int)
    requires
        0 <= n <= env.len(),
    ensures
        json_doc::fields(env_members(env, n)) == item_text::env_fields(env, n),
        json_doc::members(env_members(env, n)) == wire::env_members(env, n),
    decreases n,
{
    broadcast use json_doc::group_members;

    json_doc::lemma_no_members();
    if n > 0 {
        lemma_env(env, n - 1);
    }
}

/// A shell action as it is written.
pub open spec fn shell_action_doc(item: LocalShellAction) -> Doc {
    match item {
        LocalShellAction::Exec(exec) => {
            let m = json_doc::tagged("exec"@);
            let m = json_doc::put(
                m,
                "command"@,
                json_doc::texts(text::strings_view(exec.command@)),
            );
            let m = match exec.timeout_ms {
                Some(x) => json_doc::put(m, "timeout_ms"@, Doc::Whole(x as int)),
                None => m,
            };
            let m = json_doc::put_opt_text(
                m,
                "working_directory"@,
                text::opt_view(exec.working_directory),
            );
            let m = match exec.env {
                Some(x) => json_doc::put(m, "env"@, Doc::Object(env_members(x@, x@.len() as int))),
                None => m,
            };
            let m = json_doc::put_opt_text(m, "user"@, text::opt_view(exec.user));
            Doc::Object(m)
        },
    }
}

proof fn lemma_shell_action(item: LocalShellAction)
    ensures
        json_doc::text_of(shell_action_doc(item)) == item_text::shell_action_text(item),
        json_doc::value_of(shell_action_doc(item)) == wire::shell_action_json(item),
{
    broadcast use json_doc::group_members;

    let LocalShellAction::Exec(exec) = item;
    json_doc::lemma_texts(text::strings_view(exec.command@));
    if let Some(env) = exec.env {
        lemma_env(env@, env@.len() as int);
    }
}

/// A web search action as it is written.
pub open spec fn web_action_doc(item: WebSearchAction) -> Doc {
    match item {
        WebSearchAction::Search { query, queries, sources } => {
            let m = json_doc::tagged("search"@);
            let m = json_doc::put_opt_text(m, "query"@, text::opt_view(query));
            let m = match queries {
                Some(x) => json_doc::put(m, "queries"@, json_doc::texts(text::strings_view(x@))),
                None => m,
            };
            let m = match sources {
                Some(x) => json_doc::put(m, "sources"@, json_doc::values(x@)),
                None => m,
            };
            Doc::Object(m)
        },
        WebSearchAction::OpenPage { url } => {
            let m = json_doc::tagged("open_page"@);
            let m = json_doc::put_opt_text(m, "url"@, text::opt_view(url));
            Doc::Object(m)
        },
        WebSearchAction::FindInPage { url, pattern } => {
            let m = json_doc::tagged("find_in_page"@);
            let m = json_doc::put_opt_text(m, "url"@, text::opt_view(url));
            let m = json_doc::put_opt_text(m, "pattern"@, text::opt_view(pattern));
            Doc::Object(m)
        },
        WebSearchAction::Other => {
            let m = json_doc::tagged("other"@);
            Doc::Object(m)
        },
    }
}

proof fn lemma_web_action(item: WebSearchAction)
    ensures
        json_doc::text_of(web_action_doc(item)) == item_text::web_action_text(item),
        json_doc::value_of(web_action_doc(item)) == wire::web_action_json(item),
{
    broadcast use json_doc::group_members;

    if let WebSearchAction::Search { queries, sources, .. } = item {
        if let Some(queries) = queries {
            json_doc::lemma_texts(text::strings_view(queries@));
        }
        if let Some(sources) = sources {
            json_doc::lemma_values(sources@);
        }
    }
}

/// An item as it is written.
pub open spec fn item_doc(item: ResponseItem) -> Doc {
    match item {
        ResponseItem::ItemReference { id } => {
            let m = json_doc::tagged("item_reference"@);
            let m = json_doc::put_text(m, "id"@, id@);
            Doc::Object(m)
        },
        ResponseItem::Message { id, role, content, phase } => {
            let m = json_doc::tagged("message"@);
            let m = json_doc::put_opt_text(m, "id"@, text::opt_view(id));
            let m = json_doc::put_text(m, "role"@, role@);
            let m = json_doc::put(m, "content"@, contents_doc(content@));
            let m = json_doc::put_opt_text(m, "phase"@, text::opt_view(phase));
            Doc::Object(m)
        },
        ResponseItem::AgentMessage { id, content } => {
            let m = json_doc::tagged("agent_message"@);
            let m = json_doc::put_opt_text(m, "id"@, text::opt_view(id));
            let m = json_doc::put(m, "content"@, agent_contents_doc(content@));
            Doc::Object(m)
        },
        ResponseItem::Reasoning { id, summary, content, encrypted_content } => {
            let m = json_doc::tagged("reasoning"@);
            let m = json_doc::put_text(m, "id"@, id@);
            let m = json_doc::put(m, "summary"@, summaries_doc(summary@));
            let m = match content {
                Some(x) => json_doc::put(m, "content"@, reasonings_doc(x@)),
                None => m,
            };
            let m = json_doc::put_opt_text(
                m,
                "encrypted_content"@,
                text::opt_view(encrypted_content),
            );
            Doc::Object(m)
        },
        ResponseItem::FunctionCall { id, name, namespace, arguments, call_id } => {
            let m = json_doc::tagged("function_call"@);
            let m = json_doc::put_opt_text(m, "id"@, text::opt_view(id));
            let m = json_doc::put_text(m, "name"@, name@);
            let m = json_doc::put_opt_text(m, "namespace"@, text::opt_view(namespace));
            let m = json_doc::put_text(m, "arguments"@, arguments@);
            let m = json_doc::put_text(m, "call_id"@, call_id@);
            Doc::Object(m)
        },
        ResponseItem::FunctionCallOutput { call_id, output } => {
            let m = json_doc::tagged("function_call_output"@);
            let m = json_doc::put_text(m, "call_id"@, call_id@);
            let m = json_doc::put(m, "output"@, output_doc(output));
            Doc::Object(m)
        },
        ResponseItem::CustomToolCall { id, status, call_id, name, input } => {
            let m = json_doc::tagged("custom_tool_call"@);
            let m = json_doc::put_opt_text(m, "id"@, text::opt_view(id));
            let m = json_doc::put_opt_text(m, "status"@, text::opt_view(status));
            let m = json_doc::put_text(m, "call_id"@, call_id@);
            let m = json_doc::put_text(m, "name"@, name@);
            let m = json_doc::put_text(m, "input"@, input@);
            Doc::Object(m)
        },
        ResponseItem::CustomToolCallOutput { call_id, name, output } => {
            let m = json_doc::tagged("custom_tool_call_output"@);
            let m = json_doc::put_text(m, "call_id"@, call_id@);
            let m = json_doc::put_opt_text(m, "name"@, text::opt_view(name));
            let m = json_doc::put(m, "output"@, output_doc(output));
            Doc::Object(m)
        },
        ResponseItem::ToolSearchCall { id, call_id, status, execution, arguments } => {
            let m = json_doc::tagged("tool_search_call"@);
            let m = json_doc::put_opt_text(m, "id"@, text::opt_view(id));
            let m = json_doc::put_opt_text(m, "call_id"@, text::opt_view(call_id));
            let m = json_doc::put_opt_text(m, "status"@, text::opt_view(status));
            let m = json_doc::put_text(m, "execution"@, execution@);
            let m = json_doc::put(m, "arguments"@, Doc::Value(arguments@));
            Doc::Object(m)
        },
        ResponseItem::ToolSearchOutput { call_id, status, execution, tools } => {
            let m = json_doc::tagged("tool_search_output"@);
            let m = json_doc::put_opt_text(m, "call_id"@, text::opt_view(call_id));
            let m = json_doc::put_text(m, "status"@, status@);
            let m = json_doc::put_text(m, "execution"@, execution@);
            let m = json_doc::put(m, "tools"@, json_doc::values(tools@));
            Doc::Object(m)
        },
        ResponseItem::LocalShellCall { id, call_id, status, action } => {
            let m = json_doc::tagged("local_shell_call"@);
            let m = json_doc::put_opt_text(m, "id"@, text::opt_view(id));
            let m = json_doc::put_opt_text(m, "call_id"@, text::opt_view(call_id));
            let m = json_doc::put_text(m, "status"@, status@);
            let m = json_doc::put(m, "action"@, shell_action_doc(action));
            Doc::Object(m)
        },
        ResponseItem::WebSearchCall { id, status, action } => {
            let m = json_doc::tagged("web_search_call"@);
            let m = json_doc::put_opt_text(m, "id"@, text::opt_view(id));
            let m = json_doc::put_opt_text(m, "status"@, text::opt_view(status));
            let m = match action {
                Some(x) => json_doc::put(m, "action"@, web_action_doc(x)),
                None => m,
            };
            Doc::Object(m)
        },
        ResponseItem::ImageGenerationCall { id, status, revised_prompt, result } => {
            let m = json_doc::tagged("image_generation_call"@);
            let m = json_doc::put_text(m, "id"@, id@);
            let m = json_doc::put_text(m, "status"@, status@);
            let m = json_doc::put_opt_text(m, "revised_prompt"@, text::opt_view(revised_prompt));
            let m = json_doc::put_text(m, "result"@, result@);
            Doc::Object(m)
        },
    }
}

proof fn lemma_item_reference(item: ResponseItem)
    requires
        item is ItemReference,
    ensures
        json_doc::text_of(item_doc(item)) == item_text::item_text(item),
        json_doc::value_of(item_doc(item)) == wire::item_json(item),
{
    broadcast use json_doc::group_members;

}

proof fn lemma_message(item: ResponseItem)
    requires
        item is Message,
    ensures
        json_doc::text_of(item_doc(item)) == item_text::item_text(item),
        json_doc::value_of(item_doc(item)) == wire::item_json(item),
{
    broadcast use json_doc::group_members;

    if let ResponseItem::Message { content, .. } = item {
        lemma_contents(content@);
    }
}

proof fn lemma_agent_message(item: ResponseItem)
    requires
        item is AgentMessage,
    ensures
        json_doc::text_of(item_doc(item)) == item_text::item_text(item),
        json_doc::value_of(item_doc(item)) == wire::item_json(item),
{
    broadcast use json_doc::group_members;

    if let ResponseItem::AgentMessage { content, .. } = item {
        lemma_agent_contents(content@);
    }
}

proof fn lemma_reasoning(item: ResponseItem)
    requires
        item is Reasoning,
    ensures
        json_doc::text_of(item_doc(item)) == item_text::item_text(item),
        json_doc::value_of(item_doc(item)) == wire::item_json(item),
{
    broadcast use json_doc::group_members;

    if let ResponseItem::Reasoning { summary, content, .. } = item {
        lemma_summaries(summary@);
        if let Some(content) = content {
            lemma_reasonings(content@);
        }
    }
}

proof fn lemma_function_call(item: ResponseItem)
    requires
        item is FunctionCall,
    ensures
        json_doc::text_of(item_doc(item)) == item_text::item_text(item),
        json_doc::value_of(item_doc(item)) == wire::item_json(item),
{
    broadcast use json_doc::group_members;

}

proof fn lemma_function_call_output(item: ResponseItem)
    requires
        item is FunctionCallOutput,
    ensures
        json_doc::text_of(item_doc(item)) == item_text::item_text(item),
        json_doc::value_of(item_doc(item)) == wire::item_json(item),
{
    broadcast use json_doc::group_members;

    if let ResponseItem::FunctionCallOutput { output, .. } = item {
        lemma_output(output);
    }
}

proof fn lemma_custom_tool_call(item: ResponseItem)
    requires
        item is CustomToolCall,
    ensures
        json_doc::text_of(item_doc(item)) == item_text::item_text(item),
        json_doc::value_of(item_doc(item)) == wire::item_json(item),
{
    broadcast use json_doc::group_members;

}

proof fn lemma_custom_tool_call_output(item: ResponseItem)
    requires
        item is CustomToolCallOutput,
    ensures
        json_doc::text_of(item_doc(item)) == item_text::item_text(item),
        json_doc::value_of(item_doc(item)) == wire::item_json(item),
{
    broadcast use json_doc::group_members;

    if let ResponseItem::CustomToolCallOutput { output, .. } = item {
        lemma_output(output);
    }
}

proof fn lemma_tool_search_call(item: ResponseItem)
    requires
        item is ToolSearchCall,
    ensures
        json_doc::text_of(item_doc(item)) == item_text::item_text(item),
        json_doc::value_of(item_doc(item)) == wire::item_json(item),
{
    broadcast use json_doc::group_members;

}

proof fn lemma_tool_search_output(item: ResponseItem)
    requires
        item is ToolSearchOutput,
    ensures
        json_doc::text_of(item_doc(item)) == item_text::item_text(item),
        json_doc::value_of(item_doc(item)) == wire::item_json(item),
{
    broadcast use json_doc::group_members;

    if let ResponseItem::ToolSearchOutput { tools, .. } = item {
        json_doc::lemma_values(tools@);
    }
}

proof fn lemma_local_shell_call(item: ResponseItem)
    requires
        item is LocalShellCall,
    ensures
        json_doc::text_of(item_doc(item)) == item_text::item_text(item),
        json_doc::value_of(item_doc(item)) == wire::item_json(item),
{
    broadcast use json_doc::group_members;

    if let ResponseItem::LocalShellCall { action, .. } = item {
        lemma_shell_action(action);
    }
}

proof fn lemma_web_search_call(item: ResponseItem)
    requires
        item is WebSearchCall,
    ensures
        json_doc::text_of(item_doc(item)) == item_text::item_text(item),
        json_doc::value_of(item_doc(item)) == wire::item_json(item),
{
    broadcast use json_doc::group_members;

    if let ResponseItem::WebSearchCall { action: Some(action), .. } = item {
        lemma_web_action(action);
    }
}

proof fn lemma_image_generation_call(item: ResponseItem)
    requires
        item is ImageGenerationCall,
    ensures
        json_doc::text_of(item_doc(item)) == item_text::item_text(item),
        json_doc::value_of(item_doc(item)) == wire::item_json(item),
{
    broadcast use json_doc::group_members;

}

proof fn lemma_item(item: ResponseItem)
    ensures
        json_doc::text_of(item_doc(item)) == item_text::item_text(item),
        json_doc::value_of(item_doc(item)) == wire::item_json(item),
{
    match item {
        ResponseItem::ItemReference { .. } => {
            lemma_item_reference(item);
        },
        ResponseItem::Message { .. } => {
            lemma_message(item);
        },
        ResponseItem::AgentMessage { .. } => {
            lemma_agent_message(item);
        },
        ResponseItem::Reasoning { .. } => {
            lemma_reasoning(item);
        },
        ResponseItem::FunctionCall { .. } => {
            lemma_function_call(item);
        },
        ResponseItem::FunctionCallOutput { .. } => {
            lemma_function_call_output(item);
        },
        ResponseItem::CustomToolCall { .. } => {
            lemma_custom_tool_call(item);
        },
        ResponseItem::CustomToolCallOutput { .. } => {
            lemma_custom_tool_call_output(item);
        },
        ResponseItem::ToolSearchCall { .. } => {
            lemma_tool_search_call(item);
        },
        ResponseItem::ToolSearchOutput { .. } => {
            lemma_tool_search_output(item);
        },
        ResponseItem::LocalShellCall { .. } => {
            lemma_local_shell_call(item);
        },
        ResponseItem::WebSearchCall { .. } => {
            lemma_web_search_call(item);
        },
        ResponseItem::ImageGenerationCall { .. } => {
            lemma_image_generation_call(item);
        },
    }
}

/// Items as they are written.
pub open spec fn items_doc(items: Seq<ResponseItem>) -> Doc {
    Doc::Array(items.map_values(|item: ResponseItem| item_doc(item)))
}

/// The text of items, and what it stands for.
pub proof fn lemma_items(items: Seq<ResponseItem>)
    ensures
        json_doc::text_of(items_doc(items)) == item_text::items_text(items),
        json_doc::value_of(items_doc(items)) == wire::items_json(items),
{
    let docs = items.map_values(|item: ResponseItem| item_doc(item));
    let shown = items.map_values(|item: ResponseItem| item_text::item_text(item));
    let meant = items.map_values(|item: ResponseItem| wire::item_json(item));
    assert forall|i: int| 0 <= i < docs.len() implies json_doc::text_of(#[trigger] docs[i])
        == shown[i] && json_doc::value_of(docs[i]) == meant[i] by {
        lemma_item(items[i]);
    }
    json_doc::lemma_array(docs, shown, meant);
}

} // verus!
