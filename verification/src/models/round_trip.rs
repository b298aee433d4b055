//! Items that are written as JSON and read again are the same.
use vstd::prelude::*;

use crate::json;
use crate::json::JsonView;
use crate::models::read;
use crate::models::responses;
use crate::models::responses::AgentMessageInputContent;
use crate::models::responses::ContentItem;
use crate::models::responses::ContentView;
use crate::models::responses::FunctionCallOutputContent;
use crate::models::responses::LocalShellAction;
use crate::models::responses::ReasoningContentItem;
use crate::models::responses::ReasoningSummaryItem;
use crate::models::responses::ResponseItem;
use crate::models::responses::WebSearchAction;
use crate::models::wire;
use crate::text;

verus! {

/// A content part that is not of a type which the gateway knows is an object, and says so.
pub open spec fn is_plain_content(c: ContentView) -> bool {
    c matches ContentView::Other(v) ==> v is Object && !responses::is_known_type(
        json::text_member(v->Object_0, "type"@),
    )
}

/// All parts are plain.
pub open spec fn are_plain_contents(content: Seq<ContentItem>) -> bool {
    forall|i: int| 0 <= i < content.len() ==> is_plain_content((#[trigger] content[i])@)
}

/// The output is a text, or its parts are plain.
pub open spec fn is_plain_output(output: FunctionCallOutputContent) -> bool {
    output matches FunctionCallOutputContent::Content(content) ==> are_plain_contents(content@)
}

/// The names of variables ascend, so that none is there twice.
pub open spec fn names_ascend(env: Seq<(String, String)>) -> bool {
    forall|i: int, j: int|
        0 <= i < j < env.len() ==> text::before((#[trigger] env[i]).0@, (#[trigger] env[j]).0@)
}

/// An item that JSON can hold as it is: its content is plain, and no variable is there
/// twice.
pub open spec fn is_plain_item(item: ResponseItem) -> bool {
    match item {
        ResponseItem::Message { content, .. } => are_plain_contents(content@),
        ResponseItem::FunctionCallOutput { output, .. } => is_plain_output(output),
        ResponseItem::CustomToolCallOutput { output, .. } => is_plain_output(output),
        ResponseItem::LocalShellCall { action, .. } => match action {
            LocalShellAction::Exec(exec) => exec.env matches Some(env) ==> names_ascend(env@),
        },
        _ => true,
    }
}

proof fn lemma_contents(content: Seq<ContentItem>)
    requires
        are_plain_contents(content),
    ensures
        responses::contents_json(content) matches JsonView::Array(items) && read::contents_of(
            items,
        ) == Some(responses::contents_view(content)),
{
    let items = content.map_values(|c: ContentItem| responses::content_json(c@));
    assert forall|i: int| 0 <= i < items.len() implies read::content_read(#[trigger] items[i])
        == Some(content[i]@) by {
        responses::law_content_round_trip(content[i]@);
    }
    assert(read::contents_of(items)->0 =~= responses::contents_view(content));
}

proof fn lemma_output(output: FunctionCallOutputContent, m: Seq<(Seq<char>, JsonView)>)
    requires
        is_plain_output(output),
        json::member(m, "output"@) == Some(responses::output_json(output)),
    ensures
        read::output_at(m, "output"@) == Some(output@),
{
    if let FunctionCallOutputContent::Content(content) = output {
        lemma_contents(content@);
    }
}

proof fn lemma_texts(texts: Seq<String>)
    ensures
        json::text_array(text::strings_view(texts)) matches JsonView::Array(items)
            && read::texts_of(items) == Some(text::strings_view(texts)),
{
    let views = text::strings_view(texts);
    let items = views.map_values(|t: Seq<char>| JsonView::Text(t));
    assert(read::texts_of(items)->0 =~= views);
}

proof fn lemma_agent_content(item: AgentMessageInputContent)
    ensures
        read::agent_content_part_from(wire::agent_content_json(item)) == Some(item@),
{
    broadcast use json::lemma_member_of_set;

    reveal_strlit("type");
    reveal_strlit("text");
    reveal_strlit("encrypted_content");
    reveal_strlit("input_text");
    assert("type"@.len() == 4);
    assert("text"@.len() == 4);
    assert("encrypted_content"@.len() == 17);
    assert("input_text"@.len() == 10);
    assert("type"@[1] != "text"@[1]);
}

proof fn lemma_agent_contents(items: Seq<AgentMessageInputContent>)
    ensures
        read::each_agent_content_from(
            items.map_values(|item: AgentMessageInputContent| wire::agent_content_json(item)),
        ) == Some(
            read::agent_contents_view(items),
        ),
{
    let values = items.map_values(|item: AgentMessageInputContent| wire::agent_content_json(item));
    assert forall|i: int|
        0 <= i < values.len() implies read::agent_content_part_from(#[trigger] values[i]) == Some(
        items[i]@,
    ) by {
        lemma_agent_content(items[i]);
    }
    assert(read::each_agent_content_from(values)->0 =~= read::agent_contents_view(items));
}

proof fn lemma_summary(item: ReasoningSummaryItem)
    ensures
        read::summary_part_from(wire::summary_json(item)) == Some(item@),
{
    broadcast use json::lemma_member_of_set;

    reveal_strlit("type");
    reveal_strlit("text");
    reveal_strlit("summary_text");
    assert("type"@.len() == 4);
    assert("text"@.len() == 4);
    assert("summary_text"@.len() == 12);
    assert("type"@[1] != "text"@[1]);
}

proof fn lemma_summaries(items: Seq<ReasoningSummaryItem>)
    ensures
        read::each_summary_from(
            items.map_values(|item: ReasoningSummaryItem| wire::summary_json(item)),
        ) == Some(
            read::summaries_view(items),
        ),
{
    let values = items.map_values(|item: ReasoningSummaryItem| wire::summary_json(item));
    assert forall|i: int|
        0 <= i < values.len() implies read::summary_part_from(#[trigger] values[i]) == Some(
        items[i]@,
    ) by {
        lemma_summary(items[i]);
    }
    assert(read::each_summary_from(values)->0 =~= read::summaries_view(items));
}

proof fn lemma_reasoning(item: ReasoningContentItem)
    ensures
        read::reasoning_part_from(wire::reasoning_json(item)) == Some(item@),
{
    broadcast use json::lemma_member_of_set;

    reveal_strlit("type");
    reveal_strlit("text");
    reveal_strlit("reasoning_text");
    assert("type"@.len() == 4);
    assert("text"@.len() == 4);
    assert("reasoning_text"@.len() == 14);
    assert("type"@[1] != "text"@[1]);
}

proof fn lemma_reasonings(items: Seq<ReasoningContentItem>)
    ensures
        read::each_reasoning_from(
            items.map_values(|item: ReasoningContentItem| wire::reasoning_json(item)),
        ) == Some(
            read::reasonings_view(items),
        ),
{
    let values = items.map_values(|item: ReasoningContentItem| wire::reasoning_json(item));
    assert forall|i: int|
        0 <= i < values.len() implies read::reasoning_part_from(#[trigger] values[i]) == Some(
        items[i]@,
    ) by {
        lemma_reasoning(items[i]);
    }
    assert(read::each_reasoning_from(values)->0 =~= read::reasonings_view(items));
}

proof fn lemma_web(item: WebSearchAction)
    ensures
        read::web_part_from(wire::web_action_json(item)) == Some(item@),
{
    broadcast use json::lemma_member_of_set;

    if let WebSearchAction::Search { queries: Some(queries), .. } = item {
        lemma_texts(queries@);
    }

    reveal_strlit("type");
    reveal_strlit("query");
    reveal_strlit("queries");
    reveal_strlit("sources");
    reveal_strlit("url");
    reveal_strlit("pattern");
    reveal_strlit("search");
    reveal_strlit("open_page");
    reveal_strlit("find_in_page");
    reveal_strlit("other");
    assert("type"@.len() == 4);
    assert("query"@.len() == 5);
    assert("queries"@.len() == 7);
    assert("sources"@.len() == 7);
    assert("url"@.len() == 3);
    assert("pattern"@.len() == 7);
    assert("search"@.len() == 6);
    assert("open_page"@.len() == 9);
    assert("find_in_page"@.len() == 12);
    assert("other"@.len() == 5);
    assert("query"@[0] != "other"@[0]);
    assert("queries"@[0] != "sources"@[0]);
    assert("queries"@[0] != "pattern"@[0]);
    assert("sources"@[0] != "pattern"@[0]);
}

proof fn lemma_env(env: Seq<(String, String)>, n: int)
    requires
        names_ascend(env),
        0 <= n <= env.len(),
    ensures
        wire::env_members(env, n) == read::env_view(env).take(n).map_values(
            |e: (Seq<char>, Seq<char>)| (e.0, JsonView::Text(e.1)),
        ),
    decreases n,
{
    let shown = |e: (Seq<char>, Seq<char>)| (e.0, JsonView::Text(e.1));
    let views = read::env_view(env);
    if n > 0 {
        lemma_env(env, n - 1);
        let before = wire::env_members(env, n - 1);
        let key = env[n - 1].0@;
        assert forall|k: int| 0 <= k < before.len() implies text::before(
            (#[trigger] before[k]).0,
            key,
        ) by {
            assert(before[k].0 == env[k].0@);
        }
        lemma_set_last(before, key, JsonView::Text(env[n - 1].1@), 0);
        assert(before.push((key, JsonView::Text(env[n - 1].1@))) =~= views.take(n).map_values(
            shown,
        ));
    } else {
        assert(views.take(0).map_values(shown) =~= Seq::empty());
    }
}

proof fn lemma_set_last(m: Seq<(Seq<char>, JsonView)>, key: Seq<char>, v: JsonView, i: int)
    requires
        0 <= i <= m.len(),
        forall|k: int| 0 <= k < m.len() ==> text::before((#[trigger] m[k]).0, key),
    ensures
        json::with_member(m, key, v, i) == m.push((key, v)),
    decreases m.len() - i,
{
    if i < m.len() {
        assert(text::before(m[i].0, key));
        text::lemma_before_irreflexive(key, 0);
        if text::before(key, m[i].0) {
            text::lemma_before_transitive(key, m[i].0, key, 0);
        }
        lemma_set_last(m, key, v, i + 1);
    }
}

proof fn lemma_shell(item: LocalShellAction)
    requires
        item matches LocalShellAction::Exec(exec) ==> (exec.env matches Some(env) ==> names_ascend(
            env@,
        )),
    ensures
        read::shell_part_from(wire::shell_action_json(item)) == Some(item@),
{
    broadcast use json::lemma_member_of_set;

    reveal_strlit("type");
    reveal_strlit("command");
    reveal_strlit("timeout_ms");
    reveal_strlit("working_directory");
    reveal_strlit("env");
    reveal_strlit("user");
    reveal_strlit("exec");
    assert("type"@.len() == 4);
    assert("command"@.len() == 7);
    assert("timeout_ms"@.len() == 10);
    assert("working_directory"@.len() == 17);
    assert("env"@.len() == 3);
    assert("user"@.len() == 4);
    assert("exec"@.len() == 4);
    assert("type"@[0] != "user"@[0]);
    assert("type"@[0] != "exec"@[0]);
    assert("user"@[0] != "exec"@[0]);
    match item {
        LocalShellAction::Exec(exec) => {
            lemma_texts(exec.command@);
            if let Some(env) = exec.env {
                lemma_env(env@, env@.len() as int);
                let views = read::env_view(env@);
                let members = wire::env_members(env@, env@.len() as int);
                assert(views.take(env@.len() as int) =~= views);
                assert(read::all_text_members(members));
                assert(members.map_values(|e: (Seq<char>, JsonView)| (e.0, e.1->Text_0))
                    =~= views);
            }
        },
    }
}

proof fn lemma_item_types()
    ensures
        "item_reference"@ != "message"@,
        "item_reference"@ != "agent_message"@,
        "item_reference"@ != "reasoning"@,
        "item_reference"@ != "function_call"@,
        "item_reference"@ != "function_call_output"@,
        "item_reference"@ != "custom_tool_call"@,
        "item_reference"@ != "custom_tool_call_output"@,
        "item_reference"@ != "tool_search_call"@,
        "item_reference"@ != "tool_search_output"@,
        "item_reference"@ != "local_shell_call"@,
        "item_reference"@ != "web_search_call"@,
        "item_reference"@ != "image_generation_call"@,
        "message"@ != "agent_message"@,
        "message"@ != "reasoning"@,
        "message"@ != "function_call"@,
        "message"@ != "function_call_output"@,
        "message"@ != "custom_tool_call"@,
        "message"@ != "custom_tool_call_output"@,
        "message"@ != "tool_search_call"@,
        "message"@ != "tool_search_output"@,
        "message"@ != "local_shell_call"@,
        "message"@ != "web_search_call"@,
        "message"@ != "image_generation_call"@,
        "agent_message"@ != "reasoning"@,
        "agent_message"@ != "function_call"@,
        "agent_message"@ != "function_call_output"@,
        "agent_message"@ != "custom_tool_call"@,
        "agent_message"@ != "custom_tool_call_output"@,
        "agent_message"@ != "tool_search_call"@,
        "agent_message"@ != "tool_search_output"@,
        "agent_message"@ != "local_shell_call"@,
        "agent_message"@ != "web_search_call"@,
        "agent_message"@ != "image_generation_call"@,
        "reasoning"@ != "function_call"@,
        "reasoning"@ != "function_call_output"@,
        "reasoning"@ != "custom_tool_call"@,
        "reasoning"@ != "custom_tool_call_output"@,
        "reasoning"@ != "tool_search_call"@,
        "reasoning"@ != "tool_search_output"@,
        "reasoning"@ != "local_shell_call"@,
        "reasoning"@ != "web_search_call"@,
        "reasoning"@ != "image_generation_call"@,
        "function_call"@ != "function_call_output"@,
        "function_call"@ != "custom_tool_call"@,
        "function_call"@ != "custom_tool_call_output"@,
        "function_call"@ != "tool_search_call"@,
        "function_call"@ != "tool_search_output"@,
        "function_call"@ != "local_shell_call"@,
        "function_call"@ != "web_search_call"@,
        "function_call"@ != "image_generation_call"@,
        "function_call_output"@ != "custom_tool_call"@,
        "function_call_output"@ != "custom_tool_call_output"@,
        "function_call_output"@ != "tool_search_call"@,
        "function_call_output"@ != "tool_search_output"@,
        "function_call_output"@ != "local_shell_call"@,
        "function_call_output"@ != "web_search_call"@,
        "function_call_output"@ != "image_generation_call"@,
        "custom_tool_call"@ != "custom_tool_call_output"@,
        "custom_tool_call"@ != "tool_search_call"@,
        "custom_tool_call"@ != "tool_search_output"@,
        "custom_tool_call"@ != "local_shell_call"@,
        "custom_tool_call"@ != "web_search_call"@,
        "custom_tool_call"@ != "image_generation_call"@,
        "custom_tool_call_output"@ != "tool_search_call"@,
        "custom_tool_call_output"@ != "tool_search_output"@,
        "custom_tool_call_output"@ != "local_shell_call"@,
        "custom_tool_call_output"@ != "web_search_call"@,
        "custom_tool_call_output"@ != "image_generation_call"@,
        "tool_search_call"@ != "tool_search_output"@,
        "tool_search_call"@ != "local_shell_call"@,
        "tool_search_call"@ != "web_search_call"@,
        "tool_search_call"@ != "image_generation_call"@,
        "tool_search_output"@ != "local_shell_call"@,
        "tool_search_output"@ != "web_search_call"@,
        "tool_search_output"@ != "image_generation_call"@,
        "local_shell_call"@ != "web_search_call"@,
        "local_shell_call"@ != "image_generation_call"@,
        "web_search_call"@ != "image_generation_call"@,
{
    reveal_strlit("item_reference");
    reveal_strlit("message");
    reveal_strlit("agent_message");
    reveal_strlit("reasoning");
    reveal_strlit("function_call");
    reveal_strlit("function_call_output");
    reveal_strlit("custom_tool_call");
    reveal_strlit("custom_tool_call_output");
    reveal_strlit("tool_search_call");
    reveal_strlit("tool_search_output");
    reveal_strlit("local_shell_call");
    reveal_strlit("web_search_call");
    reveal_strlit("image_generation_call");
    assert("item_reference"@.len() == 14);
    assert("message"@.len() == 7);
    assert("agent_message"@.len() == 13);
    assert("reasoning"@.len() == 9);
    assert("function_call"@.len() == 13);
    assert("function_call_output"@.len() == 20);
    assert("custom_tool_call"@.len() == 16);
    assert("custom_tool_call_output"@.len() == 23);
    assert("tool_search_call"@.len() == 16);
    assert("tool_search_output"@.len() == 18);
    assert("local_shell_call"@.len() == 16);
    assert("web_search_call"@.len() == 15);
    assert("image_generation_call"@.len() == 21);
    assert("agent_message"@[0] != "function_call"@[0]);
    assert("custom_tool_call"@[0] != "tool_search_call"@[0]);
    assert("custom_tool_call"@[0] != "local_shell_call"@[0]);
    assert("tool_search_call"@[0] != "local_shell_call"@[0]);
}

proof fn lemma_item_item_reference(item: ResponseItem)
    requires
        item is ItemReference,
        is_plain_item(item),
    ensures
        read::item_from(wire::item_json(item)) == Some(item@),
{
    broadcast use json::lemma_member_of_set;

    lemma_item_types();
    reveal_strlit("type");
    reveal_strlit("id");
    assert("type"@.len() == 4);
    assert("id"@.len() == 2);
    if let ResponseItem::ItemReference { id } = item {
    }
}

proof fn lemma_item_message(item: ResponseItem)
    requires
        item is Message,
        is_plain_item(item),
    ensures
        read::item_from(wire::item_json(item)) == Some(item@),
{
    broadcast use json::lemma_member_of_set;

    lemma_item_types();
    reveal_strlit("type");
    reveal_strlit("id");
    reveal_strlit("role");
    reveal_strlit("content");
    reveal_strlit("phase");
    assert("type"@.len() == 4);
    assert("id"@.len() == 2);
    assert("role"@.len() == 4);
    assert("content"@.len() == 7);
    assert("phase"@.len() == 5);
    assert("type"@[0] != "role"@[0]);
    if let ResponseItem::Message { id, role, content, phase } = item {
        lemma_contents(content@);
    }
}

proof fn lemma_item_agent_message(item: ResponseItem)
    requires
        item is AgentMessage,
        is_plain_item(item),
    ensures
        read::item_from(wire::item_json(item)) == Some(item@),
{
    broadcast use json::lemma_member_of_set;

    lemma_item_types();
    reveal_strlit("type");
    reveal_strlit("id");
    reveal_strlit("content");
    assert("type"@.len() == 4);
    assert("id"@.len() == 2);
    assert("content"@.len() == 7);
    if let ResponseItem::AgentMessage { id, content } = item {
        lemma_agent_contents(content@);
    }
}

proof fn lemma_item_reasoning(item: ResponseItem)
    requires
        item is Reasoning,
        is_plain_item(item),
    ensures
        read::item_from(wire::item_json(item)) == Some(item@),
{
    broadcast use json::lemma_member_of_set;

    lemma_item_types();
    reveal_strlit("type");
    reveal_strlit("id");
    reveal_strlit("summary");
    reveal_strlit("content");
    reveal_strlit("encrypted_content");
    assert("type"@.len() == 4);
    assert("id"@.len() == 2);
    assert("summary"@.len() == 7);
    assert("content"@.len() == 7);
    assert("encrypted_content"@.len() == 17);
    assert("summary"@[0] != "content"@[0]);
    if let ResponseItem::Reasoning { id, summary, content, encrypted_content } = item {
        lemma_summaries(summary@);
        if let Some(content) = content {
            lemma_reasonings(content@);
        }
    }
}

proof fn lemma_item_function_call(item: ResponseItem)
    requires
        item is FunctionCall,
        is_plain_item(item),
    ensures
        read::item_from(wire::item_json(item)) == Some(item@),
{
    broadcast use json::lemma_member_of_set;

    lemma_item_types();
    reveal_strlit("type");
    reveal_strlit("id");
    reveal_strlit("name");
    reveal_strlit("namespace");
    reveal_strlit("arguments");
    reveal_strlit("call_id");
    assert("type"@.len() == 4);
    assert("id"@.len() == 2);
    assert("name"@.len() == 4);
    assert("namespace"@.len() == 9);
    assert("arguments"@.len() == 9);
    assert("call_id"@.len() == 7);
    assert("type"@[0] != "name"@[0]);
    assert("namespace"@[0] != "arguments"@[0]);
    if let ResponseItem::FunctionCall { id, name, namespace, arguments, call_id } = item {
    }
}

proof fn lemma_item_function_call_output(item: ResponseItem)
    requires
        item is FunctionCallOutput,
        is_plain_item(item),
    ensures
        read::item_from(wire::item_json(item)) == Some(item@),
{
    broadcast use json::lemma_member_of_set;

    lemma_item_types();
    reveal_strlit("type");
    reveal_strlit("call_id");
    reveal_strlit("output");
    assert("type"@.len() == 4);
    assert("call_id"@.len() == 7);
    assert("output"@.len() == 6);
    if let ResponseItem::FunctionCallOutput { call_id, output } = item {
        lemma_output(output, wire::item_json(item)->Object_0);
    }
}

proof fn lemma_item_custom_tool_call(item: ResponseItem)
    requires
        item is CustomToolCall,
        is_plain_item(item),
    ensures
        read::item_from(wire::item_json(item)) == Some(item@),
{
    broadcast use json::lemma_member_of_set;

    lemma_item_types();
    reveal_strlit("type");
    reveal_strlit("id");
    reveal_strlit("status");
    reveal_strlit("call_id");
    reveal_strlit("name");
    reveal_strlit("input");
    assert("type"@.len() == 4);
    assert("id"@.len() == 2);
    assert("status"@.len() == 6);
    assert("call_id"@.len() == 7);
    assert("name"@.len() == 4);
    assert("input"@.len() == 5);
    assert("type"@[0] != "name"@[0]);
    if let ResponseItem::CustomToolCall { id, status, call_id, name, input } = item {
    }
}

proof fn lemma_item_custom_tool_call_output(item: ResponseItem)
    requires
        item is CustomToolCallOutput,
        is_plain_item(item),
    ensures
        read::item_from(wire::item_json(item)) == Some(item@),
{
    broadcast use json::lemma_member_of_set;

    lemma_item_types();
    reveal_strlit("type");
    reveal_strlit("call_id");
    reveal_strlit("name");
    reveal_strlit("output");
    assert("type"@.len() == 4);
    assert("call_id"@.len() == 7);
    assert("name"@.len() == 4);
    assert("output"@.len() == 6);
    assert("type"@[0] != "name"@[0]);
    if let ResponseItem::CustomToolCallOutput { call_id, name, output } = item {
        lemma_output(output, wire::item_json(item)->Object_0);
    }
}

proof fn lemma_item_tool_search_call(item: ResponseItem)
    requires
        item is ToolSearchCall,
        is_plain_item(item),
    ensures
        read::item_from(wire::item_json(item)) == Some(item@),
{
    broadcast use json::lemma_member_of_set;

    lemma_item_types();
    reveal_strlit("type");
    reveal_strlit("id");
    reveal_strlit("call_id");
    reveal_strlit("status");
    reveal_strlit("execution");
    reveal_strlit("arguments");
    assert("type"@.len() == 4);
    assert("id"@.len() == 2);
    assert("call_id"@.len() == 7);
    assert("status"@.len() == 6);
    assert("execution"@.len() == 9);
    assert("arguments"@.len() == 9);
    assert("execution"@[0] != "arguments"@[0]);
    if let ResponseItem::ToolSearchCall { id, call_id, status, execution, arguments } = item {
    }
}

proof fn lemma_item_tool_search_output(item: ResponseItem)
    requires
        item is ToolSearchOutput,
        is_plain_item(item),
    ensures
        read::item_from(wire::item_json(item)) == Some(item@),
{
    broadcast use json::lemma_member_of_set;

    lemma_item_types();
    reveal_strlit("type");
    reveal_strlit("call_id");
    reveal_strlit("status");
    reveal_strlit("execution");
    reveal_strlit("tools");
    assert("type"@.len() == 4);
    assert("call_id"@.len() == 7);
    assert("status"@.len() == 6);
    assert("execution"@.len() == 9);
    assert("tools"@.len() == 5);
    if let ResponseItem::ToolSearchOutput { call_id, status, execution, tools } = item {
    }
}

proof fn lemma_item_local_shell_call(item: ResponseItem)
    requires
        item is LocalShellCall,
        is_plain_item(item),
    ensures
        read::item_from(wire::item_json(item)) == Some(item@),
{
    broadcast use json::lemma_member_of_set;

    lemma_item_types();
    reveal_strlit("type");
    reveal_strlit("id");
    reveal_strlit("call_id");
    reveal_strlit("status");
    reveal_strlit("action");
    assert("type"@.len() == 4);
    assert("id"@.len() == 2);
    assert("call_id"@.len() == 7);
    assert("status"@.len() == 6);
    assert("action"@.len() == 6);
    assert("status"@[0] != "action"@[0]);
    if let ResponseItem::LocalShellCall { id, call_id, status, action } = item {
        lemma_shell(action);
    }
}

proof fn lemma_item_web_search_call(item: ResponseItem)
    requires
        item is WebSearchCall,
        is_plain_item(item),
    ensures
        read::item_from(wire::item_json(item)) == Some(item@),
{
    broadcast use json::lemma_member_of_set;

    lemma_item_types();
    reveal_strlit("type");
    reveal_strlit("id");
    reveal_strlit("status");
    reveal_strlit("action");
    assert("type"@.len() == 4);
    assert("id"@.len() == 2);
    assert("status"@.len() == 6);
    assert("action"@.len() == 6);
    assert("status"@[0] != "action"@[0]);
    if let ResponseItem::WebSearchCall { id, status, action } = item {
        if let Some(action) = action {
            lemma_web(action);
        }
    }
}

proof fn lemma_item_image_generation_call(item: ResponseItem)
    requires
        item is ImageGenerationCall,
        is_plain_item(item),
    ensures
        read::item_from(wire::item_json(item)) == Some(item@),
{
    broadcast use json::lemma_member_of_set;

    lemma_item_types();
    reveal_strlit("type");
    reveal_strlit("id");
    reveal_strlit("status");
    reveal_strlit("revised_prompt");
    reveal_strlit("result");
    assert("type"@.len() == 4);
    assert("id"@.len() == 2);
    assert("status"@.len() == 6);
    assert("revised_prompt"@.len() == 14);
    assert("result"@.len() == 6);
    assert("status"@[0] != "result"@[0]);
    if let ResponseItem::ImageGenerationCall { id, status, revised_prompt, result } = item {
    }
}

/// An item that is written as JSON and read again is the same.
pub proof fn law_item_round_trip(item: ResponseItem)
    requires
        is_plain_item(item),
    ensures
        read::item_from(wire::item_json(item)) == Some(item@),
{
    match item {
        ResponseItem::ItemReference { .. } => lemma_item_item_reference(item),
        ResponseItem::Message { .. } => lemma_item_message(item),
        ResponseItem::AgentMessage { .. } => lemma_item_agent_message(item),
        ResponseItem::Reasoning { .. } => lemma_item_reasoning(item),
        ResponseItem::FunctionCall { .. } => lemma_item_function_call(item),
        ResponseItem::FunctionCallOutput { .. } => lemma_item_function_call_output(item),
        ResponseItem::CustomToolCall { .. } => lemma_item_custom_tool_call(item),
        ResponseItem::CustomToolCallOutput { .. } => lemma_item_custom_tool_call_output(item),
        ResponseItem::ToolSearchCall { .. } => lemma_item_tool_search_call(item),
        ResponseItem::ToolSearchOutput { .. } => lemma_item_tool_search_output(item),
        ResponseItem::LocalShellCall { .. } => lemma_item_local_shell_call(item),
        ResponseItem::WebSearchCall { .. } => lemma_item_web_search_call(item),
        ResponseItem::ImageGenerationCall { .. } => lemma_item_image_generation_call(item),
    }
}

/// Items that are written as JSON and read again are the same.
pub proof fn law_items_round_trip(items: Seq<ResponseItem>)
    requires
        forall|i: int| 0 <= i < items.len() ==> is_plain_item(#[trigger] items[i]),
    ensures
        wire::items_json(items) matches JsonView::Array(values) && read::each_item_from(values)
            == Some(read::items_contents(items)),
{
    let values = items.map_values(|item: ResponseItem| wire::item_json(item));
    assert forall|i: int| 0 <= i < values.len() implies read::item_from(#[trigger] values[i])
        == Some(items[i]@) by {
        law_item_round_trip(items[i]);
    }
    assert(read::each_item_from(values)->0 =~= read::items_contents(items));
}

} // verus!
