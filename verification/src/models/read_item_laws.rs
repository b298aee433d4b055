//! What is read of items, their parts and tools, and when.
use vstd::prelude::*;

use crate::json::Json;
use crate::json::JsonView;
use crate::json;
use crate::models::read;
use crate::models::read_laws::lemma_texts;
use crate::models::read_request;
use crate::models::reading;
use crate::models::responses::AgentMessageInputContent;
use crate::models::responses::CustomToolFormat;
use crate::models::responses::FunctionCallOutputContent;
use crate::models::responses::LocalShellAction;
use crate::models::responses::NamespaceToolSpec;
use crate::models::responses::OutputView;
use crate::models::responses::ReasoningContentItem;
use crate::models::responses::ReasoningSummaryItem;
use crate::models::responses::ResponseItem;
use crate::models::responses::TextFormat;
use crate::models::responses::ToolSpec;
use crate::models::responses::WebSearchAction;
use crate::models::responses;

verus! {

/// Values that were read are the elements.
pub proof fn lemma_values(items: Seq<JsonView>, x: Vec<Json>)
    requires
        items == json::items_view(x@),
    ensures
        reading::values(Some(JsonView::Array(items)), x),
{
    assert forall|i: int| 0 <= i < items.len() implies items[i] == (#[trigger] x@[i])@ by {
        assert(items[i] == json::items_view(x@)[i]);
    }
}

/// An output that was read is the text, or one part for each element.
pub proof fn lemma_output(v: JsonView, x: FunctionCallOutputContent)
    requires
        v is Text ==> x@ == OutputView::Text(v->Text_0),
        v is Array ==> read::contents_of(v->Array_0) is Some && x@ == OutputView::Content(
            read::contents_of(v->Array_0)->0,
        ),
        v is Text || v is Array,
    ensures
        reading::output(Some(v), x),
{
    if let JsonView::Array(items) = v {
        let parts = x->Content_0;
        let read = read::contents_of(items)->0;
        let contents = responses::contents_view(parts@);
        assert(read == contents);
        assert forall|i: int| 0 <= i < items.len() implies read::content_read(items[i]) == Some(
            (#[trigger] parts@[i])@,
        ) by {
            assert(read[i] == read::content_read(items[i])->0);
            assert(contents[i] == parts@[i]@);
        }
    }
}

/// A format of the text names its type; one with a schema has the members of that, and the
/// others have none.
pub proof fn law_text_format_is_read(m: Seq<(Seq<char>, JsonView)>, x: TextFormat)
    requires
        read_request::text_format_from(JsonView::Object(m)) == Some(x@),
    ensures
        reading::text(json::member(m, "type"@), x.kind),
        x.kind@ == "text"@ || x.kind@ == "json_object"@ || x.kind@ == "json_schema"@,
        x.kind@ == "json_schema"@ ==> reading::text(json::member(m, "name"@), x.name),
        x.kind@ == "json_schema"@ ==> reading::value(json::member(m, "schema"@), x.schema),
        x.kind@ == "json_schema"@ ==> reading::flag_or_false(json::member(m, "strict"@), x.strict),
        x.kind@ == "json_schema"@ ==> reading::opt_text(
            json::member(m, "description"@),
            x.description,
        ),
        x.kind@ != "json_schema"@ ==> x.name@.len() == 0 && x.schema@ is Null && !x.strict
            && x.description is None,
{
    reveal_strlit("text");
    reveal_strlit("json_object");
    reveal_strlit("json_schema");
    assert("text"@.len() == 4);
    assert("json_object"@.len() == 11);
    assert("json_schema"@.len() == 11);
    assert("json_object"@[5] != "json_schema"@[5]);
}

/// A format of the text is read just where its type is known and, for one with a schema, each
/// member is what it should be.
pub proof fn law_text_format_is_readable(m: Seq<(Seq<char>, JsonView)>)
    ensures
        read_request::text_format_from(JsonView::Object(m)) is Some <==> (json::member(m, "type"@)
            == Some(JsonView::Text("text"@)) || json::member(m, "type"@) == Some(
            JsonView::Text("json_object"@),
        ) || (json::member(m, "type"@) == Some(JsonView::Text("json_schema"@))
            && reading::can_text(json::member(m, "name"@)) && json::member(m, "schema"@) is Some
            && reading::can_flag_or_false(json::member(m, "strict"@)) && reading::can_opt_text(
            json::member(m, "description"@),
        ))),
{
    reveal_strlit("text");
    reveal_strlit("json_object");
    reveal_strlit("json_schema");
    assert("text"@.len() == 4);
    assert("json_object"@.len() == 11);
    assert("json_schema"@.len() == 11);
    assert("json_object"@[5] != "json_schema"@[5]);
}

/// A part of an agent message of the type `input_text` is read by its members, each under its
/// own name.
pub proof fn law_agent_content_input_text_is_read(
    m: Seq<(Seq<char>, JsonView)>,
    numbered: Seq<Seq<char>>,
    x: AgentMessageInputContent,
)
    requires
        json::member(m, "type"@) == Some(JsonView::Text("input_text"@)),
        read::agent_content_tagged(JsonView::Object(m), numbered) == Some(x@),
    ensures
        x is InputText,
        reading::text(json::member(m, "text"@), x->text),
{
    reveal_strlit("input_text");
    reveal_strlit("encrypted_content");
    assert("input_text"@.len() == 10);
    assert("encrypted_content"@.len() == 17);
}

/// A part of an agent message of the type `input_text` is read just where each member is what
/// it should be.
pub proof fn law_agent_content_input_text_is_readable(
    m: Seq<(Seq<char>, JsonView)>,
    numbered: Seq<Seq<char>>,
)
    requires
        json::member(m, "type"@) == Some(JsonView::Text("input_text"@)),
    ensures
        read::agent_content_tagged(JsonView::Object(m), numbered) is Some
            <==> reading::can_text(json::member(m, "text"@)),
{
    reveal_strlit("input_text");
    reveal_strlit("encrypted_content");
    assert("input_text"@.len() == 10);
    assert("encrypted_content"@.len() == 17);
}

/// A part of an agent message of the type `encrypted_content` is read by its members, each
/// under its own name.
pub proof fn law_agent_content_encrypted_content_is_read(
    m: Seq<(Seq<char>, JsonView)>,
    numbered: Seq<Seq<char>>,
    x: AgentMessageInputContent,
)
    requires
        json::member(m, "type"@) == Some(JsonView::Text("encrypted_content"@)),
        read::agent_content_tagged(JsonView::Object(m), numbered) == Some(x@),
    ensures
        x is EncryptedContent,
        reading::text(json::member(m, "encrypted_content"@), x->encrypted_content),
{
    reveal_strlit("input_text");
    reveal_strlit("encrypted_content");
    assert("input_text"@.len() == 10);
    assert("encrypted_content"@.len() == 17);
}

/// A part of an agent message of the type `encrypted_content` is read just where each member is
/// what it should be.
pub proof fn law_agent_content_encrypted_content_is_readable(
    m: Seq<(Seq<char>, JsonView)>,
    numbered: Seq<Seq<char>>,
)
    requires
        json::member(m, "type"@) == Some(JsonView::Text("encrypted_content"@)),
    ensures
        read::agent_content_tagged(JsonView::Object(m), numbered) is Some
            <==> reading::can_text(json::member(m, "encrypted_content"@)),
{
    reveal_strlit("input_text");
    reveal_strlit("encrypted_content");
    assert("input_text"@.len() == 10);
    assert("encrypted_content"@.len() == 17);
}

/// A summary of the type `summary_text` is read by its members, each under its own name.
pub proof fn law_summary_summary_text_is_read(
    m: Seq<(Seq<char>, JsonView)>,
    numbered: Seq<Seq<char>>,
    x: ReasoningSummaryItem,
)
    requires
        json::member(m, "type"@) == Some(JsonView::Text("summary_text"@)),
        read::summary_tagged(JsonView::Object(m), numbered) == Some(x@),
    ensures
        x is SummaryText,
        reading::text(json::member(m, "text"@), x->text),
{
    reveal_strlit("summary_text");
    assert("summary_text"@.len() == 12);
}

/// A summary of the type `summary_text` is read just where each member is what it should be.
pub proof fn law_summary_summary_text_is_readable(
    m: Seq<(Seq<char>, JsonView)>,
    numbered: Seq<Seq<char>>,
)
    requires
        json::member(m, "type"@) == Some(JsonView::Text("summary_text"@)),
    ensures
        read::summary_tagged(JsonView::Object(m), numbered) is Some
            <==> reading::can_text(json::member(m, "text"@)),
{
    reveal_strlit("summary_text");
    assert("summary_text"@.len() == 12);
}

/// A part of reasoning of the type `reasoning_text` is read by its members, each under its own
/// name.
pub proof fn law_reasoning_reasoning_text_is_read(
    m: Seq<(Seq<char>, JsonView)>,
    numbered: Seq<Seq<char>>,
    x: ReasoningContentItem,
)
    requires
        json::member(m, "type"@) == Some(JsonView::Text("reasoning_text"@)),
        read::reasoning_tagged(JsonView::Object(m), numbered) == Some(x@),
    ensures
        x is ReasoningText,
        reading::text(json::member(m, "text"@), x->ReasoningText_text),
{
    reveal_strlit("reasoning_text");
    reveal_strlit("text");
    assert("reasoning_text"@.len() == 14);
    assert("text"@.len() == 4);
}

/// A part of reasoning of the type `reasoning_text` is read just where each member is what it
/// should be.
pub proof fn law_reasoning_reasoning_text_is_readable(
    m: Seq<(Seq<char>, JsonView)>,
    numbered: Seq<Seq<char>>,
)
    requires
        json::member(m, "type"@) == Some(JsonView::Text("reasoning_text"@)),
    ensures
        read::reasoning_tagged(JsonView::Object(m), numbered) is Some
            <==> reading::can_text(json::member(m, "text"@)),
{
    reveal_strlit("reasoning_text");
    reveal_strlit("text");
    assert("reasoning_text"@.len() == 14);
    assert("text"@.len() == 4);
}

/// A part of reasoning of the type `text` is read by its members, each under its own name.
pub proof fn law_reasoning_text_is_read(
    m: Seq<(Seq<char>, JsonView)>,
    numbered: Seq<Seq<char>>,
    x: ReasoningContentItem,
)
    requires
        json::member(m, "type"@) == Some(JsonView::Text("text"@)),
        read::reasoning_tagged(JsonView::Object(m), numbered) == Some(x@),
    ensures
        x is Text,
        reading::text(json::member(m, "text"@), x->Text_text),
{
    reveal_strlit("reasoning_text");
    reveal_strlit("text");
    assert("reasoning_text"@.len() == 14);
    assert("text"@.len() == 4);
}

/// A part of reasoning of the type `text` is read just where each member is what it should be.
pub proof fn law_reasoning_text_is_readable(m: Seq<(Seq<char>, JsonView)>, numbered: Seq<Seq<char>>)
    requires
        json::member(m, "type"@) == Some(JsonView::Text("text"@)),
    ensures
        read::reasoning_tagged(JsonView::Object(m), numbered) is Some
            <==> reading::can_text(json::member(m, "text"@)),
{
    reveal_strlit("reasoning_text");
    reveal_strlit("text");
    assert("reasoning_text"@.len() == 14);
    assert("text"@.len() == 4);
}

/// A search of the type `search` is read by its members, each under its own name.
pub proof fn law_web_search_is_read(
    m: Seq<(Seq<char>, JsonView)>,
    numbered: Seq<Seq<char>>,
    x: WebSearchAction,
)
    requires
        json::member(m, "type"@) == Some(JsonView::Text("search"@)),
        read::web_tagged(JsonView::Object(m), numbered) == Some(x@),
    ensures
        x is Search,
        reading::opt_text(json::member(m, "query"@), x->query),
        reading::opt_texts(json::member(m, "queries"@), x->queries),
        reading::opt_values(json::member(m, "sources"@), x->sources),
{
    reveal_strlit("search");
    reveal_strlit("open_page");
    reveal_strlit("find_in_page");
    reveal_strlit("other");
    assert("search"@.len() == 6);
    assert("open_page"@.len() == 9);
    assert("find_in_page"@.len() == 12);
    assert("other"@.len() == 5);    if x->queries is Some {
        lemma_texts((json::member(m, "queries"@)->0)->Array_0, x->queries->0);
    }
    if x->sources is Some {
        lemma_values((json::member(m, "sources"@)->0)->Array_0, x->sources->0);
    }
}

/// A search of the type `search` is read just where each member is what it should be.
pub proof fn law_web_search_is_readable(m: Seq<(Seq<char>, JsonView)>, numbered: Seq<Seq<char>>)
    requires
        json::member(m, "type"@) == Some(JsonView::Text("search"@)),
    ensures
        read::web_tagged(JsonView::Object(m), numbered) is Some
            <==> reading::can_opt_text(json::member(m, "query"@))
                && reading::can_opt_texts(json::member(m, "queries"@))
                && reading::can_opt_values(json::member(m, "sources"@)),
{
    reveal_strlit("search");
    reveal_strlit("open_page");
    reveal_strlit("find_in_page");
    reveal_strlit("other");
    assert("search"@.len() == 6);
    assert("open_page"@.len() == 9);
    assert("find_in_page"@.len() == 12);
    assert("other"@.len() == 5);
}

/// A search of the type `open_page` is read by its members, each under its own name.
pub proof fn law_web_open_page_is_read(
    m: Seq<(Seq<char>, JsonView)>,
    numbered: Seq<Seq<char>>,
    x: WebSearchAction,
)
    requires
        json::member(m, "type"@) == Some(JsonView::Text("open_page"@)),
        read::web_tagged(JsonView::Object(m), numbered) == Some(x@),
    ensures
        x is OpenPage,
        reading::opt_text(json::member(m, "url"@), x->OpenPage_url),
{
    reveal_strlit("search");
    reveal_strlit("open_page");
    reveal_strlit("find_in_page");
    reveal_strlit("other");
    assert("search"@.len() == 6);
    assert("open_page"@.len() == 9);
    assert("find_in_page"@.len() == 12);
    assert("other"@.len() == 5);
}

/// A search of the type `open_page` is read just where each member is what it should be.
pub proof fn law_web_open_page_is_readable(m: Seq<(Seq<char>, JsonView)>, numbered: Seq<Seq<char>>)
    requires
        json::member(m, "type"@) == Some(JsonView::Text("open_page"@)),
    ensures
        read::web_tagged(JsonView::Object(m), numbered) is Some
            <==> reading::can_opt_text(json::member(m, "url"@)),
{
    reveal_strlit("search");
    reveal_strlit("open_page");
    reveal_strlit("find_in_page");
    reveal_strlit("other");
    assert("search"@.len() == 6);
    assert("open_page"@.len() == 9);
    assert("find_in_page"@.len() == 12);
    assert("other"@.len() == 5);
}

/// A search of the type `find_in_page` is read by its members, each under its own name.
pub proof fn law_web_find_in_page_is_read(
    m: Seq<(Seq<char>, JsonView)>,
    numbered: Seq<Seq<char>>,
    x: WebSearchAction,
)
    requires
        json::member(m, "type"@) == Some(JsonView::Text("find_in_page"@)),
        read::web_tagged(JsonView::Object(m), numbered) == Some(x@),
    ensures
        x is FindInPage,
        reading::opt_text(json::member(m, "url"@), x->FindInPage_url),
        reading::opt_text(json::member(m, "pattern"@), x->pattern),
{
    reveal_strlit("search");
    reveal_strlit("open_page");
    reveal_strlit("find_in_page");
    reveal_strlit("other");
    assert("search"@.len() == 6);
    assert("open_page"@.len() == 9);
    assert("find_in_page"@.len() == 12);
    assert("other"@.len() == 5);
}

/// A search of the type `find_in_page` is read just where each member is what it should be.
pub proof fn law_web_find_in_page_is_readable(
    m: Seq<(Seq<char>, JsonView)>,
    numbered: Seq<Seq<char>>,
)
    requires
        json::member(m, "type"@) == Some(JsonView::Text("find_in_page"@)),
    ensures
        read::web_tagged(JsonView::Object(m), numbered) is Some
            <==> reading::can_opt_text(json::member(m, "url"@))
                && reading::can_opt_text(json::member(m, "pattern"@)),
{
    reveal_strlit("search");
    reveal_strlit("open_page");
    reveal_strlit("find_in_page");
    reveal_strlit("other");
    assert("search"@.len() == 6);
    assert("open_page"@.len() == 9);
    assert("find_in_page"@.len() == 12);
    assert("other"@.len() == 5);
}

/// A search of the type `other` is read by its members, each under its own name.
pub proof fn law_web_other_is_read(
    m: Seq<(Seq<char>, JsonView)>,
    numbered: Seq<Seq<char>>,
    x: WebSearchAction,
)
    requires
        json::member(m, "type"@) == Some(JsonView::Text("other"@)),
        read::web_tagged(JsonView::Object(m), numbered) == Some(x@),
    ensures
        x is Other,
{
    reveal_strlit("search");
    reveal_strlit("open_page");
    reveal_strlit("find_in_page");
    reveal_strlit("other");
    assert("search"@.len() == 6);
    assert("open_page"@.len() == 9);
    assert("find_in_page"@.len() == 12);
    assert("other"@.len() == 5);
}

/// A search of the type `other` is read just where each member is what it should be.
pub proof fn law_web_other_is_readable(m: Seq<(Seq<char>, JsonView)>, numbered: Seq<Seq<char>>)
    requires
        json::member(m, "type"@) == Some(JsonView::Text("other"@)),
    ensures
        read::web_tagged(JsonView::Object(m), numbered) is Some <==> true,
{
    reveal_strlit("search");
    reveal_strlit("open_page");
    reveal_strlit("find_in_page");
    reveal_strlit("other");
    assert("search"@.len() == 6);
    assert("open_page"@.len() == 9);
    assert("find_in_page"@.len() == 12);
    assert("other"@.len() == 5);
}

/// An item of the type `item_reference` is read by its members, each under its own name.
pub proof fn law_item_item_reference_is_read(m: Seq<(Seq<char>, JsonView)>, x: ResponseItem)
    requires
        json::member(m, "type"@) == Some(JsonView::Text("item_reference"@)),
        read::item_from(JsonView::Object(m)) == Some(x@),
    ensures
        x is ItemReference,
        reading::text(json::member(m, "id"@), x->ItemReference_id),
{
    reveal_strlit("item_reference");
    reveal_strlit("message");
    reveal_strlit("agent_message");
    reveal_strlit("reasoning");
    reveal_strlit("function_call");
    reveal_strlit("function_call_output");
    reveal_strlit("custom_tool_call");
    reveal_strlit("custom_tool_call_output");
    reveal_strlit("tool_search_call");
    reveal_strlit("tool_search_output");
    reveal_strlit("local_shell_call");
    reveal_strlit("web_search_call");
    reveal_strlit("image_generation_call");
    assert("item_reference"@.len() == 14);
    assert("message"@.len() == 7);
    assert("agent_message"@.len() == 13);
    assert("reasoning"@.len() == 9);
    assert("function_call"@.len() == 13);
    assert("function_call_output"@.len() == 20);
    assert("custom_tool_call"@.len() == 16);
    assert("custom_tool_call_output"@.len() == 23);
    assert("tool_search_call"@.len() == 16);
    assert("tool_search_output"@.len() == 18);
    assert("local_shell_call"@.len() == 16);
    assert("web_search_call"@.len() == 15);
    assert("image_generation_call"@.len() == 21);
    assert("agent_message"@[0] != "function_call"@[0]);
    assert("custom_tool_call"@[0] != "tool_search_call"@[0]);
    assert("custom_tool_call"@[0] != "local_shell_call"@[0]);
    assert("tool_search_call"@[0] != "local_shell_call"@[0]);
}

/// An item of the type `item_reference` is read just where each member is what it should be.
pub proof fn law_item_item_reference_is_readable(m: Seq<(Seq<char>, JsonView)>)
    requires
        json::member(m, "type"@) == Some(JsonView::Text("item_reference"@)),
    ensures
        read::item_from(JsonView::Object(m)) is Some <==> reading::can_text(json::member(m, "id"@)),
{
    reveal_strlit("item_reference");
    reveal_strlit("message");
    reveal_strlit("agent_message");
    reveal_strlit("reasoning");
    reveal_strlit("function_call");
    reveal_strlit("function_call_output");
    reveal_strlit("custom_tool_call");
    reveal_strlit("custom_tool_call_output");
    reveal_strlit("tool_search_call");
    reveal_strlit("tool_search_output");
    reveal_strlit("local_shell_call");
    reveal_strlit("web_search_call");
    reveal_strlit("image_generation_call");
    assert("item_reference"@.len() == 14);
    assert("message"@.len() == 7);
    assert("agent_message"@.len() == 13);
    assert("reasoning"@.len() == 9);
    assert("function_call"@.len() == 13);
    assert("function_call_output"@.len() == 20);
    assert("custom_tool_call"@.len() == 16);
    assert("custom_tool_call_output"@.len() == 23);
    assert("tool_search_call"@.len() == 16);
    assert("tool_search_output"@.len() == 18);
    assert("local_shell_call"@.len() == 16);
    assert("web_search_call"@.len() == 15);
    assert("image_generation_call"@.len() == 21);
    assert("agent_message"@[0] != "function_call"@[0]);
    assert("custom_tool_call"@[0] != "tool_search_call"@[0]);
    assert("custom_tool_call"@[0] != "local_shell_call"@[0]);
    assert("tool_search_call"@[0] != "local_shell_call"@[0]);
}

/// An item of the type `message` is read by its members, each under its own name.
pub proof fn law_item_message_is_read(m: Seq<(Seq<char>, JsonView)>, x: ResponseItem)
    requires
        json::member(m, "type"@) == Some(JsonView::Text("message"@)),
        read::item_from(JsonView::Object(m)) == Some(x@),
    ensures
        x is Message,
        reading::opt_text(json::member(m, "id"@), x->Message_id),
        reading::text(json::member(m, "role"@), x->role),
        json::member(m, "content"@) matches Some(JsonView::Array(values))
            && values.len() == x->Message_content@.len() && forall|i: int| 0 <= i < values.len()
            ==> read::content_read(values[i]) == Some((#[trigger] x->Message_content@[i])@),
        reading::opt_text(json::member(m, "phase"@), x->phase),
{
    reveal_strlit("item_reference");
    reveal_strlit("message");
    reveal_strlit("agent_message");
    reveal_strlit("reasoning");
    reveal_strlit("function_call");
    reveal_strlit("function_call_output");
    reveal_strlit("custom_tool_call");
    reveal_strlit("custom_tool_call_output");
    reveal_strlit("tool_search_call");
    reveal_strlit("tool_search_output");
    reveal_strlit("local_shell_call");
    reveal_strlit("web_search_call");
    reveal_strlit("image_generation_call");
    assert("item_reference"@.len() == 14);
    assert("message"@.len() == 7);
    assert("agent_message"@.len() == 13);
    assert("reasoning"@.len() == 9);
    assert("function_call"@.len() == 13);
    assert("function_call_output"@.len() == 20);
    assert("custom_tool_call"@.len() == 16);
    assert("custom_tool_call_output"@.len() == 23);
    assert("tool_search_call"@.len() == 16);
    assert("tool_search_output"@.len() == 18);
    assert("local_shell_call"@.len() == 16);
    assert("web_search_call"@.len() == 15);
    assert("image_generation_call"@.len() == 21);
    assert("agent_message"@[0] != "function_call"@[0]);
    assert("custom_tool_call"@[0] != "tool_search_call"@[0]);
    assert("custom_tool_call"@[0] != "local_shell_call"@[0]);
    assert("tool_search_call"@[0] != "local_shell_call"@[0]);
    if json::member(m, "content"@) is Some {
        let values = (json::member(m, "content"@)->0)->Array_0;
        let read = read::contents_of(values)->0;
        let contents = responses::contents_view(x->Message_content@);
        assert(read == contents);
        assert forall|i: int| 0 <= i < values.len() implies
            read::content_read(values[i]) == Some((#[trigger] x->Message_content@[i])@) by {
            assert(read[i] == read::content_read(values[i])->0);
            assert(contents[i] == x->Message_content@[i]@);
        }
    }
}

/// An item of the type `message` is read just where each member is what it should be.
pub proof fn law_item_message_is_readable(m: Seq<(Seq<char>, JsonView)>)
    requires
        json::member(m, "type"@) == Some(JsonView::Text("message"@)),
    ensures
        read::item_from(JsonView::Object(m)) is Some
            <==> reading::can_opt_text(json::member(m, "id"@))
                && reading::can_text(json::member(m, "role"@))
                && (
                json::member(m, "content"@) matches Some(JsonView::Array(values))
                    && forall|i: int| 0 <= i < values.len()
                    ==> read::content_read(#[trigger] values[i]) is Some
                )
                && reading::can_opt_text(json::member(m, "phase"@)),
{
    reveal_strlit("item_reference");
    reveal_strlit("message");
    reveal_strlit("agent_message");
    reveal_strlit("reasoning");
    reveal_strlit("function_call");
    reveal_strlit("function_call_output");
    reveal_strlit("custom_tool_call");
    reveal_strlit("custom_tool_call_output");
    reveal_strlit("tool_search_call");
    reveal_strlit("tool_search_output");
    reveal_strlit("local_shell_call");
    reveal_strlit("web_search_call");
    reveal_strlit("image_generation_call");
    assert("item_reference"@.len() == 14);
    assert("message"@.len() == 7);
    assert("agent_message"@.len() == 13);
    assert("reasoning"@.len() == 9);
    assert("function_call"@.len() == 13);
    assert("function_call_output"@.len() == 20);
    assert("custom_tool_call"@.len() == 16);
    assert("custom_tool_call_output"@.len() == 23);
    assert("tool_search_call"@.len() == 16);
    assert("tool_search_output"@.len() == 18);
    assert("local_shell_call"@.len() == 16);
    assert("web_search_call"@.len() == 15);
    assert("image_generation_call"@.len() == 21);
    assert("agent_message"@[0] != "function_call"@[0]);
    assert("custom_tool_call"@[0] != "tool_search_call"@[0]);
    assert("custom_tool_call"@[0] != "local_shell_call"@[0]);
    assert("tool_search_call"@[0] != "local_shell_call"@[0]);
}

/// An item of the type `agent_message` is read by its members, each under its own name.
pub proof fn law_item_agent_message_is_read(m: Seq<(Seq<char>, JsonView)>, x: ResponseItem)
    requires
        json::member(m, "type"@) == Some(JsonView::Text("agent_message"@)),
        read::item_from(JsonView::Object(m)) == Some(x@),
    ensures
        x is AgentMessage,
        reading::opt_text(json::member(m, "id"@), x->AgentMessage_id),
        json::member(m, "content"@) matches Some(JsonView::Array(values))
            && values.len() == x->AgentMessage_content@.len()
            && forall|i: int| 0 <= i < values.len()
            ==> read::agent_content_part_from(values[i])
                == Some((#[trigger] x->AgentMessage_content@[i])@),
{
    reveal_strlit("item_reference");
    reveal_strlit("message");
    reveal_strlit("agent_message");
    reveal_strlit("reasoning");
    reveal_strlit("function_call");
    reveal_strlit("function_call_output");
    reveal_strlit("custom_tool_call");
    reveal_strlit("custom_tool_call_output");
    reveal_strlit("tool_search_call");
    reveal_strlit("tool_search_output");
    reveal_strlit("local_shell_call");
    reveal_strlit("web_search_call");
    reveal_strlit("image_generation_call");
    assert("item_reference"@.len() == 14);
    assert("message"@.len() == 7);
    assert("agent_message"@.len() == 13);
    assert("reasoning"@.len() == 9);
    assert("function_call"@.len() == 13);
    assert("function_call_output"@.len() == 20);
    assert("custom_tool_call"@.len() == 16);
    assert("custom_tool_call_output"@.len() == 23);
    assert("tool_search_call"@.len() == 16);
    assert("tool_search_output"@.len() == 18);
    assert("local_shell_call"@.len() == 16);
    assert("web_search_call"@.len() == 15);
    assert("image_generation_call"@.len() == 21);
    assert("agent_message"@[0] != "function_call"@[0]);
    assert("custom_tool_call"@[0] != "tool_search_call"@[0]);
    assert("custom_tool_call"@[0] != "local_shell_call"@[0]);
    assert("tool_search_call"@[0] != "local_shell_call"@[0]);
    if json::member(m, "content"@) is Some {
        let values = (json::member(m, "content"@)->0)->Array_0;
        let read = read::each_agent_content_from(values)->0;
        let contents = read::agent_contents_view(x->AgentMessage_content@);
        assert(read == contents);
        assert forall|i: int| 0 <= i < values.len() implies
            read::agent_content_part_from(values[i])
                == Some((#[trigger] x->AgentMessage_content@[i])@) by {
            assert(read[i] == read::agent_content_part_from(values[i])->0);
            assert(contents[i] == x->AgentMessage_content@[i]@);
        }
    }
}

/// An item of the type `agent_message` is read just where each member is what it should be.
pub proof fn law_item_agent_message_is_readable(m: Seq<(Seq<char>, JsonView)>)
    requires
        json::member(m, "type"@) == Some(JsonView::Text("agent_message"@)),
    ensures
        read::item_from(JsonView::Object(m)) is Some
            <==> reading::can_opt_text(json::member(m, "id"@))
                && (
                json::member(m, "content"@) matches Some(JsonView::Array(values))
                    && forall|i: int| 0 <= i < values.len()
                    ==> read::agent_content_part_from(#[trigger] values[i]) is Some
                ),
{
    reveal_strlit("item_reference");
    reveal_strlit("message");
    reveal_strlit("agent_message");
    reveal_strlit("reasoning");
    reveal_strlit("function_call");
    reveal_strlit("function_call_output");
    reveal_strlit("custom_tool_call");
    reveal_strlit("custom_tool_call_output");
    reveal_strlit("tool_search_call");
    reveal_strlit("tool_search_output");
    reveal_strlit("local_shell_call");
    reveal_strlit("web_search_call");
    reveal_strlit("image_generation_call");
    assert("item_reference"@.len() == 14);
    assert("message"@.len() == 7);
    assert("agent_message"@.len() == 13);
    assert("reasoning"@.len() == 9);
    assert("function_call"@.len() == 13);
    assert("function_call_output"@.len() == 20);
    assert("custom_tool_call"@.len() == 16);
    assert("custom_tool_call_output"@.len() == 23);
    assert("tool_search_call"@.len() == 16);
    assert("tool_search_output"@.len() == 18);
    assert("local_shell_call"@.len() == 16);
    assert("web_search_call"@.len() == 15);
    assert("image_generation_call"@.len() == 21);
    assert("agent_message"@[0] != "function_call"@[0]);
    assert("custom_tool_call"@[0] != "tool_search_call"@[0]);
    assert("custom_tool_call"@[0] != "local_shell_call"@[0]);
    assert("tool_search_call"@[0] != "local_shell_call"@[0]);
}

/// An item of the type `reasoning` is read by its members, each under its own name.
pub proof fn law_item_reasoning_is_read(m: Seq<(Seq<char>, JsonView)>, x: ResponseItem)
    requires
        json::member(m, "type"@) == Some(JsonView::Text("reasoning"@)),
        read::item_from(JsonView::Object(m)) == Some(x@),
    ensures
        x is Reasoning,
        json::member(m, "id"@) is None ==> x->Reasoning_id@ == "rsn_pending"@,
        json::member(m, "id"@) is Some ==> reading::text(json::member(m, "id"@), x->Reasoning_id),
        json::member(m, "summary"@) is None ==> x->summary@.len() == 0,
        json::member(m, "summary"@) is Some
            ==> (
            json::member(m, "summary"@) matches Some(JsonView::Array(values))
                && values.len() == x->summary@.len() && forall|i: int| 0 <= i < values.len()
                ==> read::summary_part_from(values[i]) == Some((#[trigger] x->summary@[i])@)
            ),
        x->Reasoning_content is None <==> reading::nothing(json::member(m, "content"@)),
        x->Reasoning_content is Some
            ==> (
            json::member(m, "content"@) matches Some(JsonView::Array(values))
                && values.len() == (x->Reasoning_content->0)@.len()
                && forall|i: int| 0 <= i < values.len()
                ==> read::reasoning_part_from(values[i])
                    == Some((#[trigger] (x->Reasoning_content->0)@[i])@)
            ),
        reading::opt_text(json::member(m, "encrypted_content"@), x->encrypted_content),
{
    reveal_strlit("item_reference");
    reveal_strlit("message");
    reveal_strlit("agent_message");
    reveal_strlit("reasoning");
    reveal_strlit("function_call");
    reveal_strlit("function_call_output");
    reveal_strlit("custom_tool_call");
    reveal_strlit("custom_tool_call_output");
    reveal_strlit("tool_search_call");
    reveal_strlit("tool_search_output");
    reveal_strlit("local_shell_call");
    reveal_strlit("web_search_call");
    reveal_strlit("image_generation_call");
    assert("item_reference"@.len() == 14);
    assert("message"@.len() == 7);
    assert("agent_message"@.len() == 13);
    assert("reasoning"@.len() == 9);
    assert("function_call"@.len() == 13);
    assert("function_call_output"@.len() == 20);
    assert("custom_tool_call"@.len() == 16);
    assert("custom_tool_call_output"@.len() == 23);
    assert("tool_search_call"@.len() == 16);
    assert("tool_search_output"@.len() == 18);
    assert("local_shell_call"@.len() == 16);
    assert("web_search_call"@.len() == 15);
    assert("image_generation_call"@.len() == 21);
    assert("agent_message"@[0] != "function_call"@[0]);
    assert("custom_tool_call"@[0] != "tool_search_call"@[0]);
    assert("custom_tool_call"@[0] != "local_shell_call"@[0]);
    assert("tool_search_call"@[0] != "local_shell_call"@[0]);
    if json::member(m, "summary"@) is Some {
        let values = (json::member(m, "summary"@)->0)->Array_0;
        let read = read::each_summary_from(values)->0;
        let contents = read::summaries_view(x->summary@);
        assert(read == contents);
        assert forall|i: int| 0 <= i < values.len() implies
            read::summary_part_from(values[i]) == Some((#[trigger] x->summary@[i])@) by {
            assert(read[i] == read::summary_part_from(values[i])->0);
            assert(contents[i] == x->summary@[i]@);
        }
    } else {
        assert(read::summaries_view(x->summary@).len() == x->summary@.len());
    }
    if x->Reasoning_content is Some {
        let values = (json::member(m, "content"@)->0)->Array_0;
        let read = read::each_reasoning_from(values)->0;
        let contents = read::opt_reasonings_view(x->Reasoning_content)->0;
        assert(read == contents);
        assert forall|i: int| 0 <= i < values.len() implies
            read::reasoning_part_from(values[i])
                == Some((#[trigger] (x->Reasoning_content->0)@[i])@) by {
            assert(read[i] == read::reasoning_part_from(values[i])->0);
            assert(contents[i] == (x->Reasoning_content->0)@[i]@);
        }
    }
}

/// An item of the type `reasoning` is read just where each member is what it should be.
pub proof fn law_item_reasoning_is_readable(m: Seq<(Seq<char>, JsonView)>)
    requires
        json::member(m, "type"@) == Some(JsonView::Text("reasoning"@)),
    ensures
        read::item_from(JsonView::Object(m)) is Some
            <==> read::reasoning_id_at(m) is Some
                && (
                json::member(m, "summary"@) is None
                    || (
                    json::member(m, "summary"@) matches Some(JsonView::Array(values))
                        && forall|i: int| 0 <= i < values.len()
                        ==> read::summary_part_from(#[trigger] values[i]) is Some
                    )
                )
                && (
                reading::nothing(json::member(m, "content"@))
                    || (
                    json::member(m, "content"@) matches Some(JsonView::Array(values))
                        && forall|i: int| 0 <= i < values.len()
                        ==> read::reasoning_part_from(#[trigger] values[i]) is Some
                    )
                )
                && reading::can_opt_text(json::member(m, "encrypted_content"@)),
{
    reveal_strlit("item_reference");
    reveal_strlit("message");
    reveal_strlit("agent_message");
    reveal_strlit("reasoning");
    reveal_strlit("function_call");
    reveal_strlit("function_call_output");
    reveal_strlit("custom_tool_call");
    reveal_strlit("custom_tool_call_output");
    reveal_strlit("tool_search_call");
    reveal_strlit("tool_search_output");
    reveal_strlit("local_shell_call");
    reveal_strlit("web_search_call");
    reveal_strlit("image_generation_call");
    assert("item_reference"@.len() == 14);
    assert("message"@.len() == 7);
    assert("agent_message"@.len() == 13);
    assert("reasoning"@.len() == 9);
    assert("function_call"@.len() == 13);
    assert("function_call_output"@.len() == 20);
    assert("custom_tool_call"@.len() == 16);
    assert("custom_tool_call_output"@.len() == 23);
    assert("tool_search_call"@.len() == 16);
    assert("tool_search_output"@.len() == 18);
    assert("local_shell_call"@.len() == 16);
    assert("web_search_call"@.len() == 15);
    assert("image_generation_call"@.len() == 21);
    assert("agent_message"@[0] != "function_call"@[0]);
    assert("custom_tool_call"@[0] != "tool_search_call"@[0]);
    assert("custom_tool_call"@[0] != "local_shell_call"@[0]);
    assert("tool_search_call"@[0] != "local_shell_call"@[0]);
}

/// An item of the type `function_call` is read by its members, each under its own name.
pub proof fn law_item_function_call_is_read(m: Seq<(Seq<char>, JsonView)>, x: ResponseItem)
    requires
        json::member(m, "type"@) == Some(JsonView::Text("function_call"@)),
        read::item_from(JsonView::Object(m)) == Some(x@),
    ensures
        x is FunctionCall,
        reading::opt_text(json::member(m, "id"@), x->FunctionCall_id),
        reading::text(json::member(m, "name"@), x->FunctionCall_name),
        reading::opt_text(json::member(m, "namespace"@), x->namespace),
        reading::text(json::member(m, "arguments"@), x->FunctionCall_arguments),
        reading::text(json::member(m, "call_id"@), x->FunctionCall_call_id),
{
    reveal_strlit("item_reference");
    reveal_strlit("message");
    reveal_strlit("agent_message");
    reveal_strlit("reasoning");
    reveal_strlit("function_call");
    reveal_strlit("function_call_output");
    reveal_strlit("custom_tool_call");
    reveal_strlit("custom_tool_call_output");
    reveal_strlit("tool_search_call");
    reveal_strlit("tool_search_output");
    reveal_strlit("local_shell_call");
    reveal_strlit("web_search_call");
    reveal_strlit("image_generation_call");
    assert("item_reference"@.len() == 14);
    assert("message"@.len() == 7);
    assert("agent_message"@.len() == 13);
    assert("reasoning"@.len() == 9);
    assert("function_call"@.len() == 13);
    assert("function_call_output"@.len() == 20);
    assert("custom_tool_call"@.len() == 16);
    assert("custom_tool_call_output"@.len() == 23);
    assert("tool_search_call"@.len() == 16);
    assert("tool_search_output"@.len() == 18);
    assert("local_shell_call"@.len() == 16);
    assert("web_search_call"@.len() == 15);
    assert("image_generation_call"@.len() == 21);
    assert("agent_message"@[0] != "function_call"@[0]);
    assert("custom_tool_call"@[0] != "tool_search_call"@[0]);
    assert("custom_tool_call"@[0] != "local_shell_call"@[0]);
    assert("tool_search_call"@[0] != "local_shell_call"@[0]);
}

/// An item of the type `function_call` is read just where each member is what it should be.
pub proof fn law_item_function_call_is_readable(m: Seq<(Seq<char>, JsonView)>)
    requires
        json::member(m, "type"@) == Some(JsonView::Text("function_call"@)),
    ensures
        read::item_from(JsonView::Object(m)) is Some
            <==> reading::can_opt_text(json::member(m, "id"@))
                && reading::can_text(json::member(m, "name"@))
                && reading::can_opt_text(json::member(m, "namespace"@))
                && reading::can_text(json::member(m, "arguments"@))
                && reading::can_text(json::member(m, "call_id"@)),
{
    reveal_strlit("item_reference");
    reveal_strlit("message");
    reveal_strlit("agent_message");
    reveal_strlit("reasoning");
    reveal_strlit("function_call");
    reveal_strlit("function_call_output");
    reveal_strlit("custom_tool_call");
    reveal_strlit("custom_tool_call_output");
    reveal_strlit("tool_search_call");
    reveal_strlit("tool_search_output");
    reveal_strlit("local_shell_call");
    reveal_strlit("web_search_call");
    reveal_strlit("image_generation_call");
    assert("item_reference"@.len() == 14);
    assert("message"@.len() == 7);
    assert("agent_message"@.len() == 13);
    assert("reasoning"@.len() == 9);
    assert("function_call"@.len() == 13);
    assert("function_call_output"@.len() == 20);
    assert("custom_tool_call"@.len() == 16);
    assert("custom_tool_call_output"@.len() == 23);
    assert("tool_search_call"@.len() == 16);
    assert("tool_search_output"@.len() == 18);
    assert("local_shell_call"@.len() == 16);
    assert("web_search_call"@.len() == 15);
    assert("image_generation_call"@.len() == 21);
    assert("agent_message"@[0] != "function_call"@[0]);
    assert("custom_tool_call"@[0] != "tool_search_call"@[0]);
    assert("custom_tool_call"@[0] != "local_shell_call"@[0]);
    assert("tool_search_call"@[0] != "local_shell_call"@[0]);
}

/// An item of the type `function_call_output` is read by its members, each under its own name.
pub proof fn law_item_function_call_output_is_read(m: Seq<(Seq<char>, JsonView)>, x: ResponseItem)
    requires
        json::member(m, "type"@) == Some(JsonView::Text("function_call_output"@)),
        read::item_from(JsonView::Object(m)) == Some(x@),
    ensures
        x is FunctionCallOutput,
        reading::text(json::member(m, "call_id"@), x->FunctionCallOutput_call_id),
        reading::output(json::member(m, "output"@), x->FunctionCallOutput_output),
{
    reveal_strlit("item_reference");
    reveal_strlit("message");
    reveal_strlit("agent_message");
    reveal_strlit("reasoning");
    reveal_strlit("function_call");
    reveal_strlit("function_call_output");
    reveal_strlit("custom_tool_call");
    reveal_strlit("custom_tool_call_output");
    reveal_strlit("tool_search_call");
    reveal_strlit("tool_search_output");
    reveal_strlit("local_shell_call");
    reveal_strlit("web_search_call");
    reveal_strlit("image_generation_call");
    assert("item_reference"@.len() == 14);
    assert("message"@.len() == 7);
    assert("agent_message"@.len() == 13);
    assert("reasoning"@.len() == 9);
    assert("function_call"@.len() == 13);
    assert("function_call_output"@.len() == 20);
    assert("custom_tool_call"@.len() == 16);
    assert("custom_tool_call_output"@.len() == 23);
    assert("tool_search_call"@.len() == 16);
    assert("tool_search_output"@.len() == 18);
    assert("local_shell_call"@.len() == 16);
    assert("web_search_call"@.len() == 15);
    assert("image_generation_call"@.len() == 21);
    assert("agent_message"@[0] != "function_call"@[0]);
    assert("custom_tool_call"@[0] != "tool_search_call"@[0]);
    assert("custom_tool_call"@[0] != "local_shell_call"@[0]);
    assert("tool_search_call"@[0] != "local_shell_call"@[0]);
    lemma_output(json::member(m, "output"@)->0, x->FunctionCallOutput_output);
}

/// An item of the type `function_call_output` is read just where each member is what it should be.
pub proof fn law_item_function_call_output_is_readable(m: Seq<(Seq<char>, JsonView)>)
    requires
        json::member(m, "type"@) == Some(JsonView::Text("function_call_output"@)),
    ensures
        read::item_from(JsonView::Object(m)) is Some
            <==> reading::can_text(json::member(m, "call_id"@))
                && read::output_at(m, "output"@) is Some,
{
    reveal_strlit("item_reference");
    reveal_strlit("message");
    reveal_strlit("agent_message");
    reveal_strlit("reasoning");
    reveal_strlit("function_call");
    reveal_strlit("function_call_output");
    reveal_strlit("custom_tool_call");
    reveal_strlit("custom_tool_call_output");
    reveal_strlit("tool_search_call");
    reveal_strlit("tool_search_output");
    reveal_strlit("local_shell_call");
    reveal_strlit("web_search_call");
    reveal_strlit("image_generation_call");
    assert("item_reference"@.len() == 14);
    assert("message"@.len() == 7);
    assert("agent_message"@.len() == 13);
    assert("reasoning"@.len() == 9);
    assert("function_call"@.len() == 13);
    assert("function_call_output"@.len() == 20);
    assert("custom_tool_call"@.len() == 16);
    assert("custom_tool_call_output"@.len() == 23);
    assert("tool_search_call"@.len() == 16);
    assert("tool_search_output"@.len() == 18);
    assert("local_shell_call"@.len() == 16);
    assert("web_search_call"@.len() == 15);
    assert("image_generation_call"@.len() == 21);
    assert("agent_message"@[0] != "function_call"@[0]);
    assert("custom_tool_call"@[0] != "tool_search_call"@[0]);
    assert("custom_tool_call"@[0] != "local_shell_call"@[0]);
    assert("tool_search_call"@[0] != "local_shell_call"@[0]);
}

/// An item of the type `custom_tool_call` is read by its members, each under its own name.
pub proof fn law_item_custom_tool_call_is_read(m: Seq<(Seq<char>, JsonView)>, x: ResponseItem)
    requires
        json::member(m, "type"@) == Some(JsonView::Text("custom_tool_call"@)),
        read::item_from(JsonView::Object(m)) == Some(x@),
    ensures
        x is CustomToolCall,
        reading::opt_text(json::member(m, "id"@), x->CustomToolCall_id),
        reading::opt_text(json::member(m, "status"@), x->CustomToolCall_status),
        reading::text(json::member(m, "call_id"@), x->CustomToolCall_call_id),
        reading::text(json::member(m, "name"@), x->CustomToolCall_name),
        reading::text(json::member(m, "input"@), x->input),
{
    reveal_strlit("item_reference");
    reveal_strlit("message");
    reveal_strlit("agent_message");
    reveal_strlit("reasoning");
    reveal_strlit("function_call");
    reveal_strlit("function_call_output");
    reveal_strlit("custom_tool_call");
    reveal_strlit("custom_tool_call_output");
    reveal_strlit("tool_search_call");
    reveal_strlit("tool_search_output");
    reveal_strlit("local_shell_call");
    reveal_strlit("web_search_call");
    reveal_strlit("image_generation_call");
    assert("item_reference"@.len() == 14);
    assert("message"@.len() == 7);
    assert("agent_message"@.len() == 13);
    assert("reasoning"@.len() == 9);
    assert("function_call"@.len() == 13);
    assert("function_call_output"@.len() == 20);
    assert("custom_tool_call"@.len() == 16);
    assert("custom_tool_call_output"@.len() == 23);
    assert("tool_search_call"@.len() == 16);
    assert("tool_search_output"@.len() == 18);
    assert("local_shell_call"@.len() == 16);
    assert("web_search_call"@.len() == 15);
    assert("image_generation_call"@.len() == 21);
    assert("agent_message"@[0] != "function_call"@[0]);
    assert("custom_tool_call"@[0] != "tool_search_call"@[0]);
    assert("custom_tool_call"@[0] != "local_shell_call"@[0]);
    assert("tool_search_call"@[0] != "local_shell_call"@[0]);
}

/// An item of the type `custom_tool_call` is read just where each member is what it should be.
pub proof fn law_item_custom_tool_call_is_readable(m: Seq<(Seq<char>, JsonView)>)
    requires
        json::member(m, "type"@) == Some(JsonView::Text("custom_tool_call"@)),
    ensures
        read::item_from(JsonView::Object(m)) is Some
            <==> reading::can_opt_text(json::member(m, "id"@))
                && reading::can_opt_text(json::member(m, "status"@))
                && reading::can_text(json::member(m, "call_id"@))
                && reading::can_text(json::member(m, "name"@))
                && reading::can_text(json::member(m, "input"@)),
{
    reveal_strlit("item_reference");
    reveal_strlit("message");
    reveal_strlit("agent_message");
    reveal_strlit("reasoning");
    reveal_strlit("function_call");
    reveal_strlit("function_call_output");
    reveal_strlit("custom_tool_call");
    reveal_strlit("custom_tool_call_output");
    reveal_strlit("tool_search_call");
    reveal_strlit("tool_search_output");
    reveal_strlit("local_shell_call");
    reveal_strlit("web_search_call");
    reveal_strlit("image_generation_call");
    assert("item_reference"@.len() == 14);
    assert("message"@.len() == 7);
    assert("agent_message"@.len() == 13);
    assert("reasoning"@.len() == 9);
    assert("function_call"@.len() == 13);
    assert("function_call_output"@.len() == 20);
    assert("custom_tool_call"@.len() == 16);
    assert("custom_tool_call_output"@.len() == 23);
    assert("tool_search_call"@.len() == 16);
    assert("tool_search_output"@.len() == 18);
    assert("local_shell_call"@.len() == 16);
    assert("web_search_call"@.len() == 15);
    assert("image_generation_call"@.len() == 21);
    assert("agent_message"@[0] != "function_call"@[0]);
    assert("custom_tool_call"@[0] != "tool_search_call"@[0]);
    assert("custom_tool_call"@[0] != "local_shell_call"@[0]);
    assert("tool_search_call"@[0] != "local_shell_call"@[0]);
}

/// An item of the type `custom_tool_call_output` is read by its members, each under its own name.
pub proof fn law_item_custom_tool_call_output_is_read(
    m: Seq<(Seq<char>, JsonView)>,
    x: ResponseItem,
)
    requires
        json::member(m, "type"@) == Some(JsonView::Text("custom_tool_call_output"@)),
        read::item_from(JsonView::Object(m)) == Some(x@),
    ensures
        x is CustomToolCallOutput,
        reading::text(json::member(m, "call_id"@), x->CustomToolCallOutput_call_id),
        reading::opt_text(json::member(m, "name"@), x->CustomToolCallOutput_name),
        reading::output(json::member(m, "output"@), x->CustomToolCallOutput_output),
{
    reveal_strlit("item_reference");
    reveal_strlit("message");
    reveal_strlit("agent_message");
    reveal_strlit("reasoning");
    reveal_strlit("function_call");
    reveal_strlit("function_call_output");
    reveal_strlit("custom_tool_call");
    reveal_strlit("custom_tool_call_output");
    reveal_strlit("tool_search_call");
    reveal_strlit("tool_search_output");
    reveal_strlit("local_shell_call");
    reveal_strlit("web_search_call");
    reveal_strlit("image_generation_call");
    assert("item_reference"@.len() == 14);
    assert("message"@.len() == 7);
    assert("agent_message"@.len() == 13);
    assert("reasoning"@.len() == 9);
    assert("function_call"@.len() == 13);
    assert("function_call_output"@.len() == 20);
    assert("custom_tool_call"@.len() == 16);
    assert("custom_tool_call_output"@.len() == 23);
    assert("tool_search_call"@.len() == 16);
    assert("tool_search_output"@.len() == 18);
    assert("local_shell_call"@.len() == 16);
    assert("web_search_call"@.len() == 15);
    assert("image_generation_call"@.len() == 21);
    assert("agent_message"@[0] != "function_call"@[0]);
    assert("custom_tool_call"@[0] != "tool_search_call"@[0]);
    assert("custom_tool_call"@[0] != "local_shell_call"@[0]);
    assert("tool_search_call"@[0] != "local_shell_call"@[0]);
    lemma_output(json::member(m, "output"@)->0, x->CustomToolCallOutput_output);
}

/// An item of the type `custom_tool_call_output` is read just where each member is what it
/// should be.
pub proof fn law_item_custom_tool_call_output_is_readable(m: Seq<(Seq<char>, JsonView)>)
    requires
        json::member(m, "type"@) == Some(JsonView::Text("custom_tool_call_output"@)),
    ensures
        read::item_from(JsonView::Object(m)) is Some
            <==> reading::can_text(json::member(m, "call_id"@))
                && reading::can_opt_text(json::member(m, "name"@))
                && read::output_at(m, "output"@) is Some,
{
    reveal_strlit("item_reference");
    reveal_strlit("message");
    reveal_strlit("agent_message");
    reveal_strlit("reasoning");
    reveal_strlit("function_call");
    reveal_strlit("function_call_output");
    reveal_strlit("custom_tool_call");
    reveal_strlit("custom_tool_call_output");
    reveal_strlit("tool_search_call");
    reveal_strlit("tool_search_output");
    reveal_strlit("local_shell_call");
    reveal_strlit("web_search_call");
    reveal_strlit("image_generation_call");
    assert("item_reference"@.len() == 14);
    assert("message"@.len() == 7);
    assert("agent_message"@.len() == 13);
    assert("reasoning"@.len() == 9);
    assert("function_call"@.len() == 13);
    assert("function_call_output"@.len() == 20);
    assert("custom_tool_call"@.len() == 16);
    assert("custom_tool_call_output"@.len() == 23);
    assert("tool_search_call"@.len() == 16);
    assert("tool_search_output"@.len() == 18);
    assert("local_shell_call"@.len() == 16);
    assert("web_search_call"@.len() == 15);
    assert("image_generation_call"@.len() == 21);
    assert("agent_message"@[0] != "function_call"@[0]);
    assert("custom_tool_call"@[0] != "tool_search_call"@[0]);
    assert("custom_tool_call"@[0] != "local_shell_call"@[0]);
    assert("tool_search_call"@[0] != "local_shell_call"@[0]);
}

/// An item of the type `tool_search_call` is read by its members, each under its own name.
pub proof fn law_item_tool_search_call_is_read(m: Seq<(Seq<char>, JsonView)>, x: ResponseItem)
    requires
        json::member(m, "type"@) == Some(JsonView::Text("tool_search_call"@)),
        read::item_from(JsonView::Object(m)) == Some(x@),
    ensures
        x is ToolSearchCall,
        reading::opt_text(json::member(m, "id"@), x->ToolSearchCall_id),
        reading::opt_text(json::member(m, "call_id"@), x->ToolSearchCall_call_id),
        reading::opt_text(json::member(m, "status"@), x->ToolSearchCall_status),
        reading::text(json::member(m, "execution"@), x->ToolSearchCall_execution),
        reading::value(json::member(m, "arguments"@), x->ToolSearchCall_arguments),
{
    reveal_strlit("item_reference");
    reveal_strlit("message");
    reveal_strlit("agent_message");
    reveal_strlit("reasoning");
    reveal_strlit("function_call");
    reveal_strlit("function_call_output");
    reveal_strlit("custom_tool_call");
    reveal_strlit("custom_tool_call_output");
    reveal_strlit("tool_search_call");
    reveal_strlit("tool_search_output");
    reveal_strlit("local_shell_call");
    reveal_strlit("web_search_call");
    reveal_strlit("image_generation_call");
    assert("item_reference"@.len() == 14);
    assert("message"@.len() == 7);
    assert("agent_message"@.len() == 13);
    assert("reasoning"@.len() == 9);
    assert("function_call"@.len() == 13);
    assert("function_call_output"@.len() == 20);
    assert("custom_tool_call"@.len() == 16);
    assert("custom_tool_call_output"@.len() == 23);
    assert("tool_search_call"@.len() == 16);
    assert("tool_search_output"@.len() == 18);
    assert("local_shell_call"@.len() == 16);
    assert("web_search_call"@.len() == 15);
    assert("image_generation_call"@.len() == 21);
    assert("agent_message"@[0] != "function_call"@[0]);
    assert("custom_tool_call"@[0] != "tool_search_call"@[0]);
    assert("custom_tool_call"@[0] != "local_shell_call"@[0]);
    assert("tool_search_call"@[0] != "local_shell_call"@[0]);
}

/// An item of the type `tool_search_call` is read just where each member is what it should be.
pub proof fn law_item_tool_search_call_is_readable(m: Seq<(Seq<char>, JsonView)>)
    requires
        json::member(m, "type"@) == Some(JsonView::Text("tool_search_call"@)),
    ensures
        read::item_from(JsonView::Object(m)) is Some
            <==> reading::can_opt_text(json::member(m, "id"@))
                && reading::can_opt_text(json::member(m, "call_id"@))
                && reading::can_opt_text(json::member(m, "status"@))
                && reading::can_text(json::member(m, "execution"@))
                && reading::can_value(json::member(m, "arguments"@)),
{
    reveal_strlit("item_reference");
    reveal_strlit("message");
    reveal_strlit("agent_message");
    reveal_strlit("reasoning");
    reveal_strlit("function_call");
    reveal_strlit("function_call_output");
    reveal_strlit("custom_tool_call");
    reveal_strlit("custom_tool_call_output");
    reveal_strlit("tool_search_call");
    reveal_strlit("tool_search_output");
    reveal_strlit("local_shell_call");
    reveal_strlit("web_search_call");
    reveal_strlit("image_generation_call");
    assert("item_reference"@.len() == 14);
    assert("message"@.len() == 7);
    assert("agent_message"@.len() == 13);
    assert("reasoning"@.len() == 9);
    assert("function_call"@.len() == 13);
    assert("function_call_output"@.len() == 20);
    assert("custom_tool_call"@.len() == 16);
    assert("custom_tool_call_output"@.len() == 23);
    assert("tool_search_call"@.len() == 16);
    assert("tool_search_output"@.len() == 18);
    assert("local_shell_call"@.len() == 16);
    assert("web_search_call"@.len() == 15);
    assert("image_generation_call"@.len() == 21);
    assert("agent_message"@[0] != "function_call"@[0]);
    assert("custom_tool_call"@[0] != "tool_search_call"@[0]);
    assert("custom_tool_call"@[0] != "local_shell_call"@[0]);
    assert("tool_search_call"@[0] != "local_shell_call"@[0]);
}

/// An item of the type `tool_search_output` is read by its members, each under its own name.
pub proof fn law_item_tool_search_output_is_read(m: Seq<(Seq<char>, JsonView)>, x: ResponseItem)
    requires
        json::member(m, "type"@) == Some(JsonView::Text("tool_search_output"@)),
        read::item_from(JsonView::Object(m)) == Some(x@),
    ensures
        x is ToolSearchOutput,
        reading::opt_text(json::member(m, "call_id"@), x->ToolSearchOutput_call_id),
        reading::text(json::member(m, "status"@), x->ToolSearchOutput_status),
        reading::text(json::member(m, "execution"@), x->ToolSearchOutput_execution),
        reading::values(json::member(m, "tools"@), x->tools),
{
    reveal_strlit("item_reference");
    reveal_strlit("message");
    reveal_strlit("agent_message");
    reveal_strlit("reasoning");
    reveal_strlit("function_call");
    reveal_strlit("function_call_output");
    reveal_strlit("custom_tool_call");
    reveal_strlit("custom_tool_call_output");
    reveal_strlit("tool_search_call");
    reveal_strlit("tool_search_output");
    reveal_strlit("local_shell_call");
    reveal_strlit("web_search_call");
    reveal_strlit("image_generation_call");
    assert("item_reference"@.len() == 14);
    assert("message"@.len() == 7);
    assert("agent_message"@.len() == 13);
    assert("reasoning"@.len() == 9);
    assert("function_call"@.len() == 13);
    assert("function_call_output"@.len() == 20);
    assert("custom_tool_call"@.len() == 16);
    assert("custom_tool_call_output"@.len() == 23);
    assert("tool_search_call"@.len() == 16);
    assert("tool_search_output"@.len() == 18);
    assert("local_shell_call"@.len() == 16);
    assert("web_search_call"@.len() == 15);
    assert("image_generation_call"@.len() == 21);
    assert("agent_message"@[0] != "function_call"@[0]);
    assert("custom_tool_call"@[0] != "tool_search_call"@[0]);
    assert("custom_tool_call"@[0] != "local_shell_call"@[0]);
    assert("tool_search_call"@[0] != "local_shell_call"@[0]);
    lemma_values((json::member(m, "tools"@)->0)->Array_0, x->tools);
}

/// An item of the type `tool_search_output` is read just where each member is what it should be.
pub proof fn law_item_tool_search_output_is_readable(m: Seq<(Seq<char>, JsonView)>)
    requires
        json::member(m, "type"@) == Some(JsonView::Text("tool_search_output"@)),
    ensures
        read::item_from(JsonView::Object(m)) is Some
            <==> reading::can_opt_text(json::member(m, "call_id"@))
                && reading::can_text(json::member(m, "status"@))
                && reading::can_text(json::member(m, "execution"@))
                && reading::can_values(json::member(m, "tools"@)),
{
    reveal_strlit("item_reference");
    reveal_strlit("message");
    reveal_strlit("agent_message");
    reveal_strlit("reasoning");
    reveal_strlit("function_call");
    reveal_strlit("function_call_output");
    reveal_strlit("custom_tool_call");
    reveal_strlit("custom_tool_call_output");
    reveal_strlit("tool_search_call");
    reveal_strlit("tool_search_output");
    reveal_strlit("local_shell_call");
    reveal_strlit("web_search_call");
    reveal_strlit("image_generation_call");
    assert("item_reference"@.len() == 14);
    assert("message"@.len() == 7);
    assert("agent_message"@.len() == 13);
    assert("reasoning"@.len() == 9);
    assert("function_call"@.len() == 13);
    assert("function_call_output"@.len() == 20);
    assert("custom_tool_call"@.len() == 16);
    assert("custom_tool_call_output"@.len() == 23);
    assert("tool_search_call"@.len() == 16);
    assert("tool_search_output"@.len() == 18);
    assert("local_shell_call"@.len() == 16);
    assert("web_search_call"@.len() == 15);
    assert("image_generation_call"@.len() == 21);
    assert("agent_message"@[0] != "function_call"@[0]);
    assert("custom_tool_call"@[0] != "tool_search_call"@[0]);
    assert("custom_tool_call"@[0] != "local_shell_call"@[0]);
    assert("tool_search_call"@[0] != "local_shell_call"@[0]);
}

/// An item of the type `local_shell_call` is read by its members, each under its own name.
pub proof fn law_item_local_shell_call_is_read(m: Seq<(Seq<char>, JsonView)>, x: ResponseItem)
    requires
        json::member(m, "type"@) == Some(JsonView::Text("local_shell_call"@)),
        read::item_from(JsonView::Object(m)) == Some(x@),
    ensures
        x is LocalShellCall,
        reading::opt_text(json::member(m, "id"@), x->LocalShellCall_id),
        reading::opt_text(json::member(m, "call_id"@), x->LocalShellCall_call_id),
        reading::text(json::member(m, "status"@), x->LocalShellCall_status),
        json::member(m, "action"@) is Some,
        read::shell_part_from(json::member(m, "action"@)->0) == Some(x->LocalShellCall_action@),
{
    reveal_strlit("item_reference");
    reveal_strlit("message");
    reveal_strlit("agent_message");
    reveal_strlit("reasoning");
    reveal_strlit("function_call");
    reveal_strlit("function_call_output");
    reveal_strlit("custom_tool_call");
    reveal_strlit("custom_tool_call_output");
    reveal_strlit("tool_search_call");
    reveal_strlit("tool_search_output");
    reveal_strlit("local_shell_call");
    reveal_strlit("web_search_call");
    reveal_strlit("image_generation_call");
    assert("item_reference"@.len() == 14);
    assert("message"@.len() == 7);
    assert("agent_message"@.len() == 13);
    assert("reasoning"@.len() == 9);
    assert("function_call"@.len() == 13);
    assert("function_call_output"@.len() == 20);
    assert("custom_tool_call"@.len() == 16);
    assert("custom_tool_call_output"@.len() == 23);
    assert("tool_search_call"@.len() == 16);
    assert("tool_search_output"@.len() == 18);
    assert("local_shell_call"@.len() == 16);
    assert("web_search_call"@.len() == 15);
    assert("image_generation_call"@.len() == 21);
    assert("agent_message"@[0] != "function_call"@[0]);
    assert("custom_tool_call"@[0] != "tool_search_call"@[0]);
    assert("custom_tool_call"@[0] != "local_shell_call"@[0]);
    assert("tool_search_call"@[0] != "local_shell_call"@[0]);
}

/// An item of the type `local_shell_call` is read just where each member is what it should be.
pub proof fn law_item_local_shell_call_is_readable(m: Seq<(Seq<char>, JsonView)>)
    requires
        json::member(m, "type"@) == Some(JsonView::Text("local_shell_call"@)),
    ensures
        read::item_from(JsonView::Object(m)) is Some
            <==> reading::can_opt_text(json::member(m, "id"@))
                && reading::can_opt_text(json::member(m, "call_id"@))
                && reading::can_text(json::member(m, "status"@))
                && json::member(m, "action"@) is Some
                && read::shell_part_from(json::member(m, "action"@)->0) is Some,
{
    reveal_strlit("item_reference");
    reveal_strlit("message");
    reveal_strlit("agent_message");
    reveal_strlit("reasoning");
    reveal_strlit("function_call");
    reveal_strlit("function_call_output");
    reveal_strlit("custom_tool_call");
    reveal_strlit("custom_tool_call_output");
    reveal_strlit("tool_search_call");
    reveal_strlit("tool_search_output");
    reveal_strlit("local_shell_call");
    reveal_strlit("web_search_call");
    reveal_strlit("image_generation_call");
    assert("item_reference"@.len() == 14);
    assert("message"@.len() == 7);
    assert("agent_message"@.len() == 13);
    assert("reasoning"@.len() == 9);
    assert("function_call"@.len() == 13);
    assert("function_call_output"@.len() == 20);
    assert("custom_tool_call"@.len() == 16);
    assert("custom_tool_call_output"@.len() == 23);
    assert("tool_search_call"@.len() == 16);
    assert("tool_search_output"@.len() == 18);
    assert("local_shell_call"@.len() == 16);
    assert("web_search_call"@.len() == 15);
    assert("image_generation_call"@.len() == 21);
    assert("agent_message"@[0] != "function_call"@[0]);
    assert("custom_tool_call"@[0] != "tool_search_call"@[0]);
    assert("custom_tool_call"@[0] != "local_shell_call"@[0]);
    assert("tool_search_call"@[0] != "local_shell_call"@[0]);
}

/// An item of the type `web_search_call` is read by its members, each under its own name.
pub proof fn law_item_web_search_call_is_read(m: Seq<(Seq<char>, JsonView)>, x: ResponseItem)
    requires
        json::member(m, "type"@) == Some(JsonView::Text("web_search_call"@)),
        read::item_from(JsonView::Object(m)) == Some(x@),
    ensures
        x is WebSearchCall,
        reading::opt_text(json::member(m, "id"@), x->WebSearchCall_id),
        reading::opt_text(json::member(m, "status"@), x->WebSearchCall_status),
        x->WebSearchCall_action is None <==> reading::nothing(json::member(m, "action"@)),
        x->WebSearchCall_action is Some
            ==> read::web_part_from(json::member(m, "action"@)->0)
                == Some((x->WebSearchCall_action->0)@),
{
    reveal_strlit("item_reference");
    reveal_strlit("message");
    reveal_strlit("agent_message");
    reveal_strlit("reasoning");
    reveal_strlit("function_call");
    reveal_strlit("function_call_output");
    reveal_strlit("custom_tool_call");
    reveal_strlit("custom_tool_call_output");
    reveal_strlit("tool_search_call");
    reveal_strlit("tool_search_output");
    reveal_strlit("local_shell_call");
    reveal_strlit("web_search_call");
    reveal_strlit("image_generation_call");
    assert("item_reference"@.len() == 14);
    assert("message"@.len() == 7);
    assert("agent_message"@.len() == 13);
    assert("reasoning"@.len() == 9);
    assert("function_call"@.len() == 13);
    assert("function_call_output"@.len() == 20);
    assert("custom_tool_call"@.len() == 16);
    assert("custom_tool_call_output"@.len() == 23);
    assert("tool_search_call"@.len() == 16);
    assert("tool_search_output"@.len() == 18);
    assert("local_shell_call"@.len() == 16);
    assert("web_search_call"@.len() == 15);
    assert("image_generation_call"@.len() == 21);
    assert("agent_message"@[0] != "function_call"@[0]);
    assert("custom_tool_call"@[0] != "tool_search_call"@[0]);
    assert("custom_tool_call"@[0] != "local_shell_call"@[0]);
    assert("tool_search_call"@[0] != "local_shell_call"@[0]);
}

/// An item of the type `web_search_call` is read just where each member is what it should be.
pub proof fn law_item_web_search_call_is_readable(m: Seq<(Seq<char>, JsonView)>)
    requires
        json::member(m, "type"@) == Some(JsonView::Text("web_search_call"@)),
    ensures
        read::item_from(JsonView::Object(m)) is Some
            <==> reading::can_opt_text(json::member(m, "id"@))
                && reading::can_opt_text(json::member(m, "status"@))
                && (
                reading::nothing(json::member(m, "action"@))
                    || read::web_part_from(json::member(m, "action"@)->0) is Some
                ),
{
    reveal_strlit("item_reference");
    reveal_strlit("message");
    reveal_strlit("agent_message");
    reveal_strlit("reasoning");
    reveal_strlit("function_call");
    reveal_strlit("function_call_output");
    reveal_strlit("custom_tool_call");
    reveal_strlit("custom_tool_call_output");
    reveal_strlit("tool_search_call");
    reveal_strlit("tool_search_output");
    reveal_strlit("local_shell_call");
    reveal_strlit("web_search_call");
    reveal_strlit("image_generation_call");
    assert("item_reference"@.len() == 14);
    assert("message"@.len() == 7);
    assert("agent_message"@.len() == 13);
    assert("reasoning"@.len() == 9);
    assert("function_call"@.len() == 13);
    assert("function_call_output"@.len() == 20);
    assert("custom_tool_call"@.len() == 16);
    assert("custom_tool_call_output"@.len() == 23);
    assert("tool_search_call"@.len() == 16);
    assert("tool_search_output"@.len() == 18);
    assert("local_shell_call"@.len() == 16);
    assert("web_search_call"@.len() == 15);
    assert("image_generation_call"@.len() == 21);
    assert("agent_message"@[0] != "function_call"@[0]);
    assert("custom_tool_call"@[0] != "tool_search_call"@[0]);
    assert("custom_tool_call"@[0] != "local_shell_call"@[0]);
    assert("tool_search_call"@[0] != "local_shell_call"@[0]);
}

/// An item of the type `image_generation_call` is read by its members, each under its own name.
pub proof fn law_item_image_generation_call_is_read(m: Seq<(Seq<char>, JsonView)>, x: ResponseItem)
    requires
        json::member(m, "type"@) == Some(JsonView::Text("image_generation_call"@)),
        read::item_from(JsonView::Object(m)) == Some(x@),
    ensures
        x is ImageGenerationCall,
        reading::text(json::member(m, "id"@), x->ImageGenerationCall_id),
        reading::text(json::member(m, "status"@), x->ImageGenerationCall_status),
        reading::opt_text(json::member(m, "revised_prompt"@), x->revised_prompt),
        reading::text(json::member(m, "result"@), x->result),
{
    reveal_strlit("item_reference");
    reveal_strlit("message");
    reveal_strlit("agent_message");
    reveal_strlit("reasoning");
    reveal_strlit("function_call");
    reveal_strlit("function_call_output");
    reveal_strlit("custom_tool_call");
    reveal_strlit("custom_tool_call_output");
    reveal_strlit("tool_search_call");
    reveal_strlit("tool_search_output");
    reveal_strlit("local_shell_call");
    reveal_strlit("web_search_call");
    reveal_strlit("image_generation_call");
    assert("item_reference"@.len() == 14);
    assert("message"@.len() == 7);
    assert("agent_message"@.len() == 13);
    assert("reasoning"@.len() == 9);
    assert("function_call"@.len() == 13);
    assert("function_call_output"@.len() == 20);
    assert("custom_tool_call"@.len() == 16);
    assert("custom_tool_call_output"@.len() == 23);
    assert("tool_search_call"@.len() == 16);
    assert("tool_search_output"@.len() == 18);
    assert("local_shell_call"@.len() == 16);
    assert("web_search_call"@.len() == 15);
    assert("image_generation_call"@.len() == 21);
    assert("agent_message"@[0] != "function_call"@[0]);
    assert("custom_tool_call"@[0] != "tool_search_call"@[0]);
    assert("custom_tool_call"@[0] != "local_shell_call"@[0]);
    assert("tool_search_call"@[0] != "local_shell_call"@[0]);
}

/// An item of the type `image_generation_call` is read just where each member is what it should be.
pub proof fn law_item_image_generation_call_is_readable(m: Seq<(Seq<char>, JsonView)>)
    requires
        json::member(m, "type"@) == Some(JsonView::Text("image_generation_call"@)),
    ensures
        read::item_from(JsonView::Object(m)) is Some
            <==> reading::can_text(json::member(m, "id"@))
                && reading::can_text(json::member(m, "status"@))
                && reading::can_opt_text(json::member(m, "revised_prompt"@))
                && reading::can_text(json::member(m, "result"@)),
{
    reveal_strlit("item_reference");
    reveal_strlit("message");
    reveal_strlit("agent_message");
    reveal_strlit("reasoning");
    reveal_strlit("function_call");
    reveal_strlit("function_call_output");
    reveal_strlit("custom_tool_call");
    reveal_strlit("custom_tool_call_output");
    reveal_strlit("tool_search_call");
    reveal_strlit("tool_search_output");
    reveal_strlit("local_shell_call");
    reveal_strlit("web_search_call");
    reveal_strlit("image_generation_call");
    assert("item_reference"@.len() == 14);
    assert("message"@.len() == 7);
    assert("agent_message"@.len() == 13);
    assert("reasoning"@.len() == 9);
    assert("function_call"@.len() == 13);
    assert("function_call_output"@.len() == 20);
    assert("custom_tool_call"@.len() == 16);
    assert("custom_tool_call_output"@.len() == 23);
    assert("tool_search_call"@.len() == 16);
    assert("tool_search_output"@.len() == 18);
    assert("local_shell_call"@.len() == 16);
    assert("web_search_call"@.len() == 15);
    assert("image_generation_call"@.len() == 21);
    assert("agent_message"@[0] != "function_call"@[0]);
    assert("custom_tool_call"@[0] != "tool_search_call"@[0]);
    assert("custom_tool_call"@[0] != "local_shell_call"@[0]);
    assert("tool_search_call"@[0] != "local_shell_call"@[0]);
}

/// A tool of a namespace of the type `function` is read by its members, each under its own name.
pub proof fn law_namespace_tool_function_is_read(
    m: Seq<(Seq<char>, JsonView)>,
    numbered: Seq<Seq<char>>,
    x: NamespaceToolSpec,
)
    requires
        json::member(m, "type"@) == Some(JsonView::Text("function"@)),
        read_request::namespace_tool_tagged(JsonView::Object(m), numbered) == Some(x@),
    ensures
        x is Function,
        reading::text(json::member(m, "name"@), x->name),
        reading::text_or_empty(json::member(m, "description"@), x->description),
        reading::flag_or_false(json::member(m, "strict"@), x->strict),
        reading::value(json::member(m, "parameters"@), x->parameters),
{
    reveal_strlit("function");
    assert("function"@.len() == 8);
}

/// A tool of a namespace of the type `function` is read just where each member is what it
/// should be.
pub proof fn law_namespace_tool_function_is_readable(
    m: Seq<(Seq<char>, JsonView)>,
    numbered: Seq<Seq<char>>,
)
    requires
        json::member(m, "type"@) == Some(JsonView::Text("function"@)),
    ensures
        read_request::namespace_tool_tagged(JsonView::Object(m), numbered) is Some
            <==> reading::can_text(json::member(m, "name"@))
                && reading::can_text_or_empty(json::member(m, "description"@))
                && reading::can_flag_or_false(json::member(m, "strict"@))
                && reading::can_value(json::member(m, "parameters"@)),
{
    reveal_strlit("function");
    assert("function"@.len() == 8);
}

/// A format of the type `text` is read by its members, each under its own name.
pub proof fn law_format_text_is_read(
    m: Seq<(Seq<char>, JsonView)>,
    numbered: Seq<Seq<char>>,
    x: CustomToolFormat,
)
    requires
        json::member(m, "type"@) == Some(JsonView::Text("text"@)),
        read_request::format_tagged(JsonView::Object(m), numbered) == Some(x@),
    ensures
        x is Text,
{
    reveal_strlit("text");
    reveal_strlit("grammar");
    assert("text"@.len() == 4);
    assert("grammar"@.len() == 7);
}

/// A format of the type `text` is read just where each member is what it should be.
pub proof fn law_format_text_is_readable(m: Seq<(Seq<char>, JsonView)>, numbered: Seq<Seq<char>>)
    requires
        json::member(m, "type"@) == Some(JsonView::Text("text"@)),
    ensures
        read_request::format_tagged(JsonView::Object(m), numbered) is Some <==> true,
{
    reveal_strlit("text");
    reveal_strlit("grammar");
    assert("text"@.len() == 4);
    assert("grammar"@.len() == 7);
}

/// A format of the type `grammar` is read by its members, each under its own name.
pub proof fn law_format_grammar_is_read(
    m: Seq<(Seq<char>, JsonView)>,
    numbered: Seq<Seq<char>>,
    x: CustomToolFormat,
)
    requires
        json::member(m, "type"@) == Some(JsonView::Text("grammar"@)),
        read_request::format_tagged(JsonView::Object(m), numbered) == Some(x@),
    ensures
        x is Grammar,
        reading::text(json::member(m, "syntax"@), x->syntax),
        reading::text(json::member(m, "definition"@), x->definition),
{
    reveal_strlit("text");
    reveal_strlit("grammar");
    assert("text"@.len() == 4);
    assert("grammar"@.len() == 7);
}

/// A format of the type `grammar` is read just where each member is what it should be.
pub proof fn law_format_grammar_is_readable(m: Seq<(Seq<char>, JsonView)>, numbered: Seq<Seq<char>>)
    requires
        json::member(m, "type"@) == Some(JsonView::Text("grammar"@)),
    ensures
        read_request::format_tagged(JsonView::Object(m), numbered) is Some
            <==> reading::can_text(json::member(m, "syntax"@))
                && reading::can_text(json::member(m, "definition"@)),
{
    reveal_strlit("text");
    reveal_strlit("grammar");
    assert("text"@.len() == 4);
    assert("grammar"@.len() == 7);
}

/// A tool of the type `function` is read by its members, each under its own name.
pub proof fn law_tool_function_is_read(m: Seq<(Seq<char>, JsonView)>, x: ToolSpec)
    requires
        json::member(m, "type"@) == Some(JsonView::Text("function"@)),
        read_request::tool_from(JsonView::Object(m)) == Some(x@),
    ensures
        x is Function,
        reading::text(json::member(m, "name"@), x->Function_name),
        reading::text_or_empty(json::member(m, "description"@), x->Function_description),
        reading::flag_or_true(json::member(m, "strict"@), x->strict),
        reading::value(json::member(m, "parameters"@), x->Function_parameters),
{
    reveal_strlit("function");
    reveal_strlit("namespace");
    reveal_strlit("tool_search");
    reveal_strlit("local_shell");
    reveal_strlit("web_search");
    reveal_strlit("custom");
    reveal_strlit("image_generation");
    assert("function"@.len() == 8);
    assert("namespace"@.len() == 9);
    assert("tool_search"@.len() == 11);
    assert("local_shell"@.len() == 11);
    assert("web_search"@.len() == 10);
    assert("custom"@.len() == 6);
    assert("image_generation"@.len() == 16);
    assert("tool_search"@[0] != "local_shell"@[0]);
}

/// A tool of the type `function` is read just where each member is what it should be.
pub proof fn law_tool_function_is_readable(m: Seq<(Seq<char>, JsonView)>)
    requires
        json::member(m, "type"@) == Some(JsonView::Text("function"@)),
    ensures
        read_request::tool_from(JsonView::Object(m)) is Some
            <==> reading::can_text(json::member(m, "name"@))
                && reading::can_text_or_empty(json::member(m, "description"@))
                && reading::can_flag_or_true(json::member(m, "strict"@))
                && reading::can_value(json::member(m, "parameters"@)),
{
    reveal_strlit("function");
    reveal_strlit("namespace");
    reveal_strlit("tool_search");
    reveal_strlit("local_shell");
    reveal_strlit("web_search");
    reveal_strlit("custom");
    reveal_strlit("image_generation");
    assert("function"@.len() == 8);
    assert("namespace"@.len() == 9);
    assert("tool_search"@.len() == 11);
    assert("local_shell"@.len() == 11);
    assert("web_search"@.len() == 10);
    assert("custom"@.len() == 6);
    assert("image_generation"@.len() == 16);
    assert("tool_search"@[0] != "local_shell"@[0]);
}

/// A tool of the type `namespace` is read by its members, each under its own name.
pub proof fn law_tool_namespace_is_read(m: Seq<(Seq<char>, JsonView)>, x: ToolSpec)
    requires
        json::member(m, "type"@) == Some(JsonView::Text("namespace"@)),
        read_request::tool_from(JsonView::Object(m)) == Some(x@),
    ensures
        x is Namespace,
        reading::text(json::member(m, "name"@), x->Namespace_name),
        reading::text(json::member(m, "description"@), x->Namespace_description),
        json::member(m, "tools"@) matches Some(JsonView::Array(values))
            && values.len() == x->tools@.len() && forall|i: int| 0 <= i < values.len()
            ==> read_request::namespace_tool_part_from(values[i])
                == Some((#[trigger] x->tools@[i])@),
{
    reveal_strlit("function");
    reveal_strlit("namespace");
    reveal_strlit("tool_search");
    reveal_strlit("local_shell");
    reveal_strlit("web_search");
    reveal_strlit("custom");
    reveal_strlit("image_generation");
    assert("function"@.len() == 8);
    assert("namespace"@.len() == 9);
    assert("tool_search"@.len() == 11);
    assert("local_shell"@.len() == 11);
    assert("web_search"@.len() == 10);
    assert("custom"@.len() == 6);
    assert("image_generation"@.len() == 16);
    assert("tool_search"@[0] != "local_shell"@[0]);
    if json::member(m, "tools"@) is Some {
        let values = (json::member(m, "tools"@)->0)->Array_0;
        let read = read_request::each_namespace_tool_from(values)->0;
        let contents = read_request::namespace_tools_view(x->tools@);
        assert(read == contents);
        assert forall|i: int| 0 <= i < values.len() implies
            read_request::namespace_tool_part_from(values[i])
                == Some((#[trigger] x->tools@[i])@) by {
            assert(read[i] == read_request::namespace_tool_part_from(values[i])->0);
            assert(contents[i] == x->tools@[i]@);
        }
    }
}

/// A tool of the type `namespace` is read just where each member is what it should be.
pub proof fn law_tool_namespace_is_readable(m: Seq<(Seq<char>, JsonView)>)
    requires
        json::member(m, "type"@) == Some(JsonView::Text("namespace"@)),
    ensures
        read_request::tool_from(JsonView::Object(m)) is Some
            <==> reading::can_text(json::member(m, "name"@))
                && reading::can_text(json::member(m, "description"@))
                && (
                json::member(m, "tools"@) matches Some(JsonView::Array(values))
                    && forall|i: int| 0 <= i < values.len()
                    ==> read_request::namespace_tool_part_from(#[trigger] values[i]) is Some
                ),
{
    reveal_strlit("function");
    reveal_strlit("namespace");
    reveal_strlit("tool_search");
    reveal_strlit("local_shell");
    reveal_strlit("web_search");
    reveal_strlit("custom");
    reveal_strlit("image_generation");
    assert("function"@.len() == 8);
    assert("namespace"@.len() == 9);
    assert("tool_search"@.len() == 11);
    assert("local_shell"@.len() == 11);
    assert("web_search"@.len() == 10);
    assert("custom"@.len() == 6);
    assert("image_generation"@.len() == 16);
    assert("tool_search"@[0] != "local_shell"@[0]);
}

/// A tool of the type `tool_search` is read by its members, each under its own name.
pub proof fn law_tool_tool_search_is_read(m: Seq<(Seq<char>, JsonView)>, x: ToolSpec)
    requires
        json::member(m, "type"@) == Some(JsonView::Text("tool_search"@)),
        read_request::tool_from(JsonView::Object(m)) == Some(x@),
    ensures
        x is ToolSearch,
        reading::text(json::member(m, "execution"@), x->execution),
        reading::text(json::member(m, "description"@), x->ToolSearch_description),
        reading::value(json::member(m, "parameters"@), x->ToolSearch_parameters),
{
    reveal_strlit("function");
    reveal_strlit("namespace");
    reveal_strlit("tool_search");
    reveal_strlit("local_shell");
    reveal_strlit("web_search");
    reveal_strlit("custom");
    reveal_strlit("image_generation");
    assert("function"@.len() == 8);
    assert("namespace"@.len() == 9);
    assert("tool_search"@.len() == 11);
    assert("local_shell"@.len() == 11);
    assert("web_search"@.len() == 10);
    assert("custom"@.len() == 6);
    assert("image_generation"@.len() == 16);
    assert("tool_search"@[0] != "local_shell"@[0]);
}

/// A tool of the type `tool_search` is read just where each member is what it should be.
pub proof fn law_tool_tool_search_is_readable(m: Seq<(Seq<char>, JsonView)>)
    requires
        json::member(m, "type"@) == Some(JsonView::Text("tool_search"@)),
    ensures
        read_request::tool_from(JsonView::Object(m)) is Some
            <==> reading::can_text(json::member(m, "execution"@))
                && reading::can_text(json::member(m, "description"@))
                && reading::can_value(json::member(m, "parameters"@)),
{
    reveal_strlit("function");
    reveal_strlit("namespace");
    reveal_strlit("tool_search");
    reveal_strlit("local_shell");
    reveal_strlit("web_search");
    reveal_strlit("custom");
    reveal_strlit("image_generation");
    assert("function"@.len() == 8);
    assert("namespace"@.len() == 9);
    assert("tool_search"@.len() == 11);
    assert("local_shell"@.len() == 11);
    assert("web_search"@.len() == 10);
    assert("custom"@.len() == 6);
    assert("image_generation"@.len() == 16);
    assert("tool_search"@[0] != "local_shell"@[0]);
}

/// A tool of the type `local_shell` is read by its members, each under its own name.
pub proof fn law_tool_local_shell_is_read(m: Seq<(Seq<char>, JsonView)>, x: ToolSpec)
    requires
        json::member(m, "type"@) == Some(JsonView::Text("local_shell"@)),
        read_request::tool_from(JsonView::Object(m)) == Some(x@),
    ensures
        x is LocalShell,
{
    reveal_strlit("function");
    reveal_strlit("namespace");
    reveal_strlit("tool_search");
    reveal_strlit("local_shell");
    reveal_strlit("web_search");
    reveal_strlit("custom");
    reveal_strlit("image_generation");
    assert("function"@.len() == 8);
    assert("namespace"@.len() == 9);
    assert("tool_search"@.len() == 11);
    assert("local_shell"@.len() == 11);
    assert("web_search"@.len() == 10);
    assert("custom"@.len() == 6);
    assert("image_generation"@.len() == 16);
    assert("tool_search"@[0] != "local_shell"@[0]);
}

/// A tool of the type `local_shell` is read just where each member is what it should be.
pub proof fn law_tool_local_shell_is_readable(m: Seq<(Seq<char>, JsonView)>)
    requires
        json::member(m, "type"@) == Some(JsonView::Text("local_shell"@)),
    ensures
        read_request::tool_from(JsonView::Object(m)) is Some <==> true,
{
    reveal_strlit("function");
    reveal_strlit("namespace");
    reveal_strlit("tool_search");
    reveal_strlit("local_shell");
    reveal_strlit("web_search");
    reveal_strlit("custom");
    reveal_strlit("image_generation");
    assert("function"@.len() == 8);
    assert("namespace"@.len() == 9);
    assert("tool_search"@.len() == 11);
    assert("local_shell"@.len() == 11);
    assert("web_search"@.len() == 10);
    assert("custom"@.len() == 6);
    assert("image_generation"@.len() == 16);
    assert("tool_search"@[0] != "local_shell"@[0]);
}

/// A tool of the type `web_search` is read by its members, each under its own name.
pub proof fn law_tool_web_search_is_read(m: Seq<(Seq<char>, JsonView)>, x: ToolSpec)
    requires
        json::member(m, "type"@) == Some(JsonView::Text("web_search"@)),
        read_request::tool_from(JsonView::Object(m)) == Some(x@),
    ensures
        x is WebSearch,
        reading::opt_flag(json::member(m, "external_web_access"@), x->external_web_access),
        reading::opt_value(json::member(m, "filters"@), x->filters),
        reading::opt_value(json::member(m, "user_location"@), x->user_location),
        reading::opt_text(json::member(m, "search_context_size"@), x->search_context_size),
        reading::opt_texts(json::member(m, "search_content_types"@), x->search_content_types),
{
    reveal_strlit("function");
    reveal_strlit("namespace");
    reveal_strlit("tool_search");
    reveal_strlit("local_shell");
    reveal_strlit("web_search");
    reveal_strlit("custom");
    reveal_strlit("image_generation");
    assert("function"@.len() == 8);
    assert("namespace"@.len() == 9);
    assert("tool_search"@.len() == 11);
    assert("local_shell"@.len() == 11);
    assert("web_search"@.len() == 10);
    assert("custom"@.len() == 6);
    assert("image_generation"@.len() == 16);
    assert("tool_search"@[0] != "local_shell"@[0]);
    if x->search_content_types is Some {
        lemma_texts(
            (json::member(m, "search_content_types"@)->0)->Array_0,
            x->search_content_types->0,
        );
    }
}

/// A tool of the type `web_search` is read just where each member is what it should be.
pub proof fn law_tool_web_search_is_readable(m: Seq<(Seq<char>, JsonView)>)
    requires
        json::member(m, "type"@) == Some(JsonView::Text("web_search"@)),
    ensures
        read_request::tool_from(JsonView::Object(m)) is Some
            <==> reading::can_opt_flag(json::member(m, "external_web_access"@))
                && reading::can_opt_value(json::member(m, "filters"@))
                && reading::can_opt_value(json::member(m, "user_location"@))
                && reading::can_opt_text(json::member(m, "search_context_size"@))
                && reading::can_opt_texts(json::member(m, "search_content_types"@)),
{
    reveal_strlit("function");
    reveal_strlit("namespace");
    reveal_strlit("tool_search");
    reveal_strlit("local_shell");
    reveal_strlit("web_search");
    reveal_strlit("custom");
    reveal_strlit("image_generation");
    assert("function"@.len() == 8);
    assert("namespace"@.len() == 9);
    assert("tool_search"@.len() == 11);
    assert("local_shell"@.len() == 11);
    assert("web_search"@.len() == 10);
    assert("custom"@.len() == 6);
    assert("image_generation"@.len() == 16);
    assert("tool_search"@[0] != "local_shell"@[0]);
}

/// A tool of the type `custom` is read by its members, each under its own name.
pub proof fn law_tool_custom_is_read(m: Seq<(Seq<char>, JsonView)>, x: ToolSpec)
    requires
        json::member(m, "type"@) == Some(JsonView::Text("custom"@)),
        read_request::tool_from(JsonView::Object(m)) == Some(x@),
    ensures
        x is Custom,
        reading::text(json::member(m, "name"@), x->Custom_name),
        reading::text_or_empty(json::member(m, "description"@), x->Custom_description),
        json::member(m, "format"@) is None ==> x->format is Text,
        json::member(m, "format"@) is Some
            ==> read_request::format_part_from(json::member(m, "format"@)->0) == Some(x->format@),
{
    reveal_strlit("function");
    reveal_strlit("namespace");
    reveal_strlit("tool_search");
    reveal_strlit("local_shell");
    reveal_strlit("web_search");
    reveal_strlit("custom");
    reveal_strlit("image_generation");
    assert("function"@.len() == 8);
    assert("namespace"@.len() == 9);
    assert("tool_search"@.len() == 11);
    assert("local_shell"@.len() == 11);
    assert("web_search"@.len() == 10);
    assert("custom"@.len() == 6);
    assert("image_generation"@.len() == 16);
    assert("tool_search"@[0] != "local_shell"@[0]);
}

/// A tool of the type `custom` is read just where each member is what it should be.
pub proof fn law_tool_custom_is_readable(m: Seq<(Seq<char>, JsonView)>)
    requires
        json::member(m, "type"@) == Some(JsonView::Text("custom"@)),
    ensures
        read_request::tool_from(JsonView::Object(m)) is Some
            <==> reading::can_text(json::member(m, "name"@))
                && reading::can_text_or_empty(json::member(m, "description"@))
                && read_request::format_at(m, "format"@) is Some,
{
    reveal_strlit("function");
    reveal_strlit("namespace");
    reveal_strlit("tool_search");
    reveal_strlit("local_shell");
    reveal_strlit("web_search");
    reveal_strlit("custom");
    reveal_strlit("image_generation");
    assert("function"@.len() == 8);
    assert("namespace"@.len() == 9);
    assert("tool_search"@.len() == 11);
    assert("local_shell"@.len() == 11);
    assert("web_search"@.len() == 10);
    assert("custom"@.len() == 6);
    assert("image_generation"@.len() == 16);
    assert("tool_search"@[0] != "local_shell"@[0]);
}

/// A tool of the type `image_generation` is read by its members, each under its own name.
pub proof fn law_tool_image_generation_is_read(m: Seq<(Seq<char>, JsonView)>, x: ToolSpec)
    requires
        json::member(m, "type"@) == Some(JsonView::Text("image_generation"@)),
        read_request::tool_from(JsonView::Object(m)) == Some(x@),
    ensures
        x is ImageGeneration,
        reading::opt_text(json::member(m, "output_format"@), x->output_format),
{
    reveal_strlit("function");
    reveal_strlit("namespace");
    reveal_strlit("tool_search");
    reveal_strlit("local_shell");
    reveal_strlit("web_search");
    reveal_strlit("custom");
    reveal_strlit("image_generation");
    assert("function"@.len() == 8);
    assert("namespace"@.len() == 9);
    assert("tool_search"@.len() == 11);
    assert("local_shell"@.len() == 11);
    assert("web_search"@.len() == 10);
    assert("custom"@.len() == 6);
    assert("image_generation"@.len() == 16);
    assert("tool_search"@[0] != "local_shell"@[0]);
}

/// A tool of the type `image_generation` is read just where each member is what it should be.
pub proof fn law_tool_image_generation_is_readable(m: Seq<(Seq<char>, JsonView)>)
    requires
        json::member(m, "type"@) == Some(JsonView::Text("image_generation"@)),
    ensures
        read_request::tool_from(JsonView::Object(m)) is Some
            <==> reading::can_opt_text(json::member(m, "output_format"@)),
{
    reveal_strlit("function");
    reveal_strlit("namespace");
    reveal_strlit("tool_search");
    reveal_strlit("local_shell");
    reveal_strlit("web_search");
    reveal_strlit("custom");
    reveal_strlit("image_generation");
    assert("function"@.len() == 8);
    assert("namespace"@.len() == 9);
    assert("tool_search"@.len() == 11);
    assert("local_shell"@.len() == 11);
    assert("web_search"@.len() == 10);
    assert("custom"@.len() == 6);
    assert("image_generation"@.len() == 16);
    assert("tool_search"@[0] != "local_shell"@[0]);
}

/// Variables that were read are those of the members.
pub proof fn lemma_env(m: Seq<(Seq<char>, JsonView)>, x: Vec<(String, String)>)
    requires
        read::all_text_members(m),
        m.map_values(|e: (Seq<char>, JsonView)| (e.0, e.1->Text_0)) == read::env_view(x@),
    ensures
        reading::opt_env(Some(JsonView::Object(m)), Some(x)),
{
    let read = m.map_values(|e: (Seq<char>, JsonView)| (e.0, e.1->Text_0));
    assert(read.len() == read::env_view(x@).len());
    assert forall|i: int| 0 <= i < m.len() implies m[i] == (
        (#[trigger] x@[i]).0@,
        JsonView::Text(x@[i].1@),
    ) by {
        assert(m[i].1 is Text);
        assert(read[i] == (m[i].0, m[i].1->Text_0));
        assert(read::env_view(x@)[i] == (x@[i].0@, x@[i].1@));
    }
}

/// A shell action is read by its members, each under its own name, where its type is the one
/// that there is.
pub proof fn law_shell_action_is_read(
    m: Seq<(Seq<char>, JsonView)>,
    numbered: Seq<Seq<char>>,
    x: LocalShellAction,
)
    requires
        read::shell_tagged(JsonView::Object(m), numbered) == Some(x@),
        json::member(m, "type"@) is Some,
        json::member(m, "type"@)->0 is Text,
    ensures
        json::member(m, "type"@) == Some(JsonView::Text("exec"@)),
        x matches LocalShellAction::Exec(exec) && reading::texts(
            json::member(m, "command"@),
            exec.command,
        ) && reading::opt_u64(json::member(m, "timeout_ms"@), exec.timeout_ms)
            && reading::opt_text(json::member(m, "working_directory"@), exec.working_directory)
            && reading::opt_env(json::member(m, "env"@), exec.env) && reading::opt_text(
            json::member(m, "user"@),
            exec.user,
        ),
{
    let exec = x->Exec_0;
    lemma_texts((json::member(m, "command"@)->0)->Array_0, exec.command);
    if exec.env is Some {
        lemma_env((json::member(m, "env"@)->0)->Object_0, exec.env->0);
    }
}

/// A shell action is read just where each member is what it should be.
pub proof fn law_shell_action_is_readable(
    m: Seq<(Seq<char>, JsonView)>,
    numbered: Seq<Seq<char>>,
)
    requires
        json::member(m, "type"@) == Some(JsonView::Text("exec"@)),
    ensures
        read::shell_tagged(JsonView::Object(m), numbered) is Some <==> reading::can_texts(
            json::member(m, "command"@),
        ) && reading::can_opt_u64(json::member(m, "timeout_ms"@)) && reading::can_opt_text(
            json::member(m, "working_directory"@),
        ) && reading::can_opt_env(json::member(m, "env"@)) && reading::can_opt_text(
            json::member(m, "user"@),
        ),
{
}

} // verus!
