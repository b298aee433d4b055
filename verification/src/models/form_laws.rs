//! The forms in which values are taken, and the one form that each is given.
use vstd::prelude::*;

use crate::json;
use crate::json::JsonView;
use crate::json::NumberView;
use crate::models::anthropic;
use crate::models::anthropic::AnthropicContent;
use crate::models::anthropic::AnthropicContentBlock;
use crate::models::anthropic::AnthropicSystemContent;
use crate::models::anthropic::ShapeView;
use crate::models::chat::ChatCompletionRequest;
use crate::models::chat::ChatDelta;
use crate::models::fields;
use crate::models::read;
use crate::models::read_chat;
use crate::models::read_messages;
use crate::models::reading;
use crate::models::responses;
use crate::models::responses::ContentItem;
use crate::models::responses::ContentView;
use crate::models::responses::FunctionCallOutputContent;
use crate::models::responses::ResponseStub;
use crate::models::shorthand;
use crate::models::written;

verus! {

broadcast use written::group_members;

/// An array is taken field by field, in the order of the names; it may end early once the
/// needed fields are there, and may not go on past the last.
pub proof fn law_array_is_taken_by_position(
    items: Seq<JsonView>,
    names: Seq<Seq<char>>,
    needed: nat,
    k: int,
)
    ensures
        fields::fields_of(JsonView::Array(items), names, needed) is Some <==> needed <= items.len()
            <= names.len(),
        fields::fields_of(JsonView::Array(items), names, needed) matches Some(m) ==> m.len()
            == items.len() && (0 <= k < items.len() ==> m[k] == (names[k], items[k])),
        fields::tagged_fields_of(JsonView::Array(items), names, needed) is Some <==> needed + 1
            <= items.len() <= names.len() + 1,
        fields::tagged_fields_of(JsonView::Array(items), names, needed) matches Some(m) ==> m.len()
            == items.len() - 1 && (0 <= k < m.len() ==> m[k] == (names[k], items[k + 1])),
{
}

/// An object is taken by its members, whatever their number.
pub proof fn law_object_is_taken_by_name(
    m: Seq<(Seq<char>, JsonView)>,
    names: Seq<Seq<char>>,
    needed: nat,
)
    ensures
        fields::fields_of(JsonView::Object(m), names, needed) == Some(m),
        fields::tagged_fields_of(JsonView::Object(m), names, needed) == Some(m),
{
}

/// A value that is neither has no fields.
pub proof fn law_other_value_has_no_fields(v: JsonView, names: Seq<Seq<char>>, needed: nat)
    requires
        !(v is Object),
        !(v is Array),
    ensures
        fields::fields_of(v, names, needed) is None,
        fields::tagged_fields_of(v, names, needed) is None,
        fields::tag_of(v, names) is None,
{
}

/// A type is named by a text, or by a number that is the place of its name.
pub proof fn law_type_is_named(
    m: Seq<(Seq<char>, JsonView)>,
    items: Seq<JsonView>,
    numbered: Seq<Seq<char>>,
    t: Seq<char>,
    n: u64,
)
    ensures
        json::member(m, "type"@) == Some(JsonView::Text(t)) ==> fields::tag_of(
            JsonView::Object(m),
            numbered,
        ) == Some(t),
        json::member(m, "type"@) == Some(JsonView::Number(NumberView::Unsigned(n))) && n
            < numbered.len() ==> fields::tag_of(JsonView::Object(m), numbered) == Some(
            numbered[n as int],
        ),
        json::member(m, "type"@) == Some(JsonView::Number(NumberView::Unsigned(n))) && n
            >= numbered.len() ==> fields::tag_of(JsonView::Object(m), numbered) is None,
        json::member(m, "type"@) is None ==> fields::tag_of(JsonView::Object(m), numbered) is None,
        items.len() > 0 && items[0] == JsonView::Text(t) ==> fields::tag_of(
            JsonView::Array(items),
            numbered,
        ) == Some(t),
        items.len() == 0 ==> fields::tag_of(JsonView::Array(items), numbered) is None,
{
}

/// What is not named like a field of a piece of an answer is kept as it is, and nothing else.
pub proof fn law_other_members_of_a_delta(
    m: Seq<(Seq<char>, JsonView)>,
    x: ChatDelta,
    e: (Seq<char>, JsonView),
)
    requires
        read_chat::delta_from(JsonView::Object(m)) == Some(x@),
    ensures
        x.extra@.contains(e) <==> m.contains(e) && e.0 != "content"@ && e.0 != "reasoning_content"@
            && e.0 != "tool_calls"@ && e.0 != "function_call"@ && e.0 != "refusal"@,
{
    lemma_delta_others(m, m.len() as int, e);
    lemma_delta_names(e.0);
    assert(m.take(m.len() as int) =~= m);
}

proof fn lemma_delta_names(key: Seq<char>)
    ensures
        read_chat::delta_from_names().contains(key) <==> key == "content"@ || key
            == "reasoning_content"@ || key == "tool_calls"@ || key == "function_call"@ || key
            == "refusal"@,
{
    let names = read_chat::delta_from_names();
    assert(names[0] == "content"@ && names[1] == "reasoning_content"@ && names[2] == "tool_calls"@);
    assert(names[3] == "function_call"@ && names[4] == "refusal"@);
}

proof fn lemma_delta_others(m: Seq<(Seq<char>, JsonView)>, n: int, e: (Seq<char>, JsonView))
    requires
        0 <= n <= m.len(),
    ensures
        read_chat::delta_from_others(m, n).contains(e) <==> m.take(n).contains(e)
            && !read_chat::delta_from_names().contains(e.0),
    decreases n,
{
    if n > 0 {
        lemma_delta_others(m, n - 1, e);
        let before = read_chat::delta_from_others(m, n - 1);
        assert(m.take(n) =~= m.take(n - 1).push(m[n - 1]));
        lemma_pushed(m.take(n - 1), m[n - 1], e);
        lemma_pushed(before, m[n - 1], e);
    }
}

proof fn lemma_pushed<A>(s: Seq<A>, x: A, e: A)
    ensures
        s.push(x).contains(e) <==> s.contains(e) || x == e,
{
    if s.contains(e) {
        let k = choose|k: int| 0 <= k < s.len() && s[k] == e;
        assert(s.push(x)[k] == e);
    }
    assert(s.push(x)[s.len() as int] == x);
    if s.push(x).contains(e) && x != e {
        let k = choose|k: int| 0 <= k < s.push(x).len() && s.push(x)[k] == e;
        assert(s[k] == e);
    }
}

/// What is not named like a field of a request is kept as it is, and nothing else.
pub proof fn law_other_members_of_a_chat_request(
    m: Seq<(Seq<char>, JsonView)>,
    x: ChatCompletionRequest,
    e: (Seq<char>, JsonView),
)
    requires
        read_chat::chat_request_from(JsonView::Object(m)) == Some(x@),
    ensures
        x.extra_body@.contains(e)
            <==> m.contains(e)
                && !(
                    e.0 == "model"@ || e.0 == "messages"@ || e.0 == "stream"@ || e.0 == "tools"@
                        || e.0 == "tool_choice"@ || e.0 == "parallel_tool_calls"@
                        || e.0 == "reasoning_effort"@ || e.0 == "response_format"@
                        || e.0 == "stream_options"@ || e.0 == "temperature"@ || e.0 == "top_p"@
                        || e.0 == "max_tokens"@ || e.0 == "max_output_tokens"@
                        || e.0 == "max_completion_tokens"@ || e.0 == "frequency_penalty"@
                        || e.0 == "presence_penalty"@ || e.0 == "stop"@
                ),
{
    lemma_chat_request_others(m, m.len() as int, e);
    lemma_chat_request_names(e.0);
    assert(m.take(m.len() as int) =~= m);
}

proof fn lemma_chat_request_names(key: Seq<char>)
    ensures
        read_chat::chat_request_from_names().contains(key)
            <==> key == "model"@ || key == "messages"@ || key == "stream"@ || key == "tools"@
                || key == "tool_choice"@ || key == "parallel_tool_calls"@
                || key == "reasoning_effort"@ || key == "response_format"@
                || key == "stream_options"@ || key == "temperature"@ || key == "top_p"@
                || key == "max_tokens"@ || key == "max_output_tokens"@
                || key == "max_completion_tokens"@ || key == "frequency_penalty"@
                || key == "presence_penalty"@ || key == "stop"@,
{
    let names = read_chat::chat_request_from_names();
    assert(names[0] == "model"@);
    assert(names[1] == "messages"@);
    assert(names[2] == "stream"@);
    assert(names[3] == "tools"@);
    assert(names[4] == "tool_choice"@);
    assert(names[5] == "parallel_tool_calls"@);
    assert(names[6] == "reasoning_effort"@);
    assert(names[7] == "response_format"@);
    assert(names[8] == "stream_options"@);
    assert(names[9] == "temperature"@);
    assert(names[10] == "top_p"@);
    assert(names[11] == "max_tokens"@);
    assert(names[12] == "max_output_tokens"@);
    assert(names[13] == "max_completion_tokens"@);
    assert(names[14] == "frequency_penalty"@);
    assert(names[15] == "presence_penalty"@);
    assert(names[16] == "stop"@);
}

proof fn lemma_chat_request_others(m: Seq<(Seq<char>, JsonView)>, n: int, e: (Seq<char>, JsonView))
    requires
        0 <= n <= m.len(),
    ensures
        read_chat::chat_request_from_others(m, n).contains(e) <==> m.take(n).contains(e)
            && !read_chat::chat_request_from_names().contains(e.0),
    decreases n,
{
    if n > 0 {
        lemma_chat_request_others(m, n - 1, e);
        let before = read_chat::chat_request_from_others(m, n - 1);
        assert(m.take(n) =~= m.take(n - 1).push(m[n - 1]));
        lemma_pushed(m.take(n - 1), m[n - 1], e);
        lemma_pushed(before, m[n - 1], e);
    }
}

/// A system prompt is a text, or a text block for each element; `null` is an empty text.
pub proof fn law_system_prompt_is_read(v: JsonView, x: AnthropicSystemContent, i: int)
    requires
        read_messages::system_from(v) == Some(x@),
    ensures
        v is Text || v is Array || v is Null,
        v is Null ==> (x matches AnthropicSystemContent::Text(t) && t@.len() == 0),
        v is Text ==> (x matches AnthropicSystemContent::Text(t) && v == JsonView::Text(t@)),
        v is Array ==> (x matches AnthropicSystemContent::Blocks(blocks) && blocks@.len()
            == v->Array_0.len() && (0 <= i < blocks@.len() ==> read_messages::text_block_from(
            v->Array_0[i],
        ) == Some(blocks@[i]@))),
{
    if let JsonView::Array(values) = v {
        let read = read_messages::each_text_block_from(values)->0;
        let contents = read_messages::text_blocks_view(x->Blocks_0@);
        assert(read == contents);
        if 0 <= i < x->Blocks_0@.len() {
            assert(read[i] == read_messages::text_block_from(values[i])->0);
            assert(contents[i] == x->Blocks_0@[i]@);
        }
    }
}

/// Content is a text, or a block for each element; `null` is an empty text.
pub proof fn law_content_is_read(v: JsonView, x: AnthropicContent, i: int)
    requires
        read_messages::body_from(v) == Some(x@),
    ensures
        v is Text || v is Array || v is Null,
        v is Null ==> (x matches AnthropicContent::Text(t) && t@.len() == 0),
        v is Text ==> (x matches AnthropicContent::Text(t) && v == JsonView::Text(t@)),
        v is Array ==> (x matches AnthropicContent::Blocks(blocks) && blocks@.len()
            == v->Array_0.len() && (0 <= i < blocks@.len() ==> read_messages::block_from(
            v->Array_0[i],
        ) == Some(read_messages::block_view(blocks@[i])))),
{
    if let JsonView::Array(values) = v {
        lemma_blocks(values, values.len(), i);
        let read = read_messages::blocks_from(values, values.len())->0;
        let contents = read_messages::body_view(x)->Blocks_0;
        assert(read == contents);
        if 0 <= i < x->Blocks_0@.len() {
            assert(contents[i] == read_messages::block_view(x->Blocks_0@[i]));
        }
    }
}

proof fn lemma_blocks(items: Seq<JsonView>, n: nat, i: int)
    requires
        n <= items.len(),
        read_messages::blocks_from(items, n) is Some,
    ensures
        (read_messages::blocks_from(items, n)->0).len() == n,
        0 <= i < n ==> read_messages::block_from(items[i]) == Some(
            (read_messages::blocks_from(items, n)->0)[i],
        ),
    decreases n,
{
    if n > 0 {
        lemma_blocks(items, (n - 1) as nat, i);
    }
}

/// Content is read just where it is a text, `null`, or only blocks that can be read.
pub proof fn law_content_is_readable(v: JsonView)
    ensures
        read_messages::body_from(v) is Some <==> v is Text || v is Null || (v is Array && forall|
            i: int,
        |
            0 <= i < v->Array_0.len()
                ==> read_messages::block_from(#[trigger] v->Array_0[i]) is Some),
{
    if let JsonView::Array(items) = v {
        lemma_all_blocks(items, items.len());
        assert(items.take(items.len() as int) =~= items);
    }
}

proof fn lemma_all_blocks(items: Seq<JsonView>, n: nat)
    requires
        n <= items.len(),
    ensures
        read_messages::blocks_from(items, n) is Some <==> forall|i: int|
            0 <= i < n ==> read_messages::block_from(#[trigger] items[i]) is Some,
    decreases n,
{
    if n > 0 {
        lemma_all_blocks(items, (n - 1) as nat);
        if read_messages::blocks_from(items, n) is Some {
            assert forall|i: int| 0 <= i < n implies read_messages::block_from(
                #[trigger] items[i],
            ) is Some by {}
        }
    }
}

/// A block of the type `text` is read by its members.
pub proof fn law_text_block_is_read(m: Seq<(Seq<char>, JsonView)>, x: AnthropicContentBlock)
    requires
        json::member(m, "type"@) == Some(JsonView::Text("text"@)),
        read_messages::block_from(JsonView::Object(m)) == Some(read_messages::block_view(x)),
    ensures
        x is Text,
        x matches AnthropicContentBlock::Text { text }
            ==> reading::text(json::member(m, "text"@), text),
{
    reveal_strlit("text");
    reveal_strlit("image");
    reveal_strlit("tool_use");
    reveal_strlit("thinking");
    reveal_strlit("tool_result");
    assert("text"@.len() == 4);
    assert("image"@.len() == 5);
    assert("tool_use"@.len() == 8);
    assert("thinking"@.len() == 8);
    assert("tool_result"@.len() == 11);
    assert("tool_use"@[1] != "thinking"@[1]);
}

/// A block of the type `image` is read by its members.
pub proof fn law_image_block_is_read(m: Seq<(Seq<char>, JsonView)>, x: AnthropicContentBlock)
    requires
        json::member(m, "type"@) == Some(JsonView::Text("image"@)),
        read_messages::block_from(JsonView::Object(m)) == Some(read_messages::block_view(x)),
    ensures
        x is Image,
        x matches AnthropicContentBlock::Image { source }
            ==> json::member(m, "source"@) is Some
                && read_messages::image_source_from(json::member(m, "source"@)->0) == Some(source@),
{
    reveal_strlit("text");
    reveal_strlit("image");
    reveal_strlit("tool_use");
    reveal_strlit("thinking");
    reveal_strlit("tool_result");
    assert("text"@.len() == 4);
    assert("image"@.len() == 5);
    assert("tool_use"@.len() == 8);
    assert("thinking"@.len() == 8);
    assert("tool_result"@.len() == 11);
    assert("tool_use"@[1] != "thinking"@[1]);
}

/// A block of the type `tool_use` is read by its members.
pub proof fn law_tool_use_block_is_read(m: Seq<(Seq<char>, JsonView)>, x: AnthropicContentBlock)
    requires
        json::member(m, "type"@) == Some(JsonView::Text("tool_use"@)),
        read_messages::block_from(JsonView::Object(m)) == Some(read_messages::block_view(x)),
    ensures
        x is ToolUse,
        x matches AnthropicContentBlock::ToolUse { id, name, input }
            ==> reading::text(json::member(m, "id"@), id)
                && reading::text(json::member(m, "name"@), name)
                && reading::value(json::member(m, "input"@), input),
{
    reveal_strlit("text");
    reveal_strlit("image");
    reveal_strlit("tool_use");
    reveal_strlit("thinking");
    reveal_strlit("tool_result");
    assert("text"@.len() == 4);
    assert("image"@.len() == 5);
    assert("tool_use"@.len() == 8);
    assert("thinking"@.len() == 8);
    assert("tool_result"@.len() == 11);
    assert("tool_use"@[1] != "thinking"@[1]);
}

/// A block of the type `thinking` is read by its members.
pub proof fn law_thinking_block_is_read(m: Seq<(Seq<char>, JsonView)>, x: AnthropicContentBlock)
    requires
        json::member(m, "type"@) == Some(JsonView::Text("thinking"@)),
        read_messages::block_from(JsonView::Object(m)) == Some(read_messages::block_view(x)),
    ensures
        x is Thinking,
        x matches AnthropicContentBlock::Thinking { thinking }
            ==> reading::text(json::member(m, "thinking"@), thinking),
{
    reveal_strlit("text");
    reveal_strlit("image");
    reveal_strlit("tool_use");
    reveal_strlit("thinking");
    reveal_strlit("tool_result");
    assert("text"@.len() == 4);
    assert("image"@.len() == 5);
    assert("tool_use"@.len() == 8);
    assert("thinking"@.len() == 8);
    assert("tool_result"@.len() == 11);
    assert("tool_use"@[1] != "thinking"@[1]);
}

/// A block of the type `tool_result` is read by its members.
pub proof fn law_tool_result_block_is_read(m: Seq<(Seq<char>, JsonView)>, x: AnthropicContentBlock)
    requires
        json::member(m, "type"@) == Some(JsonView::Text("tool_result"@)),
        read_messages::block_from(JsonView::Object(m)) == Some(read_messages::block_view(x)),
    ensures
        x is ToolResult,
        x matches AnthropicContentBlock::ToolResult { tool_use_id, content, is_error }
            ==> reading::text(json::member(m, "tool_use_id"@), tool_use_id)
                && reading::opt_flag(json::member(m, "is_error"@), is_error)
                && (content is None <==> reading::nothing(json::member(m, "content"@)))
                && (
                content is Some
                    ==> read_messages::body_from(json::member(m, "content"@)->0)
                        == Some((content->0)@)
                ),
{
    reveal_strlit("text");
    reveal_strlit("image");
    reveal_strlit("tool_use");
    reveal_strlit("thinking");
    reveal_strlit("tool_result");
    assert("text"@.len() == 4);
    assert("image"@.len() == 5);
    assert("tool_use"@.len() == 8);
    assert("thinking"@.len() == 8);
    assert("tool_result"@.len() == 11);
    assert("tool_use"@[1] != "thinking"@[1]);
    json::lemma_key_index(m, "content"@, 0);
}

/// A block is read just where its type is known and each member is what it should be.
pub proof fn law_block_is_readable(m: Seq<(Seq<char>, JsonView)>)
    ensures
        read_messages::block_from(JsonView::Object(m)) is Some
            <==> (
            (
            json::member(m, "type"@) == Some(JsonView::Text("text"@))
                && reading::can_text(json::member(m, "text"@))
            )
                || (
                json::member(m, "type"@) == Some(JsonView::Text("image"@))
                    && json::member(m, "source"@) is Some
                    && read_messages::image_source_from(json::member(m, "source"@)->0) is Some
                )
                || (
                json::member(m, "type"@) == Some(JsonView::Text("tool_use"@))
                    && reading::can_text(json::member(m, "id"@))
                    && reading::can_text(json::member(m, "name"@))
                    && json::member(m, "input"@) is Some
                )
                || (
                json::member(m, "type"@) == Some(JsonView::Text("thinking"@))
                    && reading::can_text(json::member(m, "thinking"@))
                )
                || (
                json::member(m, "type"@) == Some(JsonView::Text("tool_result"@))
                    && reading::can_text(json::member(m, "tool_use_id"@))
                    && reading::can_opt_flag(json::member(m, "is_error"@))
                    && (
                    reading::nothing(json::member(m, "content"@))
                        || read_messages::body_from(json::member(m, "content"@)->0) is Some
                    )
                )
            ),
{
    reveal_strlit("text");
    reveal_strlit("image");
    reveal_strlit("tool_use");
    reveal_strlit("thinking");
    reveal_strlit("tool_result");
    assert("text"@.len() == 4);
    assert("image"@.len() == 5);
    assert("tool_use"@.len() == 8);
    assert("thinking"@.len() == 8);
    assert("tool_result"@.len() == 11);
    assert("tool_use"@[1] != "thinking"@[1]);
    json::lemma_key_index(m, "content"@, 0);
}

/// A content part is read by its members; a part of a type that is not known is kept as it is.
pub proof fn law_content_part_is_read(m: Seq<(Seq<char>, JsonView)>, x: ContentItem)
    requires
        responses::content_from(JsonView::Object(m)) == Ok::<ContentView, Seq<char>>(x@),
    ensures
        json::member(m, "type"@) == Some(JsonView::Text("input_text"@)) <==> x is InputText,
        json::member(m, "type"@) == Some(JsonView::Text("input_image"@)) <==> x is InputImage,
        json::member(m, "type"@) == Some(JsonView::Text("input_file"@)) <==> x is InputFile,
        json::member(m, "type"@) == Some(JsonView::Text("output_text"@)) <==> x is OutputText,
        json::member(m, "type"@) == Some(JsonView::Text("refusal"@)) <==> x is Refusal,
        x matches ContentItem::InputText { text } ==> reading::text(json::member(m, "text"@), text),
        x matches ContentItem::OutputText { text }
            ==> reading::text(json::member(m, "text"@), text),
        x matches ContentItem::Refusal { refusal } ==> reading::text(
            json::member(m, "refusal"@),
            refusal,
        ),
        x matches ContentItem::InputImage { image_url, file_id, detail } ==> reading::opt_text(
            json::member(m, "file_id"@),
            file_id,
        ) && reading::opt_text(json::member(m, "detail"@), detail) && (reading::opt_text(
            json::member(m, "image_url"@),
            image_url,
        ) || (json::member(m, "image_url"@) matches Some(JsonView::Object(inner))
            && (image_url matches Some(url) && reading::text(json::member(inner, "url"@), url)))),
        x matches ContentItem::InputFile { file_id, file_url, filename, file_data }
            ==> reading::opt_text(json::member(m, "file_id"@), file_id) && reading::opt_text(
            json::member(m, "file_url"@),
            file_url,
        ) && reading::opt_text(json::member(m, "filename"@), filename) && reading::opt_text(
            json::member(m, "file_data"@),
            file_data,
        ),
        x matches ContentItem::Other(value) ==> value@ == JsonView::Object(m),
{
    reveal_strlit("input_text");
    reveal_strlit("input_image");
    reveal_strlit("input_file");
    reveal_strlit("output_text");
    reveal_strlit("refusal");
    assert("input_text"@.len() == 10);
    assert("input_image"@.len() == 11);
    assert("input_file"@.len() == 10);
    assert("output_text"@.len() == 11);
    assert("refusal"@.len() == 7);
    assert("input_text"@[6] != "input_file"@[6]);
    assert("input_image"@[0] != "output_text"@[0]);
}

/// A content part is read just where each of its members is what it should be.
pub proof fn law_content_part_is_readable(m: Seq<(Seq<char>, JsonView)>, t: Seq<char>)
    requires
        json::member(m, "type"@) == Some(JsonView::Text(t)),
    ensures
        t == "input_text"@ || t == "output_text"@ ==> (responses::content_from(
            JsonView::Object(m),
        ) is Ok <==> reading::can_text(json::member(m, "text"@))),
        t == "refusal"@ ==> (responses::content_from(JsonView::Object(m)) is Ok
            <==> reading::can_text(json::member(m, "refusal"@))),
        t == "input_image"@ ==> (responses::content_from(JsonView::Object(m)) is Ok
            <==> reading::can_opt_text(json::member(m, "file_id"@)) && reading::can_opt_text(
            json::member(m, "detail"@),
        ) && (reading::can_opt_text(json::member(m, "image_url"@)) || (json::member(
            m,
            "image_url"@,
        ) matches Some(JsonView::Object(inner)) && reading::can_text(
            json::member(inner, "url"@),
        )))),
        t == "input_file"@ ==> (responses::content_from(JsonView::Object(m)) is Ok
            <==> reading::can_opt_text(json::member(m, "file_id"@)) && reading::can_opt_text(
            json::member(m, "file_url"@),
        ) && reading::can_opt_text(json::member(m, "filename"@)) && reading::can_opt_text(
            json::member(m, "file_data"@),
        )),
        t != "input_text"@ && t != "output_text"@ && t != "refusal"@ && t != "input_image"@ && t
            != "input_file"@ ==> responses::content_from(JsonView::Object(m)) is Ok,
{
    reveal_strlit("input_text");
    reveal_strlit("input_image");
    reveal_strlit("input_file");
    reveal_strlit("output_text");
    reveal_strlit("refusal");
    assert("input_text"@.len() == 10);
    assert("input_image"@.len() == 11);
    assert("input_file"@.len() == 10);
    assert("output_text"@.len() == 11);
    assert("refusal"@.len() == 7);
    assert("input_text"@[6] != "input_file"@[6]);
    assert("input_image"@[0] != "output_text"@[0]);
}

/// What is no object is no content part.
pub proof fn law_content_part_is_an_object(v: JsonView)
    requires
        !(v is Object),
    ensures
        responses::content_from(v) is Err,
        responses::content_or_other(v) == ContentView::Other(v),
{
}

/// What a field that is missing or of the wrong kind is told to be.
pub proof fn law_wrong_field_is_named(m: Seq<(Seq<char>, JsonView)>, key: Seq<char>)
    ensures
        json::member(m, key) is None ==> responses::required_text(m, key) == Err::<
            Seq<char>,
            Seq<char>,
        >("missing field `"@ + key + "`"@),
        json::member(m, key) is Some && !reading::can_text(json::member(m, key))
            ==> responses::required_text(m, key) == Err::<Seq<char>, Seq<char>>(
            key + " must be a string"@,
        ),
        !reading::can_opt_text(json::member(m, key)) ==> responses::optional_text(m, key) == Err::<
            Option<Seq<char>>,
            Seq<char>,
        >(key + " must be a string"@),
{
}

/// The output of a function is its text, its parts, nothing for `null`, and else what it is
/// written as.
pub proof fn law_function_output_is_taken(
    v: JsonView,
    rendered: Option<Seq<char>>,
    x: FunctionCallOutputContent,
    i: int,
)
    requires
        responses::output_from(v, rendered) == x@,
    ensures
        v is Text ==> (x matches FunctionCallOutputContent::Text(t) && v == JsonView::Text(t@)),
        v is Null ==> (x matches FunctionCallOutputContent::Text(t) && t@.len() == 0),
        v is Array ==> (x matches FunctionCallOutputContent::Content(parts) && parts@.len()
            == v->Array_0.len() && (0 <= i < parts@.len() ==> match responses::content_from(
            v->Array_0[i],
        ) {
            Ok(part) => parts@[i]@ == part,
            Err(_) => parts@[i]@ == ContentView::Other(v->Array_0[i]),
        })),
        !(v is Text || v is Null || v is Array) && rendered is Some ==> (
        x matches FunctionCallOutputContent::Text(t) && t@ == rendered->0),
        !(v is Text || v is Null || v is Array) && rendered is None ==> (
        x matches FunctionCallOutputContent::Text(t) && t@ == "null"@),
{
    if let JsonView::Array(items) = v {
        let read = items.map_values(|i: JsonView| responses::content_or_other(i));
        let contents = responses::contents_view(x->Content_0@);
        assert(read == contents);
        if 0 <= i < items.len() {
            assert(read[i] == responses::content_or_other(items[i]));
            assert(contents[i] == x->Content_0@[i]@);
        }
    }
}

/// A reason is the one whose name is given, and another reason where the name is of none.
pub proof fn law_finish_reason_is_taken(name: Seq<char>)
    ensures
        responses::reason_from(Some(name)) is Stop <==> name == "stop"@,
        responses::reason_from(Some(name)) is Length <==> name == "length"@,
        responses::reason_from(Some(name)) is ToolCall <==> name == "tool_calls"@,
        responses::reason_from(Some(name)) is ContentFilter <==> name == "content_filter"@,
        responses::reason_from(None) is Other,
{
    reveal_strlit("stop");
    reveal_strlit("length");
    reveal_strlit("tool_calls");
    reveal_strlit("content_filter");
    assert("stop"@.len() == 4);
    assert("length"@.len() == 6);
    assert("tool_calls"@.len() == 10);
    assert("content_filter"@.len() == 14);
}

/// What stands for content is a text or blocks, and anything else is refused.
pub proof fn law_content_has_a_shape(v: JsonView, refusal: Seq<char>, t: Seq<char>)
    ensures
        anthropic::shape_of(v, refusal) == Ok::<ShapeView, Seq<char>>(ShapeView::Blocks)
            <==> v is Array,
        v == JsonView::Text(t) ==> anthropic::shape_of(v, refusal) == Ok::<ShapeView, Seq<char>>(
            ShapeView::Text(t),
        ),
        anthropic::shape_of(v, refusal) is Err <==> !(v is Text || v is Array || v is Null),
        anthropic::shape_of(v, refusal) is Err ==> anthropic::shape_of(v, refusal) == Err::<
            ShapeView,
            Seq<char>,
        >(refusal),
{
}

/// An item of the role `tool` becomes the output of the call that it answers.
pub proof fn law_tool_item_becomes_an_output(
    m: Seq<(Seq<char>, JsonView)>,
    call: Seq<char>,
    content: JsonView,
    rendered: Option<Seq<char>>,
)
    requires
        json::member(m, "role"@) == Some(JsonView::Text("tool"@)),
        json::member(m, "call_id"@) == Some(JsonView::Text(call)) || (json::member(
            m,
            "call_id"@,
        ) is None && json::member(m, "tool_call_id"@) == Some(JsonView::Text(call))),
        json::member(m, "content"@) == Some(content),
    ensures
        shorthand::normalized_item(JsonView::Object(m), rendered) matches JsonView::Object(o)
            && json::member(o, "type"@) == Some(JsonView::Text("function_call_output"@))
            && json::member(o, "call_id"@) == Some(JsonView::Text(call)) && (content is Text
            || content is Array ==> json::member(o, "output"@) == Some(content)) && (content is Null
            ==> json::member(o, "output"@) == Some(JsonView::Text(seq![]))) && (!(content is Text
            || content is Array || content is Null) && rendered is Some ==> json::member(
            o,
            "output"@,
        ) == Some(JsonView::Text(rendered->0))),
{
    reveal_strlit("type");
    reveal_strlit("call_id");
    reveal_strlit("output");
    reveal_strlit("role");
    reveal_strlit("content");
    assert("type"@.len() == 4);
    assert("call_id"@.len() == 7);
    assert("output"@.len() == 6);
    assert("role"@.len() == 4);
    assert("content"@.len() == 7);
    assert("type"@[0] != "role"@[0]);
    assert("call_id"@[1] != "content"@[1]);
}

/// A message whose content is a text has it as its only part; what has a role and content and
/// no type is a message; all else stays.
pub proof fn law_message_has_parts(
    m: Seq<(Seq<char>, JsonView)>,
    rendered: Option<Seq<char>>,
    t: Seq<char>,
    key: Seq<char>,
)
    requires
        json::member(m, "role"@) is Some,
        json::member(m, "role"@) != Some(JsonView::Text("tool"@)),
        json::member(m, "content"@) == Some(JsonView::Text(t)),
        json::member(m, "type"@) is None || json::member(m, "type"@) == Some(
            JsonView::Text("message"@),
        ),
    ensures
        shorthand::normalized_item(JsonView::Object(m), rendered) matches JsonView::Object(o)
            && json::member(o, "type"@) == Some(JsonView::Text("message"@)) && (json::member(
            o,
            "content"@,
        ) matches Some(JsonView::Array(parts)) && parts.len() == 1
            && (parts[0] matches JsonView::Object(p) && json::member(p, "type"@) == Some(
            JsonView::Text("input_text"@),
        ) && json::member(p, "text"@) == Some(JsonView::Text(t)))) && (key != "type"@ && key
            != "content"@ ==> json::member(o, key) == json::member(m, key)),
{
    reveal_strlit("type");
    reveal_strlit("content");
    reveal_strlit("role");
    reveal_strlit("text");
    reveal_strlit("message");
    reveal_strlit("tool");
    assert("type"@.len() == 4);
    assert("content"@.len() == 7);
    assert("role"@.len() == 4);
    assert("text"@.len() == 4);
    assert("message"@.len() == 7);
    assert("tool"@.len() == 4);
    assert("type"@[0] != "role"@[0]);
    assert("type"@[1] != "text"@[1]);
    assert("type"@[1] != "tool"@[1]);
    assert("content"@[0] != "message"@[0]);
    assert("role"@[0] != "text"@[0]);
    assert("role"@[0] != "tool"@[0]);
    assert("text"@[1] != "tool"@[1]);
}

/// An item of another type that is not of the role `tool` stays as it is.
pub proof fn law_other_item_stays(m: Seq<(Seq<char>, JsonView)>, rendered: Option<Seq<char>>)
    requires
        json::member(m, "role"@) != Some(JsonView::Text("tool"@)),
        json::member(m, "type"@) is Some,
        json::member(m, "type"@) != Some(JsonView::Text("message"@)),
    ensures
        shorthand::normalized_item(JsonView::Object(m), rendered) == JsonView::Object(m),
{
}

/// A function that is chosen by its name has the name under `function`; another choice stays.
pub proof fn law_chosen_function_is_nested(
    m: Seq<(Seq<char>, JsonView)>,
    name: JsonView,
    key: Seq<char>,
)
    requires
        json::member(m, "name"@) == Some(name),
    ensures
        json::member(m, "type"@) == Some(JsonView::Text("function"@)) && json::member(
            m,
            "function"@,
        ) is None ==> (shorthand::nested_tool_choice(JsonView::Object(m)) matches JsonView::Object(
            o,
        ) && json::member(o, "type"@) == Some(JsonView::Text("function"@)) && (json::member(
            o,
            "function"@,
        ) matches Some(JsonView::Object(f)) && json::member(f, "name"@) == Some(name) && f.len()
            == 1) && (key != "name"@ && key != "function"@ ==> json::member(o, key) == json::member(
            m,
            key,
        ))),
        json::member(m, "type"@) != Some(JsonView::Text("function"@)) || json::member(
            m,
            "function"@,
        ) is Some ==> shorthand::nested_tool_choice(JsonView::Object(m)) == JsonView::Object(m),
{
    reveal_strlit("type");
    reveal_strlit("name");
    reveal_strlit("function");
    assert("type"@.len() == 4);
    assert("name"@.len() == 4);
    assert("function"@.len() == 8);
    assert("type"@[0] != "name"@[0]);
    json::law_removal_keeps_others(m, "name"@, "type"@);
    if key != "name"@ {
        json::law_removal_keeps_others(m, "name"@, key);
    }
    let f = json::set_member(seq![], "name"@, name);
    assert(f =~= seq![("name"@, name)]);
    json::lemma_key_index(f, "name"@, 0);
}

/// A function that is chosen under `function` is shown by its name alone.
pub proof fn law_chosen_function_is_shown(
    m: Seq<(Seq<char>, JsonView)>,
    f: Seq<(Seq<char>, JsonView)>,
    name: Seq<char>,
)
    requires
        json::member(m, "type"@) == Some(JsonView::Text("function"@)),
        json::member(m, "function"@) == Some(JsonView::Object(f)),
        json::member(f, "name"@) == Some(JsonView::Text(name)),
    ensures
        shorthand::flat_tool_choice(JsonView::Object(m)) matches JsonView::Object(o)
            && json::member(o, "type"@) == Some(JsonView::Text("function"@)) && json::member(
            o,
            "name"@,
        ) == Some(JsonView::Text(name)) && json::member(o, "function"@) is None,
{
    reveal_strlit("type");
    reveal_strlit("name");
    reveal_strlit("function");
    assert("type"@.len() == 4);
    assert("name"@.len() == 4);
    assert("function"@.len() == 8);
    assert("type"@[0] != "name"@[0]);
}

/// A stub has its id, and its estimate where there is one.
pub proof fn law_stub_has_its_members(stub: ResponseStub)
    ensures
        shorthand::stub_json(stub) matches JsonView::Object(m) && json::member(m, "id"@) == Some(
            JsonView::Text(stub.id@),
        ) && json::member(m, "estimated_input_tokens"@) == match stub.estimated_input_tokens {
            Some(n) => Some(written::unsigned(n)),
            None => None,
        },
{
    reveal_strlit("id");
    reveal_strlit("estimated_input_tokens");
    assert("id"@.len() == 2);
    assert("estimated_input_tokens"@.len() == 22);
}

} // verus!
