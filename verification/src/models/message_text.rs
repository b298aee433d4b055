//! A response of the Messages surface as JSON text.
use vstd::prelude::*;

use crate::json;
use crate::json_text;
use crate::json_text::array_of;
use crate::json_text::ObjectText;
use crate::models::anthropic::AnthropicMessageResponse;
use crate::models::anthropic::AnthropicMessageUsage;
use crate::models::anthropic::AnthropicResponseContentBlock;
use crate::text;
use crate::text::decimal_of;

verus! {

/// A content block of a response as text.
pub open spec fn block_text(item: AnthropicResponseContentBlock) -> Option<Seq<char>> {
    match item {
        AnthropicResponseContentBlock::Text { text } => {
            let m = json_text::tagged("text"@);
            let m = json_text::put_text(m, "text"@, text@);
            json_text::object_text(m)
        },
        AnthropicResponseContentBlock::Thinking { thinking } => {
            let m = json_text::tagged("thinking"@);
            let m = json_text::put_text(m, "thinking"@, thinking@);
            json_text::object_text(m)
        },
        AnthropicResponseContentBlock::ToolUse { id, name, input } => {
            let m = json_text::tagged("tool_use"@);
            let m = json_text::put_text(m, "id"@, id@);
            let m = json_text::put_text(m, "name"@, name@);
            let m = json_text::put(m, "input"@, json::rendered_json(input@));
            json_text::object_text(m)
        },
    }
}

impl AnthropicResponseContentBlock {
    /// A content block of a response as text.
    pub fn to_text(&self) -> (r: Option<String>)
        ensures
            text::opt_view(r) == block_text(*self),
    {
        match self {
            AnthropicResponseContentBlock::Text { text } => {
                let mut m = ObjectText::of_type("text");
                m.put_text("text", text.as_str());
                m.into_text()
            },
            AnthropicResponseContentBlock::Thinking { thinking } => {
                let mut m = ObjectText::of_type("thinking");
                m.put_text("thinking", thinking.as_str());
                m.into_text()
            },
            AnthropicResponseContentBlock::ToolUse { id, name, input } => {
                let mut m = ObjectText::of_type("tool_use");
                m.put_text("id", id.as_str());
                m.put_text("name", name.as_str());
                m.put("input", input.render());
                m.into_text()
            },
        }
    }
}

/// Content blocks of a response as text.
pub open spec fn blocks_text(items: Seq<AnthropicResponseContentBlock>) -> Option<Seq<char>> {
    json_text::array_text(items.map_values(|item: AnthropicResponseContentBlock| block_text(item)))
}

/// Content blocks of a response as text.
pub fn blocks_to_text(items: &Vec<AnthropicResponseContentBlock>) -> (r: Option<String>)
    ensures
        text::opt_view(r) == blocks_text(items@),
{
    let mut texts: Vec<Option<String>> = Vec::new();
    let mut i: usize = 0;
    while i < items.len()
        invariant
            i <= items@.len(),
            texts@.len() == i,
            forall|k: int|
                0 <= k < i ==> text::opt_view(#[trigger] texts@[k]) == block_text(items@[k]),
        decreases items@.len() - i,
    {
        texts.push(items[i].to_text());
        i += 1;
    }
    assert(texts@.map_values(|t: Option<String>| text::opt_view(t)) =~= items@.map_values(
        |item: AnthropicResponseContentBlock| block_text(item),
    ));
    array_of(texts)
}

/// The tokens of a response as text.
pub open spec fn usage_text(item: AnthropicMessageUsage) -> Option<Seq<char>> {
    let m = Some(Seq::<Seq<char>>::empty());
    let m = json_text::put(m, "input_tokens"@, Some(text::decimal(item.input_tokens as nat)));
    let m = json_text::put(m, "output_tokens"@, Some(text::decimal(item.output_tokens as nat)));
    json_text::object_text(m)
}

impl AnthropicMessageUsage {
    /// The tokens of a response as text.
    pub fn to_text(&self) -> (r: Option<String>)
        ensures
            text::opt_view(r) == usage_text(*self),
    {
        let mut m = ObjectText::new();
        m.put("input_tokens", Some(decimal_of(self.input_tokens as u128)));
        m.put("output_tokens", Some(decimal_of(self.output_tokens as u128)));
        m.into_text()
    }
}

/// A response as text.
pub open spec fn response_text(item: AnthropicMessageResponse) -> Option<Seq<char>> {
    let m = Some(Seq::<Seq<char>>::empty());
    let m = json_text::put_text(m, "id"@, item.id@);
    let m = json_text::put_text(m, "type"@, item.kind@);
    let m = json_text::put_text(m, "role"@, item.role@);
    let m = json_text::put(m, "content"@, blocks_text(item.content@));
    let m = json_text::put_text(m, "model"@, item.model@);
    let m = json_text::put_text(m, "stop_reason"@, item.stop_reason@);
    let m = json_text::put(
        m,
        "stop_sequence"@,
        match item.stop_sequence {
            Some(x) => json::rendered_json(x@),
            None => Some("null"@),
        },
    );
    let m = json_text::put(m, "usage"@, usage_text(item.usage));
    json_text::object_text(m)
}

impl AnthropicMessageResponse {
    /// A response as text.
    pub fn to_text(&self) -> (r: Option<String>)
        ensures
            text::opt_view(r) == response_text(*self),
    {
        let mut m = ObjectText::new();
        m.put_text("id", self.id.as_str());
        m.put_text("type", self.kind.as_str());
        m.put_text("role", self.role.as_str());
        m.put("content", blocks_to_text(&self.content));
        m.put_text("model", self.model.as_str());
        m.put_text("stop_reason", self.stop_reason.as_str());
        let value = match &self.stop_sequence {
            Some(x) => x.render(),
            None => Some("null".to_owned()),
        };
        m.put("stop_sequence", value);
        m.put("usage", self.usage.to_text());
        m.into_text()
    }
}

} // verus!
