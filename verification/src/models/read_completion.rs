//! Completions of an upstream as they are read from JSON.
use vstd::prelude::*;

use crate::json;
use crate::json::Json;
use crate::json::JsonMap;
use crate::json::JsonView;
use crate::models::chat::ChatCompletionResponse;
use crate::models::chat::ChatResponseChoice;
use crate::models::chat::ChatResponseMessage;
use crate::models::fields;
use crate::models::fields::fields_in;
use crate::models::fields::Names;
use crate::models::read;
use crate::models::read::read_opt_text;
use crate::models::read::read_text;
use crate::models::read_chat;
use crate::models::read_chat::read_opt_tool_calls;
use crate::models::read_chat::read_usize;
use crate::text;

verus! {

/// The message of a choice, by its contents.
pub struct AnswerView {
    /// `role`.
    pub role: Seq<char>,
    /// `content`.
    pub content: Option<Seq<char>>,
    /// `reasoning_content`.
    pub reasoning_content: Option<Seq<char>>,
    /// `tool_calls`.
    pub tool_calls: Option<Seq<read_chat::ToolCallView>>,
}

impl View for ChatResponseMessage {
    type V = AnswerView;

    open spec fn view(&self) -> AnswerView {
        AnswerView {
            role: self.role@,
            content: text::opt_view(self.content),
            reasoning_content: text::opt_view(self.reasoning_content),
            tool_calls: read_chat::opt_tool_calls_view(self.tool_calls),
        }
    }
}

/// The message that a value stands for.
pub open spec fn answer_from(v: JsonView) -> Option<AnswerView> {
    match fields::fields_of(
        v,
        seq!["role"@, "content"@, "reasoning_content"@, "tool_calls"@],
        4,
    ) {
        Some(m) => if read::text_at(m, "role"@) is Some
            && read::opt_text_at(m, "content"@) is Some
            && read::opt_text_at(m, "reasoning_content"@) is Some
            && read_chat::opt_tool_calls_at(m, "tool_calls"@) is Some {
            Some(
                AnswerView {
                    role: read::text_at(m, "role"@)->0,
                    content: read::opt_text_at(m, "content"@)->0,
                    reasoning_content: read::opt_text_at(m, "reasoning_content"@)->0,
                    tool_calls: read_chat::opt_tool_calls_at(m, "tool_calls"@)->0,
                },
            )
        } else {
            None
        },
        None => None,
    }
}

impl ChatResponseMessage {
    /// The message that a value stands for.
    pub fn from_json(value: &Json) -> (r: Option<ChatResponseMessage>)
        ensures
            match r {
                Some(read) => answer_from(value@) == Some(read@),
                None => answer_from(value@) is None,
            },
    {
        let names = Names::new()
            .and("role")
            .and("content")
            .and("reasoning_content")
            .and("tool_calls");
        assert(names@ =~= seq!["role"@, "content"@, "reasoning_content"@, "tool_calls"@]);
        let fields = match fields_in(value, &names, 4) {
            Some(fields) => fields,
            None => {
                return None;
            },
        };
        let m = fields.map();
        let role = match read_text(m, "role") {
            Some(x) => x,
            None => {
                return None;
            },
        };
        let content = match read_opt_text(m, "content") {
            Some(x) => x,
            None => {
                return None;
            },
        };
        let reasoning_content = match read_opt_text(m, "reasoning_content") {
            Some(x) => x,
            None => {
                return None;
            },
        };
        let tool_calls = match read_opt_tool_calls(m, "tool_calls") {
            Some(x) => x,
            None => {
                return None;
            },
        };
        Some(ChatResponseMessage { role, content, reasoning_content, tool_calls })
    }
}

/// A message that must be there.
pub open spec fn answer_at(m: Seq<(Seq<char>, JsonView)>, key: Seq<char>) -> Option<AnswerView> {
    match json::member(m, key) {
        Some(v) => answer_from(v),
        None => None,
    }
}

fn read_answer(m: &JsonMap, key: &str) -> (r: Option<ChatResponseMessage>)
    ensures
        match r {
            Some(read) => answer_at(m@, key@) == Some(read@),
            None => answer_at(m@, key@) is None,
        },
{
    match m.get(key) {
        Some(v) => ChatResponseMessage::from_json(v),
        None => None,
    }
}

/// A choice, by its contents.
pub struct AnswerChoiceView {
    /// `index`.
    pub index: usize,
    /// `message`.
    pub message: AnswerView,
    /// `finish_reason`.
    pub finish_reason: Option<Seq<char>>,
}

impl View for ChatResponseChoice {
    type V = AnswerChoiceView;

    open spec fn view(&self) -> AnswerChoiceView {
        AnswerChoiceView {
            index: self.index,
            message: self.message@,
            finish_reason: text::opt_view(self.finish_reason),
        }
    }
}

/// The choice that a value stands for.
pub open spec fn answer_choice_from(v: JsonView) -> Option<AnswerChoiceView> {
    match fields::fields_of(v, seq!["index"@, "message"@, "finish_reason"@], 3) {
        Some(m) => if read_chat::usize_at(m, "index"@) is Some
            && answer_at(m, "message"@) is Some
            && read::opt_text_at(m, "finish_reason"@) is Some {
            Some(
                AnswerChoiceView {
                    index: read_chat::usize_at(m, "index"@)->0,
                    message: answer_at(m, "message"@)->0,
                    finish_reason: read::opt_text_at(m, "finish_reason"@)->0,
                },
            )
        } else {
            None
        },
        None => None,
    }
}

impl ChatResponseChoice {
    /// The choice that a value stands for.
    pub fn from_json(value: &Json) -> (r: Option<ChatResponseChoice>)
        ensures
            match r {
                Some(read) => answer_choice_from(value@) == Some(read@),
                None => answer_choice_from(value@) is None,
            },
    {
        let names = Names::new().and("index").and("message").and("finish_reason");
        assert(names@ =~= seq!["index"@, "message"@, "finish_reason"@]);
        let fields = match fields_in(value, &names, 3) {
            Some(fields) => fields,
            None => {
                return None;
            },
        };
        let m = fields.map();
        let index = match read_usize(m, "index") {
            Some(x) => x,
            None => {
                return None;
            },
        };
        let message = match read_answer(m, "message") {
            Some(x) => x,
            None => {
                return None;
            },
        };
        let finish_reason = match read_opt_text(m, "finish_reason") {
            Some(x) => x,
            None => {
                return None;
            },
        };
        Some(ChatResponseChoice { index, message, finish_reason })
    }
}

/// The contents of choices.
pub open spec fn answer_choices_view(items: Seq<ChatResponseChoice>) -> Seq<AnswerChoiceView> {
    items.map_values(|item: ChatResponseChoice| item@)
}

/// The choices that values stand for, where each of them stands for one.
pub open spec fn each_answer_choice_from(items: Seq<JsonView>) -> Option<Seq<AnswerChoiceView>> {
    if forall|i: int| 0 <= i < items.len() ==> answer_choice_from(#[trigger] items[i]) is Some {
        Some(items.map_values(|v: JsonView| answer_choice_from(v)->0))
    } else {
        None
    }
}

fn read_each_answer_choices(items: &Vec<Json>) -> (r: Option<Vec<ChatResponseChoice>>)
    ensures
        match r {
            Some(read) => each_answer_choice_from(json::items_view(items@)) == Some(
                answer_choices_view(read@),
            ),
            None => each_answer_choice_from(json::items_view(items@)) is None,
        },
{
    let ghost views = json::items_view(items@);
    let mut out: Vec<ChatResponseChoice> = Vec::new();
    let mut i: usize = 0;
    while i < items.len()
        invariant
            i <= items@.len(),
            views == json::items_view(items@),
            out@.len() == i,
            forall|k: int| 0 <= k < i ==> answer_choice_from(views[k]) == Some((#[trigger] out@[k])@),
        decreases items@.len() - i,
    {
        match ChatResponseChoice::from_json(&items[i]) {
            Some(x) => out.push(x),
            None => {
                assert(answer_choice_from(views[i as int]) is None);
                return None;
            },
        }
        i += 1;
    }
    assert forall|k: int|
        0 <= k < views.len() implies answer_choice_from(#[trigger] views[k]) is Some by {
        assert(answer_choice_from(views[k]) == Some(out@[k]@));
    }
    assert(answer_choices_view(out@) =~= views.map_values(|v: JsonView| answer_choice_from(v)->0));
    Some(out)
}

/// Choices that must be there.
pub open spec fn answer_choices_at(m: Seq<(Seq<char>, JsonView)>, key: Seq<char>) -> Option<
    Seq<AnswerChoiceView>,
> {
    match json::member(m, key) {
        Some(JsonView::Array(items)) => each_answer_choice_from(items),
        _ => None,
    }
}

fn read_answer_choices(m: &JsonMap, key: &str) -> (r: Option<Vec<ChatResponseChoice>>)
    ensures
        match r {
            Some(read) => answer_choices_at(m@, key@) == Some(answer_choices_view(read@)),
            None => answer_choices_at(m@, key@) is None,
        },
{
    match m.get(key) {
        Some(value) => match value.as_array() {
            Some(items) => read_each_answer_choices(items),
            None => None,
        },
        None => None,
    }
}

/// A completion, by its contents.
pub struct CompletionView {
    /// `choices`.
    pub choices: Seq<AnswerChoiceView>,
}

impl View for ChatCompletionResponse {
    type V = CompletionView;

    open spec fn view(&self) -> CompletionView {
        CompletionView {
            choices: answer_choices_view(self.choices@),
        }
    }
}

/// The completion that a value stands for.
pub open spec fn completion_from(v: JsonView) -> Option<CompletionView> {
    match fields::fields_of(v, seq!["choices"@], 1) {
        Some(m) => if answer_choices_at(m, "choices"@) is Some {
            Some(
                CompletionView {
                    choices: answer_choices_at(m, "choices"@)->0,
                },
            )
        } else {
            None
        },
        None => None,
    }
}

impl ChatCompletionResponse {
    /// The completion that a value stands for.
    pub fn from_json(value: &Json) -> (r: Option<ChatCompletionResponse>)
        ensures
            match r {
                Some(read) => completion_from(value@) == Some(read@),
                None => completion_from(value@) is None,
            },
    {
        let names = Names::new().and("choices");
        let fields = match fields_in(value, &names, 1) {
            Some(fields) => fields,
            None => {
                return None;
            },
        };
        let m = fields.map();
        let choices = match read_answer_choices(m, "choices") {
            Some(x) => x,
            None => {
                return None;
            },
        };
        Some(ChatCompletionResponse { choices })
    }
}

} // verus!
