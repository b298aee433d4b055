//! Items of the Responses surface as they are read back from JSON.
use vstd::prelude::*;

use crate::json;
use crate::json::Json;
use crate::json::JsonMap;
use crate::json::JsonNumber;
use crate::json::JsonView;
use crate::json::NumberView;
use crate::models::fields;
use crate::models::fields::tag_in;
use crate::models::fields::tagged_fields_in;
use crate::models::fields::Names;
use crate::models::responses;
use crate::models::responses::AgentMessageInputContent;
use crate::models::responses::ContentItem;
use crate::models::responses::ContentView;
use crate::models::responses::FunctionCallOutputContent;
use crate::models::responses::LocalShellAction;
use crate::models::responses::LocalShellExecAction;
use crate::models::responses::OutputView;
use crate::models::responses::ReasoningContentItem;
use crate::models::responses::ReasoningSummaryItem;
use crate::models::responses::ResponseItem;
use crate::models::responses::WebSearchAction;
use crate::text;

verus! {

// --- Fields ------------------------------------------------------------------------------------

/// A text that must be there.
pub open spec fn text_at(m: Seq<(Seq<char>, JsonView)>, key: Seq<char>) -> Option<Seq<char>> {
    json::text_member(m, key)
}

/// A text that may be missing or `null`; `None` where the field is something else.
pub open spec fn opt_text_at(m: Seq<(Seq<char>, JsonView)>, key: Seq<char>) -> Option<
    Option<Seq<char>>,
> {
    match json::member(m, key) {
        None => Some(None),
        Some(JsonView::Null) => Some(None),
        Some(JsonView::Text(t)) => Some(Some(t)),
        Some(_) => None,
    }
}

/// A value that must be there.
pub open spec fn value_at(m: Seq<(Seq<char>, JsonView)>, key: Seq<char>) -> Option<JsonView> {
    json::member(m, key)
}

/// Values that must be there.
pub open spec fn values_at(m: Seq<(Seq<char>, JsonView)>, key: Seq<char>) -> Option<
    Seq<JsonView>,
> {
    match json::member(m, key) {
        Some(JsonView::Array(items)) => Some(items),
        _ => None,
    }
}

/// Values that may be missing or `null`.
pub open spec fn opt_values_at(m: Seq<(Seq<char>, JsonView)>, key: Seq<char>) -> Option<
    Option<Seq<JsonView>>,
> {
    match json::member(m, key) {
        None => Some(None),
        Some(JsonView::Null) => Some(None),
        Some(JsonView::Array(items)) => Some(Some(items)),
        Some(_) => None,
    }
}

/// The contents of values, where there are any.
pub open spec fn opt_values_view(values: Option<Vec<Json>>) -> Option<Seq<JsonView>> {
    match values {
        Some(values) => Some(json::items_view(values@)),
        None => None,
    }
}

/// Whether all elements are texts.
pub open spec fn all_texts(items: Seq<JsonView>) -> bool {
    forall|i: int| 0 <= i < items.len() ==> (#[trigger] items[i]) is Text
}

/// The texts of an array of texts.
pub open spec fn texts_of(items: Seq<JsonView>) -> Option<Seq<Seq<char>>> {
    if all_texts(items) {
        Some(items.map_values(|v: JsonView| v->Text_0))
    } else {
        None
    }
}

/// Texts that must be there.
pub open spec fn texts_at(m: Seq<(Seq<char>, JsonView)>, key: Seq<char>) -> Option<
    Seq<Seq<char>>,
> {
    match json::member(m, key) {
        Some(JsonView::Array(items)) => texts_of(items),
        _ => None,
    }
}

/// Texts that may be missing or `null`.
pub open spec fn opt_texts_at(m: Seq<(Seq<char>, JsonView)>, key: Seq<char>) -> Option<
    Option<Seq<Seq<char>>>,
> {
    match json::member(m, key) {
        None => Some(None),
        Some(JsonView::Null) => Some(None),
        Some(JsonView::Array(items)) => match texts_of(items) {
            Some(texts) => Some(Some(texts)),
            None => None,
        },
        Some(_) => None,
    }
}

/// A number that may be missing or `null`.
pub open spec fn opt_u64_at(m: Seq<(Seq<char>, JsonView)>, key: Seq<char>) -> Option<Option<u64>> {
    match json::member(m, key) {
        None => Some(None),
        Some(JsonView::Null) => Some(None),
        Some(JsonView::Number(NumberView::Unsigned(n))) => Some(Some(n)),
        Some(_) => None,
    }
}

pub(crate) fn read_text(m: &JsonMap, key: &str) -> (r: Option<String>)
    ensures
        text::opt_view(r) == text_at(m@, key@),
{
    text::opt_owned(m.get_text(key))
}

/// What was read of an optional text.
pub open spec fn opt_opt_view(r: Option<Option<String>>) -> Option<Option<Seq<char>>> {
    match r {
        Some(t) => Some(text::opt_view(t)),
        None => None,
    }
}

pub(crate) fn read_opt_text(m: &JsonMap, key: &str) -> (r: Option<Option<String>>)
    ensures
        opt_opt_view(r) == opt_text_at(m@, key@),
{
    match m.get(key) {
        None => Some(None),
        Some(Json::Null) => Some(None),
        Some(Json::Text(t)) => Some(Some(t.clone())),
        Some(_) => None,
    }
}

pub(crate) fn read_value(m: &JsonMap, key: &str) -> (r: Option<Json>)
    ensures
        json::opt_json_view(r) == value_at(m@, key@),
{
    match m.get(key) {
        Some(v) => Some(v.copy()),
        None => None,
    }
}

pub(crate) fn read_values(m: &JsonMap, key: &str) -> (r: Option<Vec<Json>>)
    ensures
        opt_values_view(r) == values_at(m@, key@),
{
    match m.get(key) {
        Some(value) => match value.as_array() {
            Some(items) => Some(json::copy_items(items)),
            None => None,
        },
        None => None,
    }
}

pub(crate) fn read_opt_values(m: &JsonMap, key: &str) -> (r: Option<Option<Vec<Json>>>)
    ensures
        match r {
            Some(v) => opt_values_at(m@, key@) == Some(opt_values_view(v)),
            None => opt_values_at(m@, key@) is None,
        },
{
    match m.get(key) {
        None => Some(None),
        Some(Json::Null) => Some(None),
        Some(Json::Array(items)) => {
            proof {
                json::lemma_array_view(*items);
            }
            Some(Some(json::copy_items(items)))
        },
        Some(_) => None,
    }
}

pub(crate) fn read_text_items(items: &Vec<Json>) -> (r: Option<Vec<String>>)
    ensures
        text::opt_strings_view(r) == texts_of(json::items_view(items@)),
{
    let ghost views = json::items_view(items@);
    let mut out: Vec<String> = Vec::new();
    let mut i: usize = 0;
    while i < items.len()
        invariant
            i <= items@.len(),
            views == json::items_view(items@),
            out@.len() == i,
            forall|k: int| 0 <= k < i ==> views[k] == JsonView::Text((#[trigger] out@[k])@),
        decreases items@.len() - i,
    {
        match items[i].as_str() {
            Some(t) => out.push(t.to_owned()),
            None => {
                assert(!(views[i as int] is Text));
                return None;
            },
        }
        i += 1;
    }
    assert forall|k: int| 0 <= k < views.len() implies (#[trigger] views[k]) is Text by {
        assert(views[k] == JsonView::Text(out@[k]@));
    }
    assert(text::strings_view(out@) =~= views.map_values(|v: JsonView| v->Text_0));
    Some(out)
}

pub(crate) fn read_texts(m: &JsonMap, key: &str) -> (r: Option<Vec<String>>)
    ensures
        text::opt_strings_view(r) == texts_at(m@, key@),
{
    match m.get(key) {
        Some(value) => match value.as_array() {
            Some(items) => read_text_items(items),
            None => None,
        },
        None => None,
    }
}

pub(crate) fn read_opt_texts(m: &JsonMap, key: &str) -> (r: Option<Option<Vec<String>>>)
    ensures
        match r {
            Some(v) => opt_texts_at(m@, key@) == Some(text::opt_strings_view(v)),
            None => opt_texts_at(m@, key@) is None,
        },
{
    match m.get(key) {
        None => Some(None),
        Some(Json::Null) => Some(None),
        Some(Json::Array(items)) => {
            proof {
                json::lemma_array_view(*items);
            }
            match read_text_items(items) {
                Some(texts) => Some(Some(texts)),
                None => None,
            }
        },
        Some(_) => None,
    }
}

pub(crate) fn read_opt_u64(m: &JsonMap, key: &str) -> (r: Option<Option<u64>>)
    ensures
        r == opt_u64_at(m@, key@),
{
    match m.get(key) {
        None => Some(None),
        Some(Json::Null) => Some(None),
        Some(Json::Number(JsonNumber::Unsigned(n))) => Some(Some(*n)),
        Some(_) => None,
    }
}

// --- Parts of items ----------------------------------------------------------------------------

/// A content part, where the value stands for one.
pub open spec fn content_read(v: JsonView) -> Option<ContentView> {
    match responses::content_from(v) {
        Ok(c) => Some(c),
        Err(_) => None,
    }
}

/// Whether all elements are content parts.
pub open spec fn all_contents(items: Seq<JsonView>) -> bool {
    forall|i: int| 0 <= i < items.len() ==> content_read(#[trigger] items[i]) is Some
}

/// The content parts of an array of them.
pub open spec fn contents_of(items: Seq<JsonView>) -> Option<Seq<ContentView>> {
    if all_contents(items) {
        Some(items.map_values(|v: JsonView| content_read(v)->0))
    } else {
        None
    }
}

/// Content parts that must be there.
pub open spec fn contents_at(m: Seq<(Seq<char>, JsonView)>, key: Seq<char>) -> Option<
    Seq<ContentView>,
> {
    match json::member(m, key) {
        Some(JsonView::Array(items)) => contents_of(items),
        _ => None,
    }
}

fn read_content_items(items: &Vec<Json>) -> (r: Option<Vec<ContentItem>>)
    ensures
        match r {
            Some(read) => contents_of(json::items_view(items@)) == Some(
                responses::contents_view(read@),
            ),
            None => contents_of(json::items_view(items@)) is None,
        },
{
    let ghost views = json::items_view(items@);
    let mut out: Vec<ContentItem> = Vec::new();
    let mut i: usize = 0;
    while i < items.len()
        invariant
            i <= items@.len(),
            views == json::items_view(items@),
            out@.len() == i,
            forall|k: int| 0 <= k < i ==> content_read(views[k]) == Some((#[trigger] out@[k])@),
        decreases items@.len() - i,
    {
        match ContentItem::from_json(&items[i]) {
            Ok(x) => out.push(x),
            Err(_) => {
                assert(content_read(views[i as int]) is None);
                return None;
            },
        }
        i += 1;
    }
    assert forall|k: int| 0 <= k < views.len() implies content_read(
        #[trigger] views[k],
    ) is Some by {
        assert(content_read(views[k]) == Some(out@[k]@));
    }
    assert(responses::contents_view(out@) =~= views.map_values(
        |v: JsonView| content_read(v)->0,
    ));
    Some(out)
}

fn read_contents(m: &JsonMap, key: &str) -> (r: Option<Vec<ContentItem>>)
    ensures
        match r {
            Some(read) => contents_at(m@, key@) == Some(responses::contents_view(read@)),
            None => contents_at(m@, key@) is None,
        },
{
    match m.get(key) {
        Some(value) => match value.as_array() {
            Some(items) => read_content_items(items),
            None => None,
        },
        None => None,
    }
}

/// Function output that must be there: a text, or content parts.
pub open spec fn output_at(m: Seq<(Seq<char>, JsonView)>, key: Seq<char>) -> Option<OutputView> {
    match json::member(m, key) {
        Some(JsonView::Text(t)) => Some(OutputView::Text(t)),
        Some(JsonView::Array(items)) => match contents_of(items) {
            Some(content) => Some(OutputView::Content(content)),
            None => None,
        },
        _ => None,
    }
}

fn read_output(m: &JsonMap, key: &str) -> (r: Option<FunctionCallOutputContent>)
    ensures
        match r {
            Some(read) => output_at(m@, key@) == Some(read@),
            None => output_at(m@, key@) is None,
        },
{
    match m.get(key) {
        Some(Json::Text(t)) => Some(FunctionCallOutputContent::Text(t.clone())),
        Some(Json::Array(items)) => {
            proof {
                json::lemma_array_view(*items);
            }
            match read_content_items(items) {
                Some(content) => Some(FunctionCallOutputContent::Content(content)),
                None => None,
            }
        },
        _ => None,
    }
}

/// A part of an agent message, by its contents.
pub enum AgentContentView {
    /// `input_text`.
    InputText {
        /// `text`.
        text: Seq<char>,
    },
    /// `encrypted_content`.
    EncryptedContent {
        /// `encrypted_content`.
        encrypted_content: Seq<char>,
    },
}

impl View for AgentMessageInputContent {
    type V = AgentContentView;

    open spec fn view(&self) -> AgentContentView {
        match self {
            AgentMessageInputContent::InputText { text } => AgentContentView::InputText {
                text: text@,
            },
            AgentMessageInputContent::EncryptedContent { encrypted_content } =>
            AgentContentView::EncryptedContent {
                encrypted_content: encrypted_content@,
            },
        }
    }
}

/// What was read, by its contents.
pub open spec fn opt_view_agent_content_from(
    r: Option<AgentMessageInputContent>,
) -> Option<AgentContentView> {
    match r {
        Some(x) => Some(x@),
        None => None,
    }
}

/// The part of an agent message that a value stands for. Its type is a name, or the place of
/// a name in `numbered`.
pub open spec fn agent_content_tagged(v: JsonView, numbered: Seq<Seq<char>>) -> Option<
    AgentContentView,
> {
    let kind = fields::tag_of(v, numbered);
    if kind == Some("input_text"@) {
        match fields::tagged_fields_of(v, seq!["text"@], 1) {
            Some(m) => if text_at(m, "text"@) is Some {
                Some(
                    AgentContentView::InputText {
                        text: text_at(m, "text"@)->0,
                    },
                )
            } else {
                None
            },
            None => None,
        }
    } else if kind == Some("encrypted_content"@) {
        match fields::tagged_fields_of(v, seq!["encrypted_content"@], 1) {
            Some(m) => if text_at(m, "encrypted_content"@) is Some {
                Some(
                    AgentContentView::EncryptedContent {
                        encrypted_content: text_at(m, "encrypted_content"@)->0,
                    },
                )
            } else {
                None
            },
            None => None,
        }
    } else {
        None
    }
}

/// The part of an agent message that a value stands for.
pub open spec fn agent_content_from(v: JsonView) -> Option<AgentContentView> {
    agent_content_tagged(v, seq![])
}

/// The part of an agent message that a value within an item or a tool stands for: there the
/// type may be the place of a name, too.
pub open spec fn agent_content_part_from(v: JsonView) -> Option<AgentContentView> {
    agent_content_tagged(v, seq!["input_text"@, "encrypted_content"@])
}

impl AgentMessageInputContent {
    /// The part of an agent message that a value stands for.
    pub fn from_json(value: &Json) -> (r: Option<AgentMessageInputContent>)
        ensures
            opt_view_agent_content_from(r) == agent_content_from(value@),
    {
        let numbered = Names::new();
        Self::from_tagged(value, &numbered)
    }

    /// What a value within an item or a tool stands for.
    pub fn from_part(value: &Json) -> (r: Option<AgentMessageInputContent>)
        ensures
            opt_view_agent_content_from(r) == agent_content_part_from(value@),
    {
        let numbered = Names::new().and("input_text").and("encrypted_content");
        assert(numbered@ =~= seq!["input_text"@, "encrypted_content"@]);
        Self::from_tagged(value, &numbered)
    }

    fn from_tagged(value: &Json, numbered: &Names) -> (r: Option<AgentMessageInputContent>)
        ensures
            opt_view_agent_content_from(r) == agent_content_tagged(value@, numbered@),
    {
        let kind = match tag_in(value, numbered) {
            Some(kind) => kind,
            None => {
                return None;
            },
        };
        if text::str_eq(kind, "input_text") {
            let names = Names::new().and("text");
            let fields = match tagged_fields_in(value, &names, 1) {
                Some(fields) => fields,
                None => {
                    return None;
                },
            };
            let m = fields.map();
            let text = match read_text(m, "text") {
                Some(x) => x,
                None => {
                    return None;
                },
            };
            Some(AgentMessageInputContent::InputText { text })
        } else if text::str_eq(kind, "encrypted_content") {
            let names = Names::new().and("encrypted_content");
            let fields = match tagged_fields_in(value, &names, 1) {
                Some(fields) => fields,
                None => {
                    return None;
                },
            };
            let m = fields.map();
            let encrypted_content = match read_text(m, "encrypted_content") {
                Some(x) => x,
                None => {
                    return None;
                },
            };
            Some(AgentMessageInputContent::EncryptedContent { encrypted_content })
        } else {
            None
        }
    }
}

/// The contents of parts of an agent message.
pub open spec fn agent_contents_view(
    items: Seq<AgentMessageInputContent>,
) -> Seq<AgentContentView> {
    items.map_values(|item: AgentMessageInputContent| item@)
}

/// Whether all elements can be read.
pub open spec fn all_agent_content_from(items: Seq<JsonView>) -> bool {
    forall|i: int| 0 <= i < items.len() ==> agent_content_part_from(#[trigger] items[i]) is Some
}

/// The elements that were read.
pub open spec fn each_agent_content_from(items: Seq<JsonView>) -> Option<Seq<AgentContentView>> {
    if all_agent_content_from(items) {
        Some(items.map_values(|v: JsonView| agent_content_part_from(v)->0))
    } else {
        None
    }
}

fn read_each_agent_content_from(items: &Vec<Json>) -> (r: Option<Vec<AgentMessageInputContent>>)
    ensures
        match r {
            Some(read) => each_agent_content_from(json::items_view(items@)) == Some(
                agent_contents_view(read@),
            ),
            None => each_agent_content_from(json::items_view(items@)) is None,
        },
{
    let ghost views = json::items_view(items@);
    let mut out: Vec<AgentMessageInputContent> = Vec::new();
    let mut i: usize = 0;
    while i < items.len()
        invariant
            i <= items@.len(),
            views == json::items_view(items@),
            out@.len() == i,
            forall|k: int|
                0 <= k < i ==> agent_content_part_from(views[k]) == Some((#[trigger] out@[k])@),
        decreases items@.len() - i,
    {
        match AgentMessageInputContent::from_part(&items[i]) {
            Some(x) => out.push(x),
            None => {
                assert(agent_content_part_from(views[i as int]) is None);
                return None;
            },
        }
        i += 1;
    }
    assert forall|k: int|
        0 <= k < views.len() implies agent_content_part_from(#[trigger] views[k]) is Some by {
        assert(agent_content_part_from(views[k]) == Some(out@[k]@));
    }
    assert(agent_contents_view(out@) =~= views.map_values(
        |v: JsonView| agent_content_part_from(v)->0,
    ));
    Some(out)
}

/// Parts of an agent message that must be there.
pub open spec fn agent_contents_at(
    m: Seq<(Seq<char>, JsonView)>,
    key: Seq<char>,
) -> Option<Seq<AgentContentView>> {
    match json::member(m, key) {
        Some(JsonView::Array(items)) => each_agent_content_from(items),
        _ => None,
    }
}

fn read_agent_contents(m: &JsonMap, key: &str) -> (r: Option<Vec<AgentMessageInputContent>>)
    ensures
        match r {
            Some(read) => agent_contents_at(m@, key@) == Some(agent_contents_view(read@)),
            None => agent_contents_at(m@, key@) is None,
        },
{
    match m.get(key) {
        Some(value) => match value.as_array() {
            Some(items) => read_each_agent_content_from(items),
            None => None,
        },
        None => None,
    }
}

/// A part of a reasoning summary, by its contents.
pub enum SummaryView {
    /// `summary_text`.
    SummaryText {
        /// `text`.
        text: Seq<char>,
    },
}

impl View for ReasoningSummaryItem {
    type V = SummaryView;

    open spec fn view(&self) -> SummaryView {
        match self {
            ReasoningSummaryItem::SummaryText { text } => SummaryView::SummaryText {
                text: text@,
            },
        }
    }
}

/// What was read, by its contents.
pub open spec fn opt_view_summary_from(r: Option<ReasoningSummaryItem>) -> Option<SummaryView> {
    match r {
        Some(x) => Some(x@),
        None => None,
    }
}

/// The part of a reasoning summary that a value stands for. Its type is a name, or the place of
/// a name in `numbered`.
pub open spec fn summary_tagged(v: JsonView, numbered: Seq<Seq<char>>) -> Option<SummaryView> {
    let kind = fields::tag_of(v, numbered);
    if kind == Some("summary_text"@) {
        match fields::tagged_fields_of(v, seq!["text"@], 1) {
            Some(m) => if text_at(m, "text"@) is Some {
                Some(
                    SummaryView::SummaryText {
                        text: text_at(m, "text"@)->0,
                    },
                )
            } else {
                None
            },
            None => None,
        }
    } else {
        None
    }
}

/// The part of a reasoning summary that a value stands for.
pub open spec fn summary_from(v: JsonView) -> Option<SummaryView> {
    summary_tagged(v, seq![])
}

/// The part of a reasoning summary that a value within an item or a tool stands for: there the
/// type may be the place of a name, too.
pub open spec fn summary_part_from(v: JsonView) -> Option<SummaryView> {
    summary_tagged(v, seq!["summary_text"@])
}

impl ReasoningSummaryItem {
    /// The part of a reasoning summary that a value stands for.
    pub fn from_json(value: &Json) -> (r: Option<ReasoningSummaryItem>)
        ensures
            opt_view_summary_from(r) == summary_from(value@),
    {
        let numbered = Names::new();
        Self::from_tagged(value, &numbered)
    }

    /// What a value within an item or a tool stands for.
    pub fn from_part(value: &Json) -> (r: Option<ReasoningSummaryItem>)
        ensures
            opt_view_summary_from(r) == summary_part_from(value@),
    {
        let numbered = Names::new().and("summary_text");
        assert(numbered@ =~= seq!["summary_text"@]);
        Self::from_tagged(value, &numbered)
    }

    fn from_tagged(value: &Json, numbered: &Names) -> (r: Option<ReasoningSummaryItem>)
        ensures
            opt_view_summary_from(r) == summary_tagged(value@, numbered@),
    {
        let kind = match tag_in(value, numbered) {
            Some(kind) => kind,
            None => {
                return None;
            },
        };
        if text::str_eq(kind, "summary_text") {
            let names = Names::new().and("text");
            let fields = match tagged_fields_in(value, &names, 1) {
                Some(fields) => fields,
                None => {
                    return None;
                },
            };
            let m = fields.map();
            let text = match read_text(m, "text") {
                Some(x) => x,
                None => {
                    return None;
                },
            };
            Some(ReasoningSummaryItem::SummaryText { text })
        } else {
            None
        }
    }
}

/// The contents of a reasoning summary.
pub open spec fn summaries_view(items: Seq<ReasoningSummaryItem>) -> Seq<SummaryView> {
    items.map_values(|item: ReasoningSummaryItem| item@)
}

/// Whether all elements can be read.
pub open spec fn all_summary_from(items: Seq<JsonView>) -> bool {
    forall|i: int| 0 <= i < items.len() ==> summary_part_from(#[trigger] items[i]) is Some
}

/// The elements that were read.
pub open spec fn each_summary_from(items: Seq<JsonView>) -> Option<Seq<SummaryView>> {
    if all_summary_from(items) {
        Some(items.map_values(|v: JsonView| summary_part_from(v)->0))
    } else {
        None
    }
}

fn read_each_summary_from(items: &Vec<Json>) -> (r: Option<Vec<ReasoningSummaryItem>>)
    ensures
        match r {
            Some(read) => each_summary_from(
                json::items_view(items@),
            ) == Some(summaries_view(read@)),
            None => each_summary_from(json::items_view(items@)) is None,
        },
{
    let ghost views = json::items_view(items@);
    let mut out: Vec<ReasoningSummaryItem> = Vec::new();
    let mut i: usize = 0;
    while i < items.len()
        invariant
            i <= items@.len(),
            views == json::items_view(items@),
            out@.len() == i,
            forall|k: int| 0 <= k < i ==> summary_part_from(views[k]) == Some((#[trigger] out@[k])@),
        decreases items@.len() - i,
    {
        match ReasoningSummaryItem::from_part(&items[i]) {
            Some(x) => out.push(x),
            None => {
                assert(summary_part_from(views[i as int]) is None);
                return None;
            },
        }
        i += 1;
    }
    assert forall|k: int|
        0 <= k < views.len() implies summary_part_from(#[trigger] views[k]) is Some by {
        assert(summary_part_from(views[k]) == Some(out@[k]@));
    }
    assert(summaries_view(out@) =~= views.map_values(|v: JsonView| summary_part_from(v)->0));
    Some(out)
}

/// A reasoning summary, empty where it is missing.
pub open spec fn summaries_at(m: Seq<(Seq<char>, JsonView)>, key: Seq<char>) -> Option<
    Seq<SummaryView>,
> {
    match json::member(m, key) {
        None => Some(Seq::empty()),
        Some(JsonView::Array(items)) => each_summary_from(items),
        Some(_) => None,
    }
}

fn read_summaries(m: &JsonMap, key: &str) -> (r: Option<Vec<ReasoningSummaryItem>>)
    ensures
        match r {
            Some(read) => summaries_at(m@, key@) == Some(summaries_view(read@)),
            None => summaries_at(m@, key@) is None,
        },
{
    match m.get(key) {
        None => {
            let none: Vec<ReasoningSummaryItem> = Vec::new();
            assert(summaries_view(none@) =~= Seq::empty());
            Some(none)
        },
        Some(Json::Array(items)) => {
            proof {
                json::lemma_array_view(*items);
            }
            read_each_summary_from(items)
        },
        Some(_) => None,
    }
}

/// A part of reasoning, by its contents.
pub enum ReasoningView {
    /// `reasoning_text`.
    ReasoningText {
        /// `text`.
        text: Seq<char>,
    },
    /// `text`.
    Text {
        /// `text`.
        text: Seq<char>,
    },
}

impl View for ReasoningContentItem {
    type V = ReasoningView;

    open spec fn view(&self) -> ReasoningView {
        match self {
            ReasoningContentItem::ReasoningText { text } => ReasoningView::ReasoningText {
                text: text@,
            },
            ReasoningContentItem::Text { text } => ReasoningView::Text {
                text: text@,
            },
        }
    }
}

/// What was read, by its contents.
pub open spec fn opt_view_reasoning_from(r: Option<ReasoningContentItem>) -> Option<ReasoningView> {
    match r {
        Some(x) => Some(x@),
        None => None,
    }
}

/// The part of reasoning that a value stands for. Its type is a name, or the place of
/// a name in `numbered`.
pub open spec fn reasoning_tagged(v: JsonView, numbered: Seq<Seq<char>>) -> Option<ReasoningView> {
    let kind = fields::tag_of(v, numbered);
    if kind == Some("reasoning_text"@) {
        match fields::tagged_fields_of(v, seq!["text"@], 1) {
            Some(m) => if text_at(m, "text"@) is Some {
                Some(
                    ReasoningView::ReasoningText {
                        text: text_at(m, "text"@)->0,
                    },
                )
            } else {
                None
            },
            None => None,
        }
    } else if kind == Some("text"@) {
        match fields::tagged_fields_of(v, seq!["text"@], 1) {
            Some(m) => if text_at(m, "text"@) is Some {
                Some(
                    ReasoningView::Text {
                        text: text_at(m, "text"@)->0,
                    },
                )
            } else {
                None
            },
            None => None,
        }
    } else {
        None
    }
}

/// The part of reasoning that a value stands for.
pub open spec fn reasoning_from(v: JsonView) -> Option<ReasoningView> {
    reasoning_tagged(v, seq![])
}

/// The part of reasoning that a value within an item or a tool stands for: there the
/// type may be the place of a name, too.
pub open spec fn reasoning_part_from(v: JsonView) -> Option<ReasoningView> {
    reasoning_tagged(v, seq!["reasoning_text"@, "text"@])
}

impl ReasoningContentItem {
    /// The part of reasoning that a value stands for.
    pub fn from_json(value: &Json) -> (r: Option<ReasoningContentItem>)
        ensures
            opt_view_reasoning_from(r) == reasoning_from(value@),
    {
        let numbered = Names::new();
        Self::from_tagged(value, &numbered)
    }

    /// What a value within an item or a tool stands for.
    pub fn from_part(value: &Json) -> (r: Option<ReasoningContentItem>)
        ensures
            opt_view_reasoning_from(r) == reasoning_part_from(value@),
    {
        let numbered = Names::new().and("reasoning_text").and("text");
        assert(numbered@ =~= seq!["reasoning_text"@, "text"@]);
        Self::from_tagged(value, &numbered)
    }

    fn from_tagged(value: &Json, numbered: &Names) -> (r: Option<ReasoningContentItem>)
        ensures
            opt_view_reasoning_from(r) == reasoning_tagged(value@, numbered@),
    {
        let kind = match tag_in(value, numbered) {
            Some(kind) => kind,
            None => {
                return None;
            },
        };
        if text::str_eq(kind, "reasoning_text") {
            let names = Names::new().and("text");
            let fields = match tagged_fields_in(value, &names, 1) {
                Some(fields) => fields,
                None => {
                    return None;
                },
            };
            let m = fields.map();
            let text = match read_text(m, "text") {
                Some(x) => x,
                None => {
                    return None;
                },
            };
            Some(ReasoningContentItem::ReasoningText { text })
        } else if text::str_eq(kind, "text") {
            let names = Names::new().and("text");
            let fields = match tagged_fields_in(value, &names, 1) {
                Some(fields) => fields,
                None => {
                    return None;
                },
            };
            let m = fields.map();
            let text = match read_text(m, "text") {
                Some(x) => x,
                None => {
                    return None;
                },
            };
            Some(ReasoningContentItem::Text { text })
        } else {
            None
        }
    }
}

/// The contents of reasoning.
pub open spec fn reasonings_view(items: Seq<ReasoningContentItem>) -> Seq<ReasoningView> {
    items.map_values(|item: ReasoningContentItem| item@)
}

/// Whether all elements can be read.
pub open spec fn all_reasoning_from(items: Seq<JsonView>) -> bool {
    forall|i: int| 0 <= i < items.len() ==> reasoning_part_from(#[trigger] items[i]) is Some
}

/// The elements that were read.
pub open spec fn each_reasoning_from(items: Seq<JsonView>) -> Option<Seq<ReasoningView>> {
    if all_reasoning_from(items) {
        Some(items.map_values(|v: JsonView| reasoning_part_from(v)->0))
    } else {
        None
    }
}

fn read_each_reasoning_from(items: &Vec<Json>) -> (r: Option<Vec<ReasoningContentItem>>)
    ensures
        match r {
            Some(read) => each_reasoning_from(
                json::items_view(items@),
            ) == Some(reasonings_view(read@)),
            None => each_reasoning_from(json::items_view(items@)) is None,
        },
{
    let ghost views = json::items_view(items@);
    let mut out: Vec<ReasoningContentItem> = Vec::new();
    let mut i: usize = 0;
    while i < items.len()
        invariant
            i <= items@.len(),
            views == json::items_view(items@),
            out@.len() == i,
            forall|k: int| 0 <= k < i ==> reasoning_part_from(views[k]) == Some((#[trigger] out@[k])@),
        decreases items@.len() - i,
    {
        match ReasoningContentItem::from_part(&items[i]) {
            Some(x) => out.push(x),
            None => {
                assert(reasoning_part_from(views[i as int]) is None);
                return None;
            },
        }
        i += 1;
    }
    assert forall|k: int|
        0 <= k < views.len() implies reasoning_part_from(#[trigger] views[k]) is Some by {
        assert(reasoning_part_from(views[k]) == Some(out@[k]@));
    }
    assert(reasonings_view(out@) =~= views.map_values(|v: JsonView| reasoning_part_from(v)->0));
    Some(out)
}

/// The contents of reasoning, where there is any.
pub open spec fn opt_reasonings_view(items: Option<Vec<ReasoningContentItem>>) -> Option<
    Seq<ReasoningView>,
> {
    match items {
        Some(items) => Some(reasonings_view(items@)),
        None => None,
    }
}

/// Reasoning that may be missing or `null`.
pub open spec fn opt_reasonings_at(m: Seq<(Seq<char>, JsonView)>, key: Seq<char>) -> Option<
    Option<Seq<ReasoningView>>,
> {
    match json::member(m, key) {
        None => Some(None),
        Some(JsonView::Null) => Some(None),
        Some(JsonView::Array(items)) => match each_reasoning_from(items) {
            Some(read) => Some(Some(read)),
            None => None,
        },
        Some(_) => None,
    }
}

fn read_opt_reasonings(m: &JsonMap, key: &str) -> (r: Option<Option<Vec<ReasoningContentItem>>>)
    ensures
        match r {
            Some(read) => opt_reasonings_at(m@, key@) == Some(opt_reasonings_view(read)),
            None => opt_reasonings_at(m@, key@) is None,
        },
{
    match m.get(key) {
        None => Some(None),
        Some(Json::Null) => Some(None),
        Some(Json::Array(items)) => {
            proof {
                json::lemma_array_view(*items);
            }
            match read_each_reasoning_from(items) {
                Some(read) => Some(Some(read)),
                None => None,
            }
        },
        Some(_) => None,
    }
}

/// The id of reasoning, which is pending where it is missing.
pub open spec fn reasoning_id_at(m: Seq<(Seq<char>, JsonView)>) -> Option<Seq<char>> {
    match json::member(m, "id"@) {
        None => Some("rsn_pending"@),
        Some(JsonView::Text(t)) => Some(t),
        Some(_) => None,
    }
}

fn read_reasoning_id(m: &JsonMap) -> (r: Option<String>)
    ensures
        text::opt_view(r) == reasoning_id_at(m@),
{
    match m.get("id") {
        None => Some(responses::default_reasoning_id()),
        Some(Json::Text(t)) => Some(t.clone()),
        Some(_) => None,
    }
}

/// A shell action, by its contents.
pub struct ShellView {
    /// The command and its arguments.
    pub command: Seq<Seq<char>>,
    /// How long it may take.
    pub timeout_ms: Option<u64>,
    /// Where it is run.
    pub working_directory: Option<Seq<char>>,
    /// Its variables.
    pub env: Option<Seq<(Seq<char>, Seq<char>)>>,
    /// Who runs it.
    pub user: Option<Seq<char>>,
}

/// The contents of variables.
pub open spec fn env_view(env: Seq<(String, String)>) -> Seq<(Seq<char>, Seq<char>)> {
    env.map_values(|e: (String, String)| (e.0@, e.1@))
}

/// The contents of variables, where there are any.
pub open spec fn opt_env_view(env: Option<Vec<(String, String)>>) -> Option<
    Seq<(Seq<char>, Seq<char>)>,
> {
    match env {
        Some(env) => Some(env_view(env@)),
        None => None,
    }
}

impl View for LocalShellAction {
    type V = ShellView;

    open spec fn view(&self) -> ShellView {
        match self {
            LocalShellAction::Exec(exec) => ShellView {
                command: text::strings_view(exec.command@),
                timeout_ms: exec.timeout_ms,
                working_directory: text::opt_view(exec.working_directory),
                env: opt_env_view(exec.env),
                user: text::opt_view(exec.user),
            },
        }
    }
}

/// Whether all members are texts.
pub open spec fn all_text_members(m: Seq<(Seq<char>, JsonView)>) -> bool {
    forall|i: int| 0 <= i < m.len() ==> (#[trigger] m[i]).1 is Text
}

/// Variables that may be missing or `null`.
pub open spec fn opt_env_at(m: Seq<(Seq<char>, JsonView)>, key: Seq<char>) -> Option<
    Option<Seq<(Seq<char>, Seq<char>)>>,
> {
    match json::member(m, key) {
        None => Some(None),
        Some(JsonView::Null) => Some(None),
        Some(JsonView::Object(env)) => if all_text_members(env) {
            Some(Some(env.map_values(|e: (Seq<char>, JsonView)| (e.0, e.1->Text_0))))
        } else {
            None
        },
        Some(_) => None,
    }
}

fn read_env(env: &JsonMap) -> (r: Option<Vec<(String, String)>>)
    ensures
        match r {
            Some(read) => all_text_members(env@) && env_view(read@) == env@.map_values(
                |e: (Seq<char>, JsonView)| (e.0, e.1->Text_0),
            ),
            None => !all_text_members(env@),
        },
{
    let entries = &env.entries;
    let mut out: Vec<(String, String)> = Vec::new();
    let mut i: usize = 0;
    while i < entries.len()
        invariant
            entries == env.entries,
            i <= entries@.len(),
            out@.len() == i,
            forall|k: int|
                0 <= k < i ==> env@[k].0 == (#[trigger] out@[k]).0@ && env@[k].1
                    == JsonView::Text(out@[k].1@),
        decreases entries@.len() - i,
    {
        assert(env@[i as int] == (entries@[i as int].0@, entries@[i as int].1@));
        match entries[i].1.as_str() {
            Some(t) => out.push((entries[i].0.clone(), t.to_owned())),
            None => {
                assert(!(env@[i as int].1 is Text));
                return None;
            },
        }
        i += 1;
    }
    assert forall|k: int| 0 <= k < env@.len() implies (#[trigger] env@[k]).1 is Text by {
        assert(env@[k].1 == JsonView::Text(out@[k].1@));
    }
    assert(env_view(out@) =~= env@.map_values(|e: (Seq<char>, JsonView)| (e.0, e.1->Text_0)));
    Some(out)
}

fn read_opt_env(m: &JsonMap, key: &str) -> (r: Option<Option<Vec<(String, String)>>>)
    ensures
        match r {
            Some(read) => opt_env_at(m@, key@) == Some(opt_env_view(read)),
            None => opt_env_at(m@, key@) is None,
        },
{
    match m.get(key) {
        None => Some(None),
        Some(Json::Null) => Some(None),
        Some(Json::Object(env)) => {
            proof {
                json::lemma_object_view(*env);
            }
            match read_env(env) {
                Some(read) => Some(Some(read)),
                None => None,
            }
        },
        Some(_) => None,
    }
}

/// The shell action that a value stands for. Its type is a name, or the place of
/// a name in `numbered`.
pub open spec fn shell_tagged(v: JsonView, numbered: Seq<Seq<char>>) -> Option<ShellView> {
    match fields::tagged_fields_of(
        v,
        seq!["command"@, "timeout_ms"@, "working_directory"@, "env"@, "user"@],
        1,
    ) {
        Some(m) => if fields::tag_of(v, numbered) == Some("exec"@) && texts_at(
            m,
            "command"@,
        ) is Some && opt_u64_at(m, "timeout_ms"@) is Some && opt_text_at(
            m,
            "working_directory"@,
        ) is Some && opt_env_at(m, "env"@) is Some && opt_text_at(m, "user"@) is Some {
            Some(
                ShellView {
                    command: texts_at(m, "command"@)->0,
                    timeout_ms: opt_u64_at(m, "timeout_ms"@)->0,
                    working_directory: opt_text_at(m, "working_directory"@)->0,
                    env: opt_env_at(m, "env"@)->0,
                    user: opt_text_at(m, "user"@)->0,
                },
            )
        } else {
            None
        },
        None => None,
    }
}

/// The shell action that a value stands for.
pub open spec fn shell_from(v: JsonView) -> Option<ShellView> {
    shell_tagged(v, seq![])
}

/// The shell action that a value within an item or a tool stands for: there the
/// type may be the place of a name, too.
pub open spec fn shell_part_from(v: JsonView) -> Option<ShellView> {
    shell_tagged(v, seq!["exec"@])
}

impl LocalShellAction {
    /// The shell action that a value stands for.
    pub fn from_json(value: &Json) -> (r: Option<LocalShellAction>)
        ensures
            match r {
                Some(read) => shell_from(value@) == Some(read@),
                None => shell_from(value@) is None,
            },
    {
        let numbered = Names::new();
        Self::from_tagged(value, &numbered)
    }

    /// What a value within an item or a tool stands for.
    pub fn from_part(value: &Json) -> (r: Option<LocalShellAction>)
        ensures
            match r {
                Some(read) => shell_part_from(value@) == Some(read@),
                None => shell_part_from(value@) is None,
            },
    {
        let numbered = Names::new().and("exec");
        assert(numbered@ =~= seq!["exec"@]);
        Self::from_tagged(value, &numbered)
    }

    fn from_tagged(value: &Json, numbered: &Names) -> (r: Option<LocalShellAction>)
        ensures
            match r {
                Some(read) => shell_tagged(value@, numbered@) == Some(read@),
                None => shell_tagged(value@, numbered@) is None,
            },
    {
        let names = Names::new()
            .and("command")
            .and("timeout_ms")
            .and("working_directory")
            .and("env")
            .and("user");
        assert(names@ =~= seq![
            "command"@,
            "timeout_ms"@,
            "working_directory"@,
            "env"@,
            "user"@,
        ]);
        let fields = match tagged_fields_in(value, &names, 1) {
            Some(fields) => fields,
            None => {
                return None;
            },
        };
        let m = fields.map();
        match tag_in(value, numbered) {
            Some(kind) => if !text::str_eq(kind, "exec") {
                return None;
            },
            None => {
                return None;
            },
        }
        let command = match read_texts(m, "command") {
            Some(x) => x,
            None => {
                return None;
            },
        };
        let timeout_ms = match read_opt_u64(m, "timeout_ms") {
            Some(x) => x,
            None => {
                return None;
            },
        };
        let working_directory = match read_opt_text(m, "working_directory") {
            Some(x) => x,
            None => {
                return None;
            },
        };
        let env = match read_opt_env(m, "env") {
            Some(x) => x,
            None => {
                return None;
            },
        };
        let user = match read_opt_text(m, "user") {
            Some(x) => x,
            None => {
                return None;
            },
        };
        Some(
            LocalShellAction::Exec(
                LocalShellExecAction { command, timeout_ms, working_directory, env, user },
            ),
        )
    }
}

/// A shell action that must be there.
pub open spec fn shell_at(m: Seq<(Seq<char>, JsonView)>, key: Seq<char>) -> Option<ShellView> {
    match json::member(m, key) {
        Some(v) => shell_part_from(v),
        None => None,
    }
}

fn read_shell(m: &JsonMap, key: &str) -> (r: Option<LocalShellAction>)
    ensures
        match r {
            Some(read) => shell_at(m@, key@) == Some(read@),
            None => shell_at(m@, key@) is None,
        },
{
    match m.get(key) {
        Some(v) => LocalShellAction::from_part(v),
        None => None,
    }
}

/// A web search action, by its contents.
pub enum WebView {
    /// `search`.
    Search {
        /// `query`.
        query: Option<Seq<char>>,
        /// `queries`.
        queries: Option<Seq<Seq<char>>>,
        /// `sources`.
        sources: Option<Seq<JsonView>>,
    },
    /// `open_page`.
    OpenPage {
        /// `url`.
        url: Option<Seq<char>>,
    },
    /// `find_in_page`.
    FindInPage {
        /// `url`.
        url: Option<Seq<char>>,
        /// `pattern`.
        pattern: Option<Seq<char>>,
    },
    /// `other`.
    Other,
}

impl View for WebSearchAction {
    type V = WebView;

    open spec fn view(&self) -> WebView {
        match self {
            WebSearchAction::Search { query, queries, sources } => WebView::Search {
                query: text::opt_view(*query),
                queries: text::opt_strings_view(*queries),
                sources: opt_values_view(*sources),
            },
            WebSearchAction::OpenPage { url } => WebView::OpenPage {
                url: text::opt_view(*url),
            },
            WebSearchAction::FindInPage { url, pattern } => WebView::FindInPage {
                url: text::opt_view(*url),
                pattern: text::opt_view(*pattern),
            },
            WebSearchAction::Other => WebView::Other,
        }
    }
}

/// What was read, by its contents.
pub open spec fn opt_view_web_from(r: Option<WebSearchAction>) -> Option<WebView> {
    match r {
        Some(x) => Some(x@),
        None => None,
    }
}

/// The web search action that a value stands for. Its type is a name, or the place of
/// a name in `numbered`.
pub open spec fn web_tagged(v: JsonView, numbered: Seq<Seq<char>>) -> Option<WebView> {
    let kind = fields::tag_of(v, numbered);
    if kind == Some("search"@) {
        match fields::tagged_fields_of(v, seq!["query"@, "queries"@, "sources"@], 0) {
            Some(m) => if opt_text_at(m, "query"@) is Some
                && opt_texts_at(m, "queries"@) is Some
                && opt_values_at(m, "sources"@) is Some {
                Some(
                    WebView::Search {
                        query: opt_text_at(m, "query"@)->0,
                        queries: opt_texts_at(m, "queries"@)->0,
                        sources: opt_values_at(m, "sources"@)->0,
                    },
                )
            } else {
                None
            },
            None => None,
        }
    } else if kind == Some("open_page"@) {
        match fields::tagged_fields_of(v, seq!["url"@], 0) {
            Some(m) => if opt_text_at(m, "url"@) is Some {
                Some(
                    WebView::OpenPage {
                        url: opt_text_at(m, "url"@)->0,
                    },
                )
            } else {
                None
            },
            None => None,
        }
    } else if kind == Some("find_in_page"@) {
        match fields::tagged_fields_of(v, seq!["url"@, "pattern"@], 0) {
            Some(m) => if opt_text_at(m, "url"@) is Some && opt_text_at(m, "pattern"@) is Some {
                Some(
                    WebView::FindInPage {
                        url: opt_text_at(m, "url"@)->0,
                        pattern: opt_text_at(m, "pattern"@)->0,
                    },
                )
            } else {
                None
            },
            None => None,
        }
    } else if kind == Some("other"@) {
        match fields::tagged_fields_of(v, seq![], 0) {
            Some(_) => Some(WebView::Other),
            None => None,
        }
    } else {
        None
    }
}

/// The web search action that a value stands for.
pub open spec fn web_from(v: JsonView) -> Option<WebView> {
    web_tagged(v, seq![])
}

/// The web search action that a value within an item or a tool stands for: there the
/// type may be the place of a name, too.
pub open spec fn web_part_from(v: JsonView) -> Option<WebView> {
    web_tagged(v, seq!["search"@, "open_page"@, "find_in_page"@, "other"@])
}

impl WebSearchAction {
    /// The web search action that a value stands for.
    pub fn from_json(value: &Json) -> (r: Option<WebSearchAction>)
        ensures
            opt_view_web_from(r) == web_from(value@),
    {
        let numbered = Names::new();
        Self::from_tagged(value, &numbered)
    }

    /// What a value within an item or a tool stands for.
    pub fn from_part(value: &Json) -> (r: Option<WebSearchAction>)
        ensures
            opt_view_web_from(r) == web_part_from(value@),
    {
        let numbered = Names::new()
            .and("search")
            .and("open_page")
            .and("find_in_page")
            .and("other");
        assert(numbered@ =~= seq!["search"@, "open_page"@, "find_in_page"@, "other"@]);
        Self::from_tagged(value, &numbered)
    }

    fn from_tagged(value: &Json, numbered: &Names) -> (r: Option<WebSearchAction>)
        ensures
            opt_view_web_from(r) == web_tagged(value@, numbered@),
    {
        let kind = match tag_in(value, numbered) {
            Some(kind) => kind,
            None => {
                return None;
            },
        };
        if text::str_eq(kind, "search") {
            let names = Names::new().and("query").and("queries").and("sources");
            assert(names@ =~= seq!["query"@, "queries"@, "sources"@]);
            let fields = match tagged_fields_in(value, &names, 0) {
                Some(fields) => fields,
                None => {
                    return None;
                },
            };
            let m = fields.map();
            let query = match read_opt_text(m, "query") {
                Some(x) => x,
                None => {
                    return None;
                },
            };
            let queries = match read_opt_texts(m, "queries") {
                Some(x) => x,
                None => {
                    return None;
                },
            };
            let sources = match read_opt_values(m, "sources") {
                Some(x) => x,
                None => {
                    return None;
                },
            };
            Some(WebSearchAction::Search { query, queries, sources })
        } else if text::str_eq(kind, "open_page") {
            let names = Names::new().and("url");
            let fields = match tagged_fields_in(value, &names, 0) {
                Some(fields) => fields,
                None => {
                    return None;
                },
            };
            let m = fields.map();
            let url = match read_opt_text(m, "url") {
                Some(x) => x,
                None => {
                    return None;
                },
            };
            Some(WebSearchAction::OpenPage { url })
        } else if text::str_eq(kind, "find_in_page") {
            let names = Names::new().and("url").and("pattern");
            assert(names@ =~= seq!["url"@, "pattern"@]);
            let fields = match tagged_fields_in(value, &names, 0) {
                Some(fields) => fields,
                None => {
                    return None;
                },
            };
            let m = fields.map();
            let url = match read_opt_text(m, "url") {
                Some(x) => x,
                None => {
                    return None;
                },
            };
            let pattern = match read_opt_text(m, "pattern") {
                Some(x) => x,
                None => {
                    return None;
                },
            };
            Some(WebSearchAction::FindInPage { url, pattern })
        } else if text::str_eq(kind, "other") {
            let names = Names::new();
            let fields = match tagged_fields_in(value, &names, 0) {
                Some(fields) => fields,
                None => {
                    return None;
                },
            };
            Some(WebSearchAction::Other)
        } else {
            None
        }
    }
}

/// The contents of a web search action, where there is one.
pub open spec fn opt_web_view(action: Option<WebSearchAction>) -> Option<WebView> {
    match action {
        Some(action) => Some(action@),
        None => None,
    }
}

/// A web search action that may be missing or `null`.
pub open spec fn opt_web_at(m: Seq<(Seq<char>, JsonView)>, key: Seq<char>) -> Option<
    Option<WebView>,
> {
    match json::member(m, key) {
        None => Some(None),
        Some(JsonView::Null) => Some(None),
        Some(v) => match web_part_from(v) {
            Some(read) => Some(Some(read)),
            None => None,
        },
    }
}

fn read_opt_web(m: &JsonMap, key: &str) -> (r: Option<Option<WebSearchAction>>)
    ensures
        match r {
            Some(read) => opt_web_at(m@, key@) == Some(opt_web_view(read)),
            None => opt_web_at(m@, key@) is None,
        },
{
    match m.get(key) {
        None => Some(None),
        Some(v) => if v.is_null() {
            Some(None)
        } else {
            match WebSearchAction::from_part(v) {
                Some(read) => Some(Some(read)),
                None => None,
            }
        },
    }
}

// --- Items -------------------------------------------------------------------------------------

/// An item, by its contents.
pub enum ItemView {
    /// `item_reference`.
    ItemReference {
        /// `id`.
        id: Seq<char>,
    },
    /// `message`.
    Message {
        /// `id`.
        id: Option<Seq<char>>,
        /// `role`.
        role: Seq<char>,
        /// `content`.
        content: Seq<ContentView>,
        /// `phase`.
        phase: Option<Seq<char>>,
    },
    /// `agent_message`.
    AgentMessage {
        /// `id`.
        id: Option<Seq<char>>,
        /// `content`.
        content: Seq<AgentContentView>,
    },
    /// `reasoning`.
    Reasoning {
        /// `id`.
        id: Seq<char>,
        /// `summary`.
        summary: Seq<SummaryView>,
        /// `content`.
        content: Option<Seq<ReasoningView>>,
        /// `encrypted_content`.
        encrypted_content: Option<Seq<char>>,
    },
    /// `function_call`.
    FunctionCall {
        /// `id`.
        id: Option<Seq<char>>,
        /// `name`.
        name: Seq<char>,
        /// `namespace`.
        namespace: Option<Seq<char>>,
        /// `arguments`.
        arguments: Seq<char>,
        /// `call_id`.
        call_id: Seq<char>,
    },
    /// `function_call_output`.
    FunctionCallOutput {
        /// `call_id`.
        call_id: Seq<char>,
        /// `output`.
        output: OutputView,
    },
    /// `custom_tool_call`.
    CustomToolCall {
        /// `id`.
        id: Option<Seq<char>>,
        /// `status`.
        status: Option<Seq<char>>,
        /// `call_id`.
        call_id: Seq<char>,
        /// `name`.
        name: Seq<char>,
        /// `input`.
        input: Seq<char>,
    },
    /// `custom_tool_call_output`.
    CustomToolCallOutput {
        /// `call_id`.
        call_id: Seq<char>,
        /// `name`.
        name: Option<Seq<char>>,
        /// `output`.
        output: OutputView,
    },
    /// `tool_search_call`.
    ToolSearchCall {
        /// `id`.
        id: Option<Seq<char>>,
        /// `call_id`.
        call_id: Option<Seq<char>>,
        /// `status`.
        status: Option<Seq<char>>,
        /// `execution`.
        execution: Seq<char>,
        /// `arguments`.
        arguments: JsonView,
    },
    /// `tool_search_output`.
    ToolSearchOutput {
        /// `call_id`.
        call_id: Option<Seq<char>>,
        /// `status`.
        status: Seq<char>,
        /// `execution`.
        execution: Seq<char>,
        /// `tools`.
        tools: Seq<JsonView>,
    },
    /// `local_shell_call`.
    LocalShellCall {
        /// `id`.
        id: Option<Seq<char>>,
        /// `call_id`.
        call_id: Option<Seq<char>>,
        /// `status`.
        status: Seq<char>,
        /// `action`.
        action: ShellView,
    },
    /// `web_search_call`.
    WebSearchCall {
        /// `id`.
        id: Option<Seq<char>>,
        /// `status`.
        status: Option<Seq<char>>,
        /// `action`.
        action: Option<WebView>,
    },
    /// `image_generation_call`.
    ImageGenerationCall {
        /// `id`.
        id: Seq<char>,
        /// `status`.
        status: Seq<char>,
        /// `revised_prompt`.
        revised_prompt: Option<Seq<char>>,
        /// `result`.
        result: Seq<char>,
    },
}

impl View for ResponseItem {
    type V = ItemView;

    open spec fn view(&self) -> ItemView {
        match self {
            ResponseItem::ItemReference { id } => ItemView::ItemReference {
                id: id@,
            },
            ResponseItem::Message { id, role, content, phase } => ItemView::Message {
                id: text::opt_view(*id),
                role: role@,
                content: responses::contents_view(content@),
                phase: text::opt_view(*phase),
            },
            ResponseItem::AgentMessage { id, content } => ItemView::AgentMessage {
                id: text::opt_view(*id),
                content: agent_contents_view(content@),
            },
            ResponseItem::Reasoning { id, summary, content, encrypted_content } =>
            ItemView::Reasoning {
                id: id@,
                summary: summaries_view(summary@),
                content: opt_reasonings_view(*content),
                encrypted_content: text::opt_view(*encrypted_content),
            },
            ResponseItem::FunctionCall { id, name, namespace, arguments, call_id } =>
            ItemView::FunctionCall {
                id: text::opt_view(*id),
                name: name@,
                namespace: text::opt_view(*namespace),
                arguments: arguments@,
                call_id: call_id@,
            },
            ResponseItem::FunctionCallOutput { call_id, output } => ItemView::FunctionCallOutput {
                call_id: call_id@,
                output: output@,
            },
            ResponseItem::CustomToolCall { id, status, call_id, name, input } =>
            ItemView::CustomToolCall {
                id: text::opt_view(*id),
                status: text::opt_view(*status),
                call_id: call_id@,
                name: name@,
                input: input@,
            },
            ResponseItem::CustomToolCallOutput { call_id, name, output } =>
            ItemView::CustomToolCallOutput {
                call_id: call_id@,
                name: text::opt_view(*name),
                output: output@,
            },
            ResponseItem::ToolSearchCall { id, call_id, status, execution, arguments } =>
            ItemView::ToolSearchCall {
                id: text::opt_view(*id),
                call_id: text::opt_view(*call_id),
                status: text::opt_view(*status),
                execution: execution@,
                arguments: arguments@,
            },
            ResponseItem::ToolSearchOutput { call_id, status, execution, tools } =>
            ItemView::ToolSearchOutput {
                call_id: text::opt_view(*call_id),
                status: status@,
                execution: execution@,
                tools: json::items_view(tools@),
            },
            ResponseItem::LocalShellCall { id, call_id, status, action } =>
            ItemView::LocalShellCall {
                id: text::opt_view(*id),
                call_id: text::opt_view(*call_id),
                status: status@,
                action: action@,
            },
            ResponseItem::WebSearchCall { id, status, action } => ItemView::WebSearchCall {
                id: text::opt_view(*id),
                status: text::opt_view(*status),
                action: opt_web_view(*action),
            },
            ResponseItem::ImageGenerationCall { id, status, revised_prompt, result } =>
            ItemView::ImageGenerationCall {
                id: id@,
                status: status@,
                revised_prompt: text::opt_view(*revised_prompt),
                result: result@,
            },
        }
    }
}

/// What was read, by its contents.
pub open spec fn opt_view_item_from(r: Option<ResponseItem>) -> Option<ItemView> {
    match r {
        Some(x) => Some(x@),
        None => None,
    }
}

/// The item that a value stands for.
pub open spec fn item_from(v: JsonView) -> Option<ItemView> {
    let kind = fields::tag_of(v, seq![]);
    if kind == Some("item_reference"@) {
        match fields::tagged_fields_of(v, seq!["id"@], 1) {
            Some(m) => if text_at(m, "id"@) is Some {
                Some(
                    ItemView::ItemReference {
                        id: text_at(m, "id"@)->0,
                    },
                )
            } else {
                None
            },
            None => None,
        }
    } else if kind == Some("message"@) {
        match fields::tagged_fields_of(v, seq!["id"@, "role"@, "content"@, "phase"@], 3) {
            Some(m) => if opt_text_at(m, "id"@) is Some
                && text_at(m, "role"@) is Some
                && contents_at(m, "content"@) is Some
                && opt_text_at(m, "phase"@) is Some {
                Some(
                    ItemView::Message {
                        id: opt_text_at(m, "id"@)->0,
                        role: text_at(m, "role"@)->0,
                        content: contents_at(m, "content"@)->0,
                        phase: opt_text_at(m, "phase"@)->0,
                    },
                )
            } else {
                None
            },
            None => None,
        }
    } else if kind == Some("agent_message"@) {
        match fields::tagged_fields_of(v, seq!["id"@, "content"@], 2) {
            Some(m) => if opt_text_at(m, "id"@) is Some && agent_contents_at(m, "content"@) is Some {
                Some(
                    ItemView::AgentMessage {
                        id: opt_text_at(m, "id"@)->0,
                        content: agent_contents_at(m, "content"@)->0,
                    },
                )
            } else {
                None
            },
            None => None,
        }
    } else if kind == Some("reasoning"@) {
        match fields::tagged_fields_of(
            v,
            seq!["id"@, "summary"@, "content"@, "encrypted_content"@],
            0,
        ) {
            Some(m) => if reasoning_id_at(m) is Some
                && summaries_at(m, "summary"@) is Some
                && opt_reasonings_at(m, "content"@) is Some
                && opt_text_at(m, "encrypted_content"@) is Some {
                Some(
                    ItemView::Reasoning {
                        id: reasoning_id_at(m)->0,
                        summary: summaries_at(m, "summary"@)->0,
                        content: opt_reasonings_at(m, "content"@)->0,
                        encrypted_content: opt_text_at(m, "encrypted_content"@)->0,
                    },
                )
            } else {
                None
            },
            None => None,
        }
    } else if kind == Some("function_call"@) {
        match fields::tagged_fields_of(
            v,
            seq!["id"@, "name"@, "namespace"@, "arguments"@, "call_id"@],
            5,
        ) {
            Some(m) => if opt_text_at(m, "id"@) is Some
                && text_at(m, "name"@) is Some
                && opt_text_at(m, "namespace"@) is Some
                && text_at(m, "arguments"@) is Some
                && text_at(m, "call_id"@) is Some {
                Some(
                    ItemView::FunctionCall {
                        id: opt_text_at(m, "id"@)->0,
                        name: text_at(m, "name"@)->0,
                        namespace: opt_text_at(m, "namespace"@)->0,
                        arguments: text_at(m, "arguments"@)->0,
                        call_id: text_at(m, "call_id"@)->0,
                    },
                )
            } else {
                None
            },
            None => None,
        }
    } else if kind == Some("function_call_output"@) {
        match fields::tagged_fields_of(v, seq!["call_id"@, "output"@], 2) {
            Some(m) => if text_at(m, "call_id"@) is Some && output_at(m, "output"@) is Some {
                Some(
                    ItemView::FunctionCallOutput {
                        call_id: text_at(m, "call_id"@)->0,
                        output: output_at(m, "output"@)->0,
                    },
                )
            } else {
                None
            },
            None => None,
        }
    } else if kind == Some("custom_tool_call"@) {
        match fields::tagged_fields_of(
            v,
            seq!["id"@, "status"@, "call_id"@, "name"@, "input"@],
            5,
        ) {
            Some(m) => if opt_text_at(m, "id"@) is Some
                && opt_text_at(m, "status"@) is Some
                && text_at(m, "call_id"@) is Some
                && text_at(m, "name"@) is Some
                && text_at(m, "input"@) is Some {
                Some(
                    ItemView::CustomToolCall {
                        id: opt_text_at(m, "id"@)->0,
                        status: opt_text_at(m, "status"@)->0,
                        call_id: text_at(m, "call_id"@)->0,
                        name: text_at(m, "name"@)->0,
                        input: text_at(m, "input"@)->0,
                    },
                )
            } else {
                None
            },
            None => None,
        }
    } else if kind == Some("custom_tool_call_output"@) {
        match fields::tagged_fields_of(v, seq!["call_id"@, "name"@, "output"@], 3) {
            Some(m) => if text_at(m, "call_id"@) is Some
                && opt_text_at(m, "name"@) is Some
                && output_at(m, "output"@) is Some {
                Some(
                    ItemView::CustomToolCallOutput {
                        call_id: text_at(m, "call_id"@)->0,
                        name: opt_text_at(m, "name"@)->0,
                        output: output_at(m, "output"@)->0,
                    },
                )
            } else {
                None
            },
            None => None,
        }
    } else if kind == Some("tool_search_call"@) {
        match fields::tagged_fields_of(
            v,
            seq!["id"@, "call_id"@, "status"@, "execution"@, "arguments"@],
            5,
        ) {
            Some(m) => if opt_text_at(m, "id"@) is Some
                && opt_text_at(m, "call_id"@) is Some
                && opt_text_at(m, "status"@) is Some
                && text_at(m, "execution"@) is Some
                && value_at(m, "arguments"@) is Some {
                Some(
                    ItemView::ToolSearchCall {
                        id: opt_text_at(m, "id"@)->0,
                        call_id: opt_text_at(m, "call_id"@)->0,
                        status: opt_text_at(m, "status"@)->0,
                        execution: text_at(m, "execution"@)->0,
                        arguments: value_at(m, "arguments"@)->0,
                    },
                )
            } else {
                None
            },
            None => None,
        }
    } else if kind == Some("tool_search_output"@) {
        match fields::tagged_fields_of(
            v,
            seq!["call_id"@, "status"@, "execution"@, "tools"@],
            4,
        ) {
            Some(m) => if opt_text_at(m, "call_id"@) is Some
                && text_at(m, "status"@) is Some
                && text_at(m, "execution"@) is Some
                && values_at(m, "tools"@) is Some {
                Some(
                    ItemView::ToolSearchOutput {
                        call_id: opt_text_at(m, "call_id"@)->0,
                        status: text_at(m, "status"@)->0,
                        execution: text_at(m, "execution"@)->0,
                        tools: values_at(m, "tools"@)->0,
                    },
                )
            } else {
                None
            },
            None => None,
        }
    } else if kind == Some("local_shell_call"@) {
        match fields::tagged_fields_of(v, seq!["id"@, "call_id"@, "status"@, "action"@], 4) {
            Some(m) => if opt_text_at(m, "id"@) is Some
                && opt_text_at(m, "call_id"@) is Some
                && text_at(m, "status"@) is Some
                && shell_at(m, "action"@) is Some {
                Some(
                    ItemView::LocalShellCall {
                        id: opt_text_at(m, "id"@)->0,
                        call_id: opt_text_at(m, "call_id"@)->0,
                        status: text_at(m, "status"@)->0,
                        action: shell_at(m, "action"@)->0,
                    },
                )
            } else {
                None
            },
            None => None,
        }
    } else if kind == Some("web_search_call"@) {
        match fields::tagged_fields_of(v, seq!["id"@, "status"@, "action"@], 0) {
            Some(m) => if opt_text_at(m, "id"@) is Some
                && opt_text_at(m, "status"@) is Some
                && opt_web_at(m, "action"@) is Some {
                Some(
                    ItemView::WebSearchCall {
                        id: opt_text_at(m, "id"@)->0,
                        status: opt_text_at(m, "status"@)->0,
                        action: opt_web_at(m, "action"@)->0,
                    },
                )
            } else {
                None
            },
            None => None,
        }
    } else if kind == Some("image_generation_call"@) {
        match fields::tagged_fields_of(
            v,
            seq!["id"@, "status"@, "revised_prompt"@, "result"@],
            4,
        ) {
            Some(m) => if text_at(m, "id"@) is Some
                && text_at(m, "status"@) is Some
                && opt_text_at(m, "revised_prompt"@) is Some
                && text_at(m, "result"@) is Some {
                Some(
                    ItemView::ImageGenerationCall {
                        id: text_at(m, "id"@)->0,
                        status: text_at(m, "status"@)->0,
                        revised_prompt: opt_text_at(m, "revised_prompt"@)->0,
                        result: text_at(m, "result"@)->0,
                    },
                )
            } else {
                None
            },
            None => None,
        }
    } else {
        None
    }
}

impl ResponseItem {
    /// The item that a value stands for.
    pub fn from_json(value: &Json) -> (r: Option<ResponseItem>)
        ensures
            opt_view_item_from(r) == item_from(value@),
    {
        let none = Names::new();
        let kind = match tag_in(value, &none) {
            Some(kind) => kind,
            None => {
                return None;
            },
        };
        if text::str_eq(kind, "item_reference") {
            let names = Names::new().and("id");
            let fields = match tagged_fields_in(value, &names, 1) {
                Some(fields) => fields,
                None => {
                    return None;
                },
            };
            let m = fields.map();
            let id = match read_text(m, "id") {
                Some(x) => x,
                None => {
                    return None;
                },
            };
            Some(ResponseItem::ItemReference { id })
        } else if text::str_eq(kind, "message") {
            let names = Names::new().and("id").and("role").and("content").and("phase");
            assert(names@ =~= seq!["id"@, "role"@, "content"@, "phase"@]);
            let fields = match tagged_fields_in(value, &names, 3) {
                Some(fields) => fields,
                None => {
                    return None;
                },
            };
            let m = fields.map();
            let id = match read_opt_text(m, "id") {
                Some(x) => x,
                None => {
                    return None;
                },
            };
            let role = match read_text(m, "role") {
                Some(x) => x,
                None => {
                    return None;
                },
            };
            let content = match read_contents(m, "content") {
                Some(x) => x,
                None => {
                    return None;
                },
            };
            let phase = match read_opt_text(m, "phase") {
                Some(x) => x,
                None => {
                    return None;
                },
            };
            Some(ResponseItem::Message { id, role, content, phase })
        } else if text::str_eq(kind, "agent_message") {
            let names = Names::new().and("id").and("content");
            assert(names@ =~= seq!["id"@, "content"@]);
            let fields = match tagged_fields_in(value, &names, 2) {
                Some(fields) => fields,
                None => {
                    return None;
                },
            };
            let m = fields.map();
            let id = match read_opt_text(m, "id") {
                Some(x) => x,
                None => {
                    return None;
                },
            };
            let content = match read_agent_contents(m, "content") {
                Some(x) => x,
                None => {
                    return None;
                },
            };
            Some(ResponseItem::AgentMessage { id, content })
        } else if text::str_eq(kind, "reasoning") {
            let names = Names::new()
                .and("id")
                .and("summary")
                .and("content")
                .and("encrypted_content");
            assert(names@ =~= seq!["id"@, "summary"@, "content"@, "encrypted_content"@]);
            let fields = match tagged_fields_in(value, &names, 0) {
                Some(fields) => fields,
                None => {
                    return None;
                },
            };
            let m = fields.map();
            let id = match read_reasoning_id(m) {
                Some(x) => x,
                None => {
                    return None;
                },
            };
            let summary = match read_summaries(m, "summary") {
                Some(x) => x,
                None => {
                    return None;
                },
            };
            let content = match read_opt_reasonings(m, "content") {
                Some(x) => x,
                None => {
                    return None;
                },
            };
            let encrypted_content = match read_opt_text(m, "encrypted_content") {
                Some(x) => x,
                None => {
                    return None;
                },
            };
            Some(ResponseItem::Reasoning { id, summary, content, encrypted_content })
        } else if text::str_eq(kind, "function_call") {
            let names = Names::new()
                .and("id")
                .and("name")
                .and("namespace")
                .and("arguments")
                .and("call_id");
            assert(names@ =~= seq!["id"@, "name"@, "namespace"@, "arguments"@, "call_id"@]);
            let fields = match tagged_fields_in(value, &names, 5) {
                Some(fields) => fields,
                None => {
                    return None;
                },
            };
            let m = fields.map();
            let id = match read_opt_text(m, "id") {
                Some(x) => x,
                None => {
                    return None;
                },
            };
            let name = match read_text(m, "name") {
                Some(x) => x,
                None => {
                    return None;
                },
            };
            let namespace = match read_opt_text(m, "namespace") {
                Some(x) => x,
                None => {
                    return None;
                },
            };
            let arguments = match read_text(m, "arguments") {
                Some(x) => x,
                None => {
                    return None;
                },
            };
            let call_id = match read_text(m, "call_id") {
                Some(x) => x,
                None => {
                    return None;
                },
            };
            Some(ResponseItem::FunctionCall { id, name, namespace, arguments, call_id })
        } else if text::str_eq(kind, "function_call_output") {
            let names = Names::new().and("call_id").and("output");
            assert(names@ =~= seq!["call_id"@, "output"@]);
            let fields = match tagged_fields_in(value, &names, 2) {
                Some(fields) => fields,
                None => {
                    return None;
                },
            };
            let m = fields.map();
            let call_id = match read_text(m, "call_id") {
                Some(x) => x,
                None => {
                    return None;
                },
            };
            let output = match read_output(m, "output") {
                Some(x) => x,
                None => {
                    return None;
                },
            };
            Some(ResponseItem::FunctionCallOutput { call_id, output })
        } else if text::str_eq(kind, "custom_tool_call") {
            let names = Names::new()
                .and("id")
                .and("status")
                .and("call_id")
                .and("name")
                .and("input");
            assert(names@ =~= seq!["id"@, "status"@, "call_id"@, "name"@, "input"@]);
            let fields = match tagged_fields_in(value, &names, 5) {
                Some(fields) => fields,
                None => {
                    return None;
                },
            };
            let m = fields.map();
            let id = match read_opt_text(m, "id") {
                Some(x) => x,
                None => {
                    return None;
                },
            };
            let status = match read_opt_text(m, "status") {
                Some(x) => x,
                None => {
                    return None;
                },
            };
            let call_id = match read_text(m, "call_id") {
                Some(x) => x,
                None => {
                    return None;
                },
            };
            let name = match read_text(m, "name") {
                Some(x) => x,
                None => {
                    return None;
                },
            };
            let input = match read_text(m, "input") {
                Some(x) => x,
                None => {
                    return None;
                },
            };
            Some(ResponseItem::CustomToolCall { id, status, call_id, name, input })
        } else if text::str_eq(kind, "custom_tool_call_output") {
            let names = Names::new().and("call_id").and("name").and("output");
            assert(names@ =~= seq!["call_id"@, "name"@, "output"@]);
            let fields = match tagged_fields_in(value, &names, 3) {
                Some(fields) => fields,
                None => {
                    return None;
                },
            };
            let m = fields.map();
            let call_id = match read_text(m, "call_id") {
                Some(x) => x,
                None => {
                    return None;
                },
            };
            let name = match read_opt_text(m, "name") {
                Some(x) => x,
                None => {
                    return None;
                },
            };
            let output = match read_output(m, "output") {
                Some(x) => x,
                None => {
                    return None;
                },
            };
            Some(ResponseItem::CustomToolCallOutput { call_id, name, output })
        } else if text::str_eq(kind, "tool_search_call") {
            let names = Names::new()
                .and("id")
                .and("call_id")
                .and("status")
                .and("execution")
                .and("arguments");
            assert(names@ =~= seq!["id"@, "call_id"@, "status"@, "execution"@, "arguments"@]);
            let fields = match tagged_fields_in(value, &names, 5) {
                Some(fields) => fields,
                None => {
                    return None;
                },
            };
            let m = fields.map();
            let id = match read_opt_text(m, "id") {
                Some(x) => x,
                None => {
                    return None;
                },
            };
            let call_id = match read_opt_text(m, "call_id") {
                Some(x) => x,
                None => {
                    return None;
                },
            };
            let status = match read_opt_text(m, "status") {
                Some(x) => x,
                None => {
                    return None;
                },
            };
            let execution = match read_text(m, "execution") {
                Some(x) => x,
                None => {
                    return None;
                },
            };
            let arguments = match read_value(m, "arguments") {
                Some(x) => x,
                None => {
                    return None;
                },
            };
            Some(ResponseItem::ToolSearchCall { id, call_id, status, execution, arguments })
        } else if text::str_eq(kind, "tool_search_output") {
            let names = Names::new()
                .and("call_id")
                .and("status")
                .and("execution")
                .and("tools");
            assert(names@ =~= seq!["call_id"@, "status"@, "execution"@, "tools"@]);
            let fields = match tagged_fields_in(value, &names, 4) {
                Some(fields) => fields,
                None => {
                    return None;
                },
            };
            let m = fields.map();
            let call_id = match read_opt_text(m, "call_id") {
                Some(x) => x,
                None => {
                    return None;
                },
            };
            let status = match read_text(m, "status") {
                Some(x) => x,
                None => {
                    return None;
                },
            };
            let execution = match read_text(m, "execution") {
                Some(x) => x,
                None => {
                    return None;
                },
            };
            let tools = match read_values(m, "tools") {
                Some(x) => x,
                None => {
                    return None;
                },
            };
            Some(ResponseItem::ToolSearchOutput { call_id, status, execution, tools })
        } else if text::str_eq(kind, "local_shell_call") {
            let names = Names::new().and("id").and("call_id").and("status").and("action");
            assert(names@ =~= seq!["id"@, "call_id"@, "status"@, "action"@]);
            let fields = match tagged_fields_in(value, &names, 4) {
                Some(fields) => fields,
                None => {
                    return None;
                },
            };
            let m = fields.map();
            let id = match read_opt_text(m, "id") {
                Some(x) => x,
                None => {
                    return None;
                },
            };
            let call_id = match read_opt_text(m, "call_id") {
                Some(x) => x,
                None => {
                    return None;
                },
            };
            let status = match read_text(m, "status") {
                Some(x) => x,
                None => {
                    return None;
                },
            };
            let action = match read_shell(m, "action") {
                Some(x) => x,
                None => {
                    return None;
                },
            };
            Some(ResponseItem::LocalShellCall { id, call_id, status, action })
        } else if text::str_eq(kind, "web_search_call") {
            let names = Names::new().and("id").and("status").and("action");
            assert(names@ =~= seq!["id"@, "status"@, "action"@]);
            let fields = match tagged_fields_in(value, &names, 0) {
                Some(fields) => fields,
                None => {
                    return None;
                },
            };
            let m = fields.map();
            let id = match read_opt_text(m, "id") {
                Some(x) => x,
                None => {
                    return None;
                },
            };
            let status = match read_opt_text(m, "status") {
                Some(x) => x,
                None => {
                    return None;
                },
            };
            let action = match read_opt_web(m, "action") {
                Some(x) => x,
                None => {
                    return None;
                },
            };
            Some(ResponseItem::WebSearchCall { id, status, action })
        } else if text::str_eq(kind, "image_generation_call") {
            let names = Names::new()
                .and("id")
                .and("status")
                .and("revised_prompt")
                .and("result");
            assert(names@ =~= seq!["id"@, "status"@, "revised_prompt"@, "result"@]);
            let fields = match tagged_fields_in(value, &names, 4) {
                Some(fields) => fields,
                None => {
                    return None;
                },
            };
            let m = fields.map();
            let id = match read_text(m, "id") {
                Some(x) => x,
                None => {
                    return None;
                },
            };
            let status = match read_text(m, "status") {
                Some(x) => x,
                None => {
                    return None;
                },
            };
            let revised_prompt = match read_opt_text(m, "revised_prompt") {
                Some(x) => x,
                None => {
                    return None;
                },
            };
            let result = match read_text(m, "result") {
                Some(x) => x,
                None => {
                    return None;
                },
            };
            Some(ResponseItem::ImageGenerationCall { id, status, revised_prompt, result })
        } else {
            None
        }
    }
}

/// The contents of items.
pub open spec fn items_contents(items: Seq<ResponseItem>) -> Seq<ItemView> {
    items.map_values(|item: ResponseItem| item@)
}

/// Whether all elements can be read.
pub open spec fn all_item_from(items: Seq<JsonView>) -> bool {
    forall|i: int| 0 <= i < items.len() ==> item_from(#[trigger] items[i]) is Some
}

/// The elements that were read.
pub open spec fn each_item_from(items: Seq<JsonView>) -> Option<Seq<ItemView>> {
    if all_item_from(items) {
        Some(items.map_values(|v: JsonView| item_from(v)->0))
    } else {
        None
    }
}

fn read_each_item_from(items: &Vec<Json>) -> (r: Option<Vec<ResponseItem>>)
    ensures
        match r {
            Some(read) => each_item_from(json::items_view(items@)) == Some(items_contents(read@)),
            None => each_item_from(json::items_view(items@)) is None,
        },
{
    let ghost views = json::items_view(items@);
    let mut out: Vec<ResponseItem> = Vec::new();
    let mut i: usize = 0;
    while i < items.len()
        invariant
            i <= items@.len(),
            views == json::items_view(items@),
            out@.len() == i,
            forall|k: int| 0 <= k < i ==> item_from(views[k]) == Some((#[trigger] out@[k])@),
        decreases items@.len() - i,
    {
        match ResponseItem::from_json(&items[i]) {
            Some(x) => out.push(x),
            None => {
                assert(item_from(views[i as int]) is None);
                return None;
            },
        }
        i += 1;
    }
    assert forall|k: int| 0 <= k < views.len() implies item_from(#[trigger] views[k]) is Some by {
        assert(item_from(views[k]) == Some(out@[k]@));
    }
    assert(items_contents(out@) =~= views.map_values(|v: JsonView| item_from(v)->0));
    Some(out)
}

/// The items that an array of values stands for.
pub fn read_items(items: &Vec<Json>) -> (r: Option<Vec<ResponseItem>>)
    ensures
        match r {
            Some(read) => each_item_from(json::items_view(items@)) == Some(items_contents(read@)),
            None => each_item_from(json::items_view(items@)) is None,
        },
{
    read_each_item_from(items)
}

} // verus!
