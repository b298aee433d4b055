//! Requests of the Messages surface as they are read from JSON.
use vstd::prelude::*;

use crate::json;
use crate::json::Json;
use crate::json::JsonMap;
use crate::json::JsonNumber;
use crate::json::JsonView;
use crate::json::NumberView;
use crate::models::anthropic::AnthropicContent;
use crate::models::anthropic::AnthropicContentBlock;
use crate::models::anthropic::AnthropicImageSource;
use crate::models::anthropic::AnthropicMessage;
use crate::models::anthropic::AnthropicRequest;
use crate::models::anthropic::AnthropicSystemContent;
use crate::models::anthropic::AnthropicTextBlock;
use crate::models::anthropic::AnthropicThinking;
use crate::models::anthropic::AnthropicTool;
use crate::models::anthropic::AnthropicToolChoice;
use crate::models::fields;
use crate::models::fields::fields_in;
use crate::models::fields::tag_in;
use crate::models::fields::tagged_fields_in;
use crate::models::fields::Names;
use crate::models::read;
use crate::models::read::read_opt_text;
use crate::models::read::read_opt_texts;
use crate::models::read::read_opt_u64;
use crate::models::read::read_text;
use crate::models::read::read_value;
use crate::models::read_chat;
use crate::models::read_request;
use crate::models::read_request::read_flag_or_false;
use crate::models::read_request::read_opt_flag;
use crate::models::read_request::read_opt_number;
use crate::models::read_request::read_opt_value;
use crate::text;

verus! {

// --- The system prompt -------------------------------------------------------------------------

/// A block of the system prompt, by its contents.
pub enum TextBlockView {
    /// `text`.
    Text {
        /// `text`.
        text: Seq<char>,
    },
}

impl View for AnthropicTextBlock {
    type V = TextBlockView;

    open spec fn view(&self) -> TextBlockView {
        match self {
            AnthropicTextBlock::Text { text } => TextBlockView::Text {
                text: text@,
            },
        }
    }
}

/// The block of the system prompt that a value stands for.
pub open spec fn text_block_from(v: JsonView) -> Option<TextBlockView> {
    let kind = fields::tag_of(v, seq![]);
    if kind == Some("text"@) {
        match fields::tagged_fields_of(v, seq!["text"@], 1) {
            Some(m) => if read::text_at(m, "text"@) is Some {
                Some(
                    TextBlockView::Text {
                        text: read::text_at(m, "text"@)->0,
                    },
                )
            } else {
                None
            },
            None => None,
        }
    } else {
        None
    }
}

impl AnthropicTextBlock {
    /// The block of the system prompt that a value stands for.
    pub fn from_json(value: &Json) -> (r: Option<AnthropicTextBlock>)
        ensures
            match r {
                Some(read) => text_block_from(value@) == Some(read@),
                None => text_block_from(value@) is None,
            },
    {
        let none = Names::new();
        let kind = match tag_in(value, &none) {
            Some(kind) => kind,
            None => {
                return None;
            },
        };
        if text::str_eq(kind, "text") {
            let names = Names::new().and("text");
            let fields = match tagged_fields_in(value, &names, 1) {
                Some(fields) => fields,
                None => {
                    return None;
                },
            };
            let m = fields.map();
            let text = match read_text(m, "text") {
                Some(x) => x,
                None => {
                    return None;
                },
            };
            Some(AnthropicTextBlock::Text { text })
        } else {
            None
        }
    }
}

/// The contents of blocks.
pub open spec fn text_blocks_view(items: Seq<AnthropicTextBlock>) -> Seq<TextBlockView> {
    items.map_values(|item: AnthropicTextBlock| item@)
}

/// The blocks that values stand for, where each of them stands for one.
pub open spec fn each_text_block_from(items: Seq<JsonView>) -> Option<Seq<TextBlockView>> {
    if forall|i: int| 0 <= i < items.len() ==> text_block_from(#[trigger] items[i]) is Some {
        Some(items.map_values(|v: JsonView| text_block_from(v)->0))
    } else {
        None
    }
}

fn read_each_text_blocks(items: &Vec<Json>) -> (r: Option<Vec<AnthropicTextBlock>>)
    ensures
        match r {
            Some(read) => each_text_block_from(json::items_view(items@)) == Some(
                text_blocks_view(read@),
            ),
            None => each_text_block_from(json::items_view(items@)) is None,
        },
{
    let ghost views = json::items_view(items@);
    let mut out: Vec<AnthropicTextBlock> = Vec::new();
    let mut i: usize = 0;
    while i < items.len()
        invariant
            i <= items@.len(),
            views == json::items_view(items@),
            out@.len() == i,
            forall|k: int| 0 <= k < i ==> text_block_from(views[k]) == Some((#[trigger] out@[k])@),
        decreases items@.len() - i,
    {
        match AnthropicTextBlock::from_json(&items[i]) {
            Some(x) => out.push(x),
            None => {
                assert(text_block_from(views[i as int]) is None);
                return None;
            },
        }
        i += 1;
    }
    assert forall|k: int|
        0 <= k < views.len() implies text_block_from(#[trigger] views[k]) is Some by {
        assert(text_block_from(views[k]) == Some(out@[k]@));
    }
    assert(text_blocks_view(out@) =~= views.map_values(|v: JsonView| text_block_from(v)->0));
    Some(out)
}

/// A system prompt, by its contents.
pub enum SystemView {
    /// A text.
    Text(Seq<char>),
    /// Blocks.
    Blocks(Seq<TextBlockView>),
}

impl View for AnthropicSystemContent {
    type V = SystemView;

    open spec fn view(&self) -> SystemView {
        match self {
            AnthropicSystemContent::Text(t) => SystemView::Text(t@),
            AnthropicSystemContent::Blocks(blocks) => SystemView::Blocks(
                text_blocks_view(blocks@),
            ),
        }
    }
}

/// The system prompt that a value stands for: a text, blocks, or an empty text for `null`.
pub open spec fn system_from(v: JsonView) -> Option<SystemView> {
    match v {
        JsonView::Text(t) => Some(SystemView::Text(t)),
        JsonView::Null => Some(SystemView::Text(seq![])),
        JsonView::Array(items) => match each_text_block_from(items) {
            Some(blocks) => Some(SystemView::Blocks(blocks)),
            None => None,
        },
        _ => None,
    }
}

impl AnthropicSystemContent {
    /// The system prompt that a value stands for.
    pub fn from_json(value: &Json) -> (r: Option<AnthropicSystemContent>)
        ensures
            match r {
                Some(read) => system_from(value@) == Some(read@),
                None => system_from(value@) is None,
            },
    {
        match value {
            Json::Text(t) => Some(AnthropicSystemContent::Text(t.clone())),
            Json::Null => {
                let empty = String::new();
                assert(empty@ =~= seq![]);
                Some(AnthropicSystemContent::Text(empty))
            },
            Json::Array(items) => {
                proof {
                    json::lemma_array_view(*items);
                }
                match read_each_text_blocks(items) {
                    Some(blocks) => Some(AnthropicSystemContent::Blocks(blocks)),
                    None => None,
                }
            },
            _ => None,
        }
    }
}

/// A system prompt, which may be missing or `null`.
pub open spec fn opt_system_at(m: Seq<(Seq<char>, JsonView)>, key: Seq<char>) -> Option<
    Option<SystemView>,
> {
    match json::member(m, key) {
        None => Some(None),
        Some(JsonView::Null) => Some(None),
        Some(v) => match system_from(v) {
            Some(read) => Some(Some(read)),
            None => None,
        },
    }
}

/// A system prompt, where there is one.
pub open spec fn opt_system_view(x: Option<AnthropicSystemContent>) -> Option<SystemView> {
    match x {
        Some(x) => Some(x@),
        None => None,
    }
}

fn read_opt_system(m: &JsonMap, key: &str) -> (r: Option<Option<AnthropicSystemContent>>)
    ensures
        match r {
            Some(read) => opt_system_at(m@, key@) == Some(opt_system_view(read)),
            None => opt_system_at(m@, key@) is None,
        },
{
    match m.get(key) {
        None => Some(None),
        Some(v) => if v.is_null() {
            Some(None)
        } else {
            match AnthropicSystemContent::from_json(v) {
                Some(read) => Some(Some(read)),
                None => None,
            }
        },
    }
}

// --- Content -----------------------------------------------------------------------------------

/// Where an image comes from, by its contents.
pub struct ImageSourceView {
    /// `type`.
    pub kind: Seq<char>,
    /// `media_type`.
    pub media_type: Option<Seq<char>>,
    /// `data`.
    pub data: Option<Seq<char>>,
    /// `url`.
    pub url: Option<Seq<char>>,
    /// `file_id`.
    pub file_id: Option<Seq<char>>,
}

impl View for AnthropicImageSource {
    type V = ImageSourceView;

    open spec fn view(&self) -> ImageSourceView {
        ImageSourceView {
            kind: self.kind@,
            media_type: text::opt_view(self.media_type),
            data: text::opt_view(self.data),
            url: text::opt_view(self.url),
            file_id: text::opt_view(self.file_id),
        }
    }
}

/// The source of an image that a value stands for.
pub open spec fn image_source_from(v: JsonView) -> Option<ImageSourceView> {
    match fields::fields_of(v, seq!["type"@, "media_type"@, "data"@, "url"@, "file_id"@], 1) {
        Some(m) => if read::text_at(m, "type"@) is Some
            && read::opt_text_at(m, "media_type"@) is Some
            && read::opt_text_at(m, "data"@) is Some
            && read::opt_text_at(m, "url"@) is Some
            && read::opt_text_at(m, "file_id"@) is Some {
            Some(
                ImageSourceView {
                    kind: read::text_at(m, "type"@)->0,
                    media_type: read::opt_text_at(m, "media_type"@)->0,
                    data: read::opt_text_at(m, "data"@)->0,
                    url: read::opt_text_at(m, "url"@)->0,
                    file_id: read::opt_text_at(m, "file_id"@)->0,
                },
            )
        } else {
            None
        },
        None => None,
    }
}

impl AnthropicImageSource {
    /// The source of an image that a value stands for.
    pub fn from_json(value: &Json) -> (r: Option<AnthropicImageSource>)
        ensures
            match r {
                Some(read) => image_source_from(value@) == Some(read@),
                None => image_source_from(value@) is None,
            },
    {
        let names = Names::new()
            .and("type")
            .and("media_type")
            .and("data")
            .and("url")
            .and("file_id");
        assert(names@ =~= seq!["type"@, "media_type"@, "data"@, "url"@, "file_id"@]);
        let fields = match fields_in(value, &names, 1) {
            Some(fields) => fields,
            None => {
                return None;
            },
        };
        let m = fields.map();
        let kind = match read_text(m, "type") {
            Some(x) => x,
            None => {
                return None;
            },
        };
        let media_type = match read_opt_text(m, "media_type") {
            Some(x) => x,
            None => {
                return None;
            },
        };
        let data = match read_opt_text(m, "data") {
            Some(x) => x,
            None => {
                return None;
            },
        };
        let url = match read_opt_text(m, "url") {
            Some(x) => x,
            None => {
                return None;
            },
        };
        let file_id = match read_opt_text(m, "file_id") {
            Some(x) => x,
            None => {
                return None;
            },
        };
        Some(AnthropicImageSource { kind, media_type, data, url, file_id })
    }
}

/// A source that must be there.
pub open spec fn image_source_at(m: Seq<(Seq<char>, JsonView)>, key: Seq<char>) -> Option<
    ImageSourceView,
> {
    match json::member(m, key) {
        Some(v) => image_source_from(v),
        None => None,
    }
}

fn read_image_source(m: &JsonMap, key: &str) -> (r: Option<AnthropicImageSource>)
    ensures
        match r {
            Some(read) => image_source_at(m@, key@) == Some(read@),
            None => image_source_at(m@, key@) is None,
        },
{
    match m.get(key) {
        Some(v) => AnthropicImageSource::from_json(v),
        None => None,
    }
}

/// Content of a message, by what it holds.
pub enum BodyView {
    /// A text.
    Text(Seq<char>),
    /// Blocks.
    Blocks(Seq<BlockView>),
}

/// A block of content, by what it holds.
pub enum BlockView {
    /// `text`.
    Text {
        /// `text`.
        text: Seq<char>,
    },
    /// `image`.
    Image {
        /// `source`.
        source: ImageSourceView,
    },
    /// `tool_use`.
    ToolUse {
        /// `id`.
        id: Seq<char>,
        /// `name`.
        name: Seq<char>,
        /// `input`.
        input: JsonView,
    },
    /// `thinking`.
    Thinking {
        /// `thinking`.
        thinking: Seq<char>,
    },
    /// `tool_result`.
    ToolResult {
        /// `tool_use_id`.
        tool_use_id: Seq<char>,
        /// `content`.
        content: Option<BodyView>,
        /// `is_error`.
        is_error: Option<bool>,
    },
}

/// What content holds.
pub open spec fn body_view(content: AnthropicContent) -> BodyView
    decreases content,
{
    match content {
        AnthropicContent::Text(t) => BodyView::Text(t@),
        AnthropicContent::Blocks(blocks) => BodyView::Blocks(
            Seq::new(
                blocks@.len(),
                |i: int|
                    if 0 <= i < blocks@.len() {
                        block_view(blocks@[i])
                    } else {
                        BlockView::Text { text: seq![] }
                    },
            ),
        ),
    }
}

/// What a block holds.
pub open spec fn block_view(block: AnthropicContentBlock) -> BlockView
    decreases block,
{
    match block {
        AnthropicContentBlock::Text { text } => BlockView::Text { text: text@ },
        AnthropicContentBlock::Image { source } => BlockView::Image { source: source@ },
        AnthropicContentBlock::ToolUse { id, name, input } => BlockView::ToolUse {
            id: id@,
            name: name@,
            input: input@,
        },
        AnthropicContentBlock::Thinking { thinking } => BlockView::Thinking {
            thinking: thinking@,
        },
        AnthropicContentBlock::ToolResult { tool_use_id, content, is_error } => {
            BlockView::ToolResult {
                tool_use_id: tool_use_id@,
                content: match content {
                    Some(content) => Some(body_view(content)),
                    None => None,
                },
                is_error,
            }
        },
    }
}

/// What blocks hold.
pub open spec fn blocks_view(blocks: Seq<AnthropicContentBlock>) -> Seq<BlockView> {
    Seq::new(blocks.len(), |i: int| block_view(blocks[i]))
}

/// The content that a value stands for: a text, blocks, or an empty text for `null`.
pub open spec fn body_from(v: JsonView) -> Option<BodyView>
    decreases v, 1nat,
{
    match v {
        JsonView::Text(t) => Some(BodyView::Text(t)),
        JsonView::Null => Some(BodyView::Text(seq![])),
        JsonView::Array(items) => match blocks_from(items, items.len()) {
            Some(blocks) => Some(BodyView::Blocks(blocks)),
            None => None,
        },
        _ => None,
    }
}

/// The content that a value stands for, none for `null`.
pub open spec fn opt_body_from(v: JsonView) -> Option<Option<BodyView>>
    decreases v, 2nat,
{
    if v is Null {
        Some(None)
    } else {
        match body_from(v) {
            Some(body) => Some(Some(body)),
            None => None,
        }
    }
}

/// The blocks that the first `n` values stand for.
pub open spec fn blocks_from(items: Seq<JsonView>, n: nat) -> Option<Seq<BlockView>>
    decreases items, n,
{
    if n == 0 || n > items.len() {
        Some(Seq::empty())
    } else {
        match blocks_from(items, (n - 1) as nat) {
            Some(before) => match block_from(items[n - 1]) {
                Some(block) => Some(before.push(block)),
                None => None,
            },
            None => None,
        }
    }
}

/// What the result of a tool holds, which may be missing or `null`.
pub open spec fn result_from(v: JsonView) -> Option<Option<BodyView>>
    decreases v, 0nat,
{
    match v {
        JsonView::Object(m) => {
            let k = json::key_index(m, "content"@, 0);
            if 0 <= k < m.len() {
                opt_body_from(m[k].1)
            } else {
                Some(None)
            }
        },
        JsonView::Array(items) => if items.len() > 2 {
            opt_body_from(items[2])
        } else {
            Some(None)
        },
        _ => None,
    }
}

/// The block that a value stands for.
pub open spec fn block_from(v: JsonView) -> Option<BlockView>
    decreases v, 1nat,
{
    let kind = fields::tag_of(v, seq![]);
    if kind == Some("text"@) {
        match fields::tagged_fields_of(v, seq!["text"@], 1) {
            Some(m) => match read::text_at(m, "text"@) {
                Some(text) => Some(BlockView::Text { text }),
                None => None,
            },
            None => None,
        }
    } else if kind == Some("image"@) {
        match fields::tagged_fields_of(v, seq!["source"@], 1) {
            Some(m) => match image_source_at(m, "source"@) {
                Some(source) => Some(BlockView::Image { source }),
                None => None,
            },
            None => None,
        }
    } else if kind == Some("tool_use"@) {
        match fields::tagged_fields_of(v, seq!["id"@, "name"@, "input"@], 3) {
            Some(m) => if read::text_at(m, "id"@) is Some && read::text_at(m, "name"@) is Some
                && read::value_at(m, "input"@) is Some {
                Some(
                    BlockView::ToolUse {
                        id: read::text_at(m, "id"@)->0,
                        name: read::text_at(m, "name"@)->0,
                        input: read::value_at(m, "input"@)->0,
                    },
                )
            } else {
                None
            },
            None => None,
        }
    } else if kind == Some("thinking"@) {
        match fields::tagged_fields_of(v, seq!["thinking"@], 1) {
            Some(m) => match read::text_at(m, "thinking"@) {
                Some(thinking) => Some(BlockView::Thinking { thinking }),
                None => None,
            },
            None => None,
        }
    } else if kind == Some("tool_result"@) {
        match fields::tagged_fields_of(v, seq!["tool_use_id"@, "content"@, "is_error"@], 1) {
            Some(m) => if read::text_at(m, "tool_use_id"@) is Some && result_from(v) is Some
                && read_request::opt_flag_at(m, "is_error"@) is Some {
                Some(
                    BlockView::ToolResult {
                        tool_use_id: read::text_at(m, "tool_use_id"@)->0,
                        content: result_from(v)->0,
                        is_error: read_request::opt_flag_at(m, "is_error"@)->0,
                    },
                )
            } else {
                None
            },
            None => None,
        }
    } else {
        None
    }
}

/// What was read of content that may be missing.
pub open spec fn opt_body_view(content: Option<AnthropicContent>) -> Option<BodyView> {
    match content {
        Some(content) => Some(body_view(content)),
        None => None,
    }
}

fn read_blocks(items: &Vec<Json>) -> (r: Option<Vec<AnthropicContentBlock>>)
    ensures
        match r {
            Some(read) => blocks_from(json::items_view(items@), items@.len()) == Some(
                blocks_view(read@),
            ),
            None => blocks_from(json::items_view(items@), items@.len()) is None,
        },
    decreases items, 0nat,
{
    let ghost views = json::items_view(items@);
    let mut out: Vec<AnthropicContentBlock> = Vec::new();
    let mut i: usize = 0;
    assert(blocks_view(out@) =~= Seq::<BlockView>::empty());
    while i < items.len()
        invariant
            i <= items@.len(),
            views == json::items_view(items@),
            blocks_from(views, i as nat) == Some(blocks_view(out@)),
        decreases items@.len() - i,
    {
        match AnthropicContentBlock::from_json(&items[i]) {
            Some(block) => {
                let ghost before = out@;
                out.push(block);
                assert(blocks_view(out@) =~= blocks_view(before).push(block_view(block)));
            },
            None => {
                proof {
                    lemma_blocks_fail(views, (i + 1) as nat, views.len());
                }
                return None;
            },
        }
        i += 1;
    }
    Some(out)
}

proof fn lemma_blocks_fail(items: Seq<JsonView>, n: nat, all: nat)
    requires
        n <= all <= items.len(),
        blocks_from(items, n) is None,
    ensures
        blocks_from(items, all) is None,
    decreases all - n,
{
    if n < all {
        lemma_blocks_fail(items, n, (all - 1) as nat);
    }
}

impl AnthropicContent {
    /// The content that a value stands for.
    pub fn from_json(value: &Json) -> (r: Option<AnthropicContent>)
        ensures
            match r {
                Some(read) => body_from(value@) == Some(body_view(read)),
                None => body_from(value@) is None,
            },
        decreases value, 1nat,
    {
        match value {
            Json::Text(t) => Some(AnthropicContent::Text(t.clone())),
            Json::Null => {
                let empty = String::new();
                assert(empty@ =~= seq![]);
                Some(AnthropicContent::Text(empty))
            },
            Json::Array(items) => {
                proof {
                    json::lemma_array_view(*items);
                }
                match read_blocks(items) {
                    Some(blocks) => {
                        let r = AnthropicContent::Blocks(blocks);
                        assert(body_view(r)->Blocks_0 =~= blocks_view(blocks@));
                        Some(r)
                    },
                    None => None,
                }
            },
            _ => None,
        }
    }
}

fn read_opt_body(value: &Json) -> (r: Option<Option<AnthropicContent>>)
    ensures
        match r {
            Some(read) => opt_body_from(value@) == Some(opt_body_view(read)),
            None => opt_body_from(value@) is None,
        },
    decreases value, 2nat,
{
    if value.is_null() {
        return Some(None);
    }
    match AnthropicContent::from_json(value) {
        Some(content) => Some(Some(content)),
        None => None,
    }
}

fn read_result(value: &Json) -> (r: Option<Option<AnthropicContent>>)
    ensures
        match r {
            Some(read) => result_from(value@) == Some(opt_body_view(read)),
            None => result_from(value@) is None,
        },
    decreases value, 0nat,
{
    match value {
        Json::Object(m) => {
            proof {
                json::lemma_object_view(*m);
                json::lemma_key_index(m@, "content"@, 0);
            }
            let k: usize = m.index_of("content");
            if k < m.entries.len() {
                read_opt_body(&m.entries[k].1)
            } else {
                Some(None)
            }
        },
        Json::Array(items) => {
            proof {
                json::lemma_array_view(*items);
            }
            if items.len() > 2 {
                read_opt_body(&items[2])
            } else {
                Some(None)
            }
        },
        _ => None,
    }
}

impl AnthropicContentBlock {
    /// The block that a value stands for.
    pub fn from_json(value: &Json) -> (r: Option<AnthropicContentBlock>)
        ensures
            match r {
                Some(read) => block_from(value@) == Some(block_view(read)),
                None => block_from(value@) is None,
            },
        decreases value, 1nat,
    {
        let none = Names::new();
        let kind = match tag_in(value, &none) {
            Some(kind) => kind,
            None => {
                return None;
            },
        };
        if text::str_eq(kind, "text") {
            let names = Names::new().and("text");
            let fields = match tagged_fields_in(value, &names, 1) {
                Some(fields) => fields,
                None => {
                    return None;
                },
            };
            let m = fields.map();
            let text = match read_text(m, "text") {
                Some(x) => x,
                None => {
                    return None;
                },
            };
            Some(AnthropicContentBlock::Text { text })
        } else if text::str_eq(kind, "image") {
            let names = Names::new().and("source");
            let fields = match tagged_fields_in(value, &names, 1) {
                Some(fields) => fields,
                None => {
                    return None;
                },
            };
            let m = fields.map();
            let source = match read_image_source(m, "source") {
                Some(x) => x,
                None => {
                    return None;
                },
            };
            Some(AnthropicContentBlock::Image { source })
        } else if text::str_eq(kind, "tool_use") {
            let names = Names::new().and("id").and("name").and("input");
            assert(names@ =~= seq!["id"@, "name"@, "input"@]);
            let fields = match tagged_fields_in(value, &names, 3) {
                Some(fields) => fields,
                None => {
                    return None;
                },
            };
            let m = fields.map();
            let id = match read_text(m, "id") {
                Some(x) => x,
                None => {
                    return None;
                },
            };
            let name = match read_text(m, "name") {
                Some(x) => x,
                None => {
                    return None;
                },
            };
            let input = match read_value(m, "input") {
                Some(x) => x,
                None => {
                    return None;
                },
            };
            Some(AnthropicContentBlock::ToolUse { id, name, input })
        } else if text::str_eq(kind, "thinking") {
            let names = Names::new().and("thinking");
            let fields = match tagged_fields_in(value, &names, 1) {
                Some(fields) => fields,
                None => {
                    return None;
                },
            };
            let m = fields.map();
            let thinking = match read_text(m, "thinking") {
                Some(x) => x,
                None => {
                    return None;
                },
            };
            Some(AnthropicContentBlock::Thinking { thinking })
        } else if text::str_eq(kind, "tool_result") {
            let names = Names::new().and("tool_use_id").and("content").and("is_error");
            assert(names@ =~= seq!["tool_use_id"@, "content"@, "is_error"@]);
            let fields = match tagged_fields_in(value, &names, 1) {
                Some(fields) => fields,
                None => {
                    return None;
                },
            };
            let m = fields.map();
            let tool_use_id = match read_text(m, "tool_use_id") {
                Some(x) => x,
                None => {
                    return None;
                },
            };
            let content = match read_result(value) {
                Some(x) => x,
                None => {
                    return None;
                },
            };
            let is_error = match read_opt_flag(m, "is_error") {
                Some(x) => x,
                None => {
                    return None;
                },
            };
            Some(AnthropicContentBlock::ToolResult { tool_use_id, content, is_error })
        } else {
            None
        }
    }
}

impl View for AnthropicContent {
    type V = BodyView;

    open spec fn view(&self) -> BodyView {
        body_view(*self)
    }
}

/// Content that must be there.
pub open spec fn body_at(m: Seq<(Seq<char>, JsonView)>, key: Seq<char>) -> Option<BodyView> {
    match json::member(m, key) {
        Some(v) => body_from(v),
        None => None,
    }
}

fn read_body(m: &JsonMap, key: &str) -> (r: Option<AnthropicContent>)
    ensures
        match r {
            Some(read) => body_at(m@, key@) == Some(read@),
            None => body_at(m@, key@) is None,
        },
{
    match m.get(key) {
        Some(v) => AnthropicContent::from_json(v),
        None => None,
    }
}

// --- The request -------------------------------------------------------------------------------

/// A message, by its contents.
pub struct TurnView {
    /// `role`.
    pub role: Seq<char>,
    /// `content`.
    pub content: BodyView,
}

impl View for AnthropicMessage {
    type V = TurnView;

    open spec fn view(&self) -> TurnView {
        TurnView {
            role: self.role@,
            content: self.content@,
        }
    }
}

/// The message that a value stands for.
pub open spec fn turn_from(v: JsonView) -> Option<TurnView> {
    match fields::fields_of(v, seq!["role"@, "content"@], 2) {
        Some(m) => if read::text_at(m, "role"@) is Some
            && body_at(m, "content"@) is Some {
            Some(
                TurnView {
                    role: read::text_at(m, "role"@)->0,
                    content: body_at(m, "content"@)->0,
                },
            )
        } else {
            None
        },
        None => None,
    }
}

impl AnthropicMessage {
    /// The message that a value stands for.
    pub fn from_json(value: &Json) -> (r: Option<AnthropicMessage>)
        ensures
            match r {
                Some(read) => turn_from(value@) == Some(read@),
                None => turn_from(value@) is None,
            },
    {
        let names = Names::new().and("role").and("content");
        assert(names@ =~= seq!["role"@, "content"@]);
        let fields = match fields_in(value, &names, 2) {
            Some(fields) => fields,
            None => {
                return None;
            },
        };
        let m = fields.map();
        let role = match read_text(m, "role") {
            Some(x) => x,
            None => {
                return None;
            },
        };
        let content = match read_body(m, "content") {
            Some(x) => x,
            None => {
                return None;
            },
        };
        Some(AnthropicMessage { role, content })
    }
}

/// The contents of messages.
pub open spec fn turns_view(items: Seq<AnthropicMessage>) -> Seq<TurnView> {
    items.map_values(|item: AnthropicMessage| item@)
}

/// The messages that values stand for, where each of them stands for one.
pub open spec fn each_turn_from(items: Seq<JsonView>) -> Option<Seq<TurnView>> {
    if forall|i: int| 0 <= i < items.len() ==> turn_from(#[trigger] items[i]) is Some {
        Some(items.map_values(|v: JsonView| turn_from(v)->0))
    } else {
        None
    }
}

fn read_each_turns(items: &Vec<Json>) -> (r: Option<Vec<AnthropicMessage>>)
    ensures
        match r {
            Some(read) => each_turn_from(json::items_view(items@)) == Some(turns_view(read@)),
            None => each_turn_from(json::items_view(items@)) is None,
        },
{
    let ghost views = json::items_view(items@);
    let mut out: Vec<AnthropicMessage> = Vec::new();
    let mut i: usize = 0;
    while i < items.len()
        invariant
            i <= items@.len(),
            views == json::items_view(items@),
            out@.len() == i,
            forall|k: int| 0 <= k < i ==> turn_from(views[k]) == Some((#[trigger] out@[k])@),
        decreases items@.len() - i,
    {
        match AnthropicMessage::from_json(&items[i]) {
            Some(x) => out.push(x),
            None => {
                assert(turn_from(views[i as int]) is None);
                return None;
            },
        }
        i += 1;
    }
    assert forall|k: int|
        0 <= k < views.len() implies turn_from(#[trigger] views[k]) is Some by {
        assert(turn_from(views[k]) == Some(out@[k]@));
    }
    assert(turns_view(out@) =~= views.map_values(|v: JsonView| turn_from(v)->0));
    Some(out)
}

/// Messages that must be there.
pub open spec fn turns_at(m: Seq<(Seq<char>, JsonView)>, key: Seq<char>) -> Option<Seq<TurnView>> {
    match json::member(m, key) {
        Some(JsonView::Array(items)) => each_turn_from(items),
        _ => None,
    }
}

fn read_turns(m: &JsonMap, key: &str) -> (r: Option<Vec<AnthropicMessage>>)
    ensures
        match r {
            Some(read) => turns_at(m@, key@) == Some(turns_view(read@)),
            None => turns_at(m@, key@) is None,
        },
{
    match m.get(key) {
        Some(value) => match value.as_array() {
            Some(items) => read_each_turns(items),
            None => None,
        },
        None => None,
    }
}

/// The contents of tools.
pub open spec fn tools_view(items: Seq<AnthropicTool>) -> Seq<read_chat::AnthropicToolView> {
    items.map_values(|item: AnthropicTool| item@)
}

/// The tools that values stand for, where each of them stands for one.
pub open spec fn each_anthropic_tool_from(items: Seq<JsonView>) -> Option<
    Seq<read_chat::AnthropicToolView>,
> {
    if forall|i: int|
        0 <= i < items.len() ==> read_chat::anthropic_tool_from(#[trigger] items[i]) is Some {
        Some(items.map_values(|v: JsonView| read_chat::anthropic_tool_from(v)->0))
    } else {
        None
    }
}

fn read_each_tools(items: &Vec<Json>) -> (r: Option<Vec<AnthropicTool>>)
    ensures
        match r {
            Some(read) => each_anthropic_tool_from(json::items_view(items@)) == Some(tools_view(read@)),
            None => each_anthropic_tool_from(json::items_view(items@)) is None,
        },
{
    let ghost views = json::items_view(items@);
    let mut out: Vec<AnthropicTool> = Vec::new();
    let mut i: usize = 0;
    while i < items.len()
        invariant
            i <= items@.len(),
            views == json::items_view(items@),
            out@.len() == i,
            forall|k: int|
                0 <= k < i ==> read_chat::anthropic_tool_from(views[k]) == Some(
                    (#[trigger] out@[k])@,
                ),
        decreases items@.len() - i,
    {
        match AnthropicTool::from_json(&items[i]) {
            Some(x) => out.push(x),
            None => {
                assert(read_chat::anthropic_tool_from(views[i as int]) is None);
                return None;
            },
        }
        i += 1;
    }
    assert forall|k: int|
        0 <= k < views.len() implies read_chat::anthropic_tool_from(#[trigger] views[k]) is Some by {
        assert(read_chat::anthropic_tool_from(views[k]) == Some(out@[k]@));
    }
    assert(tools_view(out@) =~= views.map_values(|v: JsonView| read_chat::anthropic_tool_from(v)->0));
    Some(out)
}

/// Tools, which may be missing or `null`.
pub open spec fn opt_tools_at(m: Seq<(Seq<char>, JsonView)>, key: Seq<char>) -> Option<
    Option<Seq<read_chat::AnthropicToolView>>,
> {
    match json::member(m, key) {
        None => Some(None),
        Some(JsonView::Null) => Some(None),
        Some(JsonView::Array(items)) => match each_anthropic_tool_from(items) {
            Some(read) => Some(Some(read)),
            None => None,
        },
        Some(_) => None,
    }
}

/// Tools, where there are any.
pub open spec fn opt_tools_view(x: Option<Vec<AnthropicTool>>) -> Option<
    Seq<read_chat::AnthropicToolView>,
> {
    match x {
        Some(x) => Some(tools_view(x@)),
        None => None,
    }
}

fn read_opt_tools(m: &JsonMap, key: &str) -> (r: Option<Option<Vec<AnthropicTool>>>)
    ensures
        match r {
            Some(read) => opt_tools_at(m@, key@) == Some(opt_tools_view(read)),
            None => opt_tools_at(m@, key@) is None,
        },
{
    match m.get(key) {
        None => Some(None),
        Some(Json::Null) => Some(None),
        Some(Json::Array(items)) => {
            proof {
                json::lemma_array_view(*items);
            }
            match read_each_tools(items) {
                Some(read) => Some(Some(read)),
                None => None,
            }
        },
        Some(_) => None,
    }
}

/// A tool choice, by its contents.
pub enum ToolChoiceView {
    /// `auto`.
    Auto,
    /// `any`.
    Any,
    /// `none`.
    NoTool,
    /// `tool`.
    Tool {
        /// `name`.
        name: Seq<char>,
    },
}

impl View for AnthropicToolChoice {
    type V = ToolChoiceView;

    open spec fn view(&self) -> ToolChoiceView {
        match self {
            AnthropicToolChoice::Auto => ToolChoiceView::Auto,
            AnthropicToolChoice::Any => ToolChoiceView::Any,
            AnthropicToolChoice::NoTool => ToolChoiceView::NoTool,
            AnthropicToolChoice::Tool { name } => ToolChoiceView::Tool {
                name: name@,
            },
        }
    }
}

/// The tool choice that a value stands for.
pub open spec fn tool_choice_from(v: JsonView) -> Option<ToolChoiceView> {
    let kind = fields::tag_of(v, seq![]);
    if kind == Some("auto"@) {
        match fields::tagged_fields_of(v, seq![], 0) {
            Some(_) => Some(ToolChoiceView::Auto),
            None => None,
        }
    } else if kind == Some("any"@) {
        match fields::tagged_fields_of(v, seq![], 0) {
            Some(_) => Some(ToolChoiceView::Any),
            None => None,
        }
    } else if kind == Some("none"@) {
        match fields::tagged_fields_of(v, seq![], 0) {
            Some(_) => Some(ToolChoiceView::NoTool),
            None => None,
        }
    } else if kind == Some("tool"@) {
        match fields::tagged_fields_of(v, seq!["name"@], 1) {
            Some(m) => if read::text_at(m, "name"@) is Some {
                Some(
                    ToolChoiceView::Tool {
                        name: read::text_at(m, "name"@)->0,
                    },
                )
            } else {
                None
            },
            None => None,
        }
    } else {
        None
    }
}

impl AnthropicToolChoice {
    /// The tool choice that a value stands for.
    pub fn from_json(value: &Json) -> (r: Option<AnthropicToolChoice>)
        ensures
            match r {
                Some(read) => tool_choice_from(value@) == Some(read@),
                None => tool_choice_from(value@) is None,
            },
    {
        let none = Names::new();
        let kind = match tag_in(value, &none) {
            Some(kind) => kind,
            None => {
                return None;
            },
        };
        if text::str_eq(kind, "auto") {
            match tagged_fields_in(value, &Names::new(), 0) {
                Some(_) => Some(AnthropicToolChoice::Auto),
                None => None,
            }
        } else if text::str_eq(kind, "any") {
            match tagged_fields_in(value, &Names::new(), 0) {
                Some(_) => Some(AnthropicToolChoice::Any),
                None => None,
            }
        } else if text::str_eq(kind, "none") {
            match tagged_fields_in(value, &Names::new(), 0) {
                Some(_) => Some(AnthropicToolChoice::NoTool),
                None => None,
            }
        } else if text::str_eq(kind, "tool") {
            let names = Names::new().and("name");
            let fields = match tagged_fields_in(value, &names, 1) {
                Some(fields) => fields,
                None => {
                    return None;
                },
            };
            let m = fields.map();
            let name = match read_text(m, "name") {
                Some(x) => x,
                None => {
                    return None;
                },
            };
            Some(AnthropicToolChoice::Tool { name })
        } else {
            None
        }
    }
}

/// A tool choice, which may be missing or `null`.
pub open spec fn opt_tool_choice_at(m: Seq<(Seq<char>, JsonView)>, key: Seq<char>) -> Option<
    Option<ToolChoiceView>,
> {
    match json::member(m, key) {
        None => Some(None),
        Some(JsonView::Null) => Some(None),
        Some(v) => match tool_choice_from(v) {
            Some(read) => Some(Some(read)),
            None => None,
        },
    }
}

/// A tool choice, where there is one.
pub open spec fn opt_tool_choice_view(x: Option<AnthropicToolChoice>) -> Option<ToolChoiceView> {
    match x {
        Some(x) => Some(x@),
        None => None,
    }
}

fn read_opt_tool_choice(m: &JsonMap, key: &str) -> (r: Option<Option<AnthropicToolChoice>>)
    ensures
        match r {
            Some(read) => opt_tool_choice_at(m@, key@) == Some(opt_tool_choice_view(read)),
            None => opt_tool_choice_at(m@, key@) is None,
        },
{
    match m.get(key) {
        None => Some(None),
        Some(v) => if v.is_null() {
            Some(None)
        } else {
            match AnthropicToolChoice::from_json(v) {
                Some(read) => Some(Some(read)),
                None => None,
            }
        },
    }
}

/// How to reason, by its contents.
pub enum ReasoningModeView {
    /// `enabled`.
    Enabled {
        /// `budget_tokens`.
        budget_tokens: Option<u64>,
    },
    /// `adaptive`.
    Adaptive {
        /// `budget_tokens`.
        budget_tokens: Option<u64>,
    },
    /// `disabled`.
    Disabled,
}

impl View for AnthropicThinking {
    type V = ReasoningModeView;

    open spec fn view(&self) -> ReasoningModeView {
        match self {
            AnthropicThinking::Enabled { budget_tokens } => ReasoningModeView::Enabled {
                budget_tokens: *budget_tokens,
            },
            AnthropicThinking::Adaptive { budget_tokens } => ReasoningModeView::Adaptive {
                budget_tokens: *budget_tokens,
            },
            AnthropicThinking::Disabled => ReasoningModeView::Disabled,
        }
    }
}

/// The way to reason that a value stands for.
pub open spec fn thinking_mode_from(v: JsonView) -> Option<ReasoningModeView> {
    let kind = fields::tag_of(v, seq![]);
    if kind == Some("enabled"@) {
        match fields::tagged_fields_of(v, seq!["budget_tokens"@], 1) {
            Some(m) => if read::opt_u64_at(m, "budget_tokens"@) is Some {
                Some(
                    ReasoningModeView::Enabled {
                        budget_tokens: read::opt_u64_at(m, "budget_tokens"@)->0,
                    },
                )
            } else {
                None
            },
            None => None,
        }
    } else if kind == Some("adaptive"@) {
        match fields::tagged_fields_of(v, seq!["budget_tokens"@], 1) {
            Some(m) => if read::opt_u64_at(m, "budget_tokens"@) is Some {
                Some(
                    ReasoningModeView::Adaptive {
                        budget_tokens: read::opt_u64_at(m, "budget_tokens"@)->0,
                    },
                )
            } else {
                None
            },
            None => None,
        }
    } else if kind == Some("disabled"@) {
        match fields::tagged_fields_of(v, seq![], 0) {
            Some(_) => Some(ReasoningModeView::Disabled),
            None => None,
        }
    } else {
        None
    }
}

impl AnthropicThinking {
    /// The way to reason that a value stands for.
    pub fn from_json(value: &Json) -> (r: Option<AnthropicThinking>)
        ensures
            match r {
                Some(read) => thinking_mode_from(value@) == Some(read@),
                None => thinking_mode_from(value@) is None,
            },
    {
        let none = Names::new();
        let kind = match tag_in(value, &none) {
            Some(kind) => kind,
            None => {
                return None;
            },
        };
        if text::str_eq(kind, "enabled") {
            let names = Names::new().and("budget_tokens");
            let fields = match tagged_fields_in(value, &names, 1) {
                Some(fields) => fields,
                None => {
                    return None;
                },
            };
            let m = fields.map();
            let budget_tokens = match read_opt_u64(m, "budget_tokens") {
                Some(x) => x,
                None => {
                    return None;
                },
            };
            Some(AnthropicThinking::Enabled { budget_tokens })
        } else if text::str_eq(kind, "adaptive") {
            let names = Names::new().and("budget_tokens");
            let fields = match tagged_fields_in(value, &names, 1) {
                Some(fields) => fields,
                None => {
                    return None;
                },
            };
            let m = fields.map();
            let budget_tokens = match read_opt_u64(m, "budget_tokens") {
                Some(x) => x,
                None => {
                    return None;
                },
            };
            Some(AnthropicThinking::Adaptive { budget_tokens })
        } else if text::str_eq(kind, "disabled") {
            match tagged_fields_in(value, &Names::new(), 0) {
                Some(_) => Some(AnthropicThinking::Disabled),
                None => None,
            }
        } else {
            None
        }
    }
}

/// A way to reason, which may be missing or `null`.
pub open spec fn opt_thinking_mode_at(m: Seq<(Seq<char>, JsonView)>, key: Seq<char>) -> Option<
    Option<ReasoningModeView>,
> {
    match json::member(m, key) {
        None => Some(None),
        Some(JsonView::Null) => Some(None),
        Some(v) => match thinking_mode_from(v) {
            Some(read) => Some(Some(read)),
            None => None,
        },
    }
}

/// A way to reason, where there is one.
pub open spec fn opt_thinking_mode_view(x: Option<AnthropicThinking>) -> Option<ReasoningModeView> {
    match x {
        Some(x) => Some(x@),
        None => None,
    }
}

fn read_opt_thinking_mode(m: &JsonMap, key: &str) -> (r: Option<Option<AnthropicThinking>>)
    ensures
        match r {
            Some(read) => opt_thinking_mode_at(m@, key@) == Some(opt_thinking_mode_view(read)),
            None => opt_thinking_mode_at(m@, key@) is None,
        },
{
    match m.get(key) {
        None => Some(None),
        Some(v) => if v.is_null() {
            Some(None)
        } else {
            match AnthropicThinking::from_json(v) {
                Some(read) => Some(Some(read)),
                None => None,
            }
        },
    }
}

/// A number of 32 bits that may be missing or `null`.
pub open spec fn opt_u32_at(m: Seq<(Seq<char>, JsonView)>, key: Seq<char>) -> Option<Option<u32>> {
    match json::member(m, key) {
        None => Some(None),
        Some(JsonView::Null) => Some(None),
        Some(JsonView::Number(NumberView::Unsigned(n))) => if n <= u32::MAX {
            Some(Some(n as u32))
        } else {
            None
        },
        Some(_) => None,
    }
}

fn read_opt_u32(m: &JsonMap, key: &str) -> (r: Option<Option<u32>>)
    ensures
        r == opt_u32_at(m@, key@),
{
    match m.get(key) {
        None => Some(None),
        Some(Json::Null) => Some(None),
        Some(Json::Number(JsonNumber::Unsigned(n))) => if *n <= 4294967295 {
            Some(Some(*n as u32))
        } else {
            None
        },
        Some(_) => None,
    }
}

/// A request, by its contents.
pub struct MessagesRequestView {
    /// `model`.
    pub model: Seq<char>,
    /// `max_tokens`.
    pub max_tokens: Option<u64>,
    /// `system`.
    pub system: Option<SystemView>,
    /// `messages`.
    pub messages: Seq<TurnView>,
    /// `tools`.
    pub tools: Option<Seq<read_chat::AnthropicToolView>>,
    /// `tool_choice`.
    pub tool_choice: Option<ToolChoiceView>,
    /// `stream`.
    pub stream: bool,
    /// `temperature`.
    pub temperature: Option<NumberView>,
    /// `top_p`.
    pub top_p: Option<NumberView>,
    /// `top_k`.
    pub top_k: Option<u32>,
    /// `stop_sequences`.
    pub stop_sequences: Option<Seq<Seq<char>>>,
    /// `metadata`.
    pub metadata: Option<JsonView>,
    /// `thinking`.
    pub thinking: Option<ReasoningModeView>,
    /// `output_config`.
    pub output_config: Option<JsonView>,
}

impl View for AnthropicRequest {
    type V = MessagesRequestView;

    open spec fn view(&self) -> MessagesRequestView {
        MessagesRequestView {
            model: self.model@,
            max_tokens: self.max_tokens,
            system: opt_system_view(self.system),
            messages: turns_view(self.messages@),
            tools: opt_tools_view(self.tools),
            tool_choice: opt_tool_choice_view(self.tool_choice),
            stream: self.stream,
            temperature: read_request::opt_number_view(self.temperature),
            top_p: read_request::opt_number_view(self.top_p),
            top_k: self.top_k,
            stop_sequences: text::opt_strings_view(self.stop_sequences),
            metadata: json::opt_json_view(self.metadata),
            thinking: opt_thinking_mode_view(self.thinking),
            output_config: json::opt_json_view(self.output_config),
        }
    }
}

/// The request that a value stands for.
pub open spec fn messages_request_from(v: JsonView) -> Option<MessagesRequestView> {
    match fields::fields_of(
        v,
        seq![
            "model"@,
            "max_tokens"@,
            "system"@,
            "messages"@,
            "tools"@,
            "tool_choice"@,
            "stream"@,
            "temperature"@,
            "top_p"@,
            "top_k"@,
            "stop_sequences"@,
            "metadata"@,
            "thinking"@,
            "output_config"@,
        ],
        4,
    ) {
        Some(m) => if read::text_at(m, "model"@) is Some
            && read::opt_u64_at(m, "max_tokens"@) is Some
            && opt_system_at(m, "system"@) is Some
            && turns_at(m, "messages"@) is Some
            && opt_tools_at(m, "tools"@) is Some
            && opt_tool_choice_at(m, "tool_choice"@) is Some
            && read_request::flag_or_false_at(m, "stream"@) is Some
            && read_request::opt_number_at(m, "temperature"@) is Some
            && read_request::opt_number_at(m, "top_p"@) is Some
            && opt_u32_at(m, "top_k"@) is Some
            && read::opt_texts_at(m, "stop_sequences"@) is Some
            && read_request::opt_value_at(m, "metadata"@) is Some
            && opt_thinking_mode_at(m, "thinking"@) is Some
            && read_request::opt_value_at(m, "output_config"@) is Some {
            Some(
                MessagesRequestView {
                    model: read::text_at(m, "model"@)->0,
                    max_tokens: read::opt_u64_at(m, "max_tokens"@)->0,
                    system: opt_system_at(m, "system"@)->0,
                    messages: turns_at(m, "messages"@)->0,
                    tools: opt_tools_at(m, "tools"@)->0,
                    tool_choice: opt_tool_choice_at(m, "tool_choice"@)->0,
                    stream: read_request::flag_or_false_at(m, "stream"@)->0,
                    temperature: read_request::opt_number_at(m, "temperature"@)->0,
                    top_p: read_request::opt_number_at(m, "top_p"@)->0,
                    top_k: opt_u32_at(m, "top_k"@)->0,
                    stop_sequences: read::opt_texts_at(m, "stop_sequences"@)->0,
                    metadata: read_request::opt_value_at(m, "metadata"@)->0,
                    thinking: opt_thinking_mode_at(m, "thinking"@)->0,
                    output_config: read_request::opt_value_at(m, "output_config"@)->0,
                },
            )
        } else {
            None
        },
        None => None,
    }
}

impl AnthropicRequest {
    /// The request that a value stands for.
    pub fn from_json(value: &Json) -> (r: Option<AnthropicRequest>)
        ensures
            match r {
                Some(read) => messages_request_from(value@) == Some(read@),
                None => messages_request_from(value@) is None,
            },
    {
        let names = Names::new()
            .and("model")
            .and("max_tokens")
            .and("system")
            .and("messages")
            .and("tools")
            .and("tool_choice")
            .and("stream")
            .and("temperature")
            .and("top_p")
            .and("top_k")
            .and("stop_sequences")
            .and("metadata")
            .and("thinking")
            .and("output_config");
        assert(names@ =~= seq![
            "model"@,
            "max_tokens"@,
            "system"@,
            "messages"@,
            "tools"@,
            "tool_choice"@,
            "stream"@,
            "temperature"@,
            "top_p"@,
            "top_k"@,
            "stop_sequences"@,
            "metadata"@,
            "thinking"@,
            "output_config"@,
        ]);
        let fields = match fields_in(value, &names, 4) {
            Some(fields) => fields,
            None => {
                return None;
            },
        };
        let m = fields.map();
        let model = match read_text(m, "model") {
            Some(x) => x,
            None => {
                return None;
            },
        };
        let max_tokens = match read_opt_u64(m, "max_tokens") {
            Some(x) => x,
            None => {
                return None;
            },
        };
        let system = match read_opt_system(m, "system") {
            Some(x) => x,
            None => {
                return None;
            },
        };
        let messages = match read_turns(m, "messages") {
            Some(x) => x,
            None => {
                return None;
            },
        };
        let tools = match read_opt_tools(m, "tools") {
            Some(x) => x,
            None => {
                return None;
            },
        };
        let tool_choice = match read_opt_tool_choice(m, "tool_choice") {
            Some(x) => x,
            None => {
                return None;
            },
        };
        let stream = match read_flag_or_false(m, "stream") {
            Some(x) => x,
            None => {
                return None;
            },
        };
        let temperature = match read_opt_number(m, "temperature") {
            Some(x) => x,
            None => {
                return None;
            },
        };
        let top_p = match read_opt_number(m, "top_p") {
            Some(x) => x,
            None => {
                return None;
            },
        };
        let top_k = match read_opt_u32(m, "top_k") {
            Some(x) => x,
            None => {
                return None;
            },
        };
        let stop_sequences = match read_opt_texts(m, "stop_sequences") {
            Some(x) => x,
            None => {
                return None;
            },
        };
        let metadata = match read_opt_value(m, "metadata") {
            Some(x) => x,
            None => {
                return None;
            },
        };
        let thinking = match read_opt_thinking_mode(m, "thinking") {
            Some(x) => x,
            None => {
                return None;
            },
        };
        let output_config = match read_opt_value(m, "output_config") {
            Some(x) => x,
            None => {
                return None;
            },
        };
        Some(
            AnthropicRequest {
                model,
                max_tokens,
                system,
                messages,
                tools,
                tool_choice,
                stream,
                temperature,
                top_p,
                top_k,
                stop_sequences,
                metadata,
                thinking,
                output_config,
            },
        )
    }
}

} // verus!
