//! What the log says of the values in a request body, and the parts of its summary.
use vstd::prelude::*;

use crate::http::tally;
use crate::http::tally::summarized_list;
use crate::http::tally::Tally;
use crate::json;
use crate::json::Json;
use crate::json::JsonMap;
use crate::json::JsonNumber;
use crate::json::JsonView;
use crate::json::NumberView;
use crate::text;

verus! {

/// A body of more bytes than these is not read.
pub const API_LOG_BODY_LIMIT_BYTES: usize = 268435456;

/// A body of more bytes than these is not logged itself.
pub const API_LOG_PAYLOAD_DUMP_LIMIT_BYTES: usize = 16384;

/// How many characters of a text are logged.
pub const API_LOG_PREVIEW_CHARS: usize = 160;

// --- Single values -----------------------------------------------------------------------------

/// Whether a character is a control code.
pub open spec fn is_control(c: char) -> bool {
    (c as u32) < 32 || 127 <= (c as u32) < 160
}

/// The first `n` characters with a blank for every control code.
pub open spec fn blanked(t: Seq<char>, n: int) -> Seq<char> {
    t.take(n).map_values(
        |c: char|
            if is_control(c) {
                ' '
            } else {
                c
            },
    )
}

/// A text as it is logged: on one line, and cut where it is long.
pub open spec fn compact(t: Seq<char>) -> Seq<char> {
    if t.len() > API_LOG_PREVIEW_CHARS {
        blanked(t, API_LOG_PREVIEW_CHARS as int) + "..."@
    } else {
        blanked(t, t.len() as int)
    }
}

/// The name of a value's type.
pub open spec fn json_type_name(v: JsonView) -> Seq<char> {
    match v {
        JsonView::Null => "null"@,
        JsonView::Bool(_) => "bool"@,
        JsonView::Number(_) => "number"@,
        JsonView::Text(_) => "string"@,
        JsonView::Array(_) => "array"@,
        JsonView::Object(_) => "object"@,
    }
}

/// What kind of thing a value is: what an object says of its type, a text itself, and
/// else the name of the value's type.
pub open spec fn kind_of(v: JsonView) -> Seq<char> {
    match v {
        JsonView::Object(m) => match json::text_member(m, "type"@) {
            Some(t) => t,
            None => "object"@,
        },
        JsonView::Text(t) => compact(t),
        _ => json_type_name(v),
    }
}

/// A number as text.
pub open spec fn number_text(n: NumberView) -> Seq<char> {
    match n {
        NumberView::Unsigned(u) => text::decimal(u as nat),
        NumberView::Negative(i) => if i < 0 {
            "-"@ + text::decimal((-(i as int)) as nat)
        } else {
            text::decimal(i as nat)
        },
        NumberView::Decimal(t) => t,
    }
}

/// A value that is neither an array nor an object, as text.
pub open spec fn scalar_text(v: JsonView) -> Option<Seq<char>> {
    match v {
        JsonView::Text(t) => Some(compact(t)),
        JsonView::Number(n) => Some(number_text(n)),
        JsonView::Bool(b) => Some(
            if b {
                "true"@
            } else {
                "false"@
            },
        ),
        JsonView::Null => Some("null"@),
        _ => None,
    }
}

/// A text as it is logged.
pub fn compact_for_log(value: &str) -> (r: String)
    ensures
        r@ == compact(value@),
{
    let chars = text::chars_of(value);
    let mut out = String::new();
    assert(out@ =~= blanked(value@, 0));
    let mut i: usize = 0;
    while i < chars.len() && i < API_LOG_PREVIEW_CHARS
        invariant
            chars@ == value@,
            i <= chars@.len(),
            i <= API_LOG_PREVIEW_CHARS,
            out@ == blanked(value@, i as int),
        decreases chars@.len() - i,
    {
        let c = chars[i];
        let code: u32 = c as u32;
        let shown = if code < 32 || (code >= 127 && code < 160) {
            ' '
        } else {
            c
        };
        let ghost before = out@;
        out.push(shown);
        assert(value@.take(i + 1)[i as int] == c);
        assert(blanked(value@, i + 1)[i as int] == shown);
        assert(blanked(value@, i + 1) =~= before.push(shown));
        i += 1;
    }
    if chars.len() > API_LOG_PREVIEW_CHARS {
        out.append("...");
    }
    out
}

/// The name of a value's type.
pub fn json_type(value: &Json) -> (r: &'static str)
    ensures
        r@ == json_type_name(value@),
{
    match value {
        Json::Null => "null",
        Json::Bool(_) => "bool",
        Json::Number(_) => "number",
        Json::Text(_) => "string",
        Json::Array(_) => "array",
        Json::Object(_) => "object",
    }
}

/// What kind of thing a value is.
pub fn typed_json_value(value: &Json) -> (r: String)
    ensures
        r@ == kind_of(value@),
{
    match value {
        Json::Object(map) => {
            proof {
                json::lemma_object_view(*map);
            }
            match map.get_text("type") {
                Some(t) => t.to_owned(),
                None => "object".to_owned(),
            }
        },
        Json::Text(t) => compact_for_log(t.as_str()),
        _ => json_type(value).to_owned(),
    }
}

fn number_text_of(n: &JsonNumber) -> (r: String)
    ensures
        r@ == number_text(n@),
{
    match n {
        JsonNumber::Unsigned(u) => text::decimal_of(*u as u128),
        JsonNumber::Negative(i) => if *i < 0 {
            let positive: i128 = -(*i as i128);
            text::joined("-", text::decimal_of(positive as u128).as_str())
        } else {
            text::decimal_of(*i as u128)
        },
        JsonNumber::Decimal(t) => t.clone(),
    }
}

/// A value that is neither an array nor an object, as text.
pub fn scalar_for_log(value: &Json) -> (r: Option<String>)
    ensures
        text::opt_view(r) == scalar_text(value@),
{
    match value {
        Json::Text(t) => Some(compact_for_log(t.as_str())),
        Json::Number(n) => Some(number_text_of(n)),
        Json::Bool(b) => Some(
            if *b {
                "true".to_owned()
            } else {
                "false".to_owned()
            },
        ),
        Json::Null => Some("null".to_owned()),
        _ => None,
    }
}

/// A header as it is logged: empty where it is not there or is no text.
pub fn header_for_log(value: Option<&str>) -> (r: String)
    ensures
        r@ == match text::opt_str_view(value) {
            Some(t) => compact(t),
            None => seq![],
        },
{
    match value {
        Some(t) => compact_for_log(t),
        None => {
            let empty = String::new();
            assert(empty@ =~= seq![]);
            empty
        },
    }
}

// --- Parts of a summary ------------------------------------------------------------------------

/// A name and what it stands for.
pub open spec fn part(name: Seq<char>, value: Seq<char>) -> Seq<char> {
    name + "="@ + value
}

/// A name and a number.
pub open spec fn number_part(name: Seq<char>, n: nat) -> Seq<char> {
    part(name, text::decimal(n))
}

pub(crate) fn push_part(parts: &mut Vec<String>, name: &str, value: &str)
    ensures
        text::strings_view(final(parts)@) == text::strings_view(old(parts)@).push(
            part(name@, value@),
        ),
{
    let mut t = name.to_owned();
    t.append("=");
    t.append(value);
    parts.push(t);
    assert(text::strings_view(parts@) =~= text::strings_view(old(parts)@).push(part(name@, value@)));
}

pub(crate) fn push_number(parts: &mut Vec<String>, name: &str, n: usize)
    ensures
        text::strings_view(final(parts)@) == text::strings_view(old(parts)@).push(
            number_part(name@, n as nat),
        ),
{
    push_part(parts, name, text::decimal_of(n as u128).as_str());
}

/// The part of a field that is a scalar, where it is there.
pub open spec fn scalar_part(m: Seq<(Seq<char>, JsonView)>, key: Seq<char>) -> Seq<Seq<char>> {
    match json::member(m, key) {
        Some(v) => match scalar_text(v) {
            Some(t) => seq![part(key, t)],
            None => Seq::empty(),
        },
        None => Seq::empty(),
    }
}

/// The part of a field by its kind, where it is there.
pub open spec fn kind_part(m: Seq<(Seq<char>, JsonView)>, key: Seq<char>) -> Seq<Seq<char>> {
    match json::member(m, key) {
        Some(v) => seq![part(key, kind_of(v))],
        None => Seq::empty(),
    }
}

/// The part of a field that is an array, by its length.
pub open spec fn length_part(m: Seq<(Seq<char>, JsonView)>, key: Seq<char>) -> Seq<Seq<char>> {
    match json::member(m, key) {
        Some(JsonView::Array(items)) => seq![number_part(key, items.len())],
        _ => Seq::empty(),
    }
}

/// The keys of an object.
pub open spec fn keys_of(m: Seq<(Seq<char>, JsonView)>) -> Seq<Seq<char>> {
    m.map_values(|e: (Seq<char>, JsonView)| e.0)
}

/// The part of the metadata, by its keys.
pub open spec fn metadata_part(m: Seq<(Seq<char>, JsonView)>) -> Seq<Seq<char>> {
    match json::member(m, "metadata"@) {
        Some(JsonView::Object(data)) => seq![
            part("metadata_keys"@, tally::summarized(keys_of(data), 16)),
        ],
        _ => Seq::empty(),
    }
}

/// The part of counts, where something was counted.
pub open spec fn counts_part(name: Seq<char>, counts: Seq<(Seq<char>, usize)>) -> Seq<Seq<char>> {
    if counts.len() == 0 {
        Seq::empty()
    } else {
        seq![part(name, tally::summarized(tally::shown_counts(counts), 16))]
    }
}

pub(crate) fn append_scalar_field(parts: &mut Vec<String>, map: &JsonMap, key: &str)
    ensures
        text::strings_view(final(parts)@) == text::strings_view(old(parts)@) + scalar_part(
            map@,
            key@,
        ),
{
    let ghost before = text::strings_view(parts@);
    if let Some(value) = map.get(key) {
        if let Some(t) = scalar_for_log(value) {
            push_part(parts, key, t.as_str());
        }
    }
    assert(text::strings_view(parts@) =~= before + scalar_part(map@, key@));
}

pub(crate) fn append_typed_field(parts: &mut Vec<String>, map: &JsonMap, key: &str)
    ensures
        text::strings_view(final(parts)@) == text::strings_view(old(parts)@) + kind_part(
            map@,
            key@,
        ),
{
    let ghost before = text::strings_view(parts@);
    if let Some(value) = map.get(key) {
        push_part(parts, key, typed_json_value(value).as_str());
    }
    assert(text::strings_view(parts@) =~= before + kind_part(map@, key@));
}

pub(crate) fn array_of<'a>(map: &'a JsonMap, key: &str) -> (r: Option<&'a Vec<Json>>)
    ensures
        match r {
            Some(items) => json::member(map@, key@) == Some(
                JsonView::Array(json::items_view(items@)),
            ),
            None => !(json::member(map@, key@) matches Some(JsonView::Array(_))),
        },
{
    match map.get(key) {
        Some(value) => value.as_array(),
        None => None,
    }
}

pub(crate) fn append_array_len(parts: &mut Vec<String>, map: &JsonMap, key: &str)
    ensures
        text::strings_view(final(parts)@) == text::strings_view(old(parts)@) + length_part(
            map@,
            key@,
        ),
{
    let ghost before = text::strings_view(parts@);
    if let Some(items) = array_of(map, key) {
        push_number(parts, key, items.len());
    }
    assert(text::strings_view(parts@) =~= before + length_part(map@, key@));
}

pub(crate) fn keys_of_map(map: &JsonMap) -> (r: Vec<String>)
    ensures
        text::strings_view(r@) == keys_of(map@),
{
    let mut keys: Vec<String> = Vec::new();
    let mut i: usize = 0;
    while i < map.entries.len()
        invariant
            i <= map.entries@.len(),
            keys@.len() == i,
            forall|k: int| 0 <= k < i ==> (#[trigger] keys@[k])@ == map.entries@[k].0@,
        decreases map.entries@.len() - i,
    {
        keys.push(map.entries[i].0.clone());
        i += 1;
    }
    assert(text::strings_view(keys@) =~= keys_of(map@));
    keys
}

pub(crate) fn append_metadata_summary(parts: &mut Vec<String>, map: &JsonMap)
    ensures
        text::strings_view(final(parts)@) == text::strings_view(old(parts)@) + metadata_part(map@),
{
    let ghost before = text::strings_view(parts@);
    if let Some(value) = map.get("metadata") {
        if let Some(data) = value.as_object() {
            let keys = summarized_list(keys_of_map(data), 16);
            push_part(parts, "metadata_keys", keys.as_str());
        }
    }
    assert(text::strings_view(parts@) =~= before + metadata_part(map@));
}

pub(crate) fn push_counts(parts: &mut Vec<String>, name: &str, counts: &Tally)
    ensures
        text::strings_view(final(parts)@) == text::strings_view(old(parts)@) + counts_part(
            name@,
            counts@,
        ),
{
    let ghost before = text::strings_view(parts@);
    if !counts.is_empty() {
        push_part(parts, name, summarized_list(counts.shown(), 16).as_str());
    }
    assert(text::strings_view(parts@) =~= before + counts_part(name@, counts@));
}

// --- Tools -------------------------------------------------------------------------------------

/// The name of a tool: its own, or that of its function.
pub open spec fn tool_name(tool: JsonView) -> Option<Seq<char>> {
    match json::text_field(tool, "name"@) {
        Some(t) => Some(t),
        None => match json::field(tool, "function"@) {
            Some(function) => json::text_field(function, "name"@),
            None => None,
        },
    }
}

/// The names of the first `n` tools that have one.
pub open spec fn tool_names(tools: Seq<JsonView>, n: int) -> Seq<Seq<char>>
    decreases n,
{
    if n <= 0 || n > tools.len() {
        Seq::empty()
    } else {
        match tool_name(tools[n - 1]) {
            Some(t) => tool_names(tools, n - 1).push(t),
            None => tool_names(tools, n - 1),
        }
    }
}

/// The parts of the tools: how many, and their names.
pub open spec fn tools_parts(m: Seq<(Seq<char>, JsonView)>) -> Seq<Seq<char>> {
    match json::member(m, "tools"@) {
        Some(JsonView::Array(tools)) => {
            let names = tool_names(tools, tools.len() as int);
            let count = seq![number_part("tools"@, tools.len())];
            if names.len() == 0 {
                count
            } else {
                count.push(part("tools_names"@, tally::summarized(names, 12)))
            }
        },
        _ => Seq::empty(),
    }
}

fn tool_name_for_summary(tool: &Json) -> (r: Option<&str>)
    ensures
        text::opt_str_view(r) == tool_name(tool@),
{
    match tool.text_field("name") {
        Some(t) => Some(t),
        None => match tool.field("function") {
            Some(function) => function.text_field("name"),
            None => None,
        },
    }
}

pub(crate) fn append_tool_summary(parts: &mut Vec<String>, map: &JsonMap)
    ensures
        text::strings_view(final(parts)@) == text::strings_view(old(parts)@) + tools_parts(map@),
{
    let ghost before = text::strings_view(parts@);
    if let Some(tools) = array_of(map, "tools") {
        let ghost views = json::items_view(tools@);
        let mut names: Vec<String> = Vec::new();
        assert(text::strings_view(names@) =~= Seq::<Seq<char>>::empty());
        let mut i: usize = 0;
        while i < tools.len()
            invariant
                i <= tools@.len(),
                views == json::items_view(tools@),
                text::strings_view(names@) == tool_names(views, i as int),
            decreases tools@.len() - i,
        {
            if let Some(name) = tool_name_for_summary(&tools[i]) {
                let ghost old_names = names@;
                names.push(name.to_owned());
                assert(text::strings_view(names@) =~= text::strings_view(old_names).push(name@));
            }
            i += 1;
        }
        push_number(parts, "tools", tools.len());
        if names.len() > 0 {
            push_part(parts, "tools_names", summarized_list(names, 12).as_str());
        }
    }
    assert(text::strings_view(parts@) =~= before + tools_parts(map@));
}

// --- Content -----------------------------------------------------------------------------------

/// What was counted of content: characters of text, and kinds of parts.
pub struct ContentCount {
    /// Characters of text.
    pub chars: usize,
    /// How often each kind occurs.
    pub kinds: Seq<(Seq<char>, usize)>,
}

impl ContentCount {
    /// Nothing counted.
    pub open spec fn none() -> ContentCount {
        ContentCount { chars: 0, kinds: Seq::empty() }
    }

    /// With the characters of a text, where there is one.
    pub open spec fn with_text(self, t: Option<Seq<char>>) -> ContentCount {
        match t {
            Some(t) => ContentCount { chars: tally::total(self.chars, t.len()), ..self },
            None => self,
        }
    }

    /// With one more of a kind.
    pub open spec fn with_kind(self, kind: Seq<char>) -> ContentCount {
        ContentCount { kinds: tally::bumped(self.kinds, kind), ..self }
    }
}

/// What was counted of content.
pub struct ContentTally {
    chars: usize,
    kinds: Tally,
}

impl View for ContentTally {
    type V = ContentCount;

    closed spec fn view(&self) -> ContentCount {
        ContentCount { chars: self.chars, kinds: self.kinds@ }
    }
}

impl ContentTally {
    fn new() -> (r: Self)
        ensures
            r@ == ContentCount::none(),
    {
        ContentTally { chars: 0, kinds: Tally::new() }
    }

    fn add_text(&mut self, t: Option<&str>)
        ensures
            final(self)@ == old(self)@.with_text(text::opt_str_view(t)),
    {
        if let Some(t) = t {
            self.chars = self.chars.saturating_add(t.unicode_len());
        }
    }

    fn add_kind(&mut self, kind: &str)
        ensures
            final(self)@ == old(self)@.with_kind(kind@),
    {
        self.kinds.bump(kind);
    }
}

/// With the content of a message of the Messages surface: a text, or blocks of which
/// those of text and of reasoning hold text, and those of tool results hold content
/// again.
pub open spec fn with_blocks_content(c: ContentCount, v: JsonView) -> ContentCount
    decreases v, 0int,
{
    match v {
        JsonView::Text(t) => c.with_text(Some(t)).with_kind("string"@),
        JsonView::Array(blocks) => with_blocks(c, blocks, blocks.len() as int),
        _ => c.with_kind(json_type_name(v)),
    }
}

/// With the first `n` blocks.
pub open spec fn with_blocks(c: ContentCount, blocks: Seq<JsonView>, n: int) -> ContentCount
    decreases blocks, n,
{
    if n <= 0 || n > blocks.len() {
        c
    } else {
        let block = blocks[n - 1];
        let before = with_blocks(c, blocks, n - 1).with_kind(kind_of(block));
        if kind_of(block) == "text"@ {
            before.with_text(json::text_field(block, "text"@))
        } else if kind_of(block) == "thinking"@ {
            before.with_text(json::text_field(block, "thinking"@))
        } else if kind_of(block) == "tool_result"@ {
            match block {
                JsonView::Object(m) => {
                    let k = json::key_index(m, "content"@, 0);
                    if 0 <= k < m.len() {
                        with_blocks_content(before, m[k].1)
                    } else {
                        before
                    }
                },
                _ => before,
            }
        } else {
            before
        }
    }
}

/// With the content of a message of the Chat surface: a text, or parts that hold text.
pub open spec fn with_chat_content(c: ContentCount, v: JsonView) -> ContentCount {
    match v {
        JsonView::Text(t) => c.with_text(Some(t)).with_kind("string"@),
        JsonView::Array(parts) => with_chat_parts(c, parts, parts.len() as int),
        _ => c.with_kind(json_type_name(v)),
    }
}

/// With the first `n` parts.
pub open spec fn with_chat_parts(c: ContentCount, parts: Seq<JsonView>, n: int) -> ContentCount
    decreases n,
{
    if n <= 0 || n > parts.len() {
        c
    } else {
        with_chat_parts(c, parts, n - 1).with_kind(kind_of(parts[n - 1])).with_text(
            json::text_field(parts[n - 1], "text"@),
        )
    }
}

/// With the content of an item of the Responses surface, of which only text counts.
pub open spec fn with_item_content(c: ContentCount, v: JsonView) -> ContentCount {
    match v {
        JsonView::Text(t) => c.with_text(Some(t)),
        JsonView::Array(parts) => with_item_parts(c, parts, parts.len() as int),
        _ => c,
    }
}

/// With the texts of the first `n` parts.
pub open spec fn with_item_parts(c: ContentCount, parts: Seq<JsonView>, n: int) -> ContentCount
    decreases n,
{
    if n <= 0 || n > parts.len() {
        c
    } else {
        with_item_parts(c, parts, n - 1).with_text(
            json::text_field(parts[n - 1], "text"@),
        ).with_text(json::text_field(parts[n - 1], "input_text"@)).with_text(
            json::text_field(parts[n - 1], "output_text"@),
        )
    }
}

fn accumulate_anthropic_content(content: &Json, count: &mut ContentTally)
    ensures
        final(count)@ == with_blocks_content(old(count)@, content@),
    decreases content@, 0int,
{
    match content {
        Json::Text(t) => {
            count.add_text(Some(t.as_str()));
            count.add_kind("string");
        },
        Json::Array(blocks) => {
            proof {
                json::lemma_array_view(*blocks);
                assert(decreases_to!(content@ => content@->Array_0));
            }
            accumulate_anthropic_blocks(blocks, count);
        },
        other => {
            count.add_kind(json_type(other));
        },
    }
}

fn accumulate_anthropic_blocks(blocks: &Vec<Json>, count: &mut ContentTally)
    ensures
        final(count)@ == with_blocks(
            old(count)@,
            json::items_view(blocks@),
            blocks@.len() as int,
        ),
    decreases json::items_view(blocks@), blocks@.len(),
{
    let ghost views = json::items_view(blocks@);
    let mut i: usize = 0;
    while i < blocks.len()
        invariant
            i <= blocks@.len(),
            views == json::items_view(blocks@),
            count@ == with_blocks(old(count)@, views, i as int),
        decreases blocks@.len() - i,
    {
        let block = &blocks[i];
        assert(views[i as int] == block@);
        let kind = typed_json_value(block);
        count.add_kind(kind.as_str());
        if text::str_eq(kind.as_str(), "text") {
            count.add_text(block.text_field("text"));
        } else if text::str_eq(kind.as_str(), "thinking") {
            count.add_text(block.text_field("thinking"));
        } else if text::str_eq(kind.as_str(), "tool_result") {
            if let Some(nested) = block.field("content") {
                proof {
                    let m = block@->Object_0;
                    let k = json::key_index(m, "content"@, 0);
                    json::lemma_key_index(m, "content"@, 0);
                    assert(nested@ == m[k].1);
                    assert(decreases_to!(views => views[i as int]));
                    assert(decreases_to!(m => m[k]));
                    assert(decreases_to!(views => nested@));
                }
                accumulate_anthropic_content(nested, count);
            } else {
                proof {
                    if let JsonView::Object(m) = block@ {
                        json::lemma_key_index(m, "content"@, 0);
                    }
                }
            }
        }
        i += 1;
    }
}

fn accumulate_chat_content(content: &Json, count: &mut ContentTally)
    ensures
        final(count)@ == with_chat_content(old(count)@, content@),
{
    match content {
        Json::Text(t) => {
            count.add_text(Some(t.as_str()));
            count.add_kind("string");
        },
        Json::Array(parts) => {
            proof {
                json::lemma_array_view(*parts);
            }
            let ghost views = json::items_view(parts@);
            let mut i: usize = 0;
            while i < parts.len()
                invariant
                    i <= parts@.len(),
                    views == json::items_view(parts@),
                    count@ == with_chat_parts(old(count)@, views, i as int),
                decreases parts@.len() - i,
            {
                count.add_kind(typed_json_value(&parts[i]).as_str());
                count.add_text(parts[i].text_field("text"));
                i += 1;
            }
        },
        other => {
            count.add_kind(json_type(other));
        },
    }
}

fn accumulate_responses_content(content: &Json, count: &mut ContentTally)
    ensures
        final(count)@ == with_item_content(old(count)@, content@),
{
    match content {
        Json::Text(t) => {
            count.add_text(Some(t.as_str()));
        },
        Json::Array(parts) => {
            proof {
                json::lemma_array_view(*parts);
            }
            let ghost views = json::items_view(parts@);
            let mut i: usize = 0;
            while i < parts.len()
                invariant
                    i <= parts@.len(),
                    views == json::items_view(parts@),
                    count@ == with_item_parts(old(count)@, views, i as int),
                decreases parts@.len() - i,
            {
                count.add_text(parts[i].text_field("text"));
                count.add_text(parts[i].text_field("input_text"));
                count.add_text(parts[i].text_field("output_text"));
                i += 1;
            }
        },
        _ => {},
    }
}

/// The characters of text in parts, and their kinds.
pub(crate) fn count_parts(parts: &Vec<Json>) -> (r: (usize, Tally))
    ensures
        ({
            let count = with_chat_parts(
                ContentCount::none(),
                json::items_view(parts@),
                parts@.len() as int,
            );
            r.0 == count.chars && r.1@ == count.kinds
        }),
{
    let ghost views = json::items_view(parts@);
    let mut count = ContentTally::new();
    let mut i: usize = 0;
    while i < parts.len()
        invariant
            i <= parts@.len(),
            views == json::items_view(parts@),
            count@ == with_chat_parts(ContentCount::none(), views, i as int),
        decreases parts@.len() - i,
    {
        count.add_kind(typed_json_value(&parts[i]).as_str());
        count.add_text(parts[i].text_field("text"));
        i += 1;
    }
    (count.chars, count.kinds)
}

// --- Messages and items ------------------------------------------------------------------------

/// The role of a message, `unknown` where it has none.
pub open spec fn role_of(message: JsonView) -> Seq<char> {
    match json::text_field(message, "role"@) {
        Some(t) => t,
        None => "unknown"@,
    }
}

/// The roles of messages.
pub open spec fn roles_of(messages: Seq<JsonView>) -> Seq<Seq<char>> {
    messages.map_values(|m: JsonView| role_of(m))
}

/// What the first `n` messages of the Messages surface hold.
pub open spec fn blocks_count(messages: Seq<JsonView>, n: int) -> ContentCount
    decreases n,
{
    if n <= 0 || n > messages.len() {
        ContentCount::none()
    } else {
        match json::field(messages[n - 1], "content"@) {
            Some(content) => with_blocks_content(blocks_count(messages, n - 1), content),
            None => blocks_count(messages, n - 1),
        }
    }
}

/// What the first `n` messages of the Chat surface hold.
pub open spec fn chat_count(messages: Seq<JsonView>, n: int) -> ContentCount
    decreases n,
{
    if n <= 0 || n > messages.len() {
        ContentCount::none()
    } else {
        match json::field(messages[n - 1], "content"@) {
            Some(content) => with_chat_content(chat_count(messages, n - 1), content),
            None => chat_count(messages, n - 1),
        }
    }
}

/// How many tool calls the first `n` messages make.
pub open spec fn tool_call_count(messages: Seq<JsonView>, n: int) -> usize
    decreases n,
{
    if n <= 0 || n > messages.len() {
        0
    } else {
        match json::field(messages[n - 1], "tool_calls"@) {
            Some(JsonView::Array(calls)) => tally::total(
                tool_call_count(messages, n - 1),
                calls.len(),
            ),
            _ => tool_call_count(messages, n - 1),
        }
    }
}

/// The type of an input item: what it says, or that of a message where it has a role.
pub open spec fn item_type(item: JsonView) -> Seq<char> {
    match json::text_field(item, "type"@) {
        Some(t) => t,
        None => if json::field(item, "role"@) is Some {
            "message"@
        } else {
            "unknown"@
        },
    }
}

/// What the first `n` input items hold: their types, and the text of their content.
pub open spec fn items_count(items: Seq<JsonView>, n: int) -> ContentCount
    decreases n,
{
    if n <= 0 || n > items.len() {
        ContentCount::none()
    } else {
        let before = items_count(items, n - 1).with_kind(item_type(items[n - 1]));
        match json::field(items[n - 1], "content"@) {
            Some(content) => with_item_content(before, content),
            None => before,
        }
    }
}

/// The roles of the first `n` input items that have one.
pub open spec fn item_roles(items: Seq<JsonView>, n: int) -> Seq<Seq<char>>
    decreases n,
{
    if n <= 0 || n > items.len() {
        Seq::empty()
    } else {
        match json::text_field(items[n - 1], "role"@) {
            Some(t) => item_roles(items, n - 1).push(t),
            None => item_roles(items, n - 1),
        }
    }
}

/// The parts of messages of the Messages surface.
pub open spec fn blocks_messages_parts(messages: Seq<JsonView>) -> Seq<Seq<char>> {
    let count = blocks_count(messages, messages.len() as int);
    seq![
        part("message_roles"@, tally::summarized(roles_of(messages), 16)),
        number_part("message_text_chars"@, count.chars as nat),
    ] + counts_part("message_content"@, count.kinds)
}

/// The parts of messages of the Chat surface.
pub open spec fn chat_messages_parts(messages: Seq<JsonView>) -> Seq<Seq<char>> {
    let count = chat_count(messages, messages.len() as int);
    seq![
        part("message_roles"@, tally::summarized(roles_of(messages), 16)),
        number_part("message_text_chars"@, count.chars as nat),
        number_part(
            "message_tool_calls"@,
            tool_call_count(messages, messages.len() as int) as nat,
        ),
    ] + counts_part("message_content"@, count.kinds)
}

/// The parts of input items.
pub open spec fn items_parts(items: Seq<JsonView>) -> Seq<Seq<char>> {
    let count = items_count(items, items.len() as int);
    seq![
        part("input_roles"@, tally::summarized(item_roles(items, items.len() as int), 16)),
        number_part("input_text_chars"@, count.chars as nat),
    ] + counts_part("input_item_types"@, count.kinds)
}

fn message_roles(messages: &Vec<Json>) -> (r: Vec<String>)
    ensures
        text::strings_view(r@) == roles_of(json::items_view(messages@)),
{
    let mut roles: Vec<String> = Vec::new();
    let mut i: usize = 0;
    while i < messages.len()
        invariant
            i <= messages@.len(),
            roles@.len() == i,
            forall|k: int| 0 <= k < i ==> (#[trigger] roles@[k])@ == role_of(messages@[k]@),
        decreases messages@.len() - i,
    {
        let role = match messages[i].text_field("role") {
            Some(t) => t.to_owned(),
            None => "unknown".to_owned(),
        };
        roles.push(role);
        i += 1;
    }
    assert(text::strings_view(roles@) =~= roles_of(json::items_view(messages@)));
    roles
}

pub(crate) fn append_anthropic_message_summary(parts: &mut Vec<String>, messages: &Vec<Json>)
    ensures
        text::strings_view(final(parts)@) == text::strings_view(old(parts)@)
            + blocks_messages_parts(json::items_view(messages@)),
{
    let ghost before = text::strings_view(parts@);
    let ghost views = json::items_view(messages@);
    let roles = message_roles(messages);
    let mut count = ContentTally::new();
    let mut i: usize = 0;
    while i < messages.len()
        invariant
            i <= messages@.len(),
            views == json::items_view(messages@),
            count@ == blocks_count(views, i as int),
        decreases messages@.len() - i,
    {
        if let Some(content) = messages[i].field("content") {
            accumulate_anthropic_content(content, &mut count);
        }
        i += 1;
    }
    push_part(parts, "message_roles", summarized_list(roles, 16).as_str());
    push_number(parts, "message_text_chars", count.chars);
    push_counts(parts, "message_content", &count.kinds);
    assert(text::strings_view(parts@) =~= before + blocks_messages_parts(views));
}

pub(crate) fn append_chat_message_summary(parts: &mut Vec<String>, messages: &Vec<Json>)
    ensures
        text::strings_view(final(parts)@) == text::strings_view(old(parts)@) + chat_messages_parts(
            json::items_view(messages@),
        ),
{
    let ghost before = text::strings_view(parts@);
    let ghost views = json::items_view(messages@);
    let roles = message_roles(messages);
    let mut count = ContentTally::new();
    let mut calls: usize = 0;
    let mut i: usize = 0;
    while i < messages.len()
        invariant
            i <= messages@.len(),
            views == json::items_view(messages@),
            count@ == chat_count(views, i as int),
            calls == tool_call_count(views, i as int),
        decreases messages@.len() - i,
    {
        if let Some(content) = messages[i].field("content") {
            accumulate_chat_content(content, &mut count);
        }
        if let Some(value) = messages[i].field("tool_calls") {
            if let Some(list) = value.as_array() {
                calls = calls.saturating_add(list.len());
            }
        }
        i += 1;
    }
    push_part(parts, "message_roles", summarized_list(roles, 16).as_str());
    push_number(parts, "message_text_chars", count.chars);
    push_number(parts, "message_tool_calls", calls);
    push_counts(parts, "message_content", &count.kinds);
    assert(text::strings_view(parts@) =~= before + chat_messages_parts(views));
}

fn item_type_of(item: &Json) -> (r: String)
    ensures
        r@ == item_type(item@),
{
    match item.text_field("type") {
        Some(t) => t.to_owned(),
        None => if item.field("role").is_some() {
            "message".to_owned()
        } else {
            "unknown".to_owned()
        },
    }
}

pub(crate) fn append_responses_input_summary(parts: &mut Vec<String>, items: &Vec<Json>)
    ensures
        text::strings_view(final(parts)@) == text::strings_view(old(parts)@) + items_parts(
            json::items_view(items@),
        ),
{
    let ghost before = text::strings_view(parts@);
    let ghost views = json::items_view(items@);
    let mut roles: Vec<String> = Vec::new();
    assert(text::strings_view(roles@) =~= Seq::<Seq<char>>::empty());
    let mut count = ContentTally::new();
    let mut i: usize = 0;
    while i < items.len()
        invariant
            i <= items@.len(),
            views == json::items_view(items@),
            count@ == items_count(views, i as int),
            text::strings_view(roles@) == item_roles(views, i as int),
        decreases items@.len() - i,
    {
        count.add_kind(item_type_of(&items[i]).as_str());
        if let Some(role) = items[i].text_field("role") {
            let ghost old_roles = roles@;
            roles.push(role.to_owned());
            assert(text::strings_view(roles@) =~= text::strings_view(old_roles).push(role@));
        }
        if let Some(content) = items[i].field("content") {
            accumulate_responses_content(content, &mut count);
        }
        i += 1;
    }
    push_part(parts, "input_roles", summarized_list(roles, 16).as_str());
    push_number(parts, "input_text_chars", count.chars);
    push_counts(parts, "input_item_types", &count.kinds);
    assert(text::strings_view(parts@) =~= before + items_parts(views));
}

} // verus!
