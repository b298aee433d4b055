//! The raw output: the text that a model produces, as it comes out of stream events.
use vstd::prelude::*;

use crate::json;
use crate::json::Json;
use crate::json::JsonView;
use crate::text;

verus! {

/// An event of a stream.
#[derive(Debug, Clone)]
pub struct SseEvent {
    /// Name of the event.
    pub event: String,
    /// Its data.
    pub data: Json,
}

/// The text that an event adds: the member `delta` of a delta event, where it is a text.
pub open spec fn raw_delta(event: SseEvent) -> Option<Seq<char>> {
    if text::has_suffix(event.event@, ".delta"@) {
        match event.data@ {
            JsonView::Object(m) => json::text_member(m, "delta"@),
            _ => None,
        }
    } else {
        None
    }
}

/// The bytes that an event adds to the raw output.
pub open spec fn raw_bytes(event: SseEvent) -> Seq<u8> {
    match raw_delta(event) {
        Some(t) => vstd::utf8::encode_utf8(t),
        None => Seq::empty(),
    }
}

/// The bytes that events add to the raw output, one after the other.
pub open spec fn raw_stream(events: Seq<SseEvent>) -> Seq<u8>
    decreases events.len(),
{
    if events.len() == 0 {
        Seq::empty()
    } else {
        raw_stream(events.drop_last()) + raw_bytes(events.last())
    }
}

/// The text that an event adds.
pub fn raw_model_delta_from_sse_event(event: &SseEvent) -> (r: Option<&str>)
    ensures
        text::opt_str_view(r) == raw_delta(*event),
{
    if text::ends_with(event.event.as_str(), ".delta") {
        match event.data.as_object() {
            Some(object) => object.get_text("delta"),
            None => None,
        }
    } else {
        None
    }
}

/// The bytes that wait to be written, in order.
pub struct RawOutput {
    pending: Vec<u8>,
}

impl View for RawOutput {
    type V = Seq<u8>;

    closed spec fn view(&self) -> Seq<u8> {
        self.pending@
    }
}

impl RawOutput {
    /// Nothing to write.
    pub fn new() -> (r: Self)
        ensures
            r@ == Seq::<u8>::empty(),
    {
        RawOutput { pending: Vec::new() }
    }

    /// Adds what the event adds.
    pub fn write_sse_event(&mut self, event: &SseEvent)
        ensures
            final(self)@ == old(self)@ + raw_bytes(*event),
    {
        match raw_model_delta_from_sse_event(event) {
            Some(delta) => text::append_bytes(&mut self.pending, delta.as_bytes()),
            None => {
                assert(self@ + Seq::<u8>::empty() =~= self@);
            },
        }
    }

    /// What waits to be written; nothing is left.
    pub fn take(&mut self) -> (r: Vec<u8>)
        ensures
            r@ == old(self)@,
            final(self)@ == Seq::<u8>::empty(),
    {
        let mut out: Vec<u8> = Vec::new();
        out.append(&mut self.pending);
        assert(out@ =~= old(self)@);
        assert(self@ =~= Seq::<u8>::empty());
        out
    }
}

/// Output may be written in parts: the events before and after a point give the bytes of
/// all of them.
pub proof fn law_raw_stream_joins(a: Seq<SseEvent>, b: Seq<SseEvent>)
    ensures
        raw_stream(a + b) == raw_stream(a) + raw_stream(b),
    decreases b.len(),
{
    if b.len() == 0 {
        assert(a + b =~= a);
        assert(raw_stream(a) + raw_stream(b) =~= raw_stream(a));
    } else {
        law_raw_stream_joins(a, b.drop_last());
        assert((a + b).drop_last() =~= a + b.drop_last());
        assert((a + b).last() == b.last());
        assert(raw_stream(a + b) =~= raw_stream(a) + raw_stream(b));
    }
}

/// An event adds a text just where it is a delta event and its data has that text under
/// `delta`.
pub proof fn law_delta_text_is_added(event: SseEvent, t: Seq<char>)
    ensures
        raw_delta(event) == Some(t) <==> (text::has_suffix(event.event@, ".delta"@)
            && event.data@ is Object && json::member(event.data@->Object_0, "delta"@) == Some(
            JsonView::Text(t),
        )),
        raw_delta(event) == Some(t) ==> raw_bytes(event) == vstd::utf8::encode_utf8(t),
        raw_delta(event) is None ==> raw_bytes(event).len() == 0,
{
}

/// Each event adds what it adds at the end of what came before.
pub proof fn law_raw_stream_grows(events: Seq<SseEvent>, event: SseEvent)
    ensures
        raw_stream(events.push(event)) == raw_stream(events) + raw_bytes(event),
{
    assert(events.push(event).drop_last() =~= events);
}

} // verus!
