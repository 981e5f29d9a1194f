use vstd::prelude::*;

verus! {

/// The text that the streaming transport sends for an event with the given
/// event type and data, as hyper_usse serializes it.
pub uninterp spec fn sse_wire_of(event_type: Seq<char>, data: Seq<char>) -> Seq<char>;

/// A named event of the page's update stream: an event type tag (`title`,
/// `clear-title`, `body`, `clear-body` or `refresh`) and a data payload.
pub struct Event {
    pub event_type: String,
    pub data: String,
}

/// The ghost form of an [`Event`]: its two fields as character sequences.
#[verifier::ext_equal]
pub ghost struct EventView {
    pub event_type: Seq<char>,
    pub data: Seq<char>,
}

impl View for Event {
    type V = EventView;

    open spec fn view(&self) -> EventView {
        EventView { event_type: self.event_type@, data: self.data@ }
    }
}

/// The event announcing a title value: a `title` event carrying the value
/// verbatim when it is non-empty, else a `clear-title` event whose payload is
/// a placeholder (the transport's framing needs a non-empty payload).
pub open spec fn title_event_view(value: Seq<char>) -> EventView {
    if value.len() == 0 {
        EventView { event_type: "clear-title"@, data: "."@ }
    } else {
        EventView { event_type: "title"@, data: value }
    }
}

/// The event announcing a body value, under the same set/clear rule as
/// [`title_event_view`].
pub open spec fn body_event_view(value: Seq<char>) -> EventView {
    if value.len() == 0 {
        EventView { event_type: "clear-body"@, data: "."@ }
    } else {
        EventView { event_type: "body"@, data: value }
    }
}

/// The fixed event telling every viewer to abandon its stream and fetch the
/// page afresh.
pub open spec fn refresh_event_view() -> EventView {
    EventView { event_type: "refresh"@, data: "."@ }
}

/// Build the set-or-clear event for a title value.
pub fn title_event(value: &String) -> (e: Event)
    ensures
        e@ == title_event_view(value@),
{
    if value.as_str().is_empty() {
        Event { event_type: "clear-title".to_owned(), data: ".".to_owned() }
    } else {
        Event { event_type: "title".to_owned(), data: value.clone() }
    }
}

/// Build the set-or-clear event for a body value.
pub fn body_event(value: &String) -> (e: Event)
    ensures
        e@ == body_event_view(value@),
{
    if value.as_str().is_empty() {
        Event { event_type: "clear-body".to_owned(), data: ".".to_owned() }
    } else {
        Event { event_type: "body".to_owned(), data: value.clone() }
    }
}

/// Build the reload-now event.
pub fn refresh_event() -> (e: Event)
    ensures
        e@ == refresh_event_view(),
{
    Event { event_type: "refresh".to_owned(), data: ".".to_owned() }
}

/// Relies on hyper_usse::EventBuilder (new, event_type, build): the SSE wire
/// text it builds depends on the event type and the data alone.
#[verifier::external_body]
fn sse_event_text(event_type: &str, data: &str) -> (r: String)
    ensures
        r@ == sse_wire_of(event_type@, data@),
{
    hyper_usse::EventBuilder::new(data).event_type(event_type).build()
}

impl Event {
    /// The wire text that the streaming transport sends for this event.
    pub fn to_sse(&self) -> (r: String)
        ensures
            r@ == sse_wire_of(self.event_type@, self.data@),
    {
        sse_event_text(self.event_type.as_str(), self.data.as_str())
    }
}

} // verus!
