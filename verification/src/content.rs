use vstd::prelude::*;

use crate::event::{
    body_event, body_event_view, refresh_event, refresh_event_view, title_event, title_event_view,
    Event, EventView,
};

verus! {

/// The content of a page: either live (a title and a body, pushed to viewers
/// over an update stream) or static (a fixed byte payload with an optional
/// media type, shown until the viewer reloads).
///
/// A live cell's subscriber fan-out is owned by the surrounding transport
/// layer, which pairs it with this value: every mutation here reports, through
/// a [`Dispatch`] or an event, what that layer must do with the fan-out.
#[derive(Debug)]
pub enum Content {
    Dynamic { title: String, body: String },
    Static { content_type: Option<String>, raw_contents: Vec<u8> },
}

/// The ghost form of a [`Content`]: its fields as sequences.
#[verifier::ext_equal]
pub ghost enum ContentView {
    Dynamic { title: Seq<char>, body: Seq<char> },
    Static { content_type: Option<Seq<char>>, raw_contents: Seq<u8> },
}

impl View for Content {
    type V = ContentView;

    open spec fn view(&self) -> ContentView {
        match self {
            Content::Dynamic { title, body } => ContentView::Dynamic {
                title: title@,
                body: body@,
            },
            Content::Static { content_type, raw_contents } => ContentView::Static {
                content_type: content_type.deep_view(),
                raw_contents: raw_contents@,
            },
        }
    }
}

/// The title a live cell shows: the stored title when live, unset otherwise
/// (converting static content to live always starts from an unset title).
pub open spec fn live_title(c: ContentView) -> Seq<char> {
    match c {
        ContentView::Dynamic { title, .. } => title,
        ContentView::Static { .. } => Seq::empty(),
    }
}

/// The body a live cell shows, under the same rule as [`live_title`].
pub open spec fn live_body(c: ContentView) -> Seq<char> {
    match c {
        ContentView::Dynamic { body, .. } => body,
        ContentView::Static { .. } => Seq::empty(),
    }
}

/// A cell is empty iff it is live, title and body are both unset, and nobody
/// is subscribed: exactly the state a fresh cell starts in.
pub open spec fn is_empty_at(c: ContentView, subscribers: nat) -> bool {
    c is Dynamic && live_title(c).len() == 0 && live_body(c).len() == 0 && subscribers == 0
}

/// The media type a cell declares: the stored one for static content, none
/// for live content.
pub open spec fn media_type_of(c: ContentView) -> Option<Seq<char>> {
    match c {
        ContentView::Dynamic { .. } => None,
        ContentView::Static { content_type, .. } => content_type,
    }
}

/// The state after a title write: live, with the written title and with
/// whatever body the cell showed before (unset if it was static).
pub open spec fn title_step_state(c: ContentView, v: Seq<char>) -> ContentView {
    ContentView::Dynamic { title: v, body: live_body(c) }
}

/// The event a title write broadcasts: none when the written value is what
/// the cell already shows, else the set-or-clear title event.
pub open spec fn title_step_event(c: ContentView, v: Seq<char>) -> Option<EventView> {
    if v == live_title(c) {
        None
    } else {
        Some(title_event_view(v))
    }
}

/// The state after a body write, symmetric to [`title_step_state`].
pub open spec fn body_step_state(c: ContentView, v: Seq<char>) -> ContentView {
    ContentView::Dynamic { title: live_title(c), body: v }
}

/// The event a body write broadcasts, symmetric to [`title_step_event`].
pub open spec fn body_step_event(c: ContentView, v: Seq<char>) -> Option<EventView> {
    if v == live_body(c) {
        None
    } else {
        Some(body_event_view(v))
    }
}

/// The state after freezing the cell to static content.
pub open spec fn static_step_state(content_type: Option<Seq<char>>, raw_contents: Seq<u8>) -> ContentView {
    ContentView::Static { content_type, raw_contents }
}

/// The event freezing broadcasts to the subscribers of the displaced state:
/// a reload order when that state was live, nothing otherwise.
pub open spec fn static_step_event(c: ContentView) -> Option<EventView> {
    if c is Dynamic {
        Some(refresh_event_view())
    } else {
        None
    }
}

/// What a mutation asks the surrounding fan-out layer to do, in order: when
/// `fresh_fanout` holds, the cell left static form, and its old fan-out (if
/// any survived) must be replaced by a fresh one with zero subscribers; then
/// `event`, if any, is broadcast to all current subscribers.
pub struct Dispatch {
    pub fresh_fanout: bool,
    pub event: Option<Event>,
}

/// The ghost form of a [`Dispatch`]'s event field.
pub open spec fn event_view_of(e: Option<Event>) -> Option<EventView> {
    match e {
        Some(ev) => Some(ev@),
        None => None,
    }
}

impl Content {
    /// A fresh cell: live, title and body unset. The caller pairs it with a
    /// fresh fan-out holding zero subscribers.
    pub fn new() -> (c: Content)
        ensures
            c@ == (ContentView::Dynamic { title: Seq::<char>::empty(), body: Seq::<char>::empty() }),
    {
        Content::Dynamic { title: String::new(), body: String::new() }
    }

    /// Whether the cell is empty, given the fan-out's current subscriber
    /// count: true iff it is live, shows nothing, and nobody listens.
    pub fn is_empty(&self, subscribers: usize) -> (r: bool)
        ensures
            r == is_empty_at(self@, subscribers as nat),
    {
        match self {
            Content::Dynamic { title, body } => {
                title.as_str().is_empty() && body.as_str().is_empty() && subscribers == 0
            },
            Content::Static { .. } => false,
        }
    }

    /// The media type of the page: none for live content, the stored value
    /// for static content.
    pub fn content_type(&self) -> (r: Option<String>)
        ensures
            r.deep_view() == media_type_of(self@),
    {
        match self {
            Content::Dynamic { .. } => None,
            Content::Static { content_type, .. } => match content_type {
                Some(s) => Some(s.clone()),
                None => None,
            },
        }
    }

    /// Whether a new subscription applies, and if so the two priming events
    /// that synchronize a new subscriber, in broadcast order: first the
    /// set-or-clear title event, then the set-or-clear body event. Static
    /// content has no stream, so no subscription applies to it.
    pub fn update_stream(&self) -> (r: Option<(Event, Event)>)
        ensures
            self@ is Dynamic <==> r is Some,
            r matches Some(pair) ==> pair.0@ == title_event_view(live_title(self@))
                && pair.1@ == body_event_view(live_body(self@)),
    {
        match self {
            Content::Dynamic { title, body } => Some((title_event(title), body_event(body))),
            Content::Static { .. } => None,
        }
    }

    /// Whether a keep-alive frame should go out, given the fan-out's current
    /// subscriber count: the count when the cell is live, not applicable for
    /// static content.
    pub fn send_heartbeat(&self, subscribers: usize) -> (r: Option<usize>)
        ensures
            r == (if self@ is Dynamic { Some(subscribers) } else { None::<usize> }),
    {
        match self {
            Content::Dynamic { .. } => Some(subscribers),
            Content::Static { .. } => None,
        }
    }

    /// The reload order to broadcast, when the cell is live; static content
    /// has no subscribers to order around.
    pub fn refresh(&self) -> (r: Option<Event>)
        ensures
            self@ is Dynamic <==> r is Some,
            r matches Some(e) ==> e@ == refresh_event_view(),
    {
        match self {
            Content::Dynamic { .. } => Some(refresh_event()),
            Content::Static { .. } => None,
        }
    }

    /// Freeze the cell to a static byte payload, displacing whatever it held.
    /// Returns the reload order to broadcast to the displaced state's
    /// subscribers: present exactly when that state was live.
    pub fn set_static(&mut self, content_type: Option<String>, raw_contents: Vec<u8>) -> (r: Option<
        Event,
    >)
        ensures
            final(self)@ == static_step_state(content_type.deep_view(), raw_contents@),
            event_view_of(r) == static_step_event(old(self)@),
    {
        let was_live = match self {
            Content::Dynamic { .. } => true,
            Content::Static { .. } => false,
        };
        *self = Content::Static { content_type, raw_contents };
        if was_live {
            Some(refresh_event())
        } else {
            None
        }
    }

    /// Ensure the cell is live: static content is displaced by a fresh empty
    /// live state. Returns true iff a displacement happened, in which case
    /// the caller must pair the cell with a fresh zero-subscriber fan-out.
    fn ensure_live(&mut self) -> (fresh: bool)
        ensures
            final(self)@ == (ContentView::Dynamic {
                title: live_title(old(self)@),
                body: live_body(old(self)@),
            }),
            fresh == (old(self)@ is Static),
    {
        match self {
            Content::Dynamic { .. } => false,
            Content::Static { .. } => {
                *self = Content::new();
                true
            },
        }
    }

    /// Write the title: ensure the cell is live, then, when the written value
    /// differs from the shown one, store it and broadcast the set-or-clear
    /// title event. Writing the already-shown value broadcasts nothing.
    pub fn set_title(&mut self, new_title: String) -> (r: Dispatch)
        ensures
            final(self)@ == title_step_state(old(self)@, new_title@),
            r.fresh_fanout == (old(self)@ is Static),
            event_view_of(r.event) == title_step_event(old(self)@, new_title@),
    {
        let fresh_fanout = self.ensure_live();
        match self {
            Content::Dynamic { title, .. } => {
                if new_title == *title {
                    Dispatch { fresh_fanout, event: None }
                } else {
                    let event = title_event(&new_title);
                    *title = new_title;
                    Dispatch { fresh_fanout, event: Some(event) }
                }
            },
            Content::Static { .. } => vstd::pervasive::unreached(),
        }
    }

    /// Write the body, symmetric to [`Self::set_title`].
    pub fn set_body(&mut self, new_body: String) -> (r: Dispatch)
        ensures
            final(self)@ == body_step_state(old(self)@, new_body@),
            r.fresh_fanout == (old(self)@ is Static),
            event_view_of(r.event) == body_step_event(old(self)@, new_body@),
    {
        let fresh_fanout = self.ensure_live();
        match self {
            Content::Dynamic { body, .. } => {
                if new_body == *body {
                    Dispatch { fresh_fanout, event: None }
                } else {
                    let event = body_event(&new_body);
                    *body = new_body;
                    Dispatch { fresh_fanout, event: Some(event) }
                }
            },
            Content::Static { .. } => vstd::pervasive::unreached(),
        }
    }
}

} // verus!
