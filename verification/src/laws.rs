use vstd::prelude::*;

use crate::content::{
    is_empty_at, live_body, live_title, media_type_of, static_step_event, static_step_state,
    title_step_event, title_step_state, ContentView,
};
use crate::event::{refresh_event_view, title_event_view};

verus! {

/// A repeated title write is idempotent: when the written value differs from
/// the one the cell shows, the first write broadcasts exactly one
/// set-or-clear title event, and a second write of the same value broadcasts
/// none.
pub proof fn lemma_set_title_idempotent(c: ContentView, v: Seq<char>)
    requires
        v != live_title(c),
    ensures
        title_step_event(c, v) == Some(title_event_view(v)),
        title_step_event(title_step_state(c, v), v) is None,
{
}

/// After a title write, the cell is empty exactly when the written value is
/// empty, the body it kept showing is empty, and nobody is subscribed.
pub proof fn lemma_is_empty_after_set_title(c: ContentView, v: Seq<char>, subscribers: nat)
    ensures
        is_empty_at(title_step_state(c, v), subscribers) <==> (v.len() == 0 && live_body(c).len()
            == 0 && subscribers == 0),
{
}

/// Freezing the cell detaches its viewers: the frozen state takes no new
/// subscription (it is not live), and the subscribers of the displaced state
/// are ordered to reload exactly when that state was live.
pub proof fn lemma_set_static_detaches(
    c: ContentView,
    content_type: Option<Seq<char>>,
    raw_contents: Seq<u8>,
)
    ensures
        static_step_state(content_type, raw_contents) !is Dynamic,
        c is Dynamic ==> static_step_event(c) == Some(refresh_event_view()),
        c !is Dynamic ==> static_step_event(c) is None,
{
}

/// The declared media type follows the most recent freeze: the frozen state
/// declares exactly the media type the freeze was given.
pub proof fn lemma_media_type_follows_freeze(
    content_type: Option<Seq<char>>,
    raw_contents: Seq<u8>,
)
    ensures
        media_type_of(static_step_state(content_type, raw_contents)) == content_type,
{
}

/// Round trip: freezing the cell and then writing a title brings it back to
/// live form — starting from static form, so the fan-out is replaced by a
/// fresh zero-subscriber one — with the written title, an unset body, and no
/// declared media type.
pub proof fn lemma_freeze_then_title_round_trip(
    c: ContentView,
    content_type: Option<Seq<char>>,
    raw_contents: Seq<u8>,
    v: Seq<char>,
)
    ensures
        static_step_state(content_type, raw_contents) is Static,
        title_step_state(static_step_state(content_type, raw_contents), v) == (ContentView::Dynamic {
            title: v,
            body: Seq::<char>::empty(),
        }),
        media_type_of(title_step_state(static_step_state(content_type, raw_contents), v)) is None,
{
}

} // verus!
