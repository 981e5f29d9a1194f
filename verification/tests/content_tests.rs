use pagecell::content::Content;

fn title_of(c: &Content) -> String {
    match c {
        Content::Dynamic { title, .. } => title.clone(),
        Content::Static { .. } => panic!("expected live content"),
    }
}

fn body_of(c: &Content) -> String {
    match c {
        Content::Dynamic { body, .. } => body.clone(),
        Content::Static { .. } => panic!("expected live content"),
    }
}

#[test]
fn new_cell_is_empty() {
    let c = Content::new();
    assert!(c.is_empty(0));
}

#[test]
fn emptiness_follows_title_body_and_subscribers() {
    let mut c = Content::new();
    c.set_title(String::from("x"));
    assert!(!c.is_empty(0));
    c.set_title(String::new());
    assert!(c.is_empty(0));
    assert!(!c.is_empty(1));
    c.set_body(String::from("b"));
    c.set_title(String::from("x"));
    c.set_title(String::new());
    assert!(!c.is_empty(0));
    c.set_body(String::new());
    assert!(c.is_empty(0));
}

#[test]
fn repeated_title_write_emits_one_event() {
    let mut c = Content::new();
    let first = c.set_title(String::from("x"));
    let second = c.set_title(String::from("x"));
    let mut emitted: usize = 0;
    if first.event.is_some() {
        emitted += 1;
    }
    if second.event.is_some() {
        emitted += 1;
    }
    assert_eq!(emitted, 1);
    let e = first.event.unwrap();
    assert_eq!(e.event_type, "title");
    assert_eq!(e.data, "x");
}

#[test]
fn repeated_body_write_emits_one_event() {
    let mut c = Content::new();
    let first = c.set_body(String::from("<p>hi</p>"));
    let second = c.set_body(String::from("<p>hi</p>"));
    assert!(first.event.is_some());
    assert!(second.event.is_none());
}

#[test]
fn clearing_a_set_title_emits_clear_event() {
    let mut c = Content::new();
    c.set_title(String::from("x"));
    let cleared = c.set_title(String::new());
    let e = cleared.event.expect("clearing a set title must notify");
    assert_eq!(e.event_type, "clear-title");
    assert_eq!(e.data, ".");
}

#[test]
fn clearing_an_unset_title_emits_nothing() {
    let mut c = Content::new();
    let d = c.set_title(String::new());
    assert!(d.event.is_none());
    assert!(!d.fresh_fanout);
}

#[test]
fn priming_events_give_title_then_body() {
    let mut c = Content::new();
    c.set_title(String::from("T"));
    c.set_body(String::from("B"));
    let (first, second) = c.update_stream().expect("live content takes subscribers");
    assert_eq!(first.event_type, "title");
    assert_eq!(first.data, "T");
    assert_eq!(second.event_type, "body");
    assert_eq!(second.data, "B");
}

#[test]
fn priming_events_clear_unset_fields() {
    let c = Content::new();
    let (first, second) = c.update_stream().expect("live content takes subscribers");
    assert_eq!(first.event_type, "clear-title");
    assert_eq!(first.data, ".");
    assert_eq!(second.event_type, "clear-body");
    assert_eq!(second.data, ".");
}

#[test]
fn static_content_takes_no_subscription_and_orders_reload() {
    let mut c = Content::new();
    c.set_title(String::from("T"));
    let reload = c.set_static(Some(String::from("text/plain")), b"hi".to_vec());
    let e = reload.expect("displacing live content must order a reload");
    assert_eq!(e.event_type, "refresh");
    assert_eq!(e.data, ".");
    assert!(c.update_stream().is_none());
    let again = c.set_static(None, b"ho".to_vec());
    assert!(again.is_none());
}

#[test]
fn content_type_tracks_the_latest_freeze() {
    let mut c = Content::new();
    assert_eq!(c.content_type(), None);
    c.set_static(Some(String::from("text/html")), b"<p>".to_vec());
    assert_eq!(c.content_type(), Some(String::from("text/html")));
    c.set_static(Some(String::from("image/png")), vec![0x89u8, 0x50]);
    assert_eq!(c.content_type(), Some(String::from("image/png")));
    c.set_static(None, Vec::new());
    assert_eq!(c.content_type(), None);
}

#[test]
fn freeze_then_title_round_trips_to_fresh_live() {
    let mut c = Content::new();
    c.set_body(String::from("old body"));
    c.set_static(Some(String::from("text/plain")), b"bytes".to_vec());
    let d = c.set_title(String::from("x"));
    assert!(d.fresh_fanout);
    assert_eq!(title_of(&c), "x");
    assert_eq!(body_of(&c), "");
    assert_eq!(c.content_type(), None);
}

#[test]
fn heartbeat_applies_only_to_live_content() {
    let mut c = Content::new();
    assert_eq!(c.send_heartbeat(3), Some(3));
    c.set_static(None, Vec::new());
    assert_eq!(c.send_heartbeat(3), None);
}

#[test]
fn refresh_applies_only_to_live_content() {
    let mut c = Content::new();
    let e = c.refresh().expect("live content can order a reload");
    assert_eq!(e.event_type, "refresh");
    c.set_static(None, Vec::new());
    assert!(c.refresh().is_none());
}
