use pagecell::event::Event;

#[test]
fn sse_text_frames_type_and_data() {
    let e = Event { event_type: String::from("title"), data: String::from("T") };
    assert_eq!(e.to_sse(), "event: title\ndata: T\n\n");
}

#[test]
fn sse_text_frames_each_data_line() {
    let e = Event { event_type: String::from("body"), data: String::from("one\ntwo") };
    assert_eq!(e.to_sse(), "event: body\ndata: one\ndata: two\n\n");
}

#[test]
fn sse_text_of_a_clear_event() {
    let e = Event { event_type: String::from("clear-title"), data: String::from(".") };
    assert_eq!(e.to_sse(), "event: clear-title\ndata: .\n\n");
}
