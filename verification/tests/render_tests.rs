use hfendpoints_openai::render::{render_body, render_event, render_transcription};
use hfendpoints_openai::transcription::{
    Delta, Done, StreamEvent, Transcription, TranscriptionResponse,
};

#[test]
fn serialize_stream_event_delta() {
    let delta = StreamEvent::Delta(Delta {
        delta: String::from("Hello world"),
    });
    let delta_json = render_event(&delta);

    assert_eq!(
        &delta_json,
        r#"{"type":"transcript.text.delta","delta":"Hello world"}"#
    );
}

#[test]
fn serialize_stream_event_done() {
    let done = StreamEvent::Done(Done {
        text: String::from("Hello world"),
    });
    let done_json = render_event(&done);

    assert_eq!(
        &done_json,
        r#"{"type":"transcript.text.done","text":"Hello world"}"#
    );
}

#[test]
fn json_body_is_exact() {
    let body = render_transcription(&Transcription::new(String::from("hi")));
    assert_eq!(&body, r#"{"text":"hi"}"#);
}

#[test]
fn json_body_escapes_specials() {
    let body = render_transcription(&Transcription::new(String::from("a\"b\\c\nd")));
    assert_eq!(&body, "{\"text\":\"a\\\"b\\\\c\\nd\"}");

    let body = render_transcription(&Transcription::new(String::from("\u{8}\t\u{c}\r")));
    assert_eq!(&body, "{\"text\":\"\\b\\t\\f\\r\"}");

    let body = render_transcription(&Transcription::new(String::from("\u{1}\u{1f}")));
    assert_eq!(&body, "{\"text\":\"\\u0001\\u001f\"}");
}

#[test]
fn render_body_by_format() {
    let json = TranscriptionResponse::json(String::from("hi"));
    assert_eq!(render_body(&json), Some(String::from(r#"{"text":"hi"}"#)));

    let text = TranscriptionResponse::text(String::from("raw words"));
    assert_eq!(render_body(&text), Some(String::from("raw words")));
}
