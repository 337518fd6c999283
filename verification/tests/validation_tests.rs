use hfendpoints_openai::error::OpenAiError;
use hfendpoints_openai::transcription::{
    FieldData, RawField, ResponseFormat, TranscriptionRequest,
};

fn file_field(bytes: Vec<u8>, content_type: Option<&str>) -> RawField {
    RawField {
        name: String::from("file"),
        data: FieldData::Bytes {
            data: bytes,
            content_type: content_type.map(String::from),
        },
    }
}

fn text_field(name: &str, value: &str) -> RawField {
    RawField {
        name: String::from(name),
        data: FieldData::Text(String::from(value)),
    }
}

fn validation_message(r: Result<TranscriptionRequest, OpenAiError>) -> String {
    match r {
        Err(OpenAiError::Validation(m)) => m,
        Err(other) => panic!("expected a validation error, got {:?}", other),
        Ok(_) => panic!("expected a validation error, got a request"),
    }
}

#[test]
fn file_present_yields_defaults() {
    let req = TranscriptionRequest::validate(
        Some(vec![1, 2, 3]),
        String::from("audio/wav"),
        None,
        None,
        None,
        None,
    )
    .expect("a file alone must validate");
    assert_eq!(req.file, vec![1, 2, 3]);
    assert_eq!(req.content_type, "audio/wav");
    assert_eq!(req.language, "en");
    assert_eq!(req.prompt, None);
    assert_eq!(f32::from_bits(req.temperature_bits), 0.0);
    assert!(matches!(req.response_format, ResponseFormat::Json));
}

#[test]
fn explicit_options_are_kept() {
    let req = TranscriptionRequest::validate(
        Some(vec![9]),
        String::from("audio/mpeg"),
        Some(String::from("fr")),
        Some(String::from("a prompt")),
        Some(0.5f32.to_bits()),
        Some(String::from("verbose_json")),
    )
    .expect("explicit options must validate");
    assert_eq!(req.language, "fr");
    assert_eq!(req.prompt, Some(String::from("a prompt")));
    assert_eq!(f32::from_bits(req.temperature_bits), 0.5);
    assert!(matches!(req.response_format, ResponseFormat::VerboseJson));

    let req = TranscriptionRequest::validate(
        Some(vec![9]),
        String::from("audio/mpeg"),
        None,
        None,
        None,
        Some(String::from("text")),
    )
    .expect("the text format must validate");
    assert!(matches!(req.response_format, ResponseFormat::Text));
}

#[test]
fn missing_file_is_rejected() {
    let msg = validation_message(TranscriptionRequest::validate(
        None,
        String::from("unknown"),
        None,
        None,
        None,
        None,
    ));
    assert_eq!(msg, "Required parameter 'file' was not provided");

    let msg = validation_message(TranscriptionRequest::from_fields(vec![text_field(
        "language", "en",
    )]));
    assert_eq!(msg, "Required parameter 'file' was not provided");

    let msg = validation_message(TranscriptionRequest::from_fields(Vec::new()));
    assert_eq!(msg, "Required parameter 'file' was not provided");
}

#[test]
fn bogus_format_is_rejected_by_name() {
    let msg = validation_message(TranscriptionRequest::validate(
        Some(vec![1]),
        String::from("unknown"),
        None,
        None,
        None,
        Some(String::from("bogus")),
    ));
    assert!(msg.contains("bogus"));
    assert!(msg.contains("json"));
    assert!(msg.contains("verbose_json"));
    assert!(msg.contains("text"));
    assert_eq!(
        msg,
        "Unknown response_format: bogus. Possible values are: 'json', 'verbose_json', 'text'."
    );
}

#[test]
fn unknown_field_is_rejected_by_name() {
    let msg = validation_message(TranscriptionRequest::from_fields(vec![
        file_field(vec![1], None),
        text_field("speed", "2x"),
    ]));
    assert_eq!(msg, "Unknown field: speed");
}

#[test]
fn wrong_payload_shape_is_rejected_by_name() {
    let msg = validation_message(TranscriptionRequest::from_fields(vec![RawField {
        name: String::from("file"),
        data: FieldData::Text(String::from("not bytes... a number?")),
    }]));
    assert_eq!(msg, "Field 'file' carries an unexpected payload");
}

#[test]
fn from_fields_gathers_and_defaults() {
    let req = TranscriptionRequest::from_fields(vec![file_field(vec![1, 2, 3, 4, 5], None)])
        .expect("a file alone must validate");
    assert_eq!(req.file, vec![1, 2, 3, 4, 5]);
    assert_eq!(req.content_type, "unknown");
    assert_eq!(req.language, "en");
    assert_eq!(req.prompt, None);
    assert_eq!(f32::from_bits(req.temperature_bits), 0.0);
    assert!(matches!(req.response_format, ResponseFormat::Json));
}

#[test]
fn from_fields_last_occurrence_wins() {
    let req = TranscriptionRequest::from_fields(vec![
        text_field("language", "en"),
        file_field(vec![7], Some("audio/flac")),
        text_field("language", "de"),
        RawField {
            name: String::from("temperature"),
            data: FieldData::Number(0.25f32.to_bits()),
        },
        text_field("response_format", "text"),
    ])
    .expect("recognized fields must validate");
    assert_eq!(req.file, vec![7]);
    assert_eq!(req.content_type, "audio/flac");
    assert_eq!(req.language, "de");
    assert_eq!(f32::from_bits(req.temperature_bits), 0.25);
    assert!(matches!(req.response_format, ResponseFormat::Text));
}

#[test]
fn model_field_is_accepted_and_ignored() {
    let req = TranscriptionRequest::from_fields(vec![
        file_field(vec![7], None),
        text_field("model", "whisper-large"),
    ])
    .expect("the model field is accepted for compatibility");
    assert_eq!(req.file, vec![7]);
    assert_eq!(req.language, "en");
}
