use hfendpoints_openai::error::OpenAiError;
use hfendpoints_openai::segment::Segment;

#[test]
fn segment_builder_all_field_set() {
    if let Ok(segment) = Segment::builder()
        .id(1)
        .start(2.2f32.to_bits())
        .end(3.8f32.to_bits())
        .seek(7)
        .temperature(1.0f32.to_bits())
        .text(String::from("Hello"))
        .tokens(vec![1, 2, 3])
        .avg_logprob(2.71f32.to_bits())
        .compression_ratio(1.2f32.to_bits())
        .no_speech_prob(0.1f32.to_bits())
        .build()
    {
        assert_eq!(segment.id, 1);
        assert_eq!(f32::from_bits(segment.start_bits), 2.2);
        assert_eq!(f32::from_bits(segment.end_bits), 3.8);
        assert_eq!(segment.seek, 7);
        assert_eq!(f32::from_bits(segment.temperature_bits), 1.0);
        assert_eq!(segment.text, String::from("Hello"));
        assert_eq!(segment.tokens, vec![1, 2, 3]);
        assert_eq!(f32::from_bits(segment.avg_logprob_bits), 2.71);
        assert_eq!(f32::from_bits(segment.compression_ratio_bits), 1.2);
        assert_eq!(f32::from_bits(segment.no_speech_prob_bits), 0.1);
    } else {
        panic!("Failed to create segment");
    }
}

#[test]
fn segment_builder_with_default_fields() {
    if let Ok(segment) = Segment::builder()
        .id(1)
        .start(2.2f32.to_bits())
        .end(3.8f32.to_bits())
        .temperature(1.0f32.to_bits())
        .text(String::from("Hello"))
        .tokens(vec![1, 2, 3])
        .build()
    {
        assert_eq!(segment.id, 1);
        assert_eq!(f32::from_bits(segment.start_bits), 2.2);
        assert_eq!(f32::from_bits(segment.end_bits), 3.8);
        assert_eq!(segment.seek, 0);
        assert_eq!(f32::from_bits(segment.temperature_bits), 1.0);
        assert_eq!(segment.text, String::from("Hello"));
        assert_eq!(segment.tokens, vec![1, 2, 3]);
        assert_eq!(f32::from_bits(segment.avg_logprob_bits), 0.0);
        assert_eq!(f32::from_bits(segment.compression_ratio_bits), 0.0);
        assert_eq!(f32::from_bits(segment.no_speech_prob_bits), 0.0);
    } else {
        panic!("Failed to create segment");
    }
}

fn missing_field_message(build: Result<Segment, OpenAiError>) -> String {
    match build {
        Err(OpenAiError::Validation(m)) => m,
        other => panic!("expected a validation error, got {:?}", other),
    }
}

#[test]
fn segment_builder_names_first_missing_field() {
    let msg = missing_field_message(Segment::builder().build());
    assert_eq!(msg, "Segment::id is not set");

    let msg = missing_field_message(Segment::builder().id(1).build());
    assert_eq!(msg, "Segment::start is not set");

    let msg = missing_field_message(Segment::builder().id(1).start(0).build());
    assert_eq!(msg, "Segment::end is not set");

    let msg = missing_field_message(Segment::builder().id(1).start(0).end(0).build());
    assert_eq!(msg, "Segment::temperature is not set");

    let msg = missing_field_message(Segment::builder().id(1).start(0).end(0).temperature(0).build());
    assert_eq!(msg, "Segment::text is not set");

    let msg = missing_field_message(
        Segment::builder().id(1).start(0).end(0).temperature(0).text(String::from("hi")).build(),
    );
    assert_eq!(msg, "Segment::tokens is not set");
}
