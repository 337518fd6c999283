use hfendpoints_openai::bridge::{
    await_unary, new_endpoint, reply_step, worker_step, EndpointContext, HandlerOutcome,
    InferenceHandler, PollAction, Reply,
};
use hfendpoints_openai::error::OpenAiError;
use hfendpoints_openai::render::render_body;
use hfendpoints_openai::transcription::{
    Delta, Done, FieldData, RawField, ResponseFormat, StreamEvent, TranscriptionRequest,
    TranscriptionResponse,
};

fn request_with_file(bytes: Vec<u8>) -> TranscriptionRequest {
    TranscriptionRequest::from_fields(vec![RawField {
        name: String::from("file"),
        data: FieldData::Bytes {
            data: bytes,
            content_type: None,
        },
    }])
    .expect("a file alone must validate")
}

/// Replies with one structured "hello" for every request.
struct HelloHandler;

impl InferenceHandler for HelloHandler {
    fn handle(&self, _request: TranscriptionRequest) -> HandlerOutcome {
        HandlerOutcome::Complete(TranscriptionResponse::json(String::from("hello")))
    }
}

/// Streams two deltas and their completion for every request.
struct StreamingHandler;

impl InferenceHandler for StreamingHandler {
    fn handle(&self, _request: TranscriptionRequest) -> HandlerOutcome {
        HandlerOutcome::Stream(vec![
            StreamEvent::Delta(Delta {
                delta: String::from("a"),
            }),
            StreamEvent::Delta(Delta {
                delta: String::from("b"),
            }),
            StreamEvent::Done(Done {
                text: String::from("ab"),
            }),
        ])
    }
}

/// Echoes the request's language back as a raw-text response.
struct EchoHandler;

impl InferenceHandler for EchoHandler {
    fn handle(&self, request: TranscriptionRequest) -> HandlerOutcome {
        HandlerOutcome::Complete(TranscriptionResponse::text(request.language))
    }
}

/// Replies with one structured "hi" for every request.
struct HiHandler;

impl InferenceHandler for HiHandler {
    fn handle(&self, _request: TranscriptionRequest) -> HandlerOutcome {
        HandlerOutcome::Complete(TranscriptionResponse::json(String::from("hi")))
    }
}

/// Streams nothing at all: the reply channel closes empty.
struct SilentHandler;

impl InferenceHandler for SilentHandler {
    fn handle(&self, _request: TranscriptionRequest) -> HandlerOutcome {
        HandlerOutcome::Stream(Vec::new())
    }
}

/// Fails on every request.
struct FailingHandler;

impl InferenceHandler for FailingHandler {
    fn handle(&self, _request: TranscriptionRequest) -> HandlerOutcome {
        HandlerOutcome::Failure(String::from("the model fell over"))
    }
}

fn run_worker<H: InferenceHandler>(
    handler: &H,
    queue: &mut tokio::sync::mpsc::UnboundedReceiver<hfendpoints_openai::bridge::WorkItem>,
) {
    while worker_step(handler, queue) {}
}

#[test]
fn scheduled_request_gets_exactly_one_json_reply() {
    let (ctx, mut queue) = new_endpoint();
    let mut rx = ctx.schedule(request_with_file(vec![1, 2, 3])).expect("queue open");
    drop(ctx);
    run_worker(&HelloHandler, &mut queue);

    match rx.blocking_recv() {
        Some(Reply::Value(TranscriptionResponse::Json(t))) => assert_eq!(t.text, "hello"),
        other => panic!("expected one structured reply, got {:?}", other),
    }
    assert!(rx.blocking_recv().is_none(), "the reply channel must close after the reply");
}

#[test]
fn stream_events_arrive_in_order_done_last() {
    let (ctx, mut queue) = new_endpoint();
    let mut rx = ctx.schedule(request_with_file(vec![1])).expect("queue open");
    drop(ctx);
    run_worker(&StreamingHandler, &mut queue);

    let mut observed: Vec<Reply> = Vec::new();
    while let Some(r) = rx.blocking_recv() {
        observed.push(r);
    }
    assert_eq!(observed.len(), 3);
    match &observed[0] {
        Reply::Event(StreamEvent::Delta(d)) => assert_eq!(d.delta, "a"),
        other => panic!("expected the first delta, got {:?}", other),
    }
    match &observed[1] {
        Reply::Event(StreamEvent::Delta(d)) => assert_eq!(d.delta, "b"),
        other => panic!("expected the second delta, got {:?}", other),
    }
    match &observed[2] {
        Reply::Event(StreamEvent::Done(d)) => assert_eq!(d.text, "ab"),
        other => panic!("expected the terminal event last, got {:?}", other),
    }
}

#[test]
fn five_byte_file_transcribed_to_wire_body() {
    let req = request_with_file(vec![10, 20, 30, 40, 50]);
    assert_eq!(req.file.len(), 5);
    assert_eq!(req.language, "en");
    assert_eq!(f32::from_bits(req.temperature_bits), 0.0);
    assert!(matches!(req.response_format, ResponseFormat::Json));

    let (ctx, mut queue) = new_endpoint();
    let mut rx = ctx.schedule(req).expect("queue open");
    drop(ctx);
    run_worker(&HiHandler, &mut queue);

    let response = await_unary(&mut rx).expect("one terminal value");
    let body = render_body(&response).expect("a json response has a body");
    assert_eq!(&body, r#"{"text":"hi"}"#);
}

#[test]
fn handler_failure_is_delivered_not_crashed() {
    let (ctx, mut queue) = new_endpoint();
    let mut rx = ctx.schedule(request_with_file(vec![1])).expect("queue open");
    drop(ctx);
    run_worker(&FailingHandler, &mut queue);

    match await_unary(&mut rx) {
        Err(OpenAiError::Handler(m)) => assert_eq!(m, "the model fell over"),
        other => panic!("expected the handler failure as a value, got {:?}", other),
    }
}

#[test]
fn empty_reply_channel_is_no_response() {
    let (ctx, mut queue) = new_endpoint();
    let mut rx = ctx.schedule(request_with_file(vec![1])).expect("queue open");
    drop(ctx);
    run_worker(&SilentHandler, &mut queue);

    match await_unary(&mut rx) {
        Err(OpenAiError::NoResponse) => {}
        other => panic!("expected no response, got {:?}", other),
    }
}

#[test]
fn closed_queue_fails_scheduling() {
    let (ctx, queue) = new_endpoint();
    drop(queue);
    match ctx.schedule(request_with_file(vec![1])) {
        Err(OpenAiError::Scheduling(m)) => assert_eq!(m, "The work queue is closed"),
        other => panic!("expected a scheduling error, got {:?}", other),
    }
}

#[test]
fn dropped_receiver_makes_worker_send_a_noop() {
    let (ctx, mut queue) = new_endpoint();
    let rx = ctx.schedule(request_with_file(vec![1])).expect("queue open");
    drop(rx);
    drop(ctx);
    // The worker's send finds no receiver; it must neither block nor
    // panic, and the loop must drain to a clean stop.
    run_worker(&HelloHandler, &mut queue);
}

#[test]
fn hundred_concurrent_schedules_each_get_their_own_reply() {
    let rt = tokio::runtime::Builder::new_multi_thread()
        .worker_threads(4)
        .build()
        .expect("a runtime");
    let (ctx, queue) = new_endpoint();

    let worker = rt.spawn_blocking(move || {
        let mut queue = queue;
        run_worker(&EchoHandler, &mut queue);
    });

    let mut handles = Vec::new();
    for i in 0..100u32 {
        let ctx_i: EndpointContext = ctx.clone();
        handles.push(rt.spawn(async move {
            let marker = format!("marker-{}", i);
            let req = TranscriptionRequest::validate(
                Some(vec![i as u8]),
                String::from("audio/wav"),
                Some(marker.clone()),
                None,
                None,
                None,
            )
            .expect("a file must validate");
            let mut rx = ctx_i.schedule(req).expect("queue open");
            match rx.recv().await {
                Some(Reply::Value(TranscriptionResponse::Text(t))) => assert_eq!(t, marker),
                other => panic!("expected this caller's own reply, got {:?}", other),
            }
            assert!(rx.recv().await.is_none(), "exactly one terminal value each");
        }));
    }
    drop(ctx);

    for h in handles {
        rt.block_on(h).expect("every caller must finish");
    }
    rt.block_on(worker).expect("the worker must drain and stop");
}

#[test]
fn caller_protocol_drives_a_stream_to_its_text() {
    let (ctx, mut queue) = new_endpoint();
    let mut rx = ctx.schedule(request_with_file(vec![1])).expect("queue open");
    drop(ctx);
    run_worker(&StreamingHandler, &mut queue);

    let mut delivered = false;
    let mut increments: Vec<String> = Vec::new();
    let full_text = loop {
        match reply_step(delivered, rx.blocking_recv()) {
            PollAction::EmitDelta(d) => {
                delivered = true;
                increments.push(d);
            }
            PollAction::CompleteText(t) => break t,
            other => panic!("the stream must end in its completion, got {:?}", other),
        }
    };
    assert_eq!(increments, vec![String::from("a"), String::from("b")]);
    assert_eq!(full_text, "ab");
}
