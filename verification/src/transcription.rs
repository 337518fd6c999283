use crate::error::{OpenAiError, OpenAiResult};
use crate::segment::Segment;
use vstd::prelude::*;
use vstd::string::*;

verus! {

/// The format of the rendered transcription body.
#[derive(Copy, Clone, Debug, PartialEq, Eq, Structural)]
pub enum ResponseFormat {
    Json,
    Text,
    VerboseJson,
}

impl Default for ResponseFormat {
    fn default() -> (r: Self)
        ensures
            r == ResponseFormat::Json,
    {
        ResponseFormat::Json
    }
}

/// A transcription returned by the model for the provided input.
#[derive(Clone, Debug)]
pub struct Transcription {
    /// The transcribed text.
    pub text: String,
}

impl Transcription {
    pub fn new(text: String) -> (r: Self)
        ensures
            r.text == text,
    {
        Transcription { text }
    }
}

/// A verbose transcription: the text with its duration, language and
/// per-segment details.
#[derive(Clone, Debug)]
pub struct VerboseTranscription {
    /// The transcribed text.
    pub text: String,
    /// The duration of the input audio in seconds, as binary32 bits.
    pub duration_bits: u32,
    /// The language of the input audio.
    pub language: String,
    /// Segments of the transcribed text and their corresponding details.
    pub segments: Vec<Segment>,
}

impl VerboseTranscription {
    pub fn new(text: String, duration_bits: u32, language: String, segments: Vec<Segment>) -> (r:
        Self)
        ensures
            r.text == text,
            r.duration_bits == duration_bits,
            r.language == language,
            r.segments == segments,
    {
        VerboseTranscription { text, duration_bits, language, segments }
    }
}

/// An additional increment of transcribed text in a streaming response.
#[derive(Clone, Debug)]
pub struct Delta {
    /// The text delta that was additionally transcribed.
    pub delta: String,
}

/// The terminal event of a streaming response, carrying the full text.
#[derive(Clone, Debug)]
pub struct Done {
    /// The text that was transcribed.
    pub text: String,
}

/// One unit of a streaming response: zero or more `Delta` events followed
/// by exactly one `Done`.
#[derive(Clone, Debug)]
pub enum StreamEvent {
    Delta(Delta),
    Done(Done),
}

/// A terminal transcription value in one of the supported formats.
#[derive(Clone, Debug)]
pub enum TranscriptionResponse {
    Json(Transcription),
    Text(String),
    VerboseJson(VerboseTranscription),
}

impl TranscriptionResponse {
    /// A raw-text response.
    pub fn text(content: String) -> (r: Self)
        ensures
            r == TranscriptionResponse::Text(content),
    {
        TranscriptionResponse::Text(content)
    }

    /// A structured response carrying the transcribed text.
    pub fn json(content: String) -> (r: Self)
        ensures
            r matches TranscriptionResponse::Json(t) && t.text == content,
    {
        TranscriptionResponse::Json(Transcription { text: content })
    }

    /// A verbose structured response.
    pub fn verbose(transcription: VerboseTranscription) -> (r: Self)
        ensures
            r == TranscriptionResponse::VerboseJson(transcription),
    {
        TranscriptionResponse::VerboseJson(transcription)
    }
}

/// A validated unit of work submitted for inference. Invalid input never
/// becomes a `TranscriptionRequest`: values are built only by
/// [`TranscriptionRequest::validate`] or [`TranscriptionRequest::from_fields`].
#[derive(Clone, Debug)]
pub struct TranscriptionRequest {
    /// The audio bytes to transcribe.
    pub file: Vec<u8>,
    /// The declared content type of the audio bytes.
    pub content_type: String,
    /// The language of the input audio.
    pub language: String,
    /// An optional text to guide the model's style.
    pub prompt: Option<String>,
    /// The sampling temperature, as binary32 bits; the bits of 0.0 are 0.
    pub temperature_bits: u32,
    /// The format of the rendered output.
    pub response_format: ResponseFormat,
}

/// The mathematical content of a request.
#[verifier::ext_equal]
pub struct RequestView {
    pub file: Seq<u8>,
    pub content_type: Seq<char>,
    pub language: Seq<char>,
    pub prompt: Option<Seq<char>>,
    pub temperature_bits: u32,
    pub response_format: ResponseFormat,
}

impl View for TranscriptionRequest {
    type V = RequestView;

    open spec fn view(&self) -> RequestView {
        RequestView {
            file: self.file@,
            content_type: self.content_type@,
            language: self.language@,
            prompt: match self.prompt {
                Some(p) => Some(p@),
                None => None,
            },
            temperature_bits: self.temperature_bits,
            response_format: self.response_format,
        }
    }
}

/// The payload of one decoded form field.
#[derive(Debug)]
pub enum FieldData {
    /// A binary payload with its declared content type, as the file field
    /// carries it.
    Bytes { data: Vec<u8>, content_type: Option<String> },
    /// A textual payload.
    Text(String),
    /// A binary32 value given by its bits, as the temperature field
    /// carries it.
    Number(u32),
}

/// One decoded form field: its name as it appeared on the wire, and its
/// payload.
#[derive(Debug)]
pub struct RawField {
    pub name: String,
    pub data: FieldData,
}

/// The fields gathered from a decoded form, before validation.
pub struct CollectedFields {
    pub file: Option<Vec<u8>>,
    pub content_type: Option<String>,
    pub language: Option<String>,
    pub prompt: Option<String>,
    pub temperature_bits: Option<u32>,
    pub response_format: Option<String>,
}

/// The mathematical content of [`CollectedFields`].
#[verifier::ext_equal]
pub struct CollectedView {
    pub file: Option<Seq<u8>>,
    pub content_type: Option<Seq<char>>,
    pub language: Option<Seq<char>>,
    pub prompt: Option<Seq<char>>,
    pub temperature_bits: Option<u32>,
    pub response_format: Option<Seq<char>>,
}

pub open spec fn opt_string_view(o: Option<String>) -> Option<Seq<char>> {
    match o {
        Some(s) => Some(s@),
        None => None,
    }
}

pub open spec fn opt_bytes_view(o: Option<Vec<u8>>) -> Option<Seq<u8>> {
    match o {
        Some(b) => Some(b@),
        None => None,
    }
}

impl View for CollectedFields {
    type V = CollectedView;

    open spec fn view(&self) -> CollectedView {
        CollectedView {
            file: opt_bytes_view(self.file),
            content_type: opt_string_view(self.content_type),
            language: opt_string_view(self.language),
            prompt: opt_string_view(self.prompt),
            temperature_bits: self.temperature_bits,
            response_format: opt_string_view(self.response_format),
        }
    }
}

/// The field names the endpoint recognizes.
pub open spec fn recognized(name: Seq<char>) -> bool {
    ||| name == "file"@
    ||| name == "language"@
    ||| name == "model"@
    ||| name == "prompt"@
    ||| name == "temperature"@
    ||| name == "response_format"@
}

pub open spec fn unknown_field_message(name: Seq<char>) -> Seq<char> {
    "Unknown field: "@ + name
}

pub open spec fn unexpected_payload_message(name: Seq<char>) -> Seq<char> {
    "Field '"@ + name + "' carries an unexpected payload"@
}

pub open spec fn missing_file_message() -> Seq<char> {
    "Required parameter 'file' was not provided"@
}

pub open spec fn unknown_format_message(name: Seq<char>) -> Seq<char> {
    "Unknown response_format: "@ + name
        + ". Possible values are: 'json', 'verbose_json', 'text'."@
}

/// How one recognized field updates the gathered state; a last
/// occurrence wins. An unrecognized name, or a payload of the wrong
/// shape, rejects the whole input with the message for that field.
pub open spec fn apply_field(acc: CollectedView, f: RawField) -> Result<CollectedView, Seq<char>> {
    if f.name@ == "file"@ {
        match f.data {
            FieldData::Bytes { data, content_type } => Ok(
                CollectedView {
                    file: Some(data@),
                    content_type: Some(
                        match content_type {
                            Some(c) => c@,
                            None => "unknown"@,
                        },
                    ),
                    ..acc
                },
            ),
            _ => Err(unexpected_payload_message(f.name@)),
        }
    } else if f.name@ == "language"@ {
        match f.data {
            FieldData::Text(t) => Ok(CollectedView { language: Some(t@), ..acc }),
            _ => Err(unexpected_payload_message(f.name@)),
        }
    } else if f.name@ == "model"@ {
        // Accepted for compatibility and ignored entirely.
        match f.data {
            FieldData::Text(t) => Ok(acc),
            _ => Err(unexpected_payload_message(f.name@)),
        }
    } else if f.name@ == "prompt"@ {
        match f.data {
            FieldData::Text(t) => Ok(CollectedView { prompt: Some(t@), ..acc }),
            _ => Err(unexpected_payload_message(f.name@)),
        }
    } else if f.name@ == "temperature"@ {
        match f.data {
            FieldData::Number(b) => Ok(CollectedView { temperature_bits: Some(b), ..acc }),
            _ => Err(unexpected_payload_message(f.name@)),
        }
    } else if f.name@ == "response_format"@ {
        match f.data {
            FieldData::Text(t) => Ok(CollectedView { response_format: Some(t@), ..acc }),
            _ => Err(unexpected_payload_message(f.name@)),
        }
    } else {
        Err(unknown_field_message(f.name@))
    }
}

/// True when `apply_field` accepts the field, from any gathered state.
pub open spec fn field_ok(f: RawField) -> bool {
    apply_field(empty_collected(), f) is Ok
}

/// The message `apply_field` rejects the field with.
pub open spec fn field_error(f: RawField) -> Seq<char> {
    if recognized(f.name@) {
        unexpected_payload_message(f.name@)
    } else {
        unknown_field_message(f.name@)
    }
}

pub open spec fn empty_collected() -> CollectedView {
    CollectedView {
        file: None,
        content_type: None,
        language: None,
        prompt: None,
        temperature_bits: None,
        response_format: None,
    }
}

/// Folds the fields over the gathered state, left to right, stopping at
/// the first rejected field.
pub open spec fn collect_from(acc: CollectedView, fields: Seq<RawField>) -> Result<
    CollectedView,
    Seq<char>,
>
    decreases fields.len(),
{
    if fields.len() == 0 {
        Ok(acc)
    } else {
        match apply_field(acc, fields[0]) {
            Ok(acc2) => collect_from(acc2, fields.drop_first()),
            Err(m) => Err(m),
        }
    }
}

pub open spec fn collected(fields: Seq<RawField>) -> Result<CollectedView, Seq<char>> {
    collect_from(empty_collected(), fields)
}

/// The format name validation works with: the given one, or `json` when
/// the field was omitted.
pub open spec fn chosen_format_name(response_format: Option<Seq<char>>) -> Seq<char> {
    match response_format {
        Some(s) => s,
        None => "json"@,
    }
}

/// The closed set of format names.
pub open spec fn parse_format(name: Seq<char>) -> Option<ResponseFormat> {
    if name == "json"@ {
        Some(ResponseFormat::Json)
    } else if name == "verbose_json"@ {
        Some(ResponseFormat::VerboseJson)
    } else if name == "text"@ {
        Some(ResponseFormat::Text)
    } else {
        None
    }
}

/// What validation makes of gathered fields: the file is mandatory, the
/// format name must be in the closed set, and the remaining fields take
/// the documented defaults.
pub open spec fn validated(c: CollectedView) -> Result<RequestView, Seq<char>> {
    if c.file is None {
        Err(missing_file_message())
    } else if parse_format(chosen_format_name(c.response_format)) is None {
        Err(unknown_format_message(chosen_format_name(c.response_format)))
    } else {
        Ok(
            RequestView {
                file: c.file->0,
                content_type: match c.content_type {
                    Some(ct) => ct,
                    None => "unknown"@,
                },
                language: match c.language {
                    Some(l) => l,
                    None => "en"@,
                },
                prompt: c.prompt,
                temperature_bits: match c.temperature_bits {
                    Some(t) => t,
                    None => 0u32,
                },
                response_format: parse_format(chosen_format_name(c.response_format))->0,
            },
        )
    }
}

/// The outcome of the whole validation pipeline on decoded form fields.
pub open spec fn request_outcome(fields: Seq<RawField>) -> Result<RequestView, Seq<char>> {
    match collected(fields) {
        Ok(c) => validated(c),
        Err(m) => Err(m),
    }
}

/// String equality by content.
fn str_eq(a: &str, b: &str) -> (r: bool)
    ensures
        r == (a@ == b@),
{
    let sa = String::from_str(a);
    let sb = String::from_str(b);
    sa.eq(&sb)
}

impl TranscriptionRequest {
    /// Validates decoded form values into a request.
    ///
    /// The file is mandatory; the format name defaults to `json` and must
    /// lie in the closed set `json`, `verbose_json`, `text`, each other
    /// name being rejected by name; the language defaults to `en` and the
    /// temperature to 0.0, whose bits are 0.
    pub fn validate(
        file: Option<Vec<u8>>,
        content_type: String,
        language: Option<String>,
        prompt: Option<String>,
        temperature_bits: Option<u32>,
        response_format: Option<String>,
    ) -> (r: OpenAiResult<Self>)
        ensures
            r is Ok <==> (file is Some && parse_format(
                chosen_format_name(opt_string_view(response_format)),
            ) is Some),
            file is None ==> (r matches Err(OpenAiError::Validation(m)) && m@
                == missing_file_message()),
            (file is Some && parse_format(chosen_format_name(opt_string_view(response_format)))
                is None) ==> (r matches Err(OpenAiError::Validation(m)) && m@
                == unknown_format_message(chosen_format_name(opt_string_view(response_format)))),
            r matches Ok(req) ==> {
                &&& req.file == file->0
                &&& req.content_type == content_type
                &&& req.language@ == (match language {
                    Some(l) => l@,
                    None => "en"@,
                })
                &&& req.prompt == prompt
                &&& req.temperature_bits == (match temperature_bits {
                    Some(t) => t,
                    None => 0u32,
                })
                &&& req.response_format == parse_format(
                    chosen_format_name(opt_string_view(response_format)),
                )->0
            },
    {
        let file = match file {
            Some(f) => f,
            None => {
                return Err(
                    OpenAiError::Validation(
                        String::from_str("Required parameter 'file' was not provided"),
                    ),
                );
            },
        };
        let format_name = match response_format {
            Some(s) => s,
            None => String::from_str("json"),
        };
        let response_format = if str_eq(format_name.as_str(), "json") {
            ResponseFormat::Json
        } else if str_eq(format_name.as_str(), "verbose_json") {
            ResponseFormat::VerboseJson
        } else if str_eq(format_name.as_str(), "text") {
            ResponseFormat::Text
        } else {
            return Err(
                OpenAiError::Validation(
                    String::from_str("Unknown response_format: ").concat(
                        format_name.as_str(),
                    ).concat(". Possible values are: 'json', 'verbose_json', 'text'."),
                ),
            );
        };
        let language = match language {
            Some(l) => l,
            None => String::from_str("en"),
        };
        let temperature_bits = match temperature_bits {
            Some(t) => t,
            None => 0,
        };
        Ok(
            TranscriptionRequest {
                file,
                content_type,
                language,
                prompt,
                temperature_bits,
                response_format,
            },
        )
    }

    /// Gathers decoded form fields and validates them into a request.
    ///
    /// The first unrecognized or ill-shaped field rejects the input with
    /// a message naming it; otherwise validation proceeds as in
    /// [`TranscriptionRequest::validate`].
    pub fn from_fields(fields: Vec<RawField>) -> (r: OpenAiResult<Self>)
        ensures
            r matches Ok(req) ==> request_outcome(fields@) == Ok::<RequestView, Seq<char>>(req@),
            r matches Err(e) ==> {
                &&& e matches OpenAiError::Validation(m)
                &&& request_outcome(fields@) == Err::<RequestView, Seq<char>>(m@)
            },
    {
        let ghost all_fields: Seq<RawField> = fields@;
        let mut rest = fields;
        let mut acc = CollectedFields {
            file: None,
            content_type: None,
            language: None,
            prompt: None,
            temperature_bits: None,
            response_format: None,
        };
        proof {
            assert(acc@ =~= empty_collected());
        }
        while rest.len() > 0
            invariant
                all_fields == fields@,
                collect_from(acc@, rest@) == collected(all_fields),
            decreases rest.len(),
        {
            let ghost before: Seq<RawField> = rest@;
            let ghost acc_view: CollectedView = acc@;
            let f = rest.remove(0);
            proof {
                assert(before[0] == f);
                assert(before.remove(0) =~= before.drop_first());
            }
            acc = match Self::apply_field_exec(acc, f) {
                Ok(acc2) => acc2,
                Err(e) => {
                    proof {
                        assert(collect_from(acc_view, before) == apply_field(acc_view, f));
                    }
                    return Err(e);
                },
            };
        }
        let c = acc;
        Self::validate(
            c.file,
            match c.content_type {
                Some(ct) => ct,
                None => String::from_str("unknown"),
            },
            c.language,
            c.prompt,
            c.temperature_bits,
            c.response_format,
        )
    }

    /// Applies one decoded field to the gathered state, as `apply_field`
    /// describes.
    fn apply_field_exec(acc: CollectedFields, f: RawField) -> (r: Result<
        CollectedFields,
        OpenAiError,
    >)
        ensures
            r matches Ok(c) ==> apply_field(acc@, f) == Ok::<CollectedView, Seq<char>>(c@),
            r matches Err(e) ==> {
                &&& e matches OpenAiError::Validation(m)
                &&& apply_field(acc@, f) == Err::<CollectedView, Seq<char>>(m@)
            },
    {
        let RawField { name, data } = f;
        if str_eq(name.as_str(), "file") {
            match data {
                FieldData::Bytes { data, content_type } => {
                    let ct = match content_type {
                        Some(c) => c,
                        None => String::from_str("unknown"),
                    };
                    Ok(CollectedFields { file: Some(data), content_type: Some(ct), ..acc })
                },
                _ => Err(Self::unexpected_payload(name)),
            }
        } else if str_eq(name.as_str(), "language") {
            match data {
                FieldData::Text(t) => Ok(CollectedFields { language: Some(t), ..acc }),
                _ => Err(Self::unexpected_payload(name)),
            }
        } else if str_eq(name.as_str(), "model") {
            match data {
                FieldData::Text(t) => Ok(acc),
                _ => Err(Self::unexpected_payload(name)),
            }
        } else if str_eq(name.as_str(), "prompt") {
            match data {
                FieldData::Text(t) => Ok(CollectedFields { prompt: Some(t), ..acc }),
                _ => Err(Self::unexpected_payload(name)),
            }
        } else if str_eq(name.as_str(), "temperature") {
            match data {
                FieldData::Number(b) => Ok(CollectedFields { temperature_bits: Some(b), ..acc }),
                _ => Err(Self::unexpected_payload(name)),
            }
        } else if str_eq(name.as_str(), "response_format") {
            match data {
                FieldData::Text(t) => Ok(CollectedFields { response_format: Some(t), ..acc }),
                _ => Err(Self::unexpected_payload(name)),
            }
        } else {
            Err(
                OpenAiError::Validation(
                    String::from_str("Unknown field: ").concat(name.as_str()),
                ),
            )
        }
    }

    /// The rejection for a recognized field whose payload has the wrong
    /// shape.
    fn unexpected_payload(name: String) -> (e: OpenAiError)
        ensures
            e matches OpenAiError::Validation(m) && m@ == unexpected_payload_message(name@),
    {
        OpenAiError::Validation(
            String::from_str("Field '").concat(name.as_str()).concat(
                "' carries an unexpected payload",
            ),
        )
    }
}

} // verus!
