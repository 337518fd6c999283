use crate::error::{OpenAiError, OpenAiResult};
use vstd::prelude::*;
use vstd::string::*;

verus! {

/// One segment of the transcribed text and the corresponding details.
///
/// Fractional quantities (times, temperature, probabilities) are carried
/// as the bit pattern of an IEEE binary32 value: the library never
/// computes on them, and the network adapter converts at the boundary.
#[derive(Clone, Debug)]
pub struct Segment {
    /// Unique identifier of the segment.
    pub id: u16,
    /// Start time of the segment in seconds, as binary32 bits.
    pub start_bits: u32,
    /// End time of the segment in seconds, as binary32 bits.
    pub end_bits: u32,
    /// Seek offset of the segment.
    pub seek: u16,
    /// Temperature used for generating the segment, as binary32 bits.
    pub temperature_bits: u32,
    /// Text content of the segment.
    pub text: String,
    /// Token ids for the text content.
    pub tokens: Vec<u32>,
    /// Average log probability of the segment, as binary32 bits.
    pub avg_logprob_bits: u32,
    /// Compression ratio of the segment, as binary32 bits.
    pub compression_ratio_bits: u32,
    /// Probability of no speech in the segment, as binary32 bits.
    pub no_speech_prob_bits: u32,
}

/// Staged, validating constructor for [`Segment`].
///
/// `id`, `start`, `end`, `temperature`, `text` and `tokens` are mandatory;
/// `seek` defaults to 0 and the remaining probabilities default to the
/// bits of 0.0, which are 0.
pub struct SegmentBuilder {
    pub id: Option<u16>,
    pub start_bits: Option<u32>,
    pub end_bits: Option<u32>,
    pub seek: Option<u16>,
    pub temperature_bits: Option<u32>,
    pub text: Option<String>,
    pub tokens: Option<Vec<u32>>,
    pub avg_logprob_bits: Option<u32>,
    pub compression_ratio_bits: Option<u32>,
    pub no_speech_prob_bits: Option<u32>,
}

impl SegmentBuilder {
    /// True when every mandatory field has been set.
    pub open spec fn complete(self) -> bool {
        &&& self.id is Some
        &&& self.start_bits is Some
        &&& self.end_bits is Some
        &&& self.temperature_bits is Some
        &&& self.text is Some
        &&& self.tokens is Some
    }

    /// The segment a complete builder denotes, defaults filled in.
    pub open spec fn built(self) -> Segment {
        Segment {
            id: self.id->0,
            start_bits: self.start_bits->0,
            end_bits: self.end_bits->0,
            seek: if self.seek is Some { self.seek->0 } else { 0 },
            temperature_bits: self.temperature_bits->0,
            text: self.text->0,
            tokens: self.tokens->0,
            avg_logprob_bits: if self.avg_logprob_bits is Some { self.avg_logprob_bits->0 } else { 0 },
            compression_ratio_bits: if self.compression_ratio_bits is Some { self.compression_ratio_bits->0 } else { 0 },
            no_speech_prob_bits: if self.no_speech_prob_bits is Some { self.no_speech_prob_bits->0 } else { 0 },
        }
    }

    /// The message naming the first mandatory field still unset, in the
    /// order the builder checks them.
    pub open spec fn missing_field_message(self) -> Seq<char> {
        if self.id is None {
            "Segment::id is not set"@
        } else if self.start_bits is None {
            "Segment::start is not set"@
        } else if self.end_bits is None {
            "Segment::end is not set"@
        } else if self.temperature_bits is None {
            "Segment::temperature is not set"@
        } else if self.text is None {
            "Segment::text is not set"@
        } else {
            "Segment::tokens is not set"@
        }
    }

    pub fn id(self, id: u16) -> (r: Self)
        ensures
            r == (SegmentBuilder { id: Some(id), ..self }),
    {
        SegmentBuilder { id: Some(id), ..self }
    }

    pub fn start(self, start_bits: u32) -> (r: Self)
        ensures
            r == (SegmentBuilder { start_bits: Some(start_bits), ..self }),
    {
        SegmentBuilder { start_bits: Some(start_bits), ..self }
    }

    pub fn end(self, end_bits: u32) -> (r: Self)
        ensures
            r == (SegmentBuilder { end_bits: Some(end_bits), ..self }),
    {
        SegmentBuilder { end_bits: Some(end_bits), ..self }
    }

    pub fn seek(self, seek: u16) -> (r: Self)
        ensures
            r == (SegmentBuilder { seek: Some(seek), ..self }),
    {
        SegmentBuilder { seek: Some(seek), ..self }
    }

    pub fn temperature(self, temperature_bits: u32) -> (r: Self)
        ensures
            r == (SegmentBuilder { temperature_bits: Some(temperature_bits), ..self }),
    {
        SegmentBuilder { temperature_bits: Some(temperature_bits), ..self }
    }

    pub fn text(self, text: String) -> (r: Self)
        ensures
            r == (SegmentBuilder { text: Some(text), ..self }),
    {
        SegmentBuilder { text: Some(text), ..self }
    }

    pub fn tokens(self, tokens: Vec<u32>) -> (r: Self)
        ensures
            r == (SegmentBuilder { tokens: Some(tokens), ..self }),
    {
        SegmentBuilder { tokens: Some(tokens), ..self }
    }

    pub fn avg_logprob(self, avg_logprob_bits: u32) -> (r: Self)
        ensures
            r == (SegmentBuilder { avg_logprob_bits: Some(avg_logprob_bits), ..self }),
    {
        SegmentBuilder { avg_logprob_bits: Some(avg_logprob_bits), ..self }
    }

    pub fn compression_ratio(self, compression_ratio_bits: u32) -> (r: Self)
        ensures
            r == (SegmentBuilder { compression_ratio_bits: Some(compression_ratio_bits), ..self }),
    {
        SegmentBuilder { compression_ratio_bits: Some(compression_ratio_bits), ..self }
    }

    pub fn no_speech_prob(self, no_speech_prob_bits: u32) -> (r: Self)
        ensures
            r == (SegmentBuilder { no_speech_prob_bits: Some(no_speech_prob_bits), ..self }),
    {
        SegmentBuilder { no_speech_prob_bits: Some(no_speech_prob_bits), ..self }
    }

    /// Finishes the builder: a segment when every mandatory field is set,
    /// otherwise a validation error naming the first unset one.
    pub fn build(self) -> (r: OpenAiResult<Segment>)
        ensures
            r is Ok <==> self.complete(),
            r matches Ok(s) ==> s == self.built(),
            r matches Err(e) ==> (e matches OpenAiError::Validation(m)
                && m@ == self.missing_field_message()),
    {
        let id = match self.id {
            Some(id) => id,
            None => {
                return Err(OpenAiError::Validation(String::from_str("Segment::id is not set")));
            },
        };
        let start_bits = match self.start_bits {
            Some(b) => b,
            None => {
                return Err(OpenAiError::Validation(String::from_str("Segment::start is not set")));
            },
        };
        let end_bits = match self.end_bits {
            Some(b) => b,
            None => {
                return Err(OpenAiError::Validation(String::from_str("Segment::end is not set")));
            },
        };
        let temperature_bits = match self.temperature_bits {
            Some(b) => b,
            None => {
                return Err(OpenAiError::Validation(String::from_str(
                    "Segment::temperature is not set",
                )));
            },
        };
        let text = match self.text {
            Some(t) => t,
            None => {
                return Err(OpenAiError::Validation(String::from_str("Segment::text is not set")));
            },
        };
        let tokens = match self.tokens {
            Some(t) => t,
            None => {
                return Err(OpenAiError::Validation(String::from_str(
                    "Segment::tokens is not set",
                )));
            },
        };
        Ok(Segment {
            id,
            start_bits,
            end_bits,
            seek: match self.seek {
                Some(s) => s,
                None => 0,
            },
            temperature_bits,
            text,
            tokens,
            avg_logprob_bits: match self.avg_logprob_bits {
                Some(b) => b,
                None => 0,
            },
            compression_ratio_bits: match self.compression_ratio_bits {
                Some(b) => b,
                None => 0,
            },
            no_speech_prob_bits: match self.no_speech_prob_bits {
                Some(b) => b,
                None => 0,
            },
        })
    }
}

impl Default for SegmentBuilder {
    fn default() -> (r: Self)
        ensures
            r.id is None,
            r.start_bits is None,
            r.end_bits is None,
            r.seek is None,
            r.temperature_bits is None,
            r.text is None,
            r.tokens is None,
            r.avg_logprob_bits is None,
            r.compression_ratio_bits is None,
            r.no_speech_prob_bits is None,
    {
        SegmentBuilder {
            id: None,
            start_bits: None,
            end_bits: None,
            seek: None,
            temperature_bits: None,
            text: None,
            tokens: None,
            avg_logprob_bits: None,
            compression_ratio_bits: None,
            no_speech_prob_bits: None,
        }
    }
}

impl Segment {
    /// A fresh builder with every field unset.
    pub fn builder() -> (r: SegmentBuilder)
        ensures
            r.id is None,
            r.start_bits is None,
            r.end_bits is None,
            r.seek is None,
            r.temperature_bits is None,
            r.text is None,
            r.tokens is None,
            r.avg_logprob_bits is None,
            r.compression_ratio_bits is None,
            r.no_speech_prob_bits is None,
    {
        SegmentBuilder::default()
    }
}

} // verus!
