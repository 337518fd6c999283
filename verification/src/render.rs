use crate::transcription::{StreamEvent, Transcription, TranscriptionResponse};
use vstd::prelude::*;
use vstd::string::*;

verus! {

/// The lowercase hexadecimal digit of `n`.
pub open spec fn hex_digit(n: int) -> char {
    "0123456789abcdef"@[n]
}

/// How one character appears inside a JSON string literal: quote and
/// backslash take a backslash, the named control characters take their
/// short escapes, the remaining control characters the `\u00XX` form with
/// lowercase hexadecimal digits, and every other character stands as
/// itself.
pub open spec fn escaped_char(c: char) -> Seq<char> {
    if c == '"' {
        "\\\""@
    } else if c == '\\' {
        "\\\\"@
    } else if c == '\u{8}' {
        "\\b"@
    } else if c == '\t' {
        "\\t"@
    } else if c == '\n' {
        "\\n"@
    } else if c == '\u{c}' {
        "\\f"@
    } else if c == '\r' {
        "\\r"@
    } else if (c as u32) < 0x20 {
        "\\u00"@ + seq![hex_digit((c as u32) as int / 16), hex_digit((c as u32) as int % 16)]
    } else {
        seq![c]
    }
}

/// A whole text as it appears inside a JSON string literal.
pub open spec fn escaped(s: Seq<char>) -> Seq<char>
    decreases s.len(),
{
    if s.len() == 0 {
        Seq::empty()
    } else {
        escaped_char(s[0]) + escaped(s.drop_first())
    }
}

/// Escaping one more character escapes it at the end.
proof fn lemma_escaped_snoc(s: Seq<char>, c: char)
    ensures
        escaped(s.push(c)) == escaped(s) + escaped_char(c),
    decreases s.len(),
{
    if s.len() == 0 {
        assert(s.push(c) =~= seq![c]);
        assert(s.push(c)[0] == c);
        assert(s.push(c).drop_first() =~= Seq::<char>::empty());
        assert(escaped(s.push(c)) == escaped_char(c) + escaped(Seq::<char>::empty()));
        assert(escaped(s.push(c)) =~= escaped(s) + escaped_char(c));
    } else {
        lemma_escaped_snoc(s.drop_first(), c);
        assert(s.push(c).drop_first() =~= s.drop_first().push(c));
        assert(escaped(s.push(c)) =~= escaped(s) + escaped_char(c));
    }
}

/// A JSON string literal: the escaped text between double quotes.
pub open spec fn quoted(s: Seq<char>) -> Seq<char> {
    "\""@ + escaped(s) + "\""@
}

/// The wire body of a plain `json` transcription.
pub open spec fn json_body(text: Seq<char>) -> Seq<char> {
    "{\"text\":"@ + quoted(text) + "}"@
}

/// The wire body of one streaming delta event.
pub open spec fn delta_body(delta: Seq<char>) -> Seq<char> {
    "{\"type\":\"transcript.text.delta\",\"delta\":"@ + quoted(delta) + "}"@
}

/// The wire body of the terminal streaming event.
pub open spec fn done_body(text: Seq<char>) -> Seq<char> {
    "{\"type\":\"transcript.text.done\",\"text\":"@ + quoted(text) + "}"@
}

/// The wire body of one streaming event.
pub open spec fn event_body(e: StreamEvent) -> Seq<char> {
    match e {
        StreamEvent::Delta(d) => delta_body(d.delta@),
        StreamEvent::Done(d) => done_body(d.text@),
    }
}

/// Appends the text as it appears inside a JSON string literal.
fn append_escaped(out: &mut String, s: &str)
    ensures
        final(out)@ == old(out)@ + escaped(s@),
{
    let n = s.unicode_len();
    let mut i: usize = 0;
    while i < n
        invariant
            n == s@.len(),
            i <= n,
            out@ == old(out)@ + escaped(s@.subrange(0, i as int)),
        decreases n - i,
    {
        let c = s.get_char(i);
        if c == '"' {
            out.append("\\\"");
        } else if c == '\\' {
            out.append("\\\\");
        } else if c == '\u{8}' {
            out.append("\\b");
        } else if c == '\t' {
            out.append("\\t");
        } else if c == '\n' {
            out.append("\\n");
        } else if c == '\u{c}' {
            out.append("\\f");
        } else if c == '\r' {
            out.append("\\r");
        } else if (c as u32) < 0x20 {
            out.append("\\u00");
            let table = "0123456789abcdef";
            proof {
                reveal_strlit("0123456789abcdef");
            }
            let v = c as u32;
            let hi = (v / 16) as usize;
            let lo = (v % 16) as usize;
            let hi_s = table.substring_ascii(hi, hi + 1);
            out.append(hi_s);
            let lo_s = table.substring_ascii(lo, lo + 1);
            out.append(lo_s);
            proof {
                assert(table@.subrange(hi as int, hi as int + 1) =~= seq![
                    hex_digit((c as u32) as int / 16),
                ]);
                assert(table@.subrange(lo as int, lo as int + 1) =~= seq![
                    hex_digit((c as u32) as int % 16),
                ]);
                assert(out@ =~= old(out)@ + escaped(s@.subrange(0, i as int)) + escaped_char(c));
            }
        } else {
            let one = s.substring_char(i, i + 1);
            proof {
                assert(one@ =~= seq![c]);
            }
            out.append(one);
        }
        proof {
            lemma_escaped_snoc(s@.subrange(0, i as int), c);
            assert(s@.subrange(0, i as int).push(c) =~= s@.subrange(0, i as int + 1));
            assert(out@ =~= old(out)@ + escaped(s@.subrange(0, i as int + 1)));
        }
        i += 1;
    }
    proof {
        assert(s@.subrange(0, n as int) =~= s@);
    }
}

/// Appends the text as a JSON string literal, quotes included.
fn append_quoted(out: &mut String, s: &str)
    ensures
        final(out)@ == old(out)@ + quoted(s@),
{
    out.append("\"");
    append_escaped(out, s);
    out.append("\"");
    proof {
        assert(out@ =~= old(out)@ + quoted(s@));
    }
}

/// Renders the wire body of a plain `json` transcription, for example
/// `{"text":"hi"}`.
pub fn render_transcription(t: &Transcription) -> (r: String)
    ensures
        r@ == json_body(t.text@),
{
    let mut out = String::from_str("{\"text\":");
    append_quoted(&mut out, t.text.as_str());
    out.append("}");
    proof {
        assert(out@ =~= json_body(t.text@));
    }
    out
}

/// Renders the wire body of one streaming event.
pub fn render_event(e: &StreamEvent) -> (r: String)
    ensures
        r@ == event_body(*e),
{
    match e {
        StreamEvent::Delta(d) => {
            let mut out = String::from_str("{\"type\":\"transcript.text.delta\",\"delta\":");
            append_quoted(&mut out, d.delta.as_str());
            out.append("}");
            proof {
                assert(out@ =~= event_body(*e));
            }
            out
        },
        StreamEvent::Done(d) => {
            let mut out = String::from_str("{\"type\":\"transcript.text.done\",\"text\":");
            append_quoted(&mut out, d.text.as_str());
            out.append("}");
            proof {
                assert(out@ =~= event_body(*e));
            }
            out
        },
    }
}

/// Renders the wire body of a terminal response: a structured object for
/// `json`, the raw text for `text`. A `verbose_json` body carries
/// binary32 numbers, which this library only holds as bits; rendering it
/// is the adapter's work, so here it has no body.
pub fn render_body(r: &TranscriptionResponse) -> (b: Option<String>)
    ensures
        r matches TranscriptionResponse::Json(t) ==> (b matches Some(s) && s@ == json_body(
            t.text@,
        )),
        r matches TranscriptionResponse::Text(t) ==> (b matches Some(s) && s@ == t@),
        r is VerboseJson <==> b is None,
{
    match r {
        TranscriptionResponse::Json(t) => Some(render_transcription(t)),
        TranscriptionResponse::Text(t) => Some(t.clone()),
        TranscriptionResponse::VerboseJson(_) => None,
    }
}

} // verus!
