use crate::transcription::{
    apply_field, collect_from, collected, empty_collected, field_ok, missing_file_message,
    parse_format, recognized, request_outcome, unknown_field_message, validated, CollectedView,
    FieldData, RawField, RequestView, ResponseFormat,
};
use vstd::prelude::*;

verus! {

/// The text a textual field payload carries; other shapes carry none.
pub open spec fn text_payload(d: FieldData) -> Seq<char> {
    match d {
        FieldData::Text(t) => t@,
        _ => Seq::empty(),
    }
}

/// Whether a field is accepted, and with which message it is rejected,
/// does not depend on the state it is applied to.
proof fn lemma_apply_any_acc(acc: CollectedView, f: RawField)
    ensures
        apply_field(acc, f) is Ok <==> field_ok(f),
        apply_field(acc, f) is Err ==> apply_field(acc, f)->Err_0 == apply_field(
            empty_collected(),
            f,
        )->Err_0,
{
}

/// What a clean field list makes of each gathered key: untouched where
/// the key is never named, set where it is.
proof fn lemma_collect_keys(acc: CollectedView, fields: Seq<RawField>)
    requires
        forall|j: int| 0 <= j < fields.len() ==> field_ok(#[trigger] fields[j]),
    ensures
        collect_from(acc, fields) is Ok,
        (forall|j: int| 0 <= j < fields.len() ==> (#[trigger] fields[j]).name@ != "file"@)
            ==> collect_from(acc, fields)->Ok_0.file == acc.file,
        (acc.file is Some || exists|j: int|
            0 <= j < fields.len() && (#[trigger] fields[j]).name@ == "file"@) ==> collect_from(
            acc,
            fields,
        )->Ok_0.file is Some,
        (forall|j: int| 0 <= j < fields.len() ==> (#[trigger] fields[j]).name@ != "language"@)
            ==> collect_from(acc, fields)->Ok_0.language == acc.language,
        (forall|j: int| 0 <= j < fields.len() ==> (#[trigger] fields[j]).name@ != "temperature"@)
            ==> collect_from(acc, fields)->Ok_0.temperature_bits == acc.temperature_bits,
        (forall|j: int|
            0 <= j < fields.len() ==> (#[trigger] fields[j]).name@ != "response_format"@)
            ==> collect_from(acc, fields)->Ok_0.response_format == acc.response_format,
        collect_from(acc, fields)->Ok_0.response_format == acc.response_format || exists|j: int|
            0 <= j < fields.len() && (#[trigger] fields[j]).name@ == "response_format"@
                && collect_from(acc, fields)->Ok_0.response_format == Some(
                text_payload(fields[j].data),
            ),
    decreases fields.len(),
{
    if fields.len() > 0 {
        lemma_apply_any_acc(acc, fields[0]);
        let acc2 = apply_field(acc, fields[0])->Ok_0;
        let rest = fields.drop_first();
        assert(forall|j: int| 0 <= j < rest.len() ==> rest[j] == fields[j + 1]);
        lemma_collect_keys(acc2, rest);
        let c = collect_from(acc, fields)->Ok_0;
        if c.response_format != acc.response_format {
            if c.response_format == acc2.response_format {
                assert(fields[0].name@ == "response_format"@ && c.response_format == Some(
                    text_payload(fields[0].data),
                ));
            } else {
                let w = choose|j: int|
                    0 <= j < rest.len() && (#[trigger] rest[j]).name@ == "response_format"@
                        && c.response_format == Some(text_payload(rest[j].data));
                assert(fields[w + 1].name@ == "response_format"@ && c.response_format == Some(
                    text_payload(fields[w + 1].data),
                ));
            }
        }
        if acc.file is Some || exists|j: int|
            0 <= j < fields.len() && (#[trigger] fields[j]).name@ == "file"@ {
            if acc.file is None && fields[0].name@ != "file"@ {
                let w = choose|j: int|
                    0 <= j < fields.len() && (#[trigger] fields[j]).name@ == "file"@;
                assert(rest[w - 1].name@ == "file"@);
            }
        }
    }
}

/// The first rejected field decides the whole outcome, whatever state the
/// fold reached before it.
proof fn lemma_collect_first_error(acc: CollectedView, fields: Seq<RawField>, k: int)
    requires
        0 <= k < fields.len(),
        forall|j: int| 0 <= j < k ==> field_ok(#[trigger] fields[j]),
        !field_ok(fields[k]),
    ensures
        collect_from(acc, fields) == Err::<CollectedView, Seq<char>>(
            apply_field(empty_collected(), fields[k])->Err_0,
        ),
    decreases k,
{
    lemma_apply_any_acc(acc, fields[0]);
    if k > 0 {
        let acc2 = apply_field(acc, fields[0])->Ok_0;
        let rest = fields.drop_first();
        assert(forall|j: int| 0 <= j < rest.len() ==> rest[j] == fields[j + 1]);
        lemma_collect_first_error(acc2, rest, k - 1);
    }
}

/// For every decoded input whose fields are all accepted but none of
/// which is the file field, validation fails with the missing-file
/// error. The outcome is settled by the fields alone, before scheduling:
/// such an input never reaches the queue.
pub proof fn lemma_missing_file_rejected(fields: Seq<RawField>)
    requires
        forall|j: int| 0 <= j < fields.len() ==> field_ok(#[trigger] fields[j]),
        forall|j: int| 0 <= j < fields.len() ==> (#[trigger] fields[j]).name@ != "file"@,
    ensures
        request_outcome(fields) == Err::<RequestView, Seq<char>>(missing_file_message()),
{
    lemma_collect_keys(empty_collected(), fields);
}

/// For every decoded input holding an unrecognized field name after only
/// accepted fields, validation fails, naming that field.
pub proof fn lemma_unknown_field_rejected(fields: Seq<RawField>, k: int)
    requires
        0 <= k < fields.len(),
        forall|j: int| 0 <= j < k ==> field_ok(#[trigger] fields[j]),
        !recognized(fields[k].name@),
    ensures
        request_outcome(fields) == Err::<RequestView, Seq<char>>(
            unknown_field_message(fields[k].name@),
        ),
{
    assert(!field_ok(fields[k]));
    lemma_collect_first_error(empty_collected(), fields, k);
}

/// For every decoded input whose fields are all accepted, with a file
/// field present and every format field naming a format of the closed
/// set, validation succeeds; and each omitted option takes its
/// documented default — language "en", temperature 0.0 (whose bits are
/// 0), format json. An input whose format field names anything else is
/// rejected instead, as `validated` states.
pub proof fn lemma_file_present_accepted(fields: Seq<RawField>)
    requires
        forall|j: int| 0 <= j < fields.len() ==> field_ok(#[trigger] fields[j]),
        exists|j: int| 0 <= j < fields.len() && (#[trigger] fields[j]).name@ == "file"@,
        forall|j: int|
            0 <= j < fields.len() && (#[trigger] fields[j]).name@ == "response_format"@
                ==> parse_format(text_payload(fields[j].data)) is Some,
    ensures
        request_outcome(fields) is Ok,
        (forall|j: int| 0 <= j < fields.len() ==> (#[trigger] fields[j]).name@ != "language"@)
            ==> request_outcome(fields)->Ok_0.language == "en"@,
        (forall|j: int| 0 <= j < fields.len() ==> (#[trigger] fields[j]).name@ != "temperature"@)
            ==> request_outcome(fields)->Ok_0.temperature_bits == 0,
        (forall|j: int|
            0 <= j < fields.len() ==> (#[trigger] fields[j]).name@ != "response_format"@)
            ==> request_outcome(fields)->Ok_0.response_format == ResponseFormat::Json,
    {
    lemma_collect_keys(empty_collected(), fields);
    let c = collected(fields)->Ok_0;
    assert(c.file is Some);
    if c.response_format is Some {
        let w = choose|j: int|
            0 <= j < fields.len() && (#[trigger] fields[j]).name@ == "response_format"@
                && c.response_format == Some(text_payload(fields[j].data));
        assert(parse_format(text_payload(fields[w].data)) is Some);
    }
    assert(validated(c) is Ok);
}

} // verus!
