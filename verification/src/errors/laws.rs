//! What holds of the registry, the codec and the conversions, for every value.

use vstd::prelude::*;
use vstd::std_specs::convert::FromSpec;
use crate::errors::apex::Error;
use crate::errors::codec::{
    decode_doc,
    decode_fields,
    fallback,
    kind_of_code,
    lemma_keys_differ,
    record_of,
    wire_fields,
};
use crate::errors::codes::{
    code_of,
    detail_of,
    well_formed,
    ErrorCodes,
    ErrorCodesView,
    ErrorKind,
};
use crate::errors::db::DbError;
use crate::errors::domain::{
    DestinationError,
    GetDashboardError,
    PutAlertError,
    PutDashboardError,
    TemplateError,
};
use crate::json::{integer_of, lemma_lookup_found, lookup, JsonDoc};

verus! {

/// The wire code depends on the kind alone: two failures of one kind have
/// one code, whatever their payloads are.
pub proof fn lemma_code_ignores_payload(a: ErrorCodesView, b: ErrorCodesView)
    requires
        a.kind == b.kind,
    ensures
        code_of(a.kind) == code_of(b.kind),
{
}

/// No code is assigned twice: two kinds with one code are one kind.
pub proof fn lemma_codes_are_distinct(a: ErrorKind, b: ErrorKind)
    requires
        code_of(a) == code_of(b),
    ensures
        a == b,
{
}

/// The codes lie in two bands: 10001 for the generic server error, 20001 to
/// 20012 for the failures of search and query.
pub proof fn lemma_code_bands(kind: ErrorKind)
    ensures
        kind == ErrorKind::ServerInternalError ==> code_of(kind) == 10001,
        kind != ErrorKind::ServerInternalError ==> 20001 <= code_of(kind) <= 20012,
{
}

/// Every classified failure has a well-formed view.
pub proof fn lemma_view_is_well_formed(code: ErrorCodes)
    ensures
        well_formed(code@),
{
}

/// The detail is empty for the kinds whose payload names a stream, a field
/// or a function and for the kinds without payload; for every other kind it
/// is the payload as it stands.
pub proof fn lemma_detail_policy(v: ErrorCodesView)
    ensures
        (v.kind == ErrorKind::FullTextSearchFieldNotFound || v.kind
            == ErrorKind::SearchStreamNotFound || v.kind == ErrorKind::SearchFieldNotFound
            || v.kind == ErrorKind::SearchFunctionNotDefined || v.kind
            == ErrorKind::SearchParquetFileNotFound || v.kind
            == ErrorKind::SearchFieldHasNoCompatibleDataType) ==> detail_of(v) == Seq::<
            char,
        >::empty(),
        (v.kind == ErrorKind::ServerInternalError || v.kind == ErrorKind::SearchSQLNotValid
            || v.kind == ErrorKind::SearchSQLExecuteError || v.kind
            == ErrorKind::SearchCancelQuery || v.kind == ErrorKind::SearchTimeout || v.kind
            == ErrorKind::InvalidParams || v.kind == ErrorKind::RatelimitExceeded) ==> detail_of(
            v,
        ) == v.payload,
{
}

/// A code is read as a kind exactly when it is the code of a kind other than
/// `InvalidParams` and `RatelimitExceeded`, and then as that kind.
pub proof fn lemma_codes_read(code: int)
    ensures
        kind_of_code(code) matches Some(kind) ==> code_of(kind) == code,
        kind_of_code(code) is Some <==> (code == 10001 || 20001 <= code <= 20010),
{
}

/// The wire record of a failure holds its code and its payload.
pub proof fn lemma_record_fields(v: ErrorCodesView)
    ensures
        wire_fields(record_of(v)) == Some((code_of(v.kind) as i64, v.payload)),
{
    lemma_keys_differ();
    let entries = record_of(v)->Object_0;
    assert(entries.len() == 3);
    lemma_lookup_found(entries, "code"@, 0, 0);
    lemma_lookup_found(entries, "inner"@, 0, 2);
    assert(integer_of(entries[0].1) == Some(code_of(v.kind) as i64));
}

/// Reading inverts writing, record by record: the wire record of a failure
/// whose code is at most 20010 is read as that failure, with its code and
/// its payload, whatever text the record was read from.
pub proof fn lemma_record_round_trip(v: ErrorCodesView, text: Seq<char>)
    requires
        well_formed(v),
        code_of(v.kind) <= 20010,
    ensures
        decode_doc(text, Some(record_of(v))) == v,
        code_of(decode_doc(text, Some(record_of(v))).kind) == code_of(v.kind),
        decode_doc(text, Some(record_of(v))).payload == v.payload,
{
    lemma_record_fields(v);
    assert(kind_of_code(code_of(v.kind) as int) == Some(v.kind));
}

/// The wire records of `InvalidParams` and `RatelimitExceeded` are written
/// but not read: they degrade to a server error that carries the text.
pub proof fn lemma_unread_codes_fall_back(v: ErrorCodesView, text: Seq<char>)
    requires
        code_of(v.kind) > 20010,
    ensures
        decode_doc(text, Some(record_of(v))) == fallback(text),
{
    lemma_record_fields(v);
}

/// Reading is total, and what cannot be read keeps the text: a text that is
/// not JSON, a document that is not an object (an array, say), an object
/// without `code`, one whose `code` is not an integer within the signed
/// 64-bit range, and one without `inner` all give a server error that
/// carries the text as it came.
pub proof fn lemma_malformed_falls_back(
    text: Seq<char>,
    doc: JsonDoc,
    elements: Seq<JsonDoc>,
    entries: Seq<(Seq<char>, JsonDoc)>,
)
    ensures
        decode_doc(text, None) == fallback(text),
        !(doc is Object) ==> decode_doc(text, Some(doc)) == fallback(text),
        decode_doc(text, Some(JsonDoc::Array(elements))) == fallback(text),
        lookup(entries, "code"@) is None ==> decode_doc(text, Some(JsonDoc::Object(entries)))
            == fallback(text),
        (lookup(entries, "code"@) matches Some(code_doc) && integer_of(code_doc) is None)
            ==> decode_doc(text, Some(JsonDoc::Object(entries))) == fallback(text),
        lookup(entries, "inner"@) is None ==> decode_doc(text, Some(JsonDoc::Object(entries)))
            == fallback(text),
{
}

/// A code that is not read gives a server error that carries the text from
/// which it was taken, whatever the inner text is.
pub proof fn lemma_unknown_code_falls_back(text: Seq<char>, code: int, inner: Seq<char>)
    requires
        code != 10001,
        !(20001 <= code <= 20010),
    ensures
        decode_fields(text, code, inner) == fallback(text),
{
}

/// What is read is well formed: a kind without payload never keeps an inner
/// text.
pub proof fn lemma_decoded_is_well_formed(text: Seq<char>, parsed: Option<JsonDoc>)
    ensures
        well_formed(decode_doc(text, parsed)),
{
}

/// A leaf failure reaches the apex through the persistence layer and in no
/// other way: converting it at once gives what converting it layer by layer
/// gives.
pub proof fn lemma_leaf_goes_through_persistence(
    get: GetDashboardError,
    put: PutDashboardError,
    destination: DestinationError,
    template: TemplateError,
)
    ensures
        <Error as FromSpec<GetDashboardError>>::from_spec(get) == <Error as FromSpec<
            DbError,
        >>::from_spec(<DbError as FromSpec<GetDashboardError>>::from_spec(get)),
        <Error as FromSpec<PutDashboardError>>::from_spec(put) == <Error as FromSpec<
            DbError,
        >>::from_spec(<DbError as FromSpec<PutDashboardError>>::from_spec(put)),
        <Error as FromSpec<DestinationError>>::from_spec(destination) == <Error as FromSpec<
            DbError,
        >>::from_spec(<DbError as FromSpec<DestinationError>>::from_spec(destination)),
        <Error as FromSpec<TemplateError>>::from_spec(template) == <Error as FromSpec<
            DbError,
        >>::from_spec(<DbError as FromSpec<TemplateError>>::from_spec(template)),
{
}

/// Every apex variant but the two without a cause renders as its tag, a hash
/// sign, a space and the rendering of what it wraps.
pub proof fn lemma_rendering_is_tagged(error: Error)
    requires
        error.is_tagged(),
    ensures
        error.text() == error.tag() + "# "@ + error.cause_text(),
{
}

/// Conversion keeps the rendering. A persistence failure that became an
/// apex error renders under the tag of the persistence layer. Every leaf
/// failure that became a persistence failure, or an apex error, renders
/// with its own rendering at the end: a dashboard that could not be read or
/// was refused directly below the tag of the persistence layer, the others
/// below the tag of their variant as well.
pub proof fn lemma_conversion_keeps_rendering(
    cause: DbError,
    get: GetDashboardError,
    put: PutDashboardError,
    destination: DestinationError,
    template: TemplateError,
    alert: PutAlertError,
)
    ensures
        <Error as FromSpec<DbError>>::from_spec(cause).text() == "DbError# "@ + cause.text(),
        <DbError as FromSpec<GetDashboardError>>::from_spec(get).text() == get.text(),
        <DbError as FromSpec<PutDashboardError>>::from_spec(put).text() == put.text(),
        <DbError as FromSpec<DestinationError>>::from_spec(destination).text()
            == "DestinationError# "@ + destination.text(),
        <DbError as FromSpec<TemplateError>>::from_spec(template).text() == "TemplateError# "@
            + template.text(),
        <DbError as FromSpec<PutAlertError>>::from_spec(alert).text() == "PutAlert# "@
            + alert.text(),
        <Error as FromSpec<GetDashboardError>>::from_spec(get).text() == "DbError# "@
            + get.text(),
        <Error as FromSpec<PutDashboardError>>::from_spec(put).text() == "DbError# "@
            + put.text(),
        <Error as FromSpec<DestinationError>>::from_spec(destination).text() == "DbError# "@
            + ("DestinationError# "@ + destination.text()),
        <Error as FromSpec<TemplateError>>::from_spec(template).text() == "DbError# "@ + (
        "TemplateError# "@ + template.text()),
{
    reveal_strlit("DbError");
    reveal_strlit("# ");
    reveal_strlit("DbError# ");
    assert("DbError"@ + "# "@ =~= "DbError# "@);
    lemma_tagged(cause.text());
    lemma_tagged(get.text());
    lemma_tagged(put.text());
    lemma_tagged("DestinationError# "@ + destination.text());
    lemma_tagged("TemplateError# "@ + template.text());
}

/// The tag of the persistence layer, the hash sign and the space before a
/// text are the one prefix before it.
proof fn lemma_tagged(text: Seq<char>)
    requires
        "DbError"@ + "# "@ == "DbError# "@,
    ensures
        "DbError"@ + "# "@ + text == "DbError# "@ + text,
{
}

} // verus!
