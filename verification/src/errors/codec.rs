//! The wire form of a classified failure: a JSON object with the members
//! `code`, `message` and `inner`, and the reading of it, which never fails.

use vstd::prelude::*;
use vstd::string::*;
use crate::errors::apex::Error;
use crate::errors::codes::{
    carries_payload,
    code_of,
    message_of,
    ErrorCodes,
    ErrorCodesView,
    ErrorKind,
};
use crate::json::{
    as_i64,
    as_object,
    as_text,
    insert_member,
    integer_of,
    json_entries,
    json_parse,
    json_text,
    json_view,
    lemma_lookup_absent,
    lookup,
    member,
    new_map,
    number_value,
    object_value,
    parse,
    print,
    text_value,
    JsonDoc,
};

verus! {

/// The wire record of a classified failure: its code, its category message
/// and its payload, in this order.
pub open spec fn record_of(v: ErrorCodesView) -> JsonDoc {
    JsonDoc::Object(
        seq![
            ("code"@, JsonDoc::Integer(code_of(v.kind) as int)),
            ("message"@, JsonDoc::Text(message_of(v))),
            ("inner"@, JsonDoc::Text(v.payload)),
        ],
    )
}

/// The kind that a wire code is read as. The codes of `InvalidParams` and
/// `RatelimitExceeded` are written but not read.
pub open spec fn kind_of_code(code: int) -> Option<ErrorKind> {
    if code == 10001 {
        Some(ErrorKind::ServerInternalError)
    } else if code == 20001 {
        Some(ErrorKind::SearchSQLNotValid)
    } else if code == 20002 {
        Some(ErrorKind::SearchStreamNotFound)
    } else if code == 20003 {
        Some(ErrorKind::FullTextSearchFieldNotFound)
    } else if code == 20004 {
        Some(ErrorKind::SearchFieldNotFound)
    } else if code == 20005 {
        Some(ErrorKind::SearchFunctionNotDefined)
    } else if code == 20006 {
        Some(ErrorKind::SearchParquetFileNotFound)
    } else if code == 20007 {
        Some(ErrorKind::SearchFieldHasNoCompatibleDataType)
    } else if code == 20008 {
        Some(ErrorKind::SearchSQLExecuteError)
    } else if code == 20009 {
        Some(ErrorKind::SearchCancelQuery)
    } else if code == 20010 {
        Some(ErrorKind::SearchTimeout)
    } else {
        None
    }
}

/// What a text that cannot be read degrades to: a server error that carries
/// the text itself.
pub open spec fn fallback(text: Seq<char>) -> ErrorCodesView {
    ErrorCodesView { kind: ErrorKind::ServerInternalError, payload: text }
}

/// The failure that a code and an inner text stand for, read from `text`.
pub open spec fn decode_fields(text: Seq<char>, code: int, inner: Seq<char>) -> ErrorCodesView {
    match kind_of_code(code) {
        Some(kind) => ErrorCodesView {
            kind,
            payload: if carries_payload(kind) {
                inner
            } else {
                Seq::empty()
            },
        },
        None => fallback(text),
    }
}

/// The inner text that a member stands for: the text of a string, the
/// printed form of any other document.
pub open spec fn inner_text(doc: JsonDoc) -> Seq<char> {
    match doc {
        JsonDoc::Text(text) => text,
        _ => json_text(doc),
    }
}

/// The code and the inner text of a document: there are none unless it is
/// an object with an integer member `code` and a member `inner`.
pub open spec fn wire_fields(doc: JsonDoc) -> Option<(i64, Seq<char>)> {
    match doc {
        JsonDoc::Object(entries) => match lookup(entries, "code"@) {
            Some(code_doc) => match integer_of(code_doc) {
                Some(code) => match lookup(entries, "inner"@) {
                    Some(inner_doc) => Some((code, inner_text(inner_doc))),
                    None => None,
                },
                None => None,
            },
            None => None,
        },
        _ => None,
    }
}

/// The failure that a text is read as, given what the JSON reader made of it.
pub open spec fn decode_doc(text: Seq<char>, parsed: Option<JsonDoc>) -> ErrorCodesView {
    match parsed {
        Some(doc) => match wire_fields(doc) {
            Some((code, inner)) => decode_fields(text, code as int, inner),
            None => fallback(text),
        },
        None => fallback(text),
    }
}

/// The three keys of the wire record differ from one another.
pub proof fn lemma_keys_differ()
    ensures
        "code"@ != "message"@,
        "code"@ != "inner"@,
        "message"@ != "inner"@,
{
    reveal_strlit("code");
    reveal_strlit("message");
    reveal_strlit("inner");
    assert("code"@.len() == 4);
    assert("message"@.len() == 7);
    assert("inner"@.len() == 5);
}

/// Reads the code and the inner text out of a document.
pub(crate) fn read_wire_fields(value: &serde_json::Value) -> (res: Option<(i64, String)>)
    ensures
        res is Some <==> wire_fields(json_view(*value)) is Some,
        res matches Some(fields) ==> wire_fields(json_view(*value)) == Some((fields.0, fields.1@)),
{
    let map = match as_object(value) {
        Some(map) => map,
        None => return None,
    };
    let code = match member(map, "code") {
        Some(code_value) => match as_i64(code_value) {
            Some(code) => code,
            None => return None,
        },
        None => return None,
    };
    let inner = match member(map, "inner") {
        Some(inner_value) => match as_text(inner_value) {
            Some(text) => String::from_str(text),
            None => print(inner_value),
        },
        None => return None,
    };
    Some((code, inner))
}

impl ErrorCodes {
    /// Writes the wire record: the text that the JSON printer gives for the
    /// object with the code, the category message and the payload.
    pub fn to_json(&self) -> (res: String)
        ensures
            res@ == json_text(record_of(self@)),
    {
        let code = self.get_code();
        let message = self.get_message();
        let inner = self.get_inner_message();
        let ghost first = ("code"@, JsonDoc::Integer(code as int));
        let ghost second = ("message"@, JsonDoc::Text(message@));
        let ghost third = ("inner"@, JsonDoc::Text(inner@));
        let mut map = new_map();
        proof {
            lemma_keys_differ();
            lemma_lookup_absent(json_entries(map), "code"@, 0);
        }
        insert_member(&mut map, String::from_str("code"), number_value(code));
        proof {
            assert(json_entries(map) =~= seq![first]);
            lemma_lookup_absent(json_entries(map), "message"@, 0);
        }
        insert_member(&mut map, String::from_str("message"), text_value(message));
        proof {
            assert(json_entries(map) =~= seq![first, second]);
            lemma_lookup_absent(json_entries(map), "inner"@, 0);
        }
        insert_member(&mut map, String::from_str("inner"), text_value(inner));
        assert(json_entries(map) =~= seq![first, second, third]);
        let value = object_value(map);
        print(&value)
    }

    /// The rendering of a classified failure, which is its wire record.
    pub fn to_string(&self) -> (res: String)
        ensures
            res@ == json_text(record_of(self@)),
    {
        self.to_json()
    }

    /// The failure that a code and an inner text stand for. A code that is
    /// not read gives a server error that carries `text`, the text from
    /// which the two were taken.
    pub fn from_wire_fields(text: &str, code: i64, inner: String) -> (res: ErrorCodes)
        ensures
            res@ == decode_fields(text@, code as int, inner@),
    {
        if code == 10001 {
            ErrorCodes::ServerInternalError(inner)
        } else if code == 20001 {
            ErrorCodes::SearchSQLNotValid(inner)
        } else if code == 20002 {
            ErrorCodes::SearchStreamNotFound(inner)
        } else if code == 20003 {
            ErrorCodes::FullTextSearchFieldNotFound
        } else if code == 20004 {
            ErrorCodes::SearchFieldNotFound(inner)
        } else if code == 20005 {
            ErrorCodes::SearchFunctionNotDefined(inner)
        } else if code == 20006 {
            ErrorCodes::SearchParquetFileNotFound
        } else if code == 20007 {
            ErrorCodes::SearchFieldHasNoCompatibleDataType(inner)
        } else if code == 20008 {
            ErrorCodes::SearchSQLExecuteError(inner)
        } else if code == 20009 {
            ErrorCodes::SearchCancelQuery(inner)
        } else if code == 20010 {
            ErrorCodes::SearchTimeout(inner)
        } else {
            ErrorCodes::ServerInternalError(String::from_str(text))
        }
    }

    /// Reads a wire record. This never fails: a text that is not JSON, not
    /// an object, without an integer `code` or without `inner`, or with a
    /// code that is not read, gives a server error that carries the text.
    pub fn from_json(json: &str) -> (res: Result<ErrorCodes, Error>)
        ensures
            res matches Ok(code) && code@ == decode_doc(json@, json_parse(json@)),
    {
        let value = match parse(json) {
            Some(value) => value,
            None => return Ok(ErrorCodes::ServerInternalError(String::from_str(json))),
        };
        match read_wire_fields(&value) {
            Some(fields) => Ok(ErrorCodes::from_wire_fields(json, fields.0, fields.1)),
            None => Ok(ErrorCodes::ServerInternalError(String::from_str(json))),
        }
    }
}

} // verus!
