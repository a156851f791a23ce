use infra_core::errors::ErrorCodes;

fn all_kinds(payload: &str) -> Vec<ErrorCodes> {
    let p = || payload.to_string();
    vec![
        ErrorCodes::ServerInternalError(p()),
        ErrorCodes::SearchSQLNotValid(p()),
        ErrorCodes::SearchStreamNotFound(p()),
        ErrorCodes::FullTextSearchFieldNotFound,
        ErrorCodes::SearchFieldNotFound(p()),
        ErrorCodes::SearchFunctionNotDefined(p()),
        ErrorCodes::SearchParquetFileNotFound,
        ErrorCodes::SearchFieldHasNoCompatibleDataType(p()),
        ErrorCodes::SearchSQLExecuteError(p()),
        ErrorCodes::SearchCancelQuery(p()),
        ErrorCodes::SearchTimeout(p()),
        ErrorCodes::InvalidParams(p()),
        ErrorCodes::RatelimitExceeded(p()),
    ]
}

fn decode(text: &str) -> ErrorCodes {
    match ErrorCodes::from_json(text) {
        Ok(code) => code,
        Err(_) => panic!("reading a wire record never fails"),
    }
}

fn assert_fallback(text: &str) {
    let code = decode(text);
    assert!(matches!(code, ErrorCodes::ServerInternalError(_)));
    assert_eq!(code.get_inner_message(), text);
}

#[test]
fn codes_are_the_assigned_ones() {
    let codes: Vec<u16> = all_kinds("x").iter().map(|c| c.get_code()).collect();
    assert_eq!(
        codes,
        vec![
            10001, 20001, 20002, 20003, 20004, 20005, 20006, 20007, 20008, 20009, 20010, 20011,
            20012
        ]
    );
}

#[test]
fn code_does_not_depend_on_payload() {
    let a = all_kinds("");
    let b = all_kinds("some other payload");
    for (x, y) in a.iter().zip(b.iter()) {
        assert_eq!(x.get_code(), y.get_code());
    }
}

#[test]
fn messages_name_the_subject_where_it_is_a_name() {
    let messages: Vec<String> = all_kinds("subj").iter().map(|c| c.get_message()).collect();
    assert_eq!(
        messages,
        vec![
            "Server Internal Error",
            "Search SQL not valid",
            "Search stream not found: subj",
            "Full text search field not found",
            "Search field not found: subj",
            "Search function not defined: subj",
            "Search parquet file not found",
            "Search field has no compatible data type: subj",
            "Search SQL execute error",
            "Search query was cancelled",
            "Search query timed out",
            "Invalid parameters",
            "Ratelimit exceeded",
        ]
    );
}

#[test]
fn inner_is_the_payload_verbatim() {
    let inners: Vec<String> = all_kinds("p q")
        .iter()
        .map(|c| c.get_inner_message())
        .collect();
    assert_eq!(
        inners,
        vec!["p q", "p q", "p q", "", "p q", "p q", "", "p q", "p q", "p q", "p q", "p q", "p q"]
    );
}

#[test]
fn detail_is_withheld_for_names() {
    let details: Vec<String> = all_kinds("secret")
        .iter()
        .map(|c| c.get_error_detail())
        .collect();
    assert_eq!(
        details,
        vec![
            "secret", "secret", "", "", "", "", "", "", "secret", "secret", "secret", "secret",
            "secret"
        ]
    );
}

#[test]
fn to_json_writes_the_three_members_in_order() {
    assert_eq!(
        ErrorCodes::SearchStreamNotFound("logs".to_string()).to_json(),
        "{\"code\":20002,\"message\":\"Search stream not found: logs\",\"inner\":\"logs\"}"
    );
    assert_eq!(
        ErrorCodes::FullTextSearchFieldNotFound.to_json(),
        "{\"code\":20003,\"message\":\"Full text search field not found\",\"inner\":\"\"}"
    );
    assert_eq!(
        ErrorCodes::RatelimitExceeded("slow down".to_string()).to_json(),
        "{\"code\":20012,\"message\":\"Ratelimit exceeded\",\"inner\":\"slow down\"}"
    );
}

#[test]
fn to_json_escapes_the_payload() {
    assert_eq!(
        ErrorCodes::ServerInternalError("a \"quoted\"\nline".to_string()).to_json(),
        "{\"code\":10001,\"message\":\"Server Internal Error\",\"inner\":\"a \\\"quoted\\\"\\nline\"}"
    );
}

#[test]
fn to_string_is_the_wire_record() {
    let code = ErrorCodes::SearchTimeout("30s".to_string());
    assert_eq!(code.to_string(), code.to_json());
    assert_eq!(
        code.to_string(),
        "{\"code\":20010,\"message\":\"Search query timed out\",\"inner\":\"30s\"}"
    );
}

#[test]
fn decode_reads_a_stream_not_found_record() {
    let code = decode("{\"code\":20002,\"message\":\"x\",\"inner\":\"logs\"}");
    assert!(matches!(&code, ErrorCodes::SearchStreamNotFound(s) if s == "logs"));
    assert_eq!(
        code.to_json(),
        "{\"code\":20002,\"message\":\"Search stream not found: logs\",\"inner\":\"logs\"}"
    );
}

#[test]
fn decode_of_text_that_is_not_json_keeps_the_text() {
    let code = decode("not json");
    assert!(matches!(&code, ErrorCodes::ServerInternalError(s) if s == "not json"));
    assert_fallback("");
    assert_fallback("{\"code\":20002,");
}

#[test]
fn decode_of_an_object_without_code_keeps_the_text() {
    let code = decode("{\"foo\":1}");
    assert!(matches!(&code, ErrorCodes::ServerInternalError(s) if s == "{\"foo\":1}"));
    assert_fallback("{\"inner\":\"logs\"}");
}

#[test]
fn decode_does_not_read_the_last_two_codes() {
    let text = "{\"code\":20012,\"message\":\"x\",\"inner\":\"y\"}";
    let code = decode(text);
    assert!(matches!(&code, ErrorCodes::ServerInternalError(s) if s == text));
    assert_fallback("{\"code\":20011,\"message\":\"x\",\"inner\":\"y\"}");
}

#[test]
fn decode_of_a_document_that_is_no_object_keeps_the_text() {
    assert_fallback("[20002,\"logs\"]");
    assert_fallback("[]");
    assert_fallback("20002");
    assert_fallback("\"logs\"");
    assert_fallback("null");
    assert_fallback("true");
}

#[test]
fn decode_of_a_code_that_is_no_integer_keeps_the_text() {
    assert_fallback("{\"code\":\"20002\",\"message\":\"x\",\"inner\":\"logs\"}");
    assert_fallback("{\"code\":20002.5,\"message\":\"x\",\"inner\":\"logs\"}");
    assert_fallback("{\"code\":20002.0,\"message\":\"x\",\"inner\":\"logs\"}");
    assert_fallback("{\"code\":null,\"message\":\"x\",\"inner\":\"logs\"}");
    assert_fallback("{\"code\":[20002],\"message\":\"x\",\"inner\":\"logs\"}");
    assert_fallback("{\"code\":18446744073709551615,\"message\":\"x\",\"inner\":\"logs\"}");
}

#[test]
fn decode_of_an_object_without_inner_keeps_the_text() {
    assert_fallback("{\"code\":20002,\"message\":\"x\"}");
    assert_fallback("{\"code\":20002}");
}

#[test]
fn decode_of_an_unknown_code_keeps_the_text() {
    assert_fallback("{\"code\":0,\"message\":\"x\",\"inner\":\"y\"}");
    assert_fallback("{\"code\":-20002,\"message\":\"x\",\"inner\":\"y\"}");
    assert_fallback("{\"code\":10002,\"message\":\"x\",\"inner\":\"y\"}");
    assert_fallback("{\"code\":20000,\"message\":\"x\",\"inner\":\"y\"}");
    assert_fallback("{\"code\":20013,\"message\":\"x\",\"inner\":\"y\"}");
    assert_fallback("{\"code\":75537,\"message\":\"x\",\"inner\":\"y\"}");
    assert_fallback("{\"code\":85538,\"message\":\"x\",\"inner\":\"y\"}");
}

#[test]
fn decode_ignores_member_order_and_other_members() {
    let code = decode("{\"extra\":[1,2],\"inner\":\"f1\",\"message\":\"m\",\"code\":20004}");
    assert!(matches!(&code, ErrorCodes::SearchFieldNotFound(s) if s == "f1"));
    let code = decode("  { \"inner\" : \"q\" , \"code\" : 20009 }  ");
    assert!(matches!(&code, ErrorCodes::SearchCancelQuery(s) if s == "q"));
}

#[test]
fn decode_needs_no_message() {
    let code = decode("{\"code\":10001,\"inner\":\"boom\"}");
    assert!(matches!(&code, ErrorCodes::ServerInternalError(s) if s == "boom"));
}

#[test]
fn decode_drops_the_inner_of_a_kind_without_payload() {
    let code = decode("{\"code\":20003,\"message\":\"x\",\"inner\":\"ignored\"}");
    assert!(matches!(code, ErrorCodes::FullTextSearchFieldNotFound));
    assert_eq!(code.get_inner_message(), "");
    let code = decode("{\"code\":20006,\"message\":\"x\",\"inner\":\"ignored\"}");
    assert!(matches!(code, ErrorCodes::SearchParquetFileNotFound));
}

#[test]
fn decode_prints_an_inner_that_is_no_string() {
    let code = decode("{\"code\":20001,\"message\":\"x\",\"inner\":{\"b\":1,\"a\":[true,null]}}");
    assert!(matches!(&code, ErrorCodes::SearchSQLNotValid(s) if s == "{\"b\":1,\"a\":[true,null]}"));
    let code = decode("{\"code\":20001,\"message\":\"x\",\"inner\":42}");
    assert!(matches!(&code, ErrorCodes::SearchSQLNotValid(s) if s == "42"));
    let code = decode("{\"code\":20001,\"message\":\"x\",\"inner\":null}");
    assert!(matches!(&code, ErrorCodes::SearchSQLNotValid(s) if s == "null"));
}

#[test]
fn decode_unescapes_a_string_inner() {
    let code = decode("{\"code\":20008,\"message\":\"x\",\"inner\":\"a \\\"b\\\"\\u0041\"}");
    assert!(matches!(&code, ErrorCodes::SearchSQLExecuteError(s) if s == "a \"b\"A"));
}

#[test]
fn round_trip_keeps_code_and_inner() {
    for payload in ["", "logs", "select * from \"t\" where a = 'b'\n", "{\"code\":1}", "\u{e9}\u{4e2d}"] {
        for sent in all_kinds(payload) {
            if sent.get_code() > 20010 {
                continue;
            }
            let back = decode(&sent.to_json());
            assert_eq!(back.get_code(), sent.get_code());
            assert_eq!(back.get_inner_message(), sent.get_inner_message());
        }
    }
}

#[test]
fn round_trip_of_the_last_two_codes_degrades() {
    for sent in [
        ErrorCodes::InvalidParams("p".to_string()),
        ErrorCodes::RatelimitExceeded("p".to_string()),
    ] {
        let text = sent.to_json();
        let back = decode(&text);
        assert_eq!(back.get_code(), 10001);
        assert_eq!(back.get_inner_message(), text);
    }
}

#[test]
fn from_wire_fields_maps_each_code() {
    let kinds: Vec<(i64, u16, &str)> = vec![
        (10001, 10001, "in"),
        (20001, 20001, "in"),
        (20002, 20002, "in"),
        (20003, 20003, ""),
        (20004, 20004, "in"),
        (20005, 20005, "in"),
        (20006, 20006, ""),
        (20007, 20007, "in"),
        (20008, 20008, "in"),
        (20009, 20009, "in"),
        (20010, 20010, "in"),
        (20011, 10001, "raw"),
        (20012, 10001, "raw"),
        (0, 10001, "raw"),
        (-1, 10001, "raw"),
        (75537, 10001, "raw"),
        (i64::MAX, 10001, "raw"),
        (i64::MIN, 10001, "raw"),
    ];
    for (code, expected_code, expected_inner) in kinds {
        let got = ErrorCodes::from_wire_fields("raw", code, "in".to_string());
        assert_eq!(got.get_code(), expected_code);
        assert_eq!(got.get_inner_message(), expected_inner);
    }
}
