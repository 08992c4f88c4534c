use xcelerate::page::{
    binary_payload, content_size, decode_base64, found_element, history_back, history_in_range_check,
    keep_waiting, navigation_probe, navigation_timeout, query_selector_expression, reports_complete,
    selector_probe, selector_timeout, string_result, string_result_or_empty, Base64Failure, FullPageCapture,
    HistoryMove, POLL_INTERVAL_MS, WAIT_TIMEOUT_MS,
};
use xcelerate::reply::string_field;
use xcelerate::{Json, JsonNumber, XcelerateError};

fn obj(members: Vec<(&str, Json)>) -> Json {
    Json::Object(members.into_iter().map(|(k, v)| (k.to_string(), v)).collect())
}

fn text(s: &str) -> Json {
    Json::Text(s.to_string())
}

fn integer(n: i64) -> Json {
    if n >= 0 {
        Json::Number(JsonNumber::PosInt(n as u64))
    } else {
        Json::Number(JsonNumber::NegInt(n))
    }
}

fn evaluation(result: Json) -> Json {
    obj(vec![("result", result)])
}

fn serde_message<T: std::fmt::Debug>(r: Result<T, XcelerateError>) -> String {
    match r {
        Err(XcelerateError::SerdeError(m)) => m,
        other => panic!("unexpected {:?}", other),
    }
}

#[test]
fn base64_decodes() {
    assert_eq!(decode_base64("aGVsbG8=").unwrap(), b"hello".to_vec());
    assert_eq!(decode_base64("").unwrap(), Vec::<u8>::new());
}

#[test]
fn base64_round_trip() {
    assert_eq!(decode_base64("aGk=").unwrap(), b"hi".to_vec());
    assert_eq!(decode_base64("aA==").unwrap(), b"h".to_vec());
    assert_eq!(decode_base64("aGVsbG8gd29ybGQ=").unwrap(), b"hello world".to_vec());
    assert_eq!(decode_base64("+/8=").unwrap(), vec![0xfbu8, 0xff]);
    assert_eq!(decode_base64("AAAA").unwrap(), vec![0u8, 0, 0]);
}

#[test]
fn base64_rejects_non_canonical_text() {
    assert!(matches!(decode_base64("@@@@"), Err(XcelerateError::SerdeError(_))));
    assert_eq!(serde_message(decode_base64("aGk")), "Base64 decode failed: Invalid padding");
    assert_eq!(serde_message(decode_base64("aB==")), "Base64 decode failed: Invalid last symbol 66, offset 1.");
    assert!(matches!(decode_base64("aG k="), Err(XcelerateError::SerdeError(_))));
}

#[test]
fn base64_invalid_symbol_message() {
    match decode_base64("!!!!") {
        Err(XcelerateError::SerdeError(m)) => assert_eq!(m, "Base64 decode failed: Invalid symbol 33, offset 0."),
        other => panic!("unexpected {:?}", other),
    }
}

#[test]
fn base64_invalid_length_message() {
    match decode_base64("a") {
        Err(XcelerateError::SerdeError(m)) => assert_eq!(m, "Base64 decode failed: Invalid input length: 1"),
        other => panic!("unexpected {:?}", other),
    }
}

#[test]
fn base64_failure_messages() {
    assert_eq!(Base64Failure::InvalidPadding.to_string(), "Invalid padding");
    assert_eq!(Base64Failure::InvalidLastSymbol(3, 66).to_string(), "Invalid last symbol 66, offset 3.");
}

#[test]
fn screenshot_payload() {
    assert_eq!(binary_payload(&obj(vec![("data", text("AAEC"))])).unwrap(), vec![0u8, 1, 2]);
    match binary_payload(&obj(vec![])) {
        Err(XcelerateError::SerdeError(m)) => assert_eq!(m, "missing field `data`"),
        other => panic!("unexpected {:?}", other),
    }
}

#[test]
fn string_field_reads_strings_only() {
    let r = obj(vec![("identifier", text("1")), ("n", integer(3))]);
    assert_eq!(string_field(&r, "identifier").unwrap(), "1");
    assert_eq!(serde_message(string_field(&r, "n")), "invalid type: integer `3`, expected a string");
    assert_eq!(serde_message(string_field(&r, "absent")), "missing field `absent`");
    let float = obj(vec![("identifier", Json::Number(JsonNumber::Float(1.5f64.to_bits(), "1.5".to_string())))]);
    assert_eq!(serde_message(string_field(&float, "identifier")), "invalid type: floating point `1.5`, expected a string");
    let null = obj(vec![("identifier", Json::Null)]);
    assert_eq!(serde_message(string_field(&null, "identifier")), "invalid type: null, expected a string");
}

#[test]
fn selector_expression() {
    assert_eq!(query_selector_expression("input[name=q]"), "document.querySelector('input[name=q]')");
}

#[test]
fn element_found_or_not() {
    let found = evaluation(obj(vec![("type", text("object")), ("objectId", text("obj-1"))]));
    assert_eq!(found_element(&found, "#a").unwrap(), "obj-1");
    let missing = evaluation(obj(vec![("type", text("object")), ("subtype", text("null"))]));
    match found_element(&missing, "#a") {
        Err(XcelerateError::NotFound(s)) => assert_eq!(s, "#a"),
        other => panic!("unexpected {:?}", other),
    }
}

#[test]
fn string_results() {
    let title = evaluation(obj(vec![("value", text("Example"))]));
    assert_eq!(string_result(&title).unwrap(), Some("Example".to_string()));
    assert_eq!(string_result_or_empty(&title).unwrap(), "Example");
    let number = evaluation(obj(vec![("value", integer(4))]));
    assert_eq!(string_result(&number).unwrap(), None);
    assert_eq!(string_result_or_empty(&number).unwrap(), "");
    assert_eq!(string_result_or_empty(&evaluation(obj(vec![]))).unwrap(), "");
}

#[test]
fn evaluation_without_result_is_an_error() {
    assert_eq!(serde_message(string_result_or_empty(&obj(vec![]))), "missing field `result`");
    assert_eq!(serde_message(string_result(&obj(vec![]))), "missing field `result`");
    assert_eq!(serde_message(found_element(&obj(vec![]), "#a")), "missing field `result`");
    assert_eq!(serde_message(reports_complete(&obj(vec![]))), "missing field `result`");
    assert_eq!(serde_message(navigation_probe(Ok(obj(vec![])))), "missing field `result`");
}

#[test]
fn evaluation_of_wrong_shape_is_an_error() {
    assert_eq!(
        serde_message(string_result(&evaluation(text("x")))),
        "invalid type: string \"x\", expected struct RemoteObject"
    );
    assert_eq!(
        serde_message(found_element(&evaluation(Json::Array(vec![])), "#a")),
        "invalid type: sequence, expected struct RemoteObject"
    );
    let bad_id = evaluation(obj(vec![("objectId", integer(5))]));
    assert_eq!(serde_message(found_element(&bad_id, "#a")), "invalid type: integer `5`, expected a string");
    let null_id = evaluation(obj(vec![("objectId", Json::Null)]));
    assert!(matches!(found_element(&null_id, "#a"), Err(XcelerateError::NotFound(s)) if s == "#a"));
}

#[test]
fn ready_state() {
    assert!(reports_complete(&evaluation(obj(vec![("value", text("complete"))]))).unwrap());
    assert!(!reports_complete(&evaluation(obj(vec![("value", text("loading"))]))).unwrap());
    assert!(!reports_complete(&evaluation(obj(vec![]))).unwrap());
    assert!(matches!(navigation_probe(Ok(evaluation(obj(vec![("value", text("complete"))])))), Ok(true)));
    assert!(matches!(navigation_probe(Ok(evaluation(obj(vec![("value", text("interactive"))])))), Ok(false)));
    assert!(matches!(navigation_probe(Err(XcelerateError::InternalError)), Err(XcelerateError::InternalError)));
}

#[test]
fn waiting_budget() {
    assert_eq!(WAIT_TIMEOUT_MS, 30_000);
    assert_eq!(POLL_INTERVAL_MS, 250);
    assert!(keep_waiting(0));
    assert!(keep_waiting(29_999));
    assert!(!keep_waiting(30_000));
}

#[test]
fn selector_probes() {
    assert_eq!(selector_probe(Ok("x".to_string())), Some("x".to_string()));
    assert_eq!(selector_probe(Err(XcelerateError::NotFound("#a".to_string()))), None);
    match selector_timeout("#a") {
        XcelerateError::NotFound(m) => assert_eq!(m, "Timeout waiting for selector: #a"),
        other => panic!("unexpected {:?}", other),
    }
    match navigation_timeout() {
        XcelerateError::NotFound(m) => assert_eq!(m, "Navigation timeout"),
        other => panic!("unexpected {:?}", other),
    }
}

fn history(current: i64, ids: &[i64]) -> Json {
    let entries = ids.iter().map(|id| obj(vec![("id", integer(*id)), ("url", text("u"))])).collect();
    obj(vec![("currentIndex", integer(current)), ("entries", Json::Array(entries))])
}

#[test]
fn go_back_moves_to_previous_entry() {
    let h = history(2, &[11, 12, 13]);
    assert!(history_in_range_check(&h));
    assert_eq!(history_back(&h).unwrap(), HistoryMove::Go(12));
}

#[test]
fn go_back_at_first_entry_stays() {
    let h = history(0, &[11]);
    assert_eq!(history_back(&h).unwrap(), HistoryMove::Stay);
}

#[test]
fn history_out_of_range_is_detected() {
    assert!(!history_in_range_check(&history(5, &[1, 2])));
}

#[test]
fn history_without_index_is_an_error() {
    let h = obj(vec![("entries", Json::Array(vec![]))]);
    match history_back(&h) {
        Err(XcelerateError::SerdeError(m)) => assert_eq!(m, "missing field `currentIndex`"),
        other => panic!("unexpected {:?}", other),
    }
}

#[test]
fn history_of_wrong_shape_is_an_error() {
    let huge = obj(vec![
        ("currentIndex", Json::Number(JsonNumber::PosInt(9_223_372_036_854_775_808))),
        ("entries", Json::Array(vec![])),
    ]);
    assert!(history_in_range_check(&huge));
    assert_eq!(serde_message(history_back(&huge)), "invalid value: integer `9223372036854775808`, expected i64");
    let listless = obj(vec![("currentIndex", integer(1)), ("entries", text("x"))]);
    assert_eq!(serde_message(history_back(&listless)), "invalid type: string \"x\", expected a sequence");
    let bare = obj(vec![("currentIndex", integer(1)), ("entries", Json::Array(vec![integer(7), integer(8)]))]);
    assert_eq!(serde_message(history_back(&bare)), "invalid type: integer `7`, expected struct NavigationEntry");
    let idless = obj(vec![("currentIndex", integer(1)), ("entries", Json::Array(vec![obj(vec![]), obj(vec![])]))]);
    assert_eq!(serde_message(history_back(&idless)), "missing field `id`");
    let first_bare = obj(vec![("currentIndex", integer(0)), ("entries", Json::Array(vec![integer(42)]))]);
    assert_eq!(serde_message(history_back(&first_bare)), "invalid type: integer `42`, expected struct NavigationEntry");
    let later_idless = obj(vec![
        ("currentIndex", integer(1)),
        ("entries", Json::Array(vec![obj(vec![("id", integer(1))]), obj(vec![("id", integer(2))]), obj(vec![])])),
    ]);
    assert_eq!(serde_message(history_back(&later_idless)), "missing field `id`");
    let float_id = obj(vec![
        ("currentIndex", integer(0)),
        ("entries", Json::Array(vec![obj(vec![("id", Json::Number(JsonNumber::Float(2.5f64.to_bits(), "2.5".to_string())))])])),
    ]);
    assert_eq!(serde_message(history_back(&float_id)), "invalid type: floating point `2.5`, expected i64");
    let negative = obj(vec![("currentIndex", integer(-1)), ("entries", Json::Array(vec![]))]);
    assert_eq!(history_back(&negative).unwrap(), HistoryMove::Stay);
}

#[test]
fn layout_content_size() {
    let half = || Json::Number(JsonNumber::Float(4.5f64.to_bits(), "4.5".to_string()));
    let m = obj(vec![("contentSize", obj(vec![("width", integer(1280)), ("height", half())]))]);
    let (w, h) = content_size(&m).unwrap();
    assert_eq!(w, JsonNumber::PosInt(1280));
    assert_eq!(h, JsonNumber::Float(4.5f64.to_bits(), "4.5".to_string()));
    assert_eq!(serde_message(content_size(&obj(vec![]))), "missing field `contentSize`");
    assert_eq!(
        serde_message(content_size(&obj(vec![("contentSize", integer(1))]))),
        "invalid type: integer `1`, expected struct Rect"
    );
    let no_width = obj(vec![("contentSize", obj(vec![("height", integer(10))]))]);
    assert_eq!(serde_message(content_size(&no_width)), "missing field `width`");
    let no_height = obj(vec![("contentSize", obj(vec![("width", integer(10))]))]);
    assert_eq!(serde_message(content_size(&no_height)), "missing field `height`");
    let text_width = obj(vec![("contentSize", obj(vec![("width", text("w")), ("height", integer(1))]))]);
    assert_eq!(serde_message(content_size(&text_width)), "invalid type: string \"w\", expected f64");
}

#[test]
fn full_page_capture_sequence() {
    let (mut c, first) = FullPageCapture::start();
    assert_eq!(first.method, "Page.enable");
    assert_eq!(c.enabled().method, "Page.getLayoutMetrics");
    let resize = c.measured(800, 2400);
    assert_eq!(resize.method, "Emulation.setDeviceMetricsOverride");
    assert_eq!(resize.params.lookup("height").unwrap().as_i64(), Some(2400));
    assert_eq!(c.resized().method, "Page.captureScreenshot");
    let restore = c.captured(&obj(vec![("data", text("aGk="))])).unwrap();
    assert_eq!(restore.method, "Emulation.clearDeviceMetricsOverride");
    assert_eq!(c.restored().unwrap(), b"hi".to_vec());
}

#[test]
fn full_page_capture_without_data() {
    let (mut c, _) = FullPageCapture::start();
    c.enabled();
    c.measured(1, 1);
    c.resized();
    match c.captured(&obj(vec![])) {
        Err(XcelerateError::SerdeError(m)) => assert_eq!(m, "missing field `data`"),
        other => panic!("unexpected {:?}", other.is_ok()),
    }
    match c.captured(&obj(vec![("data", Json::Bool(true))])) {
        Err(XcelerateError::SerdeError(m)) => assert_eq!(m, "invalid type: boolean `true`, expected a string"),
        other => panic!("unexpected {:?}", other.is_ok()),
    }
    let restore = c.captured(&obj(vec![("data", text("AAEC"))])).unwrap();
    assert_eq!(restore.method, "Emulation.clearDeviceMetricsOverride");
    assert_eq!(c.restored().unwrap(), vec![0u8, 1, 2]);
}
