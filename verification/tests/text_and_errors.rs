use xcelerate::commands::{dispatch_char, navigate_to_history_entry, set_device_metrics_override, ONE_FLOAT_BITS};
use xcelerate::text::u64_to_decimal;
use xcelerate::{Json, JsonNumber, XcelerateError};

#[test]
fn decimal_notation() {
    assert_eq!(u64_to_decimal(0), "0");
    assert_eq!(u64_to_decimal(9222), "9222");
    assert_eq!(u64_to_decimal(u64::MAX), "18446744073709551615");
}

#[test]
fn error_descriptions() {
    assert_eq!(XcelerateError::WsError("closed".to_string()).to_string(), "WebSocket error: closed");
    assert_eq!(XcelerateError::SerdeError("bad".to_string()).to_string(), "JSON error: bad");
    assert_eq!(
        XcelerateError::CdpResponseError { code: -32000, message: "No target".to_string() }.to_string(),
        "CDP Error -32000: No target"
    );
    assert_eq!(
        XcelerateError::CdpResponseError { code: i32::MIN, message: "m".to_string() }.to_string(),
        "CDP Error -2147483648: m"
    );
    assert_eq!(XcelerateError::HttpError("refused".to_string()).to_string(), "HTTP error: refused");
    assert_eq!(XcelerateError::NotFound("#q".to_string()).to_string(), "Target not found: #q");
    assert_eq!(XcelerateError::InternalError.to_string(), "Internal channel error");
}

#[test]
fn device_metrics_parameters() {
    let r = set_device_metrics_override(1280, 4000);
    assert_eq!(r.method, "Emulation.setDeviceMetricsOverride");
    assert_eq!(r.params.lookup("width").unwrap().as_u64(), Some(1280));
    assert_eq!(r.params.lookup("height").unwrap().as_i64(), Some(4000));
    assert!(matches!(r.params.lookup("deviceScaleFactor"), Some(Json::Number(JsonNumber::Float(b, t))) if *b == ONE_FLOAT_BITS && t == "1.0"));
    assert_eq!(f64::from_bits(ONE_FLOAT_BITS), 1.0);
    assert!(matches!(r.params.lookup("mobile"), Some(Json::Bool(false))));
}

#[test]
fn history_entry_parameters() {
    let r = navigate_to_history_entry(-3);
    assert_eq!(r.params.lookup("entryId").unwrap().as_i64(), Some(-3));
    let k = dispatch_char("a");
    assert_eq!(k.params.lookup("type").unwrap().as_str(), Some("char"));
}
