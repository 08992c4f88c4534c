use xcelerate::stealth::patcher::{patched_file_name, CDC_PATTERN};
use xcelerate::{BinaryPatcher, XcelerateError};

const PAYLOAD: &[u8] = b"{console.log(\"xcelerate stealth active!\")}";

#[test]
fn pattern_text() {
    assert_eq!(CDC_PATTERN, r"\{window\.cdc.*?;\}");
}

#[test]
fn fit_payload_truncates() {
    assert_eq!(BinaryPatcher::fit_payload(5), b"{cons".to_vec());
    assert_eq!(BinaryPatcher::fit_payload(0), Vec::<u8>::new());
}

#[test]
fn fit_payload_pads_with_spaces() {
    let p = BinaryPatcher::fit_payload(PAYLOAD.len() + 3);
    let mut expected = PAYLOAD.to_vec();
    expected.extend_from_slice(b"   ");
    assert_eq!(p, expected);
    assert_eq!(BinaryPatcher::fit_payload(PAYLOAD.len()), PAYLOAD.to_vec());
}

#[test]
fn apply_match_replaces_only_the_range() {
    let content = b"abcdefgh".to_vec();
    let out = BinaryPatcher::apply_match(content, 2, 5);
    assert_eq!(out, b"ab{cofgh".to_vec());
}

#[test]
fn patch_bytes_neutralises_marker_and_keeps_size() {
    let mut content = b"prefix ".to_vec();
    let marker = b"{window.cdc_adoQpoasnfa76pfcZLmcfl_Array = window.Array;}";
    content.extend_from_slice(marker);
    content.extend_from_slice(b" suffix");
    let len = content.len();
    let out = BinaryPatcher::patch_bytes(content.clone()).unwrap().unwrap();
    assert_eq!(out.len(), len);
    assert_eq!(&out[..7], b"prefix ");
    assert_eq!(&out[len - 7..], b" suffix");
    let region = &out[7..7 + marker.len()];
    assert_eq!(&region[..PAYLOAD.len()], PAYLOAD);
    assert!(region[PAYLOAD.len()..].iter().all(|b| *b == b' '));
}

#[test]
fn patch_bytes_short_marker_gets_truncated_payload() {
    let content = b"xx{window.cdc;}yy".to_vec();
    let out = BinaryPatcher::patch_bytes(content).unwrap().unwrap();
    assert_eq!(out, b"xx{console.log(yy".to_vec());
}

#[test]
fn patch_bytes_stops_at_first_terminator() {
    let content = b"{window.cdc_a;}{window.cdc_b;}".to_vec();
    let out = BinaryPatcher::patch_bytes(content).unwrap().unwrap();
    assert_eq!(&out[..15], &PAYLOAD[..15]);
    assert_eq!(&out[15..], b"{window.cdc_b;}");
}

#[test]
fn patch_bytes_without_marker_changes_nothing() {
    let content = b"no marker here {window.other;}".to_vec();
    assert!(matches!(BinaryPatcher::patch_bytes(content), Ok(None)));
}

#[test]
fn patch_error_variant_is_internal() {
    let e = XcelerateError::InternalError;
    assert_eq!(e.to_string(), "Internal channel error");
}

#[test]
fn patched_name_has_prefix() {
    assert_eq!(patched_file_name("chrome.exe"), "xcelerate_chrome.exe");
    assert_eq!(patched_file_name(""), "xcelerate_");
}
