use xcelerate::connection::client::envelope;
use xcelerate::connection::handler::reply_outcome;
use xcelerate::{CdpRequest, Json, JsonNumber, ReplyRouter, RequestIds, Routed, XcelerateError};

fn obj(members: Vec<(&str, Json)>) -> Json {
    Json::Object(members.into_iter().map(|(k, v)| (k.to_string(), v)).collect())
}

fn text(s: &str) -> Json {
    Json::Text(s.to_string())
}

fn uint(n: u64) -> Json {
    Json::Number(JsonNumber::PosInt(n))
}

#[test]
fn ids_start_at_one_and_count_up() {
    let mut ids = RequestIds::new();
    assert_eq!(ids.allocate(), 1);
    assert_eq!(ids.allocate(), 2);
    assert_eq!(ids.allocate(), 3);
    let mut last = 3;
    for _ in 0..1000 {
        let id = ids.allocate();
        assert!(id > last);
        last = id;
    }
    assert_eq!(last, 1003);
}

#[test]
fn envelope_without_session() {
    let req = CdpRequest { method: "Page.navigate".to_string(), params: obj(vec![("url", text("https://a.b"))]) };
    let e = envelope(7, req, None);
    match &e {
        Json::Object(m) => {
            let keys: Vec<&str> = m.iter().map(|(k, _)| k.as_str()).collect();
            assert_eq!(keys, vec!["id", "method", "params"]);
        }
        _ => panic!("not an object"),
    }
    assert_eq!(e.lookup("id").unwrap().as_u64(), Some(7));
    assert_eq!(e.lookup("method").unwrap().as_str(), Some("Page.navigate"));
    assert_eq!(e.lookup("params").unwrap().lookup("url").unwrap().as_str(), Some("https://a.b"));
    assert!(e.lookup("sessionId").is_none());
}

#[test]
fn envelope_with_session() {
    let req = CdpRequest { method: "Page.reload".to_string(), params: obj(vec![]) };
    let e = envelope(1, req, Some("S1"));
    assert_eq!(e.lookup("sessionId").unwrap().as_str(), Some("S1"));
    match &e {
        Json::Object(m) => assert_eq!(m.len(), 4),
        _ => panic!("not an object"),
    }
}

#[test]
fn reply_goes_to_its_waiter_once() {
    let mut router: ReplyRouter<&str> = ReplyRouter::new();
    router.expect(1, "first");
    router.expect(2, "second");
    let msg = obj(vec![("id", uint(2)), ("result", obj(vec![("frameId", text("F"))]))]);
    match router.route(msg) {
        Routed::Reply { waiter, outcome } => {
            assert_eq!(waiter, "second");
            let r = outcome.unwrap();
            assert_eq!(r.lookup("frameId").unwrap().as_str(), Some("F"));
        }
        _ => panic!("expected a reply"),
    }
    assert!(!router.is_pending(2));
    assert!(router.is_pending(1));
    assert_eq!(router.pending_count(), 1);
    let again = obj(vec![("id", uint(2)), ("result", obj(vec![]))]);
    assert!(matches!(router.route(again), Routed::Ignored));
}

#[test]
fn reply_without_result_gives_null() {
    let mut router: ReplyRouter<u8> = ReplyRouter::new();
    router.expect(5, 0);
    match router.route(obj(vec![("id", uint(5))])) {
        Routed::Reply { outcome: Ok(v), .. } => assert!(v.is_null()),
        _ => panic!("expected a successful reply"),
    }
}

#[test]
fn error_reply_carries_code_and_message() {
    let mut router: ReplyRouter<u8> = ReplyRouter::new();
    router.expect(3, 9);
    let msg = obj(vec![
        ("id", uint(3)),
        ("error", obj(vec![("code", Json::Number(JsonNumber::NegInt(-32000))), ("message", text("No target"))])),
    ]);
    match router.route(msg) {
        Routed::Reply { waiter: 9, outcome: Err(XcelerateError::CdpResponseError { code, message }) } => {
            assert_eq!(code, -32000);
            assert_eq!(message, "No target");
        }
        _ => panic!("expected an error reply"),
    }
}

#[test]
fn error_reply_defaults() {
    let msg = obj(vec![("id", uint(3)), ("error", obj(vec![]))]);
    match reply_outcome(msg) {
        Err(XcelerateError::CdpResponseError { code, message }) => {
            assert_eq!(code, 0);
            assert_eq!(message, "Unknown");
        }
        _ => panic!("expected an error"),
    }
}

#[test]
fn null_error_is_success() {
    let msg = obj(vec![("id", uint(3)), ("error", Json::Null), ("result", uint(4))]);
    assert!(matches!(reply_outcome(msg), Ok(Json::Number(JsonNumber::PosInt(4)))));
}

#[test]
fn error_code_truncates_to_32_bits() {
    let msg = obj(vec![("error", obj(vec![("code", uint(0x1_0000_0005))]))]);
    match reply_outcome(msg) {
        Err(XcelerateError::CdpResponseError { code, .. }) => assert_eq!(code, 5),
        _ => panic!("expected an error"),
    }
}

#[test]
fn event_is_broadcast() {
    let mut router: ReplyRouter<u8> = ReplyRouter::new();
    let msg = obj(vec![("method", text("Page.loadEventFired")), ("params", obj(vec![]))]);
    match router.route(msg) {
        Routed::Event(e) => assert_eq!(e.lookup("method").unwrap().as_str(), Some("Page.loadEventFired")),
        _ => panic!("expected an event"),
    }
}

#[test]
fn unknown_and_malformed_messages_are_ignored() {
    let mut router: ReplyRouter<u8> = ReplyRouter::new();
    router.expect(1, 1);
    assert!(matches!(router.route(obj(vec![("id", uint(44))])), Routed::Ignored));
    assert!(matches!(router.route(obj(vec![("method", uint(1))])), Routed::Ignored));
    assert!(matches!(router.route(text("hello")), Routed::Ignored));
    assert!(matches!(router.route(obj(vec![("id", Json::Number(JsonNumber::NegInt(-1)))])), Routed::Ignored));
    assert!(router.is_pending(1));
}

#[test]
fn reply_id_is_truncated_to_32_bits() {
    let mut router: ReplyRouter<u8> = ReplyRouter::new();
    router.expect(1, 77);
    match router.route(obj(vec![("id", uint(0x1_0000_0001))])) {
        Routed::Reply { waiter, .. } => assert_eq!(waiter, 77),
        _ => panic!("expected a reply"),
    }
}

#[test]
fn expect_replaces_waiter() {
    let mut router: ReplyRouter<u8> = ReplyRouter::new();
    router.expect(1, 1);
    router.expect(1, 2);
    assert_eq!(router.pending_count(), 1);
    match router.route(obj(vec![("id", uint(1))])) {
        Routed::Reply { waiter, .. } => assert_eq!(waiter, 2),
        _ => panic!("expected a reply"),
    }
}

#[test]
fn json_accessors() {
    assert_eq!(Json::Number(JsonNumber::PosInt(u64::MAX)).as_i64(), None);
    assert_eq!(Json::Number(JsonNumber::PosInt(5)).as_i64(), Some(5));
    assert_eq!(Json::Number(JsonNumber::NegInt(-5)).as_u64(), None);
    assert_eq!(Json::Number(JsonNumber::Float(0, "0.0".to_string())).as_i64(), None);
    assert!(text("x").is_string());
    assert!(!Json::Null.is_string());
    let o = obj(vec![("a", uint(1)), ("a", uint(2))]);
    assert_eq!(o.lookup("a").unwrap().as_u64(), Some(1));
    assert!(matches!(o.take("b"), Json::Null));
    assert!(matches!(uint(3).take("a"), Json::Null));
}

#[test]
fn echoed_envelope_id_reaches_waiter() {
    let mut ids = RequestIds::new();
    let mut router: ReplyRouter<&str> = ReplyRouter::new();
    let id = ids.allocate();
    let sent = envelope(id, CdpRequest { method: "Browser.getVersion".to_string(), params: obj(vec![]) }, None);
    router.expect(id, "version");
    let echoed = sent.lookup("id").unwrap().as_u64().unwrap();
    match router.route(obj(vec![("id", uint(echoed)), ("result", obj(vec![]))])) {
        Routed::Reply { waiter, .. } => assert_eq!(waiter, "version"),
        _ => panic!("expected a reply"),
    }
}
