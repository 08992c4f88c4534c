use xcelerate::element::{
    attribute_script, typing_requests, ElementRef, CLICK_SCRIPT, FOCUS_SCRIPT, HOVER_SCRIPT, INNER_HTML_SCRIPT,
    KEYSTROKE_DELAY_MS, TEXT_SCRIPT,
};

#[test]
fn scripts() {
    assert_eq!(CLICK_SCRIPT, "function() { this.click(); }");
    assert_eq!(FOCUS_SCRIPT, "function() { this.focus(); }");
    assert_eq!(TEXT_SCRIPT, "function() { return this.innerText; }");
    assert_eq!(INNER_HTML_SCRIPT, "function() { return this.innerHTML; }");
    assert_eq!(HOVER_SCRIPT, "function() { this.dispatchEvent(new MouseEvent('mouseover', { bubbles: true })); }");
    assert_eq!(KEYSTROKE_DELAY_MS, 50);
}

#[test]
fn attribute_function() {
    assert_eq!(attribute_script("href"), "function() { return this.getAttribute('href'); }");
}

#[test]
fn call_on_element() {
    let e = ElementRef { object_id: "obj-9".to_string() };
    let r = e.call(CLICK_SCRIPT);
    assert_eq!(r.method, "Runtime.callFunctionOn");
    assert_eq!(r.params.lookup("functionDeclaration").unwrap().as_str(), Some(CLICK_SCRIPT));
    assert_eq!(r.params.lookup("objectId").unwrap().as_str(), Some("obj-9"));
}

#[test]
fn one_key_event_per_character() {
    let events = typing_requests("hé!");
    assert_eq!(events.len(), 3);
    let typed: Vec<String> = events
        .iter()
        .map(|e| e.params.lookup("text").unwrap().as_str().unwrap().to_string())
        .collect();
    assert_eq!(typed, vec!["h", "é", "!"]);
    for e in &events {
        assert_eq!(e.method, "Input.dispatchKeyEvent");
        assert_eq!(e.params.lookup("type").unwrap().as_str(), Some("char"));
        assert_eq!(e.params.lookup("unmodifiedText").unwrap().as_str(), e.params.lookup("text").unwrap().as_str());
    }
    assert!(typing_requests("").is_empty());
}

#[test]
fn typing_focuses_first() {
    let e = ElementRef { object_id: "obj-2".to_string() };
    let cmds = e.typing_commands("ab");
    assert_eq!(cmds.len(), 3);
    assert_eq!(cmds[0].method, "Runtime.callFunctionOn");
    assert_eq!(cmds[0].params.lookup("functionDeclaration").unwrap().as_str(), Some(FOCUS_SCRIPT));
    assert_eq!(cmds[1].params.lookup("text").unwrap().as_str(), Some("a"));
    assert_eq!(cmds[2].params.lookup("text").unwrap().as_str(), Some("b"));
}
