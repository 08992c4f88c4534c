//! The DevTools protocol commands that the library issues, each with the
//! parameters it sends.
use vstd::prelude::*;
use crate::connection::client::CdpRequest;
use crate::json::{Json, JsonNumber, empty_object, object1, object2, object3, object4};

verus! {

/// `r` is the command `method` whose parameters are an object with exactly
/// the members `keys`, in that order.
pub open spec fn is_command(r: CdpRequest, method: Seq<char>, keys: Seq<Seq<char>>) -> bool {
    &&& r.method@ == method
    &&& r.params is Object
    &&& r.params.keys() == keys
}

/// The IEEE-754 bits of the number 1.0.
pub const ONE_FLOAT_BITS: u64 = 0x3ff0_0000_0000_0000u64;

/// The floating-point number 1.0, written `1.0`.
pub open spec fn is_float_one(v: Json) -> bool {
    v matches Json::Number(JsonNumber::Float(bits, text)) && bits == ONE_FLOAT_BITS && text@ == "1.0"@
}

/// The floating-point number 1.0.
fn float_one() -> (r: Json)
    ensures
        is_float_one(r),
{
    Json::Number(JsonNumber::Float(ONE_FLOAT_BITS, "1.0".to_owned()))
}

fn request(method: &str, params: Json) -> (r: CdpRequest)
    ensures
        r.method@ == method@,
        r.params == params,
{
    CdpRequest { method: method.to_owned(), params }
}

/// `Target.createTarget`: opens a new tab at `url`.
pub fn create_target(url: &str) -> (r: CdpRequest)
    ensures
        is_command(r, "Target.createTarget"@, seq!["url"@]),
        r.params.at("url"@).str_value() == Some(url@),
{
    request("Target.createTarget", object1("url", Json::text(url)))
}

/// `Target.attachToTarget`: attaches to the tab `target_id` in flattened
/// session mode.
pub fn attach_to_target(target_id: &str) -> (r: CdpRequest)
    ensures
        is_command(r, "Target.attachToTarget"@, seq!["targetId"@, "flatten"@]),
        r.params.at("targetId"@).str_value() == Some(target_id@),
        r.params.at("flatten"@) == Json::Bool(true),
{
    proof {
        reveal_strlit("targetId");
        reveal_strlit("flatten");
        assert("targetId"@.len() != "flatten"@.len());
    }
    request("Target.attachToTarget", object2("targetId", Json::text(target_id), "flatten", Json::Bool(true)))
}

/// `Page.addScriptToEvaluateOnNewDocument`: runs `source` in every new
/// document before its own scripts.
pub fn add_script_to_evaluate_on_new_document(source: &str) -> (r: CdpRequest)
    ensures
        is_command(r, "Page.addScriptToEvaluateOnNewDocument"@, seq!["source"@]),
        r.params.at("source"@).str_value() == Some(source@),
{
    request("Page.addScriptToEvaluateOnNewDocument", object1("source", Json::text(source)))
}

/// `Page.enable`.
pub fn page_enable() -> (r: CdpRequest)
    ensures
        is_command(r, "Page.enable"@, seq![]),
{
    request("Page.enable", empty_object())
}

/// `Page.navigate`: loads `url`.
pub fn navigate(url: &str) -> (r: CdpRequest)
    ensures
        is_command(r, "Page.navigate"@, seq!["url"@]),
        r.params.at("url"@).str_value() == Some(url@),
{
    request("Page.navigate", object1("url", Json::text(url)))
}

/// `Page.reload`.
pub fn reload() -> (r: CdpRequest)
    ensures
        is_command(r, "Page.reload"@, seq![]),
{
    request("Page.reload", empty_object())
}

/// `Browser.getVersion`.
pub fn get_version() -> (r: CdpRequest)
    ensures
        is_command(r, "Browser.getVersion"@, seq![]),
{
    request("Browser.getVersion", empty_object())
}

/// `Browser.close`.
pub fn close_browser() -> (r: CdpRequest)
    ensures
        is_command(r, "Browser.close"@, seq![]),
{
    request("Browser.close", empty_object())
}

/// `Runtime.evaluate`: evaluates `expression` in the page.
pub fn evaluate(expression: &str) -> (r: CdpRequest)
    ensures
        is_command(r, "Runtime.evaluate"@, seq!["expression"@]),
        r.params.at("expression"@).str_value() == Some(expression@),
{
    request("Runtime.evaluate", object1("expression", Json::text(expression)))
}

/// `Runtime.callFunctionOn`: calls `function_declaration` with `this` bound
/// to the remote object `object_id`.
pub fn call_function_on(function_declaration: &str, object_id: &str) -> (r: CdpRequest)
    ensures
        is_command(r, "Runtime.callFunctionOn"@, seq!["functionDeclaration"@, "objectId"@]),
        r.params.at("functionDeclaration"@).str_value() == Some(function_declaration@),
        r.params.at("objectId"@).str_value() == Some(object_id@),
{
    proof {
        reveal_strlit("functionDeclaration");
        reveal_strlit("objectId");
        assert("functionDeclaration"@.len() != "objectId"@.len());
    }
    request(
        "Runtime.callFunctionOn",
        object2("functionDeclaration", Json::text(function_declaration), "objectId", Json::text(object_id)),
    )
}

/// `Page.captureScreenshot`.
pub fn capture_screenshot() -> (r: CdpRequest)
    ensures
        is_command(r, "Page.captureScreenshot"@, seq![]),
{
    request("Page.captureScreenshot", empty_object())
}

/// `Page.getLayoutMetrics`.
pub fn get_layout_metrics() -> (r: CdpRequest)
    ensures
        is_command(r, "Page.getLayoutMetrics"@, seq![]),
{
    request("Page.getLayoutMetrics", empty_object())
}

/// `Emulation.setDeviceMetricsOverride`: a desktop viewport of
/// `width` x `height` at scale 1.
pub fn set_device_metrics_override(width: u64, height: i64) -> (r: CdpRequest)
    ensures
        is_command(
            r,
            "Emulation.setDeviceMetricsOverride"@,
            seq!["width"@, "height"@, "deviceScaleFactor"@, "mobile"@],
        ),
        r.params.at("width"@) == Json::Number(JsonNumber::PosInt(width)),
        r.params.at("height"@).i64_value() == Some(height),
        is_float_one(r.params.at("deviceScaleFactor"@)),
        r.params.at("mobile"@) == Json::Bool(false),
{
    proof {
        reveal_strlit("width");
        reveal_strlit("height");
        reveal_strlit("deviceScaleFactor");
        reveal_strlit("mobile");
        assert("width"@.len() != "height"@.len());
        assert("width"@.len() != "deviceScaleFactor"@.len());
        assert("width"@.len() != "mobile"@.len());
        assert("height"@.len() != "deviceScaleFactor"@.len());
        assert("height"@[0] != "mobile"@[0]);
        assert("deviceScaleFactor"@.len() != "mobile"@.len());
    }
    request(
        "Emulation.setDeviceMetricsOverride",
        object4(
            "width",
            Json::uint(width),
            "height",
            Json::integer(height),
            "deviceScaleFactor",
            float_one(),
            "mobile",
            Json::Bool(false),
        ),
    )
}

/// `Emulation.clearDeviceMetricsOverride`.
pub fn clear_device_metrics_override() -> (r: CdpRequest)
    ensures
        is_command(r, "Emulation.clearDeviceMetricsOverride"@, seq![]),
{
    request("Emulation.clearDeviceMetricsOverride", empty_object())
}

/// `Page.printToPDF`.
pub fn print_to_pdf() -> (r: CdpRequest)
    ensures
        is_command(r, "Page.printToPDF"@, seq![]),
{
    request("Page.printToPDF", empty_object())
}

/// `Page.getNavigationHistory`.
pub fn get_navigation_history() -> (r: CdpRequest)
    ensures
        is_command(r, "Page.getNavigationHistory"@, seq![]),
{
    request("Page.getNavigationHistory", empty_object())
}

/// `Page.navigateToHistoryEntry`: goes to the history entry `entry_id`.
pub fn navigate_to_history_entry(entry_id: i64) -> (r: CdpRequest)
    ensures
        is_command(r, "Page.navigateToHistoryEntry"@, seq!["entryId"@]),
        r.params.at("entryId"@).i64_value() == Some(entry_id),
{
    request("Page.navigateToHistoryEntry", object1("entryId", Json::integer(entry_id)))
}

/// `Input.dispatchKeyEvent` of type `char`: types `text` as one keystroke.
pub fn dispatch_char(text: &str) -> (r: CdpRequest)
    ensures
        is_command(r, "Input.dispatchKeyEvent"@, seq!["type"@, "text"@, "unmodifiedText"@]),
        r.params.at("type"@).str_value() == Some("char"@),
        r.params.at("text"@).str_value() == Some(text@),
        r.params.at("unmodifiedText"@).str_value() == Some(text@),
{
    proof {
        reveal_strlit("type");
        reveal_strlit("text");
        reveal_strlit("unmodifiedText");
        assert("type"@[1] != "text"@[1]);
        assert("type"@.len() != "unmodifiedText"@.len());
        assert("text"@.len() != "unmodifiedText"@.len());
    }
    request(
        "Input.dispatchKeyEvent",
        object3("type", Json::text("char"), "text", Json::text(text), "unmodifiedText", Json::text(text)),
    )
}

} // verus!
