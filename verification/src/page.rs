//! The decisions of a page session: the expressions it evaluates and how it
//! reads the browser's answers.
use vstd::prelude::*;
use base64::Engine;
use crate::encoding::{base64_encoding, lemma_base64_encoding_injective};
use crate::error::XcelerateError;
use crate::json::{Json, JsonNumber};
use crate::reply::{
    array_field, array_member, describe_unexpected, i64_field, i64_member, invalid_type_text,
    is_serde_error, number_field, number_member, object_field, object_member,
    optional_string_field, optional_string_member, string_field, string_member,
};
use crate::text::{decimal, push_decimal, push_text};

verus! {

/// Why a base64 text does not decode (the cases of `base64::DecodeError`).
#[derive(Debug, Clone, Copy, PartialEq, Eq, Structural)]
pub enum Base64Failure {
    InvalidByte(usize, u8),
    InvalidLength(usize),
    InvalidLastSymbol(usize, u8),
    InvalidPadding,
}

impl Base64Failure {
    /// The message that `base64::DecodeError` displays for the failure.
    pub open spec fn description(self) -> Seq<char> {
        match self {
            Base64Failure::InvalidByte(index, byte) => "Invalid symbol "@ + decimal(byte as nat)
                + ", offset "@ + decimal(index as nat) + "."@,
            Base64Failure::InvalidLength(len) => "Invalid input length: "@ + decimal(len as nat),
            Base64Failure::InvalidLastSymbol(index, byte) => "Invalid last symbol "@ + decimal(
                byte as nat,
            ) + ", offset "@ + decimal(index as nat) + "."@,
            Base64Failure::InvalidPadding => "Invalid padding"@,
        }
    }

    /// The message that `base64::DecodeError` displays for the failure.
    pub fn to_string(&self) -> (r: String)
        ensures
            r@ == self.description(),
    {
        let mut s = String::new();
        match self {
            Base64Failure::InvalidByte(index, byte) => {
                push_text(&mut s, "Invalid symbol ");
                push_decimal(&mut s, *byte as u64);
                push_text(&mut s, ", offset ");
                push_decimal(&mut s, *index as u64);
                push_text(&mut s, ".");
            },
            Base64Failure::InvalidLength(len) => {
                push_text(&mut s, "Invalid input length: ");
                push_decimal(&mut s, *len as u64);
            },
            Base64Failure::InvalidLastSymbol(index, byte) => {
                push_text(&mut s, "Invalid last symbol ");
                push_decimal(&mut s, *byte as u64);
                push_text(&mut s, ", offset ");
                push_decimal(&mut s, *index as u64);
                push_text(&mut s, ".");
            },
            Base64Failure::InvalidPadding => {
                push_text(&mut s, "Invalid padding");
            },
        }
        assert(s@ =~= self.description());
        s
    }
}

/// What the standard base64 engine (`base64::engine::general_purpose::STANDARD`)
/// decodes `input` to.
pub uninterp spec fn base64_standard_decode(input: Seq<char>) -> Result<Seq<u8>, Base64Failure>;

/// Decodes `data` with `base64::engine::general_purpose::STANDARD.decode`.
/// The contract claims that the outcome is the one named by
/// `base64_standard_decode`, the failure told apart by its variant, and
/// that, the engine requiring canonical padding and no trailing bits, the
/// texts it decodes are exactly the padded standard encodings
/// (`base64_encoding`) of the bytes they decode to.
#[verifier::external_body]
fn standard_decode(data: &str) -> (r: Result<Vec<u8>, Base64Failure>)
    ensures
        match r {
            Ok(v) => base64_standard_decode(data@) == Ok::<Seq<u8>, Base64Failure>(v@),
            Err(f) => base64_standard_decode(data@) == Err::<Seq<u8>, Base64Failure>(f),
        },
        r matches Ok(v) ==> data@ == base64_encoding(v@),
        forall|bytes: Seq<u8>| #[trigger] base64_encoding(bytes) == data@ ==> r is Ok,
{
    match base64::engine::general_purpose::STANDARD.decode(data) {
        Ok(v) => Ok(v),
        Err(base64::DecodeError::InvalidByte(i, b)) => Err(Base64Failure::InvalidByte(i, b)),
        Err(base64::DecodeError::InvalidLength(n)) => Err(Base64Failure::InvalidLength(n)),
        Err(base64::DecodeError::InvalidLastSymbol(i, b)) => Err(Base64Failure::InvalidLastSymbol(i, b)),
        Err(base64::DecodeError::InvalidPadding) => Err(Base64Failure::InvalidPadding),
    }
}

/// Decodes the base64 payload of a screenshot or document: the decoded
/// bytes, or a JSON error that tells why the text does not decode.
/// Decoding the standard encoding of bytes gives those bytes back, and a
/// text that is no such encoding does not decode.
pub fn decode_base64(data: &str) -> (r: Result<Vec<u8>, XcelerateError>)
    ensures
        match base64_standard_decode(data@) {
            Ok(bytes) => r matches Ok(v) && v@ == bytes,
            Err(f) => r matches Err(XcelerateError::SerdeError(m)) && m@ == "Base64 decode failed: "@
                + f.description(),
        },
        forall|bytes: Seq<u8>| #[trigger] base64_encoding(bytes) == data@ ==> (r matches Ok(v) && v@
            == bytes),
        r matches Ok(v) ==> data@ == base64_encoding(v@),
{
    match standard_decode(data) {
        Ok(v) => {
            proof {
                assert forall|bytes: Seq<u8>| #[trigger] base64_encoding(bytes) == data@ implies v@
                    == bytes by {
                    lemma_base64_encoding_injective(v@, bytes);
                }
            }
            Ok(v)
        },
        Err(f) => {
            let mut m = "Base64 decode failed: ".to_owned();
            let d = f.to_string();
            push_text(&mut m, d.as_str());
            Err(XcelerateError::SerdeError(m))
        },
    }
}

/// The expression that looks up the first element matching `selector`.
pub open spec fn query_selector_text(selector: Seq<char>) -> Seq<char> {
    "document.querySelector('"@ + selector + "')"@
}

/// The expression that looks up the first element matching `selector`.
pub fn query_selector_expression(selector: &str) -> (r: String)
    ensures
        r@ == query_selector_text(selector@),
{
    let mut s = "document.querySelector('".to_owned();
    push_text(&mut s, selector);
    push_text(&mut s, "')");
    s
}

/// The lookup expression of a selector is the call
/// `document.querySelector('…')` with the selector quoted verbatim between
/// its quotes, whatever the selector is.
pub proof fn lemma_query_selector_parts(selector: Seq<char>)
    ensures
        query_selector_text(selector).len() == selector.len() + 26,
        query_selector_text(selector).take(24) == "document.querySelector('"@,
        query_selector_text(selector).subrange(24, 24 + selector.len() as int) == selector,
        query_selector_text(selector).skip(24 + selector.len() as int) == "')"@,
{
    reveal_strlit("document.querySelector('");
    reveal_strlit("')");
    let t = query_selector_text(selector);
    assert(t.take(24) =~= "document.querySelector('"@);
    assert(t.subrange(24, 24 + selector.len() as int) =~= selector);
    assert(t.skip(24 + selector.len() as int) =~= "')"@);
}

/// Distinct selectors are looked up by distinct expressions.
pub proof fn lemma_query_selector_injective(a: Seq<char>, b: Seq<char>)
    requires
        query_selector_text(a) == query_selector_text(b),
    ensures
        a == b,
{
    lemma_query_selector_parts(a);
    lemma_query_selector_parts(b);
}

/// The remote object that an evaluation returned, read as the typed
/// return reads it: the required `result` structure and its optional string
/// `objectId`.
pub open spec fn evaluation_object_id(evaluation: Json) -> Result<Option<Seq<char>>, Seq<char>> {
    match object_member(evaluation, "result"@, "RemoteObject"@) {
        Ok(result) => optional_string_member(result, "objectId"@),
        Err(m) => Err(m),
    }
}

/// The value that an evaluation returned, when it is a string: the
/// required `result` structure's optional `value`, which may be any JSON.
pub open spec fn evaluation_string(evaluation: Json) -> Result<Option<Seq<char>>, Seq<char>> {
    match object_member(evaluation, "result"@, "RemoteObject"@) {
        Ok(result) => Ok(result.at("value"@).str_value()),
        Err(m) => Err(m),
    }
}

/// The element that a selector lookup found: the id of the remote object,
/// `NotFound` carrying the selector when the lookup gave no object, or the
/// JSON error of a malformed reply.
pub fn found_element(evaluation: &Json, selector: &str) -> (r: Result<String, XcelerateError>)
    ensures
        match evaluation_object_id(*evaluation) {
            Ok(Some(id)) => r matches Ok(v) && v@ == id,
            Ok(None) => r matches Err(XcelerateError::NotFound(m)) && m@ == selector@,
            Err(m) => r matches Err(e) && is_serde_error(e, m),
        },
{
    let result = object_field(evaluation, "result", "RemoteObject")?;
    match optional_string_field(result, "objectId")? {
        Some(id) => Ok(id),
        None => Err(XcelerateError::NotFound(selector.to_owned())),
    }
}

/// The string that an evaluation or a function call returned, if it
/// returned one; the JSON error of a malformed reply.
pub fn string_result(evaluation: &Json) -> (r: Result<Option<String>, XcelerateError>)
    ensures
        match evaluation_string(*evaluation) {
            Ok(Some(s)) => r matches Ok(Some(v)) && v@ == s,
            Ok(None) => r matches Ok(None),
            Err(m) => r matches Err(e) && is_serde_error(e, m),
        },
{
    let result = object_field(evaluation, "result", "RemoteObject")?;
    let value = match result.lookup("value") {
        Some(v) => v.as_str(),
        None => None,
    };
    match value {
        Some(s) => Ok(Some(s.to_owned())),
        None => Ok(None),
    }
}

/// The string that an evaluation or a function call returned, or the
/// empty string when it returned none; the JSON error of a malformed reply.
pub fn string_result_or_empty(evaluation: &Json) -> (r: Result<String, XcelerateError>)
    ensures
        match evaluation_string(*evaluation) {
            Ok(Some(s)) => r matches Ok(v) && v@ == s,
            Ok(None) => r matches Ok(v) && v@ == Seq::<char>::empty(),
            Err(m) => r matches Err(e) && is_serde_error(e, m),
        },
{
    match string_result(evaluation)? {
        Some(s) => Ok(s),
        None => Ok(String::new()),
    }
}

/// Whether an evaluation of `document.readyState` reports a loaded page;
/// the JSON error of a malformed reply.
pub fn reports_complete(evaluation: &Json) -> (r: Result<bool, XcelerateError>)
    ensures
        match evaluation_string(*evaluation) {
            Ok(v) => r == Ok::<bool, XcelerateError>(v == Some("complete"@)),
            Err(m) => r matches Err(e) && is_serde_error(e, m),
        },
{
    match string_result(evaluation)? {
        Some(s) => {
            let complete = "complete".to_owned();
            Ok(s == complete)
        },
        None => Ok(false),
    }
}

/// How long a page waits for a selector or a navigation, in milliseconds.
pub const WAIT_TIMEOUT_MS: u64 = 30_000;

/// The pause between two probes of a wait, in milliseconds.
pub const POLL_INTERVAL_MS: u64 = 250;

/// Whether a wait that began `elapsed_ms` milliseconds ago probes again.
pub fn keep_waiting(elapsed_ms: u64) -> (r: bool)
    ensures
        r == (elapsed_ms < WAIT_TIMEOUT_MS),
{
    elapsed_ms < WAIT_TIMEOUT_MS
}

/// The error of a selector wait that ran out of time.
pub fn selector_timeout(selector: &str) -> (r: XcelerateError)
    ensures
        r matches XcelerateError::NotFound(m) && m@ == "Timeout waiting for selector: "@ + selector@,
{
    let mut m = "Timeout waiting for selector: ".to_owned();
    push_text(&mut m, selector);
    XcelerateError::NotFound(m)
}

/// The error of a navigation wait that ran out of time.
pub fn navigation_timeout() -> (r: XcelerateError)
    ensures
        r matches XcelerateError::NotFound(m) && m@ == "Navigation timeout"@,
{
    XcelerateError::NotFound("Navigation timeout".to_owned())
}

/// What a selector probe leads to: the element when it was found; another
/// probe after a pause otherwise, whatever the failure was.
pub fn selector_probe(found: Result<String, XcelerateError>) -> (r: Option<String>)
    ensures
        match found {
            Ok(id) => r == Some(id),
            Err(_) => r is None,
        },
{
    match found {
        Ok(id) => Some(id),
        Err(_) => None,
    }
}

/// What a navigation probe leads to: `Ok(true)` once the page reports
/// itself loaded, `Ok(false)` for another probe after a pause, and the
/// failure of the probe itself, or of reading its reply, which ends the wait.
pub fn navigation_probe(evaluation: Result<Json, XcelerateError>) -> (r: Result<bool, XcelerateError>)
    ensures
        match evaluation {
            Ok(e) => match evaluation_string(e) {
                Ok(v) => r == Ok::<bool, XcelerateError>(v == Some("complete"@)),
                Err(m) => r matches Err(x) && is_serde_error(x, m),
            },
            Err(e) => r == Err::<bool, XcelerateError>(e),
        },
{
    match evaluation {
        Ok(e) => reports_complete(&e),
        Err(e) => Err(e),
    }
}

/// The base64 member `data` of a screenshot or document reply, decoded.
pub fn binary_payload(reply: &Json) -> (r: Result<Vec<u8>, XcelerateError>)
    ensures
        match string_member(*reply, "data"@) {
            Ok(d) => match base64_standard_decode(d) {
                Ok(bytes) => r matches Ok(v) && v@ == bytes,
                Err(f) => r matches Err(XcelerateError::SerdeError(m)) && m@
                    == "Base64 decode failed: "@ + f.description(),
            },
            Err(m) => r matches Err(e) && is_serde_error(e, m),
        },
{
    let data = string_field(reply, "data")?;
    decode_base64(data.as_str())
}

/// The elements of an array; nothing for any other value.
pub open spec fn elements(value: Json) -> Seq<Json> {
    match value {
        Json::Array(v) => v@,
        _ => Seq::empty(),
    }
}

/// A history reply whose current entry has a predecessor names an entry
/// that its list holds.
pub open spec fn history_in_range(history: Json) -> bool {
    match history.at("currentIndex"@).i64_value() {
        Some(current) => current > 0 && history.at("entries"@) is Array ==> current - 1 < elements(
            history.at("entries"@),
        ).len(),
        None => true,
    }
}

/// Where going back in the history leads.
#[derive(Debug, Clone, Copy, PartialEq, Eq, Structural)]
pub enum HistoryMove {
    /// The current entry is the first: nothing to do.
    Stay,
    /// Go to the history entry with this id.
    Go(i64),
}

/// Whether a history reply names entries that its list holds, as
/// `history_in_range` says.
pub fn history_in_range_check(history: &Json) -> (r: bool)
    ensures
        r == history_in_range(*history),
{
    let current = match history.lookup("currentIndex") {
        Some(c) => c.as_i64(),
        None => None,
    };
    match current {
        Some(current) => {
            if current > 0 {
                match history.lookup("entries") {
                    Some(Json::Array(entries)) => ((current - 1) as u64) < (entries.len() as u64),
                    _ => true,
                }
            } else {
                true
            }
        },
        None => true,
    }
}

/// What is wrong with a history entry, read as the typed return reads it:
/// a structure whose `id` is a 64-bit integer.
pub open spec fn entry_error(entry: Json) -> Option<Seq<char>> {
    match entry {
        Json::Object(_) => match i64_member(entry, "id"@) {
            Ok(_) => None,
            Err(m) => Some(m),
        },
        other => Some(invalid_type_text(other, "struct NavigationEntry"@)),
    }
}

/// The error of the first entry, from `from` on, that is not a history
/// entry; none when all are.
pub open spec fn first_entry_error(entries: Seq<Json>, from: int) -> Option<Seq<char>>
    decreases entries.len() - from,
{
    if from < 0 || from >= entries.len() {
        None
    } else {
        match entry_error(entries[from]) {
            Some(m) => Some(m),
            None => first_entry_error(entries, from + 1),
        }
    }
}

/// An entry list without errors holds an integer `id` in each entry.
proof fn lemma_no_entry_error(entries: Seq<Json>, from: int, k: int)
    requires
        0 <= from <= k < entries.len(),
        first_entry_error(entries, from) is None,
    ensures
        entry_error(entries[k]) is None,
    decreases k - from,
{
    if from < k {
        lemma_no_entry_error(entries, from + 1, k);
    }
}

/// Where going back leads, read from a `Page.getNavigationHistory` reply:
/// the entry before the current one, or nowhere when the current entry is
/// the first. The reply is read as the typed return reads it: the integer
/// `currentIndex`, then the list `entries`, each entry a structure with an
/// integer `id`; the first of these that is missing or of another type is
/// a JSON error.
pub fn history_back(history: &Json) -> (r: Result<HistoryMove, XcelerateError>)
    requires
        history_in_range(*history),
    ensures
        match i64_member(*history, "currentIndex"@) {
            Err(m) => r matches Err(e) && is_serde_error(e, m),
            Ok(current) => match array_member(*history, "entries"@) {
                Err(m) => r matches Err(e) && is_serde_error(e, m),
                Ok(entries) => match first_entry_error(entries, 0) {
                    Some(m) => r matches Err(e) && is_serde_error(e, m),
                    None => if current <= 0 {
                        r == Ok::<HistoryMove, XcelerateError>(HistoryMove::Stay)
                    } else {
                        i64_member(entries[current - 1], "id"@) matches Ok(id) && r == Ok::<
                            HistoryMove,
                            XcelerateError,
                        >(HistoryMove::Go(id))
                    },
                },
            },
        },
{
    let current = i64_field(history, "currentIndex")?;
    let entries = array_field(history, "entries")?;
    proof {
        assert(history.at("currentIndex"@).i64_value() == Some(current));
        assert(history.at("entries"@) is Array);
        assert(elements(history.at("entries"@)) == entries@);
    }
    let n = entries.len();
    let mut i: usize = 0;
    while i < n
        invariant
            n == entries@.len(),
            i <= n,
            first_entry_error(entries@, 0) == first_entry_error(entries@, i as int),
            i64_member(*history, "currentIndex"@) == Ok::<i64, Seq<char>>(current),
            array_member(*history, "entries"@) == Ok::<Seq<Json>, Seq<char>>(entries@),
        decreases n - i,
    {
        let entry = &entries[i];
        assert(entries@[i as int] == *entry);
        match entry {
            Json::Object(_) => {},
            _ => {
                let mut m = "invalid type: ".to_owned();
                let d = describe_unexpected(entry);
                push_text(&mut m, d.as_str());
                push_text(&mut m, ", expected ");
                push_text(&mut m, "struct NavigationEntry");
                assert(m@ =~= invalid_type_text(*entry, "struct NavigationEntry"@));
                return Err(XcelerateError::SerdeError(m));
            },
        }
        let _id = i64_field(entry, "id")?;
        i = i + 1;
    }
    if current <= 0 {
        return Ok(HistoryMove::Stay);
    }
    assert(0 <= current - 1 < n);
    let k: usize = (current - 1) as usize;
    assert(k == current - 1);
    proof {
        lemma_no_entry_error(entries@, 0, k as int);
    }
    let id = i64_field(&entries[k], "id")?;
    Ok(HistoryMove::Go(id))
}

/// The width and height of the page's content, read from a
/// `Page.getLayoutMetrics` reply as the typed return reads them: the
/// structure `contentSize` and its numbers `width` and `height`.
pub fn content_size(metrics: &Json) -> (r: Result<(JsonNumber, JsonNumber), XcelerateError>)
    ensures
        match object_member(*metrics, "contentSize"@, "Rect"@) {
            Err(m) => r matches Err(e) && is_serde_error(e, m),
            Ok(size) => match (number_member(size, "width"@), number_member(size, "height"@)) {
                (Ok(w), Ok(h)) => r == Ok::<(JsonNumber, JsonNumber), XcelerateError>((w, h)),
                (Err(m), _) => r matches Err(e) && is_serde_error(e, m),
                (Ok(_), Err(m)) => r matches Err(e) && is_serde_error(e, m),
            },
        },
{
    let size = object_field(metrics, "contentSize", "Rect")?;
    let width = number_field(size, "width")?;
    let height = number_field(size, "height")?;
    Ok((width, height))
}

/// The stage of a full-page screenshot.
#[derive(Debug, Clone, Copy, PartialEq, Eq, Structural)]
pub enum CaptureStage {
    /// The page domain is being enabled.
    Enabling,
    /// The size of the content is being measured.
    Measuring,
    /// The viewport is being resized to the content.
    Resizing,
    /// The screenshot is being taken.
    Capturing,
    /// The viewport is being restored.
    Restoring,
    /// The screenshot is decoded.
    Done,
}

/// A full-page screenshot: the viewport is resized to the whole content,
/// the screenshot taken, and the viewport restored before the image is
/// decoded.
pub struct FullPageCapture {
    stage: CaptureStage,
    image: Option<String>,
}

impl FullPageCapture {
    pub closed spec fn stage(&self) -> CaptureStage {
        self.stage
    }

    /// The base64 image taken, once the screenshot is taken.
    pub closed spec fn image(&self) -> Option<Seq<char>> {
        match self.image {
            Some(s) => Some(s@),
            None => None,
        }
    }

    /// Starts a full-page screenshot; the first command enables the page
    /// domain.
    pub fn start() -> (r: (FullPageCapture, crate::connection::client::CdpRequest))
        ensures
            r.0.stage() == CaptureStage::Enabling,
            r.0.image() is None,
            crate::commands::is_command(r.1, "Page.enable"@, seq![]),
    {
        (FullPageCapture { stage: CaptureStage::Enabling, image: None }, crate::commands::page_enable())
    }

    /// The page domain is enabled: the next command measures the content.
    pub fn enabled(&mut self) -> (r: crate::connection::client::CdpRequest)
        requires
            old(self).stage() == CaptureStage::Enabling,
        ensures
            final(self).stage() == CaptureStage::Measuring,
            final(self).image() == old(self).image(),
            crate::commands::is_command(r, "Page.getLayoutMetrics"@, seq![]),
    {
        self.stage = CaptureStage::Measuring;
        crate::commands::get_layout_metrics()
    }

    /// The content measures `width` by `height`: the next command resizes
    /// the viewport to it, at scale 1 on a desktop.
    pub fn measured(&mut self, width: u64, height: i64) -> (r: crate::connection::client::CdpRequest)
        requires
            old(self).stage() == CaptureStage::Measuring,
        ensures
            final(self).stage() == CaptureStage::Resizing,
            final(self).image() == old(self).image(),
            crate::commands::is_command(
                r,
                "Emulation.setDeviceMetricsOverride"@,
                seq!["width"@, "height"@, "deviceScaleFactor"@, "mobile"@],
            ),
            r.params.at("width"@) == Json::Number(JsonNumber::PosInt(width)),
            r.params.at("height"@).i64_value() == Some(height),
            crate::commands::is_float_one(r.params.at("deviceScaleFactor"@)),
            r.params.at("mobile"@) == Json::Bool(false),
    {
        self.stage = CaptureStage::Resizing;
        crate::commands::set_device_metrics_override(width, height)
    }

    /// The viewport is resized: the next command takes the screenshot.
    pub fn resized(&mut self) -> (r: crate::connection::client::CdpRequest)
        requires
            old(self).stage() == CaptureStage::Resizing,
        ensures
            final(self).stage() == CaptureStage::Capturing,
            final(self).image() == old(self).image(),
            crate::commands::is_command(r, "Page.captureScreenshot"@, seq![]),
    {
        self.stage = CaptureStage::Capturing;
        crate::commands::capture_screenshot()
    }

    /// The screenshot is taken: its base64 `data` is kept and the next
    /// command restores the viewport. A reply whose `data` is missing or not
    /// a string is a JSON error.
    pub fn captured(&mut self, reply: &Json) -> (r: Result<crate::connection::client::CdpRequest, XcelerateError>)
        requires
            old(self).stage() == CaptureStage::Capturing,
        ensures
            match string_member(*reply, "data"@) {
                Ok(d) => final(self).stage() == CaptureStage::Restoring && final(self).image() == Some(d)
                    && (r matches Ok(c) && crate::commands::is_command(
                    c,
                    "Emulation.clearDeviceMetricsOverride"@,
                    seq![],
                )),
                Err(m) => *final(self) == *old(self) && (r matches Err(e) && is_serde_error(e, m)),
            },
    {
        let data = string_field(reply, "data")?;
        self.image = Some(data);
        self.stage = CaptureStage::Restoring;
        Ok(crate::commands::clear_device_metrics_override())
    }

    /// The viewport is restored: the screenshot is decoded.
    pub fn restored(&mut self) -> (r: Result<Vec<u8>, XcelerateError>)
        requires
            old(self).stage() == CaptureStage::Restoring,
            old(self).image() is Some,
        ensures
            final(self).stage() == CaptureStage::Done,
            match base64_standard_decode(old(self).image().unwrap()) {
                Ok(bytes) => r matches Ok(v) && v@ == bytes,
                Err(f) => r matches Err(XcelerateError::SerdeError(m)) && m@ == "Base64 decode failed: "@
                    + f.description(),
            },
    {
        self.stage = CaptureStage::Done;
        match &self.image {
            Some(data) => decode_base64(data.as_str()),
            None => Err(XcelerateError::InternalError),
        }
    }
}

} // verus!
