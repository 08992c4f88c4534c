//! Reading the members of the browser's replies as the protocol's typed
//! returns read them: a required member that is absent is a "missing
//! field" error, and a member of another type an "invalid type" error that
//! describes the value found, in serde's words.
use vstd::prelude::*;
use crate::error::XcelerateError;
use crate::json::{Json, JsonNumber};
use crate::text::{decimal, push_decimal, push_signed_decimal, push_text, signed_decimal};

verus! {

/// `e` is a JSON error with the message `m`.
pub open spec fn is_serde_error(e: XcelerateError, m: Seq<char>) -> bool {
    e matches XcelerateError::SerdeError(t) && t@ == m
}

/// The message for a required member `name` that is absent.
pub open spec fn missing_field_text(name: Seq<char>) -> Seq<char> {
    "missing field `"@ + name + "`"@
}

/// The Debug notation of a string (std's `{:?}` on `str`): quoted, with
/// escapes.
pub uninterp spec fn debug_quoted(s: Seq<char>) -> Seq<char>;

/// Formats `s` with std's `Debug` for `str`. The contract claims that the
/// text is the one named `debug_quoted`, which depends on `s` alone.
#[verifier::external_body]
fn quoted(s: &str) -> (r: String)
    ensures
        r@ == debug_quoted(s@),
{
    format!("{:?}", s)
}

/// How a value found where another type was expected is described.
pub open spec fn unexpected_text(v: Json) -> Seq<char> {
    match v {
        Json::Null => "null"@,
        Json::Bool(b) => if b {
            "boolean `true`"@
        } else {
            "boolean `false`"@
        },
        Json::Number(JsonNumber::PosInt(n)) => "integer `"@ + decimal(n as nat) + "`"@,
        Json::Number(JsonNumber::NegInt(n)) => "integer `"@ + signed_decimal(n as int) + "`"@,
        Json::Number(JsonNumber::Float(_, t)) => "floating point `"@ + t@ + "`"@,
        Json::Text(s) => "string "@ + debug_quoted(s@),
        Json::Array(_) => "sequence"@,
        Json::Object(_) => "map"@,
    }
}

/// The message for a value of another type than `expected`.
pub open spec fn invalid_type_text(v: Json, expected: Seq<char>) -> Seq<char> {
    "invalid type: "@ + unexpected_text(v) + ", expected "@ + expected
}

/// The message for a value of the right type that `expected` cannot hold.
pub open spec fn invalid_value_text(v: Json, expected: Seq<char>) -> Seq<char> {
    "invalid value: "@ + unexpected_text(v) + ", expected "@ + expected
}

/// The message for the member `name` of a reply, absent or not `expected`.
pub open spec fn member_error(member: Option<Json>, name: Seq<char>, expected: Seq<char>) -> Seq<char> {
    match member {
        None => missing_field_text(name),
        Some(v) => invalid_type_text(v, expected),
    }
}

/// The required string member `name`.
pub open spec fn string_member(reply: Json, name: Seq<char>) -> Result<Seq<char>, Seq<char>> {
    match reply.member(name) {
        Some(Json::Text(s)) => Ok(s@),
        m => Err(member_error(m, name, "a string"@)),
    }
}

/// The optional string member `name`: absent or null is none.
pub open spec fn optional_string_member(reply: Json, name: Seq<char>) -> Result<Option<Seq<char>>, Seq<char>> {
    match reply.member(name) {
        None => Ok(None),
        Some(Json::Null) => Ok(None),
        Some(Json::Text(s)) => Ok(Some(s@)),
        Some(v) => Err(invalid_type_text(v, "a string"@)),
    }
}

/// The required 64-bit integer member `name`.
pub open spec fn i64_member(reply: Json, name: Seq<char>) -> Result<i64, Seq<char>> {
    match reply.member(name) {
        Some(Json::Number(JsonNumber::PosInt(n))) => if n <= i64::MAX {
            Ok(n as i64)
        } else {
            Err(invalid_value_text(Json::Number(JsonNumber::PosInt(n)), "i64"@))
        },
        Some(Json::Number(JsonNumber::NegInt(n))) => Ok(n),
        m => Err(member_error(m, name, "i64"@)),
    }
}

/// The required floating-point member `name`: any number.
pub open spec fn number_member(reply: Json, name: Seq<char>) -> Result<JsonNumber, Seq<char>> {
    match reply.member(name) {
        Some(Json::Number(n)) => Ok(n),
        m => Err(member_error(m, name, "f64"@)),
    }
}

/// The required member `name` that holds a structure called `what`.
pub open spec fn object_member(reply: Json, name: Seq<char>, what: Seq<char>) -> Result<Json, Seq<char>> {
    match reply.member(name) {
        Some(Json::Object(m)) => Ok(Json::Object(m)),
        m => Err(member_error(m, name, "struct "@ + what)),
    }
}

/// The required list member `name`.
pub open spec fn array_member(reply: Json, name: Seq<char>) -> Result<Seq<Json>, Seq<char>> {
    match reply.member(name) {
        Some(Json::Array(items)) => Ok(items@),
        m => Err(member_error(m, name, "a sequence"@)),
    }
}

/// How a value found where another type was expected is described.
pub fn describe_unexpected(v: &Json) -> (r: String)
    ensures
        r@ == unexpected_text(*v),
{
    let mut s = String::new();
    match v {
        Json::Null => push_text(&mut s, "null"),
        Json::Bool(b) => {
            if *b {
                push_text(&mut s, "boolean `true`");
            } else {
                push_text(&mut s, "boolean `false`");
            }
        },
        Json::Number(JsonNumber::PosInt(n)) => {
            push_text(&mut s, "integer `");
            push_decimal(&mut s, *n);
            push_text(&mut s, "`");
        },
        Json::Number(JsonNumber::NegInt(n)) => {
            push_text(&mut s, "integer `");
            push_signed_decimal(&mut s, *n);
            push_text(&mut s, "`");
        },
        Json::Number(JsonNumber::Float(_, t)) => {
            push_text(&mut s, "floating point `");
            push_text(&mut s, t.as_str());
            push_text(&mut s, "`");
        },
        Json::Text(t) => {
            push_text(&mut s, "string ");
            let q = quoted(t.as_str());
            push_text(&mut s, q.as_str());
        },
        Json::Array(_) => push_text(&mut s, "sequence"),
        Json::Object(_) => push_text(&mut s, "map"),
    }
    assert(s@ =~= unexpected_text(*v));
    s
}

/// The error for the member `name`, absent or not `expected`.
pub fn member_failure(member: Option<&Json>, name: &str, expected: &str) -> (r: XcelerateError)
    ensures
        is_serde_error(
            r,
            member_error(
                match member {
                    Some(v) => Some(*v),
                    None => None,
                },
                name@,
                expected@,
            ),
        ),
{
    match member {
        None => missing_field(name),
        Some(v) => {
            let mut m = "invalid type: ".to_owned();
            let d = describe_unexpected(v);
            push_text(&mut m, d.as_str());
            push_text(&mut m, ", expected ");
            push_text(&mut m, expected);
            assert(m@ =~= invalid_type_text(*v, expected@));
            XcelerateError::SerdeError(m)
        },
    }
}

/// The error for a required member `name` that is absent.
pub fn missing_field(name: &str) -> (r: XcelerateError)
    ensures
        is_serde_error(r, missing_field_text(name@)),
{
    let mut m = "missing field `".to_owned();
    push_text(&mut m, name);
    push_text(&mut m, "`");
    XcelerateError::SerdeError(m)
}

/// The required string member `name` of a reply.
pub fn string_field(reply: &Json, name: &str) -> (r: Result<String, XcelerateError>)
    ensures
        match string_member(*reply, name@) {
            Ok(s) => r matches Ok(v) && v@ == s,
            Err(m) => r matches Err(e) && is_serde_error(e, m),
        },
{
    let member = reply.lookup(name);
    match member {
        Some(Json::Text(s)) => Ok(s.clone()),
        _ => Err(member_failure(member, name, "a string")),
    }
}

/// The optional string member `name` of a reply.
pub fn optional_string_field(reply: &Json, name: &str) -> (r: Result<Option<String>, XcelerateError>)
    ensures
        match optional_string_member(*reply, name@) {
            Ok(Some(s)) => r matches Ok(Some(v)) && v@ == s,
            Ok(None) => r matches Ok(None),
            Err(m) => r matches Err(e) && is_serde_error(e, m),
        },
{
    let member = reply.lookup(name);
    match member {
        None => Ok(None),
        Some(Json::Null) => Ok(None),
        Some(Json::Text(s)) => Ok(Some(s.clone())),
        Some(v) => Err(member_failure(member, name, "a string")),
    }
}

/// The required 64-bit integer member `name` of a reply.
pub fn i64_field(reply: &Json, name: &str) -> (r: Result<i64, XcelerateError>)
    ensures
        match i64_member(*reply, name@) {
            Ok(n) => r == Ok::<i64, XcelerateError>(n),
            Err(m) => r matches Err(e) && is_serde_error(e, m),
        },
{
    let member = reply.lookup(name);
    match member {
        Some(Json::Number(JsonNumber::PosInt(n))) => {
            if *n <= 0x7fff_ffff_ffff_ffffu64 {
                Ok(*n as i64)
            } else {
                let found = Json::Number(JsonNumber::PosInt(*n));
                let mut m = "invalid value: ".to_owned();
                let d = describe_unexpected(&found);
                push_text(&mut m, d.as_str());
                push_text(&mut m, ", expected ");
                push_text(&mut m, "i64");
                assert(m@ =~= invalid_value_text(Json::Number(JsonNumber::PosInt(*n)), "i64"@));
                Err(XcelerateError::SerdeError(m))
            }
        },
        Some(Json::Number(JsonNumber::NegInt(n))) => Ok(*n),
        _ => Err(member_failure(member, name, "i64")),
    }
}

/// The required floating-point member `name` of a reply.
pub fn number_field(reply: &Json, name: &str) -> (r: Result<JsonNumber, XcelerateError>)
    ensures
        match number_member(*reply, name@) {
            Ok(n) => r == Ok::<JsonNumber, XcelerateError>(n),
            Err(m) => r matches Err(e) && is_serde_error(e, m),
        },
{
    let member = reply.lookup(name);
    match member {
        Some(Json::Number(n)) => Ok(n.duplicate()),
        _ => Err(member_failure(member, name, "f64")),
    }
}

/// The required member `name` of a reply that holds the structure `what`.
pub fn object_field<'a>(reply: &'a Json, name: &str, what: &str) -> (r: Result<&'a Json, XcelerateError>)
    ensures
        match object_member(*reply, name@, what@) {
            Ok(o) => r matches Ok(v) && *v == o,
            Err(m) => r matches Err(e) && is_serde_error(e, m),
        },
{
    let member = reply.lookup(name);
    match member {
        Some(v) => {
            if let Json::Object(_) = v {
                return Ok(v);
            }
        },
        None => {},
    }
    let mut expected = "struct ".to_owned();
    push_text(&mut expected, what);
    Err(member_failure(member, name, expected.as_str()))
}

/// The required list member `name` of a reply.
pub fn array_field<'a>(reply: &'a Json, name: &str) -> (r: Result<&'a Vec<Json>, XcelerateError>)
    ensures
        match array_member(*reply, name@) {
            Ok(items) => r matches Ok(v) && v@ == items,
            Err(m) => r matches Err(e) && is_serde_error(e, m),
        },
{
    let member = reply.lookup(name);
    match member {
        Some(Json::Array(items)) => Ok(items),
        _ => Err(member_failure(member, name, "a sequence")),
    }
}

} // verus!
