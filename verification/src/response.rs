//! The response envelope: every handled request yields a status code from a
//! fixed set of four semantic buckets together with a JSON body. The
//! internal-error bucket carries a fixed body and never any caller-supplied
//! detail.

use vstd::prelude::*;

verus! {

/// `serde_json::Value` is the JSON body carried by every response. The
/// library treats a value as opaque and reasons about it through
/// [`json_text`].
#[verifier::external_type_specification]
#[verifier::external_body]
pub struct ExValue(serde_json::Value);

/// The compact serialization of a JSON value, as `serde_json::to_string`
/// produces it. By serde_json's serializer this text is a function of the
/// value alone (object entries are kept in the order of its backing map,
/// which orders by key).
pub uninterp spec fn json_text(v: serde_json::Value) -> Seq<char>;

/// A character that serde_json's string serializer copies through unchanged:
/// printable ASCII other than the quote and the backslash.
pub open spec fn json_plain_char(c: char) -> bool {
    &&& 0x20 <= c as u32 <= 0x7e
    &&& c != '"'
    &&& c != '\\'
}

/// A string that serializes inside quotes exactly as it stands.
pub open spec fn json_plain(s: Seq<char>) -> bool {
    forall|i: int| 0 <= i < s.len() ==> json_plain_char(#[trigger] s[i])
}

/// The compact text of a one-entry JSON object whose single value is the
/// string `value` under the key `key`.
pub open spec fn object_text(key: Seq<char>, value: Seq<char>) -> Seq<char> {
    "{\""@ + key + "\":\""@ + value + "\"}"@
}

/// Relies on `serde_json::Map::insert`, `serde_json::Value::Object` and the
/// compact serializer: a one-entry object of a plain-ASCII key and string
/// value serializes as `{"key":"value"}` with nothing escaped.
#[verifier::external_body]
fn single_entry_object(key: &str, value: &str) -> (v: serde_json::Value)
    requires
        json_plain(key@),
        json_plain(value@),
    ensures
        json_text(v) == object_text(key@, value@),
{
    let mut map = serde_json::Map::new();
    map.insert(key.to_string(), serde_json::Value::String(value.to_string()));
    serde_json::Value::Object(map)
}

/// A response: one of the four sanctioned status codes, and a JSON body.
pub struct Response {
    pub status: u16,
    pub body: serde_json::Value,
}

/// The four semantic buckets are the only sanctioned status codes.
pub open spec fn is_envelope_status(status: u16) -> bool {
    status == 200 || status == 400 || status == 401 || status == 500
}

impl Response {
    /// Every response the envelope produces carries a sanctioned status.
    pub open spec fn well_formed(self) -> bool {
        is_envelope_status(self.status)
    }
}

/// The body of the internal-error response: exactly
/// `{"feedback":"Internal server error"}`.
pub open spec fn internal_error_text() -> Seq<char> {
    object_text("feedback"@, "Internal server error"@)
}

/// The only sanctioned ways to construct a response.
pub struct MakeResponse;

impl MakeResponse {
    /// Success: status 200, the body passed through unchanged.
    pub fn ok(body: serde_json::Value) -> (r: Response)
        ensures
            r.status == 200,
            r.body == body,
            r.well_formed(),
    {
        Response { status: 200, body }
    }

    /// Bad input: status 400, the caller-supplied diagnostic body unchanged.
    pub fn bad_request(body: serde_json::Value) -> (r: Response)
        ensures
            r.status == 400,
            r.body == body,
            r.well_formed(),
    {
        Response { status: 400, body }
    }

    /// Unauthorized: status 401, the caller-supplied body unchanged.
    pub fn unauthorized(body: serde_json::Value) -> (r: Response)
        ensures
            r.status == 401,
            r.body == body,
            r.well_formed(),
    {
        Response { status: 401, body }
    }

    /// Internal failure: status 500 and the fixed body, regardless of call
    /// site — no caller-held detail can leak into it.
    pub fn internal_server_error() -> (r: Response)
        ensures
            r.status == 500,
            json_text(r.body) == internal_error_text(),
            r.well_formed(),
    {
        proof {
            reveal_strlit("feedback");
            reveal_strlit("Internal server error");
            assert(json_plain("feedback"@));
            assert(json_plain("Internal server error"@));
        }
        let body = single_entry_object("feedback", "Internal server error");
        Response { status: 500, body }
    }
}

} // verus!
