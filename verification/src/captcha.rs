//! The captcha-solving step's pure parts: encoding the challenge image,
//! building the solving-service request body, and parsing the service's
//! reply. The two calls into outside crates stand behind trusted wrappers
//! whose results are named, so every caller's contract is exact in terms of
//! those names.

use vstd::prelude::*;

verus! {

/// The solving service's reply: the solved token, a status code, and a
/// success flag.
pub struct Captcha {
    pub message: String,
    pub code: i64,
    pub success: bool,
}

/// What base64's standard-alphabet encoder returns for the given bytes.
pub uninterp spec fn base64_of(data: Seq<u8>) -> Seq<char>;

/// Relies on base64's `Engine::encode` with the standard alphabet and
/// padding: the encoding is a pure function of the input bytes.
#[verifier::external_body]
fn encode_base64(data: &Vec<u8>) -> (r: String)
    ensures
        r@ == base64_of(data@),
{
    base64::Engine::encode(&base64::engine::general_purpose::STANDARD, data)
}

/// What parsing the solving service's reply text yields: the `message`,
/// `code` and `success` fields of the JSON object, or nothing when the text
/// is not a JSON object carrying all three.
pub uninterp spec fn captcha_reply_of(s: Seq<char>) -> Option<(Seq<char>, int, bool)>;

/// Relies on serde_json's `from_str` for `Value` and the `Value` accessors
/// `get`, `as_str`, `as_i64` and `as_bool`: parsing is a pure function of
/// the reply text, and the fields are read off the parsed object.
#[verifier::external_body]
fn parse_captcha_reply(s: &str) -> (r: Option<Captcha>)
    ensures
        r is Some <==> captcha_reply_of(s@) is Some,
        r matches Some(c) ==> captcha_reply_of(s@) matches Some(t) && c.message@ == t.0 && c.code
            as int == t.1 && c.success == t.2,
{
    let v: serde_json::Value = serde_json::from_str(s).ok()?;
    let message = String::from(v.get("message")?.as_str()?);
    let code = v.get("code")?.as_i64()?;
    let success = v.get("success")?.as_bool()?;
    Some(Captcha { message, code, success })
}

/// Parses the solving service's reply. It yields a value exactly when the
/// reply text parses as a JSON object with the three expected fields, and
/// then carries those fields.
pub fn get_captcha(s: &str) -> (r: Option<Captcha>)
    ensures
        r is Some <==> captcha_reply_of(s@) is Some,
        r matches Some(c) ==> captcha_reply_of(s@) matches Some(t) && c.message@ == t.0 && c.code
            as int == t.1 && c.success == t.2,
{
    parse_captcha_reply(s)
}

/// The solving-service request body around an already-encoded image.
pub open spec fn spec_solve_request(b64: Seq<char>) -> Seq<char> {
    "{\"image\":\""@ + b64 + "\"}"@
}

/// Builds the solving-service request body around an encoded image.
pub fn solve_request_body(b64: &str) -> (r: String)
    ensures
        r@ == spec_solve_request(b64@),
{
    let mut s = String::from_str("{\"image\":\"");
    s.append(b64);
    s.append("\"}");
    s
}

/// Encodes the captcha image bytes and builds the solving-service request
/// body around the encoding.
pub fn solve_request_for_image(data: &Vec<u8>) -> (r: String)
    ensures
        r@ == spec_solve_request(base64_of(data@)),
{
    let b = encode_base64(data);
    solve_request_body(b.as_str())
}

} // verus!
