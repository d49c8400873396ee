//! The portal's endpoints and the construction of every request URL the
//! pipeline issues, including the selection between the legacy and the
//! current result-page template. The round trip of the solved token into the
//! result URL is stated as a law.

use vstd::prelude::*;
use crate::captcha::{base64_of, spec_solve_request};
use crate::text::{contains_seq, dec_spec, match_at, pad10_spec, u64_to_dec, u64_to_dec_pad10};

verus! {

/// The gateway page establishing the session cookies.
pub open spec fn spec_gateway_url() -> Seq<char> {
    "https://www.chinadegrees.cn/cqva/gateway.html"@
}

/// The gateway page establishing the session cookies.
pub fn gateway_url() -> (r: &'static str)
    ensures
        r@ == spec_gateway_url(),
{
    "https://www.chinadegrees.cn/cqva/gateway.html"
}

/// The captcha image endpoint, parameterized by the job's identifiers
/// concatenated in decimal.
pub open spec fn spec_captcha_url(outer: int, inner: int) -> Seq<char> {
    "https://www.chinadegrees.cn/cqva/captcha.html?"@ + dec_spec(outer) + dec_spec(inner)
}

/// Builds the captcha image URL for a job.
pub fn captcha_url(outer: u64, inner: u64) -> (r: String)
    ensures
        r@ == spec_captcha_url(outer as int, inner as int),
{
    let mut s = String::from_str("https://www.chinadegrees.cn/cqva/captcha.html?");
    s.append(u64_to_dec(outer).as_str());
    s.append(u64_to_dec(inner).as_str());
    s
}

/// The external solving service's endpoint.
pub open spec fn spec_solver_url() -> Seq<char> {
    "http://106.13.192.37:19952/captcha/v1"@
}

/// The external solving service's endpoint.
pub fn solver_url() -> (r: &'static str)
    ensures
        r@ == spec_solver_url(),
{
    "http://106.13.192.37:19952/captcha/v1"
}

/// The fixed browser-identifying header sent with the result request.
pub open spec fn spec_user_agent() -> Seq<char> {
    "Mozilla/5.0 (Windows NT 10.0; WOW64) AppleWebKit/537.36 (KHTML, like Gecko) Chrome/77.0.3865.90 Safari/537.36"@
}

/// The fixed browser-identifying header sent with the result request.
pub fn user_agent() -> (r: &'static str)
    ensures
        r@ == spec_user_agent(),
{
    "Mozilla/5.0 (Windows NT 10.0; WOW64) AppleWebKit/537.36 (KHTML, like Gecko) Chrome/77.0.3865.90 Safari/537.36"
}

/// Whether an outer identifier selects the legacy result-page template; the
/// threshold itself is on the current side.
pub open spec fn spec_uses_legacy(outer: int) -> bool {
    outer < crate::LEGACY_TEMPLATE_THRESHOLD as int
}

/// Whether a job's outer identifier selects the legacy template.
pub fn uses_legacy_template(outer: u64) -> (b: bool)
    ensures
        b == spec_uses_legacy(outer as int),
{
    outer < crate::LEGACY_TEMPLATE_THRESHOLD
}

/// The legacy result-page URL: the inner identifier is padded to 10 digits.
pub open spec fn spec_legacy_result_url(outer: int, inner: int, token: Seq<char>) -> Seq<char> {
    "https://www.chinadegrees.cn/cqva/report/rznb/report-rznb.html?appcod="@ + dec_spec(outer)
        + "&finishcod="@ + pad10_spec(inner) + "&captcha="@ + token + "&_r=12346"@
}

/// The current result-page URL.
pub open spec fn spec_current_result_url(outer: int, inner: int, token: Seq<char>) -> Seq<char> {
    "http://www.chinadegrees.cn/cqva/report/result.html?appcod="@ + dec_spec(outer)
        + "&finishcod="@ + dec_spec(inner) + "&captcha="@ + token + "&_r=321648"@
}

/// The result-page URL a job's outer identifier selects.
pub open spec fn spec_result_url(outer: int, inner: int, token: Seq<char>) -> Seq<char> {
    if spec_uses_legacy(outer) {
        spec_legacy_result_url(outer, inner, token)
    } else {
        spec_current_result_url(outer, inner, token)
    }
}

/// Builds the result-page URL for a job and a solved token, selecting the
/// template by the outer identifier.
pub fn result_url(outer: u64, inner: u64, token: &str) -> (r: String)
    ensures
        r@ == spec_result_url(outer as int, inner as int, token@),
        spec_uses_legacy(outer as int) ==> r@ == spec_legacy_result_url(
            outer as int,
            inner as int,
            token@,
        ),
        !spec_uses_legacy(outer as int) ==> r@ == spec_current_result_url(
            outer as int,
            inner as int,
            token@,
        ),
{
    if uses_legacy_template(outer) {
        let mut s = String::from_str(
            "https://www.chinadegrees.cn/cqva/report/rznb/report-rznb.html?appcod=",
        );
        s.append(u64_to_dec(outer).as_str());
        s.append("&finishcod=");
        s.append(u64_to_dec_pad10(inner).as_str());
        s.append("&captcha=");
        s.append(token);
        s.append("&_r=12346");
        s
    } else {
        let mut s = String::from_str("http://www.chinadegrees.cn/cqva/report/result.html?appcod=");
        s.append(u64_to_dec(outer).as_str());
        s.append("&finishcod=");
        s.append(u64_to_dec(inner).as_str());
        s.append("&captcha=");
        s.append(token);
        s.append("&_r=321648");
        s
    }
}

/// A sequence built as `a + b + c` contains `b`.
proof fn lemma_concat_contains_mid(a: Seq<char>, b: Seq<char>, c: Seq<char>)
    ensures
        contains_seq(a + b + c, b),
{
    let t = a + b + c;
    assert(t.subrange(a.len() as int, a.len() as int + b.len() as int) =~= b);
    assert(match_at(t, b, a.len() as int));
}

/// The solved token appears verbatim in the result URL, for either template.
pub proof fn lemma_token_in_result_url(outer: int, inner: int, token: Seq<char>)
    ensures
        contains_seq(spec_result_url(outer, inner, token), token),
{
    if spec_uses_legacy(outer) {
        let a = "https://www.chinadegrees.cn/cqva/report/rznb/report-rznb.html?appcod="@ + dec_spec(
            outer,
        ) + "&finishcod="@ + pad10_spec(inner) + "&captcha="@;
        assert(spec_result_url(outer, inner, token) =~= a + token + "&_r=12346"@);
        lemma_concat_contains_mid(a, token, "&_r=12346"@);
    } else {
        let a = "http://www.chinadegrees.cn/cqva/report/result.html?appcod="@ + dec_spec(outer)
            + "&finishcod="@ + dec_spec(inner) + "&captcha="@;
        assert(spec_result_url(outer, inner, token) =~= a + token + "&_r=321648"@);
        lemma_concat_contains_mid(a, token, "&_r=321648"@);
    }
}

/// Round trip of an encoded image: the base64 encoding of any byte sequence
/// appears verbatim in the solving-service request built from it, and — when
/// the solving service echoes it back as the solved token — verbatim again
/// in the result URL built from that token.
pub proof fn lemma_base64_round_trip(data: Seq<u8>, outer: int, inner: int)
    ensures
        contains_seq(spec_solve_request(base64_of(data)), base64_of(data)),
        contains_seq(spec_result_url(outer, inner, base64_of(data)), base64_of(data)),
{
    let b = base64_of(data);
    assert(spec_solve_request(b) =~= "{\"image\":\""@ + b + "\"}"@);
    lemma_concat_contains_mid("{\"image\":\""@, b, "\"}"@);
    lemma_token_in_result_url(outer, inner, b);
}

} // verus!
