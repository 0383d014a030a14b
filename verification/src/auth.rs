//! The credential validator: bearer-token authentication against an
//! optional configured secret, with a timing-safe comparison.

use subtle::ConstantTimeEq;
use vstd::prelude::*;
use vstd::string::StrSliceExecFns;
use vstd::string::StringSliceAdditionalSpecFns;
use vstd::utf8::encode_utf8_decode_utf8;

use crate::models::{ErrorDetail, ErrorResponse};

verus! {

/// The service's authentication settings. `None` means authentication is
/// switched off and every request is admitted.
pub struct AuthConfig {
    pub api_key: Option<String>,
}

/// Whether a request whose credential header reads `header` is authorized
/// against the configured `api_key`: always when no key is configured,
/// otherwise exactly when the header is present, carries the bearer
/// scheme, and its token equals the key.
pub open spec fn spec_authorized(api_key: Option<Seq<char>>, header: Option<Seq<char>>) -> bool {
    match api_key {
        None => true,
        Some(key) => match header {
            None => false,
            Some(h) => h.len() >= 7 && h.subrange(0, 7) == "Bearer "@ && h.subrange(
                7,
                h.len() as int,
            ) == key,
        },
    }
}

/// Relies on subtle's `ConstantTimeEq` for byte slices: `ct_eq` decides
/// whether the two slices hold the same bytes, and does so without an early
/// exit on the first differing byte, so its duration does not depend on
/// where two same-length inputs diverge.
#[verifier::external_body]
fn bytes_ct_eq(a: &[u8], b: &[u8]) -> (r: bool)
    ensures
        r == (a@ == b@),
{
    bool::from(a.ct_eq(b))
}

/// Timing-safe equality of two strings, decided on their UTF-8 bytes.
fn token_matches(provided: &str, expected: &str) -> (r: bool)
    ensures
        r == (provided@ == expected@),
{
    let r = bytes_ct_eq(provided.as_bytes(), expected.as_bytes());
    proof {
        if provided.spec_bytes() == expected.spec_bytes() {
            encode_utf8_decode_utf8(provided@);
            encode_utf8_decode_utf8(expected@);
        }
    }
    r
}

/// Splits a `Bearer <token>` header value into its token; `None` when the
/// value does not carry the bearer scheme.
fn bearer_token<'a>(header: &'a str) -> (r: Option<&'a str>)
    ensures
        match r {
            Some(t) => header@.len() >= 7 && header@.subrange(0, 7) == "Bearer "@ && t@
                == header@.subrange(7, header@.len() as int),
            None => !(header@.len() >= 7 && header@.subrange(0, 7) == "Bearer "@),
        },
{
    let n = header.unicode_len();
    if n < 7 {
        return None;
    }
    let scheme_ok = header.get_char(0) == 'B' && header.get_char(1) == 'e' && header.get_char(2)
        == 'a' && header.get_char(3) == 'r' && header.get_char(4) == 'e' && header.get_char(5)
        == 'r' && header.get_char(6) == ' ';
    proof {
        reveal_strlit("Bearer ");
        assert("Bearer "@.len() == 7);
        assert("Bearer "@[0] == 'B' && "Bearer "@[1] == 'e' && "Bearer "@[2] == 'a' && "Bearer "@[3]
            == 'r' && "Bearer "@[4] == 'e' && "Bearer "@[5] == 'r' && "Bearer "@[6] == ' ');
        assert(forall|i: int| 0 <= i < 7 ==> #[trigger] header@.subrange(0, 7)[i] == header@[i]);
        if scheme_ok {
            assert(header@.subrange(0, 7) =~= "Bearer "@);
        } else {
            assert(header@.subrange(0, 7) != "Bearer "@);
        }
    }
    if !scheme_ok {
        return None;
    }
    Some(header.substring_char(7, n))
}

impl AuthConfig {
    /// Decides admission for one request, per the configured secret: the
    /// constant-time comparison of the submitted token never reveals, by
    /// its duration, where token and secret first differ.
    pub fn authorize(&self, header: Option<&str>) -> (r: bool)
        ensures
            r == spec_authorized(self.api_key.deep_view(), header.deep_view()),
    {
        match &self.api_key {
            None => true,
            Some(key) => match header {
                None => false,
                Some(h) => match bearer_token(h) {
                    None => false,
                    Some(token) => token_matches(token, key.as_str()),
                },
            },
        }
    }
}

/// With a secret configured, a bearer header is authorized exactly when
/// its token equals the secret — for every token, wherever token and
/// secret first differ. With no secret configured, [`spec_authorized`]
/// admits every request by its first match arm.
pub proof fn lemma_token_decides(key: Seq<char>, token: Seq<char>)
    ensures
        spec_authorized(Some(key), Some("Bearer "@ + token)) == (token == key),
{
    reveal_strlit("Bearer ");
    let h = "Bearer "@ + token;
    assert(h.subrange(0, 7) =~= "Bearer "@);
    assert(h.subrange(7, h.len() as int) =~= token);
}

/// The uniform envelope of every authentication failure; the HTTP layer
/// serves it with status 401 and a `WWW-Authenticate: Bearer` challenge.
pub fn unauthorized_response() -> (r: (u16, ErrorResponse))
    ensures
        r.0 == 401,
        r.1.error.message@ == "Invalid API key"@,
        r.1.error.error_type@ == "invalid_api_key"@,
        r.1.error.code is None,
{
    (
        401,
        ErrorResponse {
            error: ErrorDetail {
                message: "Invalid API key".to_owned(),
                error_type: "invalid_api_key".to_owned(),
                code: None,
            },
        },
    )
}

} // verus!
