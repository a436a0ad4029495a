//! Authentication of ingestion requests.
use vstd::prelude::*;

use crate::text::{starts_with_bytes, str_eq, tail_bytes};

verus! {

/// The text of `bytes` read as UTF-8, each invalid sequence replaced by
/// U+FFFD.
pub uninterp spec fn utf8_lossy_of(bytes: Seq<u8>) -> Seq<char>;

/// Relies on std's `String::from_utf8_lossy`.
#[verifier::external_body]
fn utf8_lossy(bytes: &[u8]) -> (r: String)
    ensures
        r@ == utf8_lossy_of(bytes@),
{
    String::from_utf8_lossy(bytes).into_owned()
}

/// The scheme that precedes the token in the `Authorization` header.
pub open spec fn token_scheme() -> Seq<u8> {
    seq![84u8, 111u8, 107u8, 101u8, 110u8, 32u8]
}

/// The token presented by a request.
pub struct AuthToken(pub String);

/// Why a request's credentials were refused.
#[derive(Debug, Clone, Copy, PartialEq, Eq)]
pub enum AuthRejection {
    /// The request has no `Authorization` header.
    Missing,
    /// The header does not use the `Token` scheme.
    InvalidScheme,
}

impl AuthRejection {
    /// The HTTP status of the refusal.
    pub fn status(&self) -> (r: u16)
        ensures
            r == 400,
    {
        400
    }

    /// The text sent with the refusal.
    pub fn message(&self) -> (r: &'static str)
        ensures
            r@ == match self {
                AuthRejection::Missing => "authorization token is missing"@,
                AuthRejection::InvalidScheme => "invalid authorization scheme"@,
            },
    {
        match self {
            AuthRejection::Missing => "authorization token is missing",
            AuthRejection::InvalidScheme => "invalid authorization scheme",
        }
    }
}

impl AuthToken {
    /// Reads the token from the value of the `Authorization` header, which
    /// must read `Token <token>`.
    pub fn from_header(value: Option<&[u8]>) -> (r: Result<AuthToken, AuthRejection>)
        ensures
            value is None ==> r == Err::<AuthToken, AuthRejection>(AuthRejection::Missing),
            value matches Some(v) ==> {
                let n = token_scheme().len();
                if n <= v@.len() && v@.subrange(0, n as int) == token_scheme() {
                    r matches Ok(t) && t.0@ == utf8_lossy_of(v@.subrange(n as int, v@.len() as int))
                } else {
                    r == Err::<AuthToken, AuthRejection>(AuthRejection::InvalidScheme)
                }
            },
    {
        match value {
            None => Err(AuthRejection::Missing),
            Some(v) => {
                let scheme: [u8; 6] = [84u8, 111u8, 107u8, 101u8, 110u8, 32u8];
                assert(scheme@ =~= token_scheme());
                if starts_with_bytes(v, &scheme) {
                    let rest = tail_bytes(v, 6);
                    Ok(AuthToken(utf8_lossy(rest.as_slice())))
                } else {
                    Err(AuthRejection::InvalidScheme)
                }
            },
        }
    }

    /// Whether this token is the configured ingestion token.
    pub fn matches(&self, api_token: &str) -> (r: bool)
        ensures
            r == (self.0@ == api_token@),
    {
        str_eq(self.0.as_str(), api_token)
    }
}

} // verus!
