//! The request-gating decision of the auth middleware: pull the bearer token
//! out of the Authorization header and verify it. A missing or malformed
//! header and a failed verification are both `Unauthorized`; on success the
//! decoded identity is handed onward.

use vstd::prelude::*;

use crate::error::AppError;
use crate::jwt::{spec_verify_outcome, verify_jwt_at, Claims};

verus! {

use vstd::string::StrSliceExecFns;

/// The scheme prefix a bearer header must start with.
pub open spec fn bearer_prefix() -> Seq<char> {
    seq!['B', 'e', 'a', 'r', 'e', 'r', ' ']
}

/// Whether the header names the bearer scheme.
pub open spec fn has_bearer_prefix(h: Seq<char>) -> bool {
    h.len() >= 7 && h.subrange(0, 7) == bearer_prefix()
}

/// Decide a request: `Ok` with the decoded claims exactly when the header is
/// present, carries the bearer scheme, and its token verifies under `secret`
/// as of `now`; `Unauthorized` in every other case.
pub fn authorize(auth_header: Option<&str>, secret: &str, now: u64) -> (r: Result<
    Claims,
    AppError,
>)
    ensures
        match auth_header {
            None => r matches Err(a) && (a matches AppError::Unauthorized(m) && m@
                == "Missing or invalid authorization header"@),
            Some(h) => {
                if !has_bearer_prefix(h@) {
                    r matches Err(a) && (a matches AppError::Unauthorized(m) && m@
                        == "Missing or invalid authorization header"@)
                } else {
                    match spec_verify_outcome(h@.subrange(7, h@.len() as int), secret@, now) {
                        Some((s, e, i)) => r matches Ok(c) && c.sub@ == s && c.exp == e && c.iat
                            == i,
                        None => r matches Err(a) && (a matches AppError::Unauthorized(m) && m@
                            == "Invalid token"@),
                    }
                }
            },
        },
{
    let h = match auth_header {
        Some(h) => h,
        None => {
            return Err(
                AppError::Unauthorized("Missing or invalid authorization header".to_owned()),
            );
        },
    };
    let hlen = h.unicode_len();
    let scheme_ok = hlen >= 7 && h.get_char(0) == 'B' && h.get_char(1) == 'e' && h.get_char(2)
        == 'a' && h.get_char(3) == 'r' && h.get_char(4) == 'e' && h.get_char(5) == 'r'
        && h.get_char(6) == ' ';
    if !scheme_ok {
        proof {
            if h@.len() >= 7 {
                assert(h@.subrange(0, 7) == bearer_prefix() ==> {
                    &&& h@.subrange(0, 7)[0] == 'B'
                    &&& h@.subrange(0, 7)[1] == 'e'
                    &&& h@.subrange(0, 7)[2] == 'a'
                    &&& h@.subrange(0, 7)[3] == 'r'
                    &&& h@.subrange(0, 7)[4] == 'e'
                    &&& h@.subrange(0, 7)[5] == 'r'
                    &&& h@.subrange(0, 7)[6] == ' '
                });
            }
        }
        return Err(AppError::Unauthorized("Missing or invalid authorization header".to_owned()));
    }
    proof {
        assert(h@.subrange(0, 7) =~= bearer_prefix());
    }
    let token = h.substring_char(7, hlen);
    verify_jwt_at(token, secret, now)
}

} // verus!
