//! Identity resolver: turns the raw `Authorization` header of an incoming
//! request into an authenticated identity, or a single undifferentiated
//! rejection. Every protected operation takes its owner from this result.
use vstd::prelude::*;

use crate::errors::{ApiError, err_unauthorized};
use crate::text::{trim_spec, trim_str};
use crate::token::{TokenError, jwt_token_of, verify_jwt};

verus! {

/// The verified payload of an identity token, scoped to one request.
pub struct AuthUser {
    pub user_id: String,
    pub email: String,
    pub role: String,
}

/// The token a `Bearer <token>` header value carries, if it is one.
pub open spec fn bearer_token_spec(h: Seq<char>) -> Option<Seq<char>> {
    if h.len() >= 7 && h.subrange(0, 7) == "Bearer "@ {
        Some(trim_spec(h.skip(7)))
    } else {
        None
    }
}

/// Extracts the token from an `Authorization` header value: the scheme is
/// case-sensitive, followed by one space and the token (surrounding
/// whitespace tolerated).
pub fn parse_bearer(header: &str) -> (r: Option<String>)
    ensures
        match r {
            Some(t) => bearer_token_spec(header@) == Some(t@),
            None => bearer_token_spec(header@) is None,
        },
{
    let n = header.unicode_len();
    if n < 7 {
        return None;
    }
    let prefix = header.substring_char(0, 7);
    let pref_string = String::from_str(prefix);
    let expect = String::from_str("Bearer ");
    if !(pref_string == expect) {
        proof {
            assert(header@.subrange(0, 7) != "Bearer "@);
        }
        return None;
    }
    let rest = header.substring_char(7, n);
    proof {
        assert(rest@ =~= header@.skip(7));
    }
    Some(trim_str(rest))
}

/// Authenticates a request from its `Authorization` header value, if any.
/// A missing or malformed header, and any token the token service rejects,
/// yield a 401 with a generic message that does not say which happened.
pub fn authenticate(header: Option<&str>, secret: &str) -> (r: Result<AuthUser, ApiError>)
    ensures
        header is None ==> err_unauthorized(r, "Missing Bearer token"@),
        header matches Some(h) && bearer_token_spec(h@) is None ==> err_unauthorized(
            r,
            "Missing Bearer token"@,
        ),
        r is Err ==> err_unauthorized(r, "Missing Bearer token"@) || err_unauthorized(
            r,
            "Invalid token"@,
        ),
        header matches Some(h) ==> bearer_token_spec(h@) matches Some(t) ==> forall|
            sub: Seq<char>,
            email: Seq<char>,
            role: Seq<char>,
            exp: int,
        |
            t == #[trigger] jwt_token_of(sub, email, role, exp, secret@) ==> match r {
                Ok(u) => u.user_id@ == sub && u.email@ == email && u.role@ == role,
                Err(e) => err_unauthorized(r, "Invalid token"@),
            },
{
    let h = match header {
        Some(h) => h,
        None => {
            return Err(ApiError::Unauthorized(String::from_str("Missing Bearer token")));
        },
    };
    let token = match parse_bearer(h) {
        Some(t) => t,
        None => {
            return Err(ApiError::Unauthorized(String::from_str("Missing Bearer token")));
        },
    };
    match verify_jwt(token.as_str(), secret) {
        Ok(claims) => Ok(
            AuthUser { user_id: claims.sub, email: claims.email, role: claims.role },
        ),
        Err(_) => Err(ApiError::Unauthorized(String::from_str("Invalid token"))),
    }
}

} // verus!
