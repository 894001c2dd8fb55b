//! Authentication of requests: from a raw authorization header to an
//! authenticated subject, or a rejection.
//!
//! The decision rests on three plain inputs — header value, signing secret,
//! clock reading — and nothing else. All token-decode failures collapse to one rejection so that a
//! caller cannot learn which check failed.

use vstd::prelude::*;
use crate::ids::{Id, is_canonical_id};
use crate::token::{decode_jwt, spec_token_carries};

verus! {

/// How a request was turned away, with the response it earns.
#[derive(Debug, Clone, Copy, PartialEq, Eq, Structural)]
pub enum Rejection {
    /// No authorization header, or one without the bearer scheme.
    MissingHeader,
    /// The server has no signing secret configured: a server fault, not a
    /// client error.
    NotConfigured,
    /// The token failed to decode — tampered, expired, foreign algorithm or
    /// not a token at all; deliberately one kind for all of them.
    InvalidToken,
    /// The token decoded but its subject is not a canonical identifier.
    InvalidSubject,
}

impl Rejection {
    /// The HTTP status this rejection is reported with.
    pub fn status(&self) -> (status: u16)
        ensures
            status == self.spec_status(),
    {
        match self {
            Rejection::MissingHeader => 401,
            Rejection::NotConfigured => 500,
            Rejection::InvalidToken => 401,
            Rejection::InvalidSubject => 401,
        }
    }

    /// What `status` returns.
    pub open spec fn spec_status(&self) -> u16 {
        match self {
            Rejection::MissingHeader => 401,
            Rejection::NotConfigured => 500,
            Rejection::InvalidToken => 401,
            Rejection::InvalidSubject => 401,
        }
    }

    /// The message sent with the rejection.
    pub fn message(&self) -> (msg: String)
        ensures
            msg@ == self.spec_message(),
    {
        match self {
            Rejection::MissingHeader => "Missing authorization header".to_owned(),
            Rejection::NotConfigured => "JWT secret not configured".to_owned(),
            Rejection::InvalidToken => "Invalid or expired token".to_owned(),
            Rejection::InvalidSubject => "Invalid user ID in token".to_owned(),
        }
    }

    /// What `message` returns.
    pub open spec fn spec_message(&self) -> Seq<char> {
        match self {
            Rejection::MissingHeader => "Missing authorization header"@,
            Rejection::NotConfigured => "JWT secret not configured"@,
            Rejection::InvalidToken => "Invalid or expired token"@,
            Rejection::InvalidSubject => "Invalid user ID in token"@,
        }
    }
}

/// The authenticated subject of a request, attached for the handlers.
#[derive(Debug, Clone)]
pub struct AuthUser {
    /// The identifier the token was issued for.
    pub user_id: Id,
}

/// Whether the header value carries the bearer scheme.
pub open spec fn has_bearer_prefix(h: Seq<char>) -> bool {
    h.len() >= 7 && h.subrange(0, 7) == "Bearer "@
}

/// The token part of a bearer header value.
pub open spec fn bearer_token_of(h: Seq<char>) -> Seq<char> {
    h.subrange(7, h.len() as int)
}

/// Strips the bearer scheme off an authorization header value.
fn strip_bearer(h: &str) -> (r: Option<&str>)
    ensures
        r is Some <==> has_bearer_prefix(h@),
        r matches Some(t) ==> t@ == bearer_token_of(h@),
{
    proof {
        reveal_strlit("Bearer ");
    }
    let n = h.unicode_len();
    if n < 7 {
        proof {
            assert(!has_bearer_prefix(h@));
        }
        return None;
    }
    let scheme_ok = h.get_char(0) == 'B' && h.get_char(1) == 'e' && h.get_char(2) == 'a'
        && h.get_char(3) == 'r' && h.get_char(4) == 'e' && h.get_char(5) == 'r' && h.get_char(6)
        == ' ';
    if scheme_ok {
        proof {
            assert(h@.subrange(0, 7) =~= "Bearer "@);
        }
        Some(h.substring_char(7, n))
    } else {
        proof {
            assert(forall|i: int| 0 <= i < 7 ==> h@.subrange(0, 7)[i] == h@[i]);
            assert(h@.subrange(0, 7) != "Bearer "@);
        }
        None
    }
}

/// Authenticates a request: bearer header, then secret, then token, then
/// subject.
///
/// The outcome is exact for each stage: a missing or non-bearer header is
/// turned away first; then a missing secret, as a server fault; a still-live
/// token carrying claims validly signed under the secret passes the decoder,
/// and then authenticates exactly when its subject is a canonical identifier;
/// any other bearer request is turned away for its token or its subject and
/// for nothing else; and whoever comes out authenticated passed every one of
/// those stages.
pub fn authenticate(header: Option<&str>, secret: Option<&str>, now: i64) -> (r: Result<
    AuthUser,
    Rejection,
>)
    ensures
        header is None ==> r == Err::<AuthUser, Rejection>(Rejection::MissingHeader),
        header matches Some(h) ==> !has_bearer_prefix(h@) ==> r == Err::<AuthUser, Rejection>(
            Rejection::MissingHeader,
        ),
        header matches Some(h) ==> has_bearer_prefix(h@) && secret is None ==> r == Err::<
            AuthUser,
            Rejection,
        >(Rejection::NotConfigured),
        header matches Some(h) ==> has_bearer_prefix(h@) ==> (secret matches Some(s) ==> forall|
            sub: Seq<char>,
            exp: i64,
        |
            spec_token_carries(bearer_token_of(h@), sub, exp, s@) && now < exp ==> (if is_canonical_id(
                sub,
            ) {
                r matches Ok(u) && u.user_id@ == sub
            } else {
                r == Err::<AuthUser, Rejection>(Rejection::InvalidSubject)
            })),
        header matches Some(h) ==> has_bearer_prefix(h@) ==> secret is Some ==> (r matches Err(e)
            ==> (e == Rejection::InvalidToken || e == Rejection::InvalidSubject)),
        r is Ok ==> header is Some && secret is Some && has_bearer_prefix(header->0@),
        r matches Ok(u) ==> is_canonical_id(u.user_id@),
        r is Ok ==> (exists|exp: i64|
            spec_token_carries(bearer_token_of(header->0@), r->Ok_0.user_id@, exp, secret->0@)
                && now < exp),
        r matches Err(e) ==> !(e matches Rejection::NotConfigured) || secret is None,
{
    let h = match header {
        Some(h) => h,
        None => {
            return Err(Rejection::MissingHeader);
        },
    };
    let tok = match strip_bearer(h) {
        Some(t) => t,
        None => {
            return Err(Rejection::MissingHeader);
        },
    };
    let s = match secret {
        Some(s) => s,
        None => {
            return Err(Rejection::NotConfigured);
        },
    };
    let claims = match decode_jwt(tok, s, now) {
        Ok(c) => c,
        Err(_) => {
            return Err(Rejection::InvalidToken);
        },
    };
    match Id::parse(claims.sub.as_str()) {
        Some(user_id) => {
            let result: Result<AuthUser, Rejection> = Ok(AuthUser { user_id });
            proof {
                assert(spec_token_carries(
                    bearer_token_of(header->0@),
                    result->Ok_0.user_id@,
                    claims.exp,
                    secret->0@,
                ) && now < claims.exp);
            }
            result
        },
        None => Err(Rejection::InvalidSubject),
    }
}

} // verus!
