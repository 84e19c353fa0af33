//! The auth guard: the per-request decision that lets the public login route
//! through, demands an `Authorization` header everywhere else, strips an
//! optional `Bearer ` prefix, and verifies the token before any handler
//! runs.

use vstd::prelude::*;

use crate::text::str_eq;
use crate::token::{decode_of, Claims, Keys, TokenError};

verus! {

/// The one public path: requests to it pass untouched.
pub open spec fn login_path() -> Seq<char> {
    "/users/login"@
}

/// The header prefix that marks a bearer token.
pub open spec fn bearer_prefix() -> Seq<char> {
    "Bearer "@
}

/// The token inside an `Authorization` header value: the value with one
/// leading `Bearer ` removed if present, the whole value otherwise.
pub open spec fn strip_bearer(h: Seq<char>) -> Seq<char> {
    if h.len() >= 7 && h.subrange(0, 7) == bearer_prefix() {
        h.skip(7)
    } else {
        h
    }
}

/// What the guard decided for one request.
pub enum GateOutcome {
    /// The path is on the allow-list: pass through unmodified.
    Public,
    /// The token checked out: these claims travel with the request.
    Authenticated(Claims),
    /// A protected path carried no `Authorization` header; rejected before
    /// any token decoding.
    MissingAuthorization,
    /// The header carried a token that was malformed, badly signed, or
    /// expired.
    Rejected(TokenError),
}

/// Strips one leading `Bearer ` from a header value, if present.
fn strip_bearer_exec<'a>(h: &'a str) -> (r: &'a str)
    ensures
        r@ == strip_bearer(h@),
{
    let len = h.unicode_len();
    if len >= 7 && str_eq(h.substring_char(0, 7), "Bearer ") {
        let rest = h.substring_char(7, len);
        proof {
            assert(h@.subrange(7, h@.len() as int) =~= h@.skip(7));
        }
        rest
    } else {
        h
    }
}

/// What the guard must decide about a stripped token on a protected path:
/// no decoded claims means invalid, a passed expiry means expired, and
/// otherwise exactly the decoded claims are attached.
pub open spec fn token_verdict(r: GateOutcome, token: Seq<char>, secret: Seq<u8>, now: int) -> bool {
    match decode_of(token, secret) {
        None => r == GateOutcome::Rejected(TokenError::InvalidToken),
        Some(c) => if now > c.1 {
            r == GateOutcome::Rejected(TokenError::ExpiredToken)
        } else {
            r matches GateOutcome::Authenticated(cl) && cl.email@ == c.0 && cl.exp as int == c.1
        },
    }
}

/// The guard decision for one request. The public login path passes through
/// whatever the headers say; any other path needs an `Authorization` header,
/// absent ones are rejected before any token is decoded; a present header
/// has its optional `Bearer ` prefix stripped and the rest must decode and
/// be unexpired at `now` for the claims to be attached.
pub fn authenticate_request(
    path: &str,
    auth_header: Option<&String>,
    keys: &Keys,
    now: i64,
) -> (r: GateOutcome)
    ensures
        r is Public <==> path@ == login_path(),
        r is MissingAuthorization <==> (path@ != login_path() && auth_header is None),
        (auth_header matches Some(h) ==> (path@ != login_path() ==> token_verdict(
            r,
            strip_bearer(h@),
            keys@,
            now as int,
        ))),
{
    if str_eq(path, "/users/login") {
        return GateOutcome::Public;
    }
    match auth_header {
        Option::None => GateOutcome::MissingAuthorization,
        Option::Some(h) => {
            let token = strip_bearer_exec(h.as_str());
            match keys.verify_token(token, now) {
                Ok(claims) => GateOutcome::Authenticated(claims),
                Err(e) => GateOutcome::Rejected(e),
            }
        },
    }
}

/// The guard decision against the current clock. The time-free guarantees
/// stand as in `authenticate_request`; whether an accepted signature is also
/// unexpired depends on the clock reading.
pub fn authenticate_request_now(path: &str, auth_header: Option<&String>, keys: &Keys) -> (r: GateOutcome)
    ensures
        r is Public <==> path@ == login_path(),
        r is MissingAuthorization <==> (path@ != login_path() && auth_header is None),
        r == GateOutcome::Rejected(TokenError::InvalidToken) <==> (auth_header matches Some(h)
            && path@ != login_path() && decode_of(strip_bearer(h@), keys@) is None),
        (r matches GateOutcome::Authenticated(cl) ==> auth_header matches Some(h) && decode_of(
            strip_bearer(h@),
            keys@,
        ) == Some((cl.email@, cl.exp as int))),
{
    let now = crate::token::now_unix_seconds();
    authenticate_request(path, auth_header, keys, now)
}

} // verus!
