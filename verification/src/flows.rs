//! The registration and login flows, on already-parsed input and
//! already-fetched accounts. Storage is an external collaborator: the
//! registration flow hands back a record ready for insertion, the login
//! flow takes whatever the lookup by email found.

use vstd::prelude::*;

use crate::model::{CreateUser, LoginUser, LoginUserResponse, User, UserPreview};
use crate::password::password_accepted;
use crate::token::{token_freshly_issued_for, token_issued_for, Keys};
use crate::username::derived_from;
use crate::validate::ValidationError;

verus! {

/// What the login flow decided.
pub enum LoginOutcome {
    /// The password matched: the safe projection of the account plus a
    /// fresh token.
    Success(LoginUserResponse),
    /// The account exists but the password did not match.
    Unauthorized,
    /// No account carries that email.
    NotFound,
}

/// The registration flow: check the raw fields first, then derive the
/// username and hash the password. On failure the error lists every failing
/// field and nothing is handed to storage; on success the returned record
/// carries the account exactly as it is to be inserted, with the plaintext
/// password replaced by its `'$'`-prefixed hash. The password must stay
/// under the hashing algorithm's four-gibibyte input limit.
pub fn create_user(input: CreateUser) -> (r: Result<CreateUser, ValidationError>)
    requires
        input.password@.len() < 0x4000_0000,
    ensures
        r is Ok <==> input.valid(),
        (r matches Err(e) ==> e.fields@ == input.expected_faults()),
        (r matches Ok(out) ==> out.name == input.name && out.email == input.email
            && out.image_profile == input.image_profile && derived_from(
            out.username@,
            input.name@,
        ) && 1 <= out.username@.len() <= 25 && password_accepted(
            input.password@,
            out.password@,
        ) && out.password@[0] == '$'),
{
    let mut user = input;
    match user.validate() {
        Err(e) => Err(e),
        Ok(()) => {
            user.set_username();
            user.hash_password();
            Ok(user)
        },
    }
}

/// The login flow on the looked-up account: no account for the email means
/// not found, a rejected password means unauthorized, and a matching one
/// yields the safe projection bundled with a token for the account's email.
/// The password hash appears in no outcome.
pub fn login_user(fetched: Option<User>, credentials: LoginUser, keys: &Keys) -> (r: LoginOutcome)
    ensures
        r is NotFound <==> fetched is None,
        r is Unauthorized <==> (fetched matches Some(u) && !password_accepted(
            credentials.password@,
            u.password@,
        )),
        (r matches LoginOutcome::Success(resp) ==> fetched matches Some(u) && password_accepted(
            credentials.password@,
            u.password@,
        ) && resp.id == u.id && resp.username == u.username && resp.email == u.email && resp.name
            == u.name && resp.image_profile == u.image_profile && token_issued_for(
            resp.token@,
            keys@,
            u.email@,
        ) && resp.token@.len() > 0),
{
    match fetched {
        Option::None => LoginOutcome::NotFound,
        Option::Some(u) => {
            if u.verify_password(credentials.password) {
                LoginOutcome::Success(u.get_claim_jwt(keys))
            } else {
                LoginOutcome::Unauthorized
            }
        },
    }
}

/// The by-id lookup flow on the already-fetched account: the safe
/// projection when the account exists, nothing when the identifier names no
/// account, so a miss surfaces as not-found rather than a storage failure.
pub fn get_user(fetched: Option<User>) -> (r: Option<UserPreview>)
    ensures
        r is Some <==> fetched is Some,
        (r matches Some(p) ==> fetched matches Some(u) && p.id == u.id && p.username == u.username
            && p.email == u.email && p.name == u.name && p.image_profile == u.image_profile),
{
    match fetched {
        Option::Some(u) => Some(u.preview()),
        Option::None => None,
    }
}

} // verus!
