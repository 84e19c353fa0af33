//! The account data model: the persisted `User`, the registration and login
//! inputs, and the outward-facing projections that never carry the password
//! hash.

use vstd::prelude::*;

use crate::password::{argon2_hash, argon2_verify, password_accepted};
use crate::token::{decode_of, exp_at, token_freshly_issued_for, token_issued_for, Keys};
use crate::username::{all_space, derive_username, derived_from, lower_of, now_unix_millis, timestamp_only};
use crate::validate::{is_email_shaped, is_url_shaped, FieldFault, ValidationError};

verus! {

/// How many accounts a listing returns when the caller names no limit.
pub const DEFAULT_LIMIT: i64 = 20;

/// A persisted account. The password field holds the salted one-way hash,
/// never the plaintext; an empty hash means the account cannot authenticate.
#[derive(Clone, Debug)]
pub struct User {
    pub id: i32,
    pub username: String,
    pub email: String,
    pub name: String,
    pub password: String,
    pub image_profile: Option<String>,
}

/// The outward projection of an account: every field but the password hash.
#[derive(Clone, Debug)]
pub struct UserPreview {
    pub id: i32,
    pub username: String,
    pub email: String,
    pub name: String,
    pub image_profile: Option<String>,
}

/// What a successful login returns: the safe projection of the account plus
/// the issued token. The password hash is never included.
#[derive(Clone, Debug)]
pub struct LoginUserResponse {
    pub id: i32,
    pub username: String,
    pub email: String,
    pub name: String,
    pub token: String,
    pub image_profile: Option<String>,
}

/// Transient login credentials: they live for one request and are never
/// persisted.
pub struct LoginUser {
    pub email: String,
    pub password: String,
}

/// Paging parameters for the account listing; absent values fall back to
/// offset 0 and `DEFAULT_LIMIT`.
pub struct Pagination {
    pub offset: Option<i64>,
    pub limit: Option<i64>,
}

/// A plain message payload.
pub struct MessageResponse<'a> {
    pub message: &'a str,
}

/// Registration input: raw display name, email, optional profile-image URL
/// and plaintext password, plus the derived username and, after hashing, the
/// stored form of the password.
#[derive(Debug)]
pub struct CreateUser {
    pub name: String,
    pub email: String,
    pub image_profile: Option<String>,
    pub username: String,
    pub password: String,
}

impl Pagination {
    /// The effective (offset, limit): what the caller named, with absent
    /// values replaced by the defaults.
    pub fn resolve(&self) -> (r: (i64, i64))
        ensures
            r.0 == match self.offset {
                Some(o) => o,
                None => 0,
            },
            r.1 == match self.limit {
                Some(l) => l,
                None => DEFAULT_LIMIT,
            },
    {
        let offset = match self.offset {
            Option::Some(o) => o,
            Option::None => 0,
        };
        let limit = match self.limit {
            Option::Some(l) => l,
            Option::None => DEFAULT_LIMIT,
        };
        (offset, limit)
    }
}

impl User {
    /// True exactly when the stored hash is non-empty and accepts the
    /// submitted password. Degrades to `false` on an empty or malformed
    /// stored hash; never says why it failed.
    pub fn verify_password(&self, actual_pass: String) -> (r: bool)
        ensures
            r == password_accepted(actual_pass@, self.password@),
            self.password@.len() > 0 && self.password@[0] != '$' ==> r == false,
    {
        if self.password.as_str().is_empty() {
            false
        } else {
            argon2_verify(actual_pass.as_str(), self.password.as_str())
        }
    }

    /// The safe projection of this account: every field but the password
    /// hash.
    pub fn preview(&self) -> (r: UserPreview)
        ensures
            r.id == self.id,
            r.username == self.username,
            r.email == self.email,
            r.name == self.name,
            r.image_profile == self.image_profile,
    {
        UserPreview {
            id: self.id,
            username: self.username.clone(),
            email: self.email.clone(),
            name: self.name.clone(),
            image_profile: self.image_profile.clone(),
        }
    }

    /// The login response for this account: its safe projection plus a
    /// token for its email, expiring three hours after `now`.
    pub fn get_claim_jwt_at(&self, keys: &Keys, now: i64) -> (r: LoginUserResponse)
        ensures
            r.id == self.id,
            r.username == self.username,
            r.email == self.email,
            r.name == self.name,
            r.image_profile == self.image_profile,
            decode_of(r.token@, keys@) == Some((self.email@, exp_at(now as int))),
            r.token@.len() > 0,
    {
        let token = keys.issue(&self.email, now);
        LoginUserResponse {
            id: self.id,
            username: self.username.clone(),
            email: self.email.clone(),
            name: self.name.clone(),
            token,
            image_profile: self.image_profile.clone(),
        }
    }

    /// The login response against the current clock.
    pub fn get_claim_jwt(&self, keys: &Keys) -> (r: LoginUserResponse)
        ensures
            r.id == self.id,
            r.username == self.username,
            r.email == self.email,
            r.name == self.name,
            r.image_profile == self.image_profile,
            token_issued_for(r.token@, keys@, self.email@),
            token_freshly_issued_for(r.token@, keys@, self.email@),
            r.token@.len() > 0,
    {
        let now = crate::token::now_unix_seconds();
        let r = self.get_claim_jwt_at(keys, now);
        proof {
            assert(decode_of(r.token@, keys@) == Some((self.email@, exp_at(now as int))));
        }
        r
    }
}

impl CreateUser {
    /// Bundles raw registration input; the username starts empty and is
    /// derived later.
    pub fn new(name: String, email: String, image_profile: Option<String>, password: String) -> (r:
        CreateUser)
        ensures
            r.name == name,
            r.email == email,
            r.image_profile == image_profile,
            r.password == password,
            r.username@ == Seq::<char>::empty(),
    {
        CreateUser { name, email, image_profile, username: String::new(), password }
    }

    /// The field checks registration demands: display name of at least 6
    /// characters, email-shaped email, well-formed image URL when present,
    /// password of at least 8 characters.
    pub open spec fn valid(self) -> bool {
        &&& self.name@.len() >= 6
    &&& crate::validate::email_ok(self.email@)
    &&& (self.image_profile matches Some(u) ==> crate::validate::url_ok(u@))
    &&& self.password@.len() >= 8
    }

    /// The failing fields, in field order.
    pub open spec fn expected_faults(self) -> Seq<FieldFault> {
        (if self.name@.len() < 6 {
            seq![FieldFault::NameTooShort]
        } else {
            Seq::<FieldFault>::empty()
        }) + (if !crate::validate::email_ok(self.email@) {
            seq![FieldFault::EmailMalformed]
        } else {
            Seq::<FieldFault>::empty()
        }) + (if self.image_profile matches Some(u) && !crate::validate::url_ok(u@) {
            seq![FieldFault::ImageUrlMalformed]
        } else {
            Seq::<FieldFault>::empty()
        }) + (if self.password@.len() < 8 {
            seq![FieldFault::PasswordTooShort]
        } else {
            Seq::<FieldFault>::empty()
        })
    }

    /// Checks the raw fields and reports every failing one; storage is never
    /// touched on failure.
    pub fn validate(&self) -> (r: Result<(), ValidationError>)
        ensures
            r is Ok <==> self.valid(),
            (r matches Err(e) ==> e.fields@ == self.expected_faults()),
    {
        let mut faults: Vec<FieldFault> = Vec::new();
        if self.name.as_str().unicode_len() < 6 {
            faults.push(FieldFault::NameTooShort);
        }
        if !is_email_shaped(&self.email) {
            faults.push(FieldFault::EmailMalformed);
        }
        match &self.image_profile {
            Option::Some(u) => {
                if !is_url_shaped(u) {
                    faults.push(FieldFault::ImageUrlMalformed);
                }
            },
            Option::None => {},
        }
        if self.password.as_str().unicode_len() < 8 {
            faults.push(FieldFault::PasswordTooShort);
        }
        proof {
            assert(faults@ =~= self.expected_faults());
        }
        if faults.len() == 0 {
            Ok(())
        } else {
            Err(ValidationError { fields: faults })
        }
    }

    /// Derives the username from the display name and the current clock:
    /// the lowercased first two tokens of the name, a millisecond timestamp,
    /// clamped to 25 characters. A name that is empty or all white space
    /// yields the timestamp digits alone. Every other field stays as it was.
    pub fn set_username(&mut self)
        ensures
            derived_from(final (self).username@, old(self).name@),
            all_space(old(self).name@) ==> timestamp_only(final (self).username@),
            final (self).username@.len() >= 1,
            final (self).username@.len() <= 25,
            final (self).name == old(self).name,
            final (self).email == old(self).email,
            final (self).image_profile == old(self).image_profile,
            final (self).password == old(self).password,
    {
        let now_ms = now_unix_millis();
        let u = derive_username(self.name.as_str(), now_ms);
        proof {
            crate::username::lemma_derive_len(lower_of(self.name@), now_ms as nat);
        }
        self.username = u;
    }

    /// Replaces the plaintext password with its salted one-way hash; the
    /// hash is a non-empty PHC-encoded string, starting with its `'$'`
    /// sentinel and so never equal to a plaintext of any other shape, and it
    /// accepts exactly the password it replaced. The password must stay
    /// under the hashing algorithm's four-gibibyte input limit. Every other
    /// field stays as it was.
    pub fn hash_password(&mut self)
        requires
            old(self).password@.len() < 0x4000_0000,
        ensures
            password_accepted(old(self).password@, final (self).password@),
            final (self).password@[0] == '$',
            final (self).name == old(self).name,
            final (self).email == old(self).email,
            final (self).image_profile == old(self).image_profile,
            final (self).username == old(self).username,
    {
        self.password = argon2_hash(self.password.as_str());
    }
}

} // verus!
