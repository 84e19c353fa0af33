//! Field validation for registration input: name length, email shape,
//! image-URL shape, password length. A failed validation lists the failing
//! fields and never touches storage.

use vstd::prelude::*;

verus! {

/// Whether validator's email check (HTML5 shape) accepts the string.
pub uninterp spec fn email_ok(s: Seq<char>) -> bool;

/// Whether validator's URL check (a parseable URL) accepts the string.
pub uninterp spec fn url_ok(s: Seq<char>) -> bool;

/// Relies on validator's ValidateEmail for String: whether a string is
/// email-shaped depends on the string alone.
#[verifier::external_body]
pub(crate) fn is_email_shaped(s: &String) -> (r: bool)
    ensures
        r == email_ok(s@),
{
    validator::ValidateEmail::validate_email(s)
}

/// Relies on validator's ValidateUrl for String: whether a string parses as
/// a URL depends on the string alone.
#[verifier::external_body]
pub(crate) fn is_url_shaped(s: &String) -> (r: bool)
    ensures
        r == url_ok(s@),
{
    validator::ValidateUrl::validate_url(s)
}

/// One field that failed validation.
#[derive(Clone, Copy, PartialEq, Eq, Structural, Debug)]
pub enum FieldFault {
    NameTooShort,
    EmailMalformed,
    ImageUrlMalformed,
    PasswordTooShort,
}

/// A field-level validation failure: the failing fields, in field order.
#[derive(Debug)]
pub struct ValidationError {
    pub fields: Vec<FieldFault>,
}

} // verus!
