//! Field validation for the inbound requests.
//!
//! Lengths count characters. Email acceptance is delegated to the validator
//! collaborator's HTML5 email grammar, a pure function of the string, named
//! [`email_accepted`].

use vstd::prelude::*;

use vstd::string::StrSliceExecFns;

verus! {

/// Whether the string is a valid email address under the HTML5 grammar: the
/// result of the validator collaborator, a function of the characters alone.
pub uninterp spec fn email_accepted(s: Seq<char>) -> bool;

/// Relies on validator::ValidateEmail::validate_email for str: acceptance by
/// the HTML5 email grammar, a function of the characters alone.
#[verifier::external_body]
pub(crate) fn is_valid_email(s: &str) -> (r: bool)
    ensures
        r == email_accepted(s@),
{
    validator::ValidateEmail::validate_email(&s)
}

/// The character count the length rules measure.
pub(crate) fn char_length(s: &str) -> (r: usize)
    ensures
        r == s@.len(),
{
    s.unicode_len()
}

/// A valid sign-in request: a well-formed email of at most 64 characters and
/// a password of 6 to 16 characters.
pub open spec fn sign_in_request_valid(email: Seq<char>, password: Seq<char>) -> bool {
    1 <= email.len() <= 64 && email_accepted(email) && 6 <= password.len() <= 16
}

/// A valid sign-up request: a name of 1 to 64 characters on top of the
/// sign-in rules.
pub open spec fn sign_up_request_valid(
    name: Seq<char>,
    email: Seq<char>,
    password: Seq<char>,
) -> bool {
    1 <= name.len() <= 64 && sign_in_request_valid(email, password)
}

/// A valid refresh request: a non-empty token.
pub open spec fn refresh_request_valid(refresh_token: Seq<char>) -> bool {
    refresh_token.len() >= 1
}

} // verus!
