//! The authentication requests and response.

use vstd::prelude::*;

use crate::error::Error;
use crate::validate::{
    char_length, is_valid_email, refresh_request_valid, sign_in_request_valid,
    sign_up_request_valid,
};

verus! {

/// A sign-in request: email and clear-text password.
pub struct SignInRequest {
    pub email: String,
    pub password: String,
}

impl SignInRequest {
    /// Accepts the request iff its fields meet the validation rules.
    pub fn validate(&self) -> (r: Result<(), Error>)
        ensures
            r is Ok <==> sign_in_request_valid(self.email@, self.password@),
            r matches Err(e) ==> e is BadRequest,
    {
        validate_email_field(&self.email)?;
        validate_password_field(&self.password)?;
        Ok(())
    }
}

/// A sign-up request: display name, email, and clear-text password.
pub struct SignUpRequest {
    pub name: String,
    pub email: String,
    pub password: String,
}

impl SignUpRequest {
    /// Accepts the request iff its fields meet the validation rules.
    pub fn validate(&self) -> (r: Result<(), Error>)
        ensures
            r is Ok <==> sign_up_request_valid(self.name@, self.email@, self.password@),
            r matches Err(e) ==> e is BadRequest,
    {
        let name_len = char_length(self.name.as_str());
        if name_len < 1 || name_len > 64 {
            return Err(Error::BadRequest(name_length_message()));
        }
        validate_email_field(&self.email)?;
        validate_password_field(&self.password)?;
        Ok(())
    }
}

/// A refresh request: the presented refresh token.
pub struct RefreshTokenRequest {
    pub refresh_token: String,
}

impl RefreshTokenRequest {
    /// Accepts the request iff a token is present.
    pub fn validate(&self) -> (r: Result<(), Error>)
        ensures
            r is Ok <==> refresh_request_valid(self.refresh_token@),
            r matches Err(e) ==> e matches Error::BadRequest(m) && m@ == "Token is required"@,
    {
        if char_length(self.refresh_token.as_str()) < 1 {
            let m: String = "Token is required".to_string();
            return Err(Error::BadRequest(m));
        }
        Ok(())
    }
}

/// What a successful sign-in, sign-up or refresh hands back: the caller and
/// a fresh token pair.
#[derive(Debug)]
pub struct AuthResponse {
    pub user_id: String,
    pub email: String,
    pub access_token: String,
    pub refresh_token: String,
}

/// Mathematical value of an authentication response.
pub ghost struct AuthResponseView {
    pub user_id: Seq<char>,
    pub email: Seq<char>,
    pub access_token: Seq<char>,
    pub refresh_token: Seq<char>,
}

impl View for AuthResponse {
    type V = AuthResponseView;

    open spec fn view(&self) -> AuthResponseView {
        AuthResponseView {
            user_id: self.user_id@,
            email: self.email@,
            access_token: self.access_token@,
            refresh_token: self.refresh_token@,
        }
    }
}

/// Checks the email rules: length between 1 and 64 characters, then the
/// email grammar.
fn validate_email_field(email: &String) -> (r: Result<(), Error>)
    ensures
        r is Ok <==> (1 <= email@.len() <= 64 && crate::validate::email_accepted(email@)),
        r matches Err(e) ==> e is BadRequest,
{
    let len = char_length(email.as_str());
    if len < 1 || len > 64 {
        return Err(Error::BadRequest(email_length_message()));
    }
    if !is_valid_email(email.as_str()) {
        return Err(Error::BadRequest(email_format_message()));
    }
    Ok(())
}

/// Checks the password length rule: between 6 and 16 characters.
fn validate_password_field(password: &String) -> (r: Result<(), Error>)
    ensures
        r is Ok <==> 6 <= password@.len() <= 16,
        r matches Err(e) ==> e is BadRequest,
{
    let len = char_length(password.as_str());
    if len < 6 || len > 16 {
        return Err(Error::BadRequest(password_length_message()));
    }
    Ok(())
}

fn email_length_message() -> (r: String)
    ensures
        r@ == "Email length must be between 1 and 64 characters."@,
{
    let r: String = "Email length must be between 1 and 64 characters.".to_string();
    r
}

fn email_format_message() -> (r: String)
    ensures
        r@ == "Invalid email format. Please provide a valid email address."@,
{
    let r: String = "Invalid email format. Please provide a valid email address.".to_string();
    r
}

fn password_length_message() -> (r: String)
    ensures
        r@ == "Password length must be between 6 and 16 characters."@,
{
    let r: String = "Password length must be between 6 and 16 characters.".to_string();
    r
}

fn name_length_message() -> (r: String)
    ensures
        r@ == "Name length must be between 1 and 10 characters."@,
{
    let r: String = "Name length must be between 1 and 10 characters.".to_string();
    r
}

} // verus!
