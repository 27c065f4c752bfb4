//! The verified caller identity and its ambient lookup.
//!
//! An `Identity` is constructed by the authentication middleware after a
//! credential verifies, published into the operation's context, and read-only
//! to downstream code. It is never persisted and lives no longer than one
//! request's processing.

use vstd::prelude::*;

use crate::context::Ctx;
use crate::error::Error;

verus! {

/// The verified representation of the caller of the current request.
#[derive(Debug)]
pub struct Identity {
    pub user_id: String,
    pub email: String,
}

/// Mathematical value of an identity.
pub ghost struct IdentityView {
    pub user_id: Seq<char>,
    pub email: Seq<char>,
}

impl View for Identity {
    type V = IdentityView;

    open spec fn view(&self) -> IdentityView {
        IdentityView { user_id: self.user_id@, email: self.email@ }
    }
}

impl Identity {
    /// A value-preserving copy.
    pub fn duplicate(&self) -> (r: Identity)
        ensures
            r@ == self@,
    {
        Identity { user_id: self.user_id.clone(), email: self.email.clone() }
    }
}

/// The ambient identity lookup offered to handlers and services.
///
/// Outside any authenticated scope — when no identity was published into the
/// context — this fails with an authorization error; it never panics and can
/// return no identity of an unrelated operation, since it reads only the
/// context it is handed.
pub fn get_current_identity(ctx: &Ctx) -> (r: Result<Identity, Error>)
    ensures
        ctx@.identity is Some <==> r is Ok,
        r matches Ok(i) ==> ctx@.identity == Some(i@),
        r matches Err(e) ==> e matches Error::Forbidden(m)
            && m@ == "Failed to retrieve current identity"@,
{
    match ctx.read_identity() {
        Some(identity) => Ok(identity.duplicate()),
        None => Err(Error::Forbidden(no_identity_message())),
    }
}

/// The message carried by the authorization failure of
/// [`get_current_identity`].
fn no_identity_message() -> (r: String)
    ensures
        r@ == "Failed to retrieve current identity"@,
{
    let r: String = "Failed to retrieve current identity".to_string();
    r
}

} // verus!
