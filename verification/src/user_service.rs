//! User-facing queries over the credential store.
//!
//! Reading a user caches its detail record; attaching roles runs as a unit
//! of work.

use vstd::prelude::*;

use vstd::string::StringExecFns;

use crate::cache::{CacheStore, CacheValue, CacheValueView};
use crate::context::Ctx;
use crate::error::Error;
use crate::identity::get_current_identity;
use crate::repository::{effective_view, RoleRepository, UserRepository};
use crate::store::{find_user_by_id, has_user_id, Db, UserView};
use crate::uow::{complete_unit_of_work, TransactionManager, Uow};

verus! {

/// The user row as handlers return it: everything but the password hash and
/// the deletion mark. Timestamps are unix seconds.
#[derive(Debug)]
pub struct UserResponse {
    pub id: String,
    pub email: String,
    pub name: String,
    pub phone_number: Option<String>,
    pub photo_url: Option<String>,
    pub created_at: i64,
    pub updated_at: i64,
}

/// Mathematical value of a user response.
pub ghost struct UserResponseView {
    pub id: Seq<char>,
    pub email: Seq<char>,
    pub name: Seq<char>,
    pub phone_number: Option<Seq<char>>,
    pub photo_url: Option<Seq<char>>,
    pub created_at: int,
    pub updated_at: int,
}

impl View for UserResponse {
    type V = UserResponseView;

    open spec fn view(&self) -> UserResponseView {
        UserResponseView {
            id: self.id@,
            email: self.email@,
            name: self.name@,
            phone_number: match self.phone_number {
                Some(ref s) => Some(s@),
                None => None,
            },
            photo_url: match self.photo_url {
                Some(ref s) => Some(s@),
                None => None,
            },
            created_at: self.created_at as int,
            updated_at: self.updated_at as int,
        }
    }
}

impl UserResponse {
    /// A value-preserving copy.
    pub fn duplicate(&self) -> (r: UserResponse)
        ensures
            r@ == self@,
    {
        UserResponse {
            id: self.id.clone(),
            email: self.email.clone(),
            name: self.name.clone(),
            phone_number: match &self.phone_number {
                Some(s) => Some(s.clone()),
                None => None,
            },
            photo_url: match &self.photo_url {
                Some(s) => Some(s.clone()),
                None => None,
            },
            created_at: self.created_at,
            updated_at: self.updated_at,
        }
    }
}

/// A request to attach roles to a user.
pub struct AddRolesRequest {
    pub user_id: String,
    pub roles: Vec<String>,
}

/// The response a user row maps to.
pub open spec fn user_response_of(u: UserView) -> UserResponseView {
    UserResponseView {
        id: u.id,
        email: u.email,
        name: u.name,
        phone_number: u.phone_number,
        photo_url: u.photo_url,
        created_at: u.created_at,
        updated_at: u.updated_at,
    }
}

/// The cache key under which a user's detail record is held.
pub open spec fn user_detail_key_view(user_id: Seq<char>) -> Seq<char> {
    "user:detail:"@ + user_id
}

/// Builds the detail cache key for a user id.
pub fn user_detail_key(user_id: &String) -> (r: String)
    ensures
        r@ == user_detail_key_view(user_id@),
{
    let mut key = String::from_str("user:detail:");
    key.append(user_id.as_str());
    key
}

/// The user service.
pub struct Service {
    pub uow: TransactionManager,
    pub user_repo: UserRepository,
    pub role_repo: RoleRepository,
}

impl Service {
    pub fn new() -> (r: Service) {
        Service {
            uow: TransactionManager::new(),
            user_repo: UserRepository::new(),
            role_repo: RoleRepository::new(),
        }
    }

    /// Looks a user up by id, caches the detail record under the user's
    /// detail key with the default time-to-live, and returns it; an unknown
    /// id is `NotFound` and leaves the cache untouched.
    pub fn get_by_id(&self, ctx: &Ctx, db: &Db, cache: &mut CacheStore, user_id: &String) -> (r:
        Result<UserResponse, Error>)
        requires
            old(cache).wf(),
        ensures
            final(cache).wf(),
            final(cache).spec_default_ttl() == old(cache).spec_default_ttl(),
            find_user_by_id(effective_view(ctx@, db@).users, user_id@) is None ==> (r matches Err(e)
                && (e matches Error::NotFound(m) && m@ == "User not found"@)) && final(cache)@
                == old(cache)@,
            find_user_by_id(effective_view(ctx@, db@).users, user_id@) matches Some(u) ==> (r
                matches Ok(res) && res@ == user_response_of(u)) && final(cache)@ == old(
                cache,
            )@.insert(
                user_detail_key_view(u.id),
                (CacheValueView::UserDetail(user_response_of(u)), old(cache).spec_default_ttl()),
            ),
    {
        let found = self.user_repo.find_by_id(ctx, db, user_id)?;
        let user = match found {
            Some(user) => user,
            None => {
                let m: String = "User not found".to_string();
                return Err(Error::NotFound(m));
            },
        };
        let res = UserResponse {
            id: user.id,
            email: user.email,
            name: user.name,
            phone_number: user.phone_number,
            photo_url: user.photo_url,
            created_at: user.created_at,
            updated_at: user.updated_at,
        };
        let key = user_detail_key(&res.id);
        cache.set(key, CacheValue::UserDetail(res.duplicate()))?;
        Ok(res)
    }

    /// Looks the current caller up: [`Self::get_by_id`] on the ambient
    /// identity's user id, or an authorization failure outside any
    /// authenticated scope.
    pub fn get_current(&self, ctx: &Ctx, db: &Db, cache: &mut CacheStore) -> (r: Result<
        UserResponse,
        Error,
    >)
        requires
            old(cache).wf(),
        ensures
            final(cache).wf(),
            final(cache).spec_default_ttl() == old(cache).spec_default_ttl(),
            ctx@.identity is None ==> (r matches Err(e) && e is Forbidden) && final(cache)@ == old(
                cache,
            )@,
            ctx@.identity matches Some(id) ==> ({
                let found = find_user_by_id(effective_view(ctx@, db@).users, id.user_id);
                &&& (found is None ==> (r matches Err(e) && e is NotFound) && final(cache)@ == old(
                    cache,
                )@)
                &&& (found matches Some(u) ==> (r matches Ok(res) && res@ == user_response_of(u))
                    && final(cache)@ == old(cache)@.insert(
                    user_detail_key_view(u.id),
                    (
                        CacheValueView::UserDetail(user_response_of(u)),
                        old(cache).spec_default_ttl(),
                    ),
                ))
            }),
    {
        let identity = get_current_identity(ctx)?;
        self.get_by_id(ctx, db, cache, &identity.user_id)
    }

    /// Attaches the requested roles to the user as one unit of work and
    /// returns the user's detail.
    ///
    /// The guard refuses a user id that exists, and an id that does not
    /// exist can produce no detail record once the roles are attached — so
    /// every call fails, the staged attachments are rolled back, and the
    /// store is left unchanged. The cache is untouched on every path.
    pub fn add_roles(&self, ctx: &mut Ctx, db: &mut Db, cache: &mut CacheStore, req: AddRolesRequest) -> (r: Result<UserResponse, Error>)
        requires
            old(ctx)@.tx is None,
            old(cache).wf(),
        ensures
            final(ctx)@.tx is None,
            final(ctx)@.identity == old(ctx)@.identity,
            final(cache).wf(),
            final(cache)@ == old(cache)@,
            final(cache).spec_default_ttl() == old(cache).spec_default_ttl(),
            final(db)@ == old(db)@,
            r is Err,
            has_user_id(old(db)@, req.user_id@) ==> (r matches Err(e) && (e
                matches Error::NotFound(m) && m@ == "User is not found"@)),
            !has_user_id(old(db)@, req.user_id@) ==> (r matches Err(e) && (e is NotFound || e
                is Internal)),
    {
        if let Err(e) = self.uow.begin(ctx, db) {
            return Err(e);
        }
        let outcome = self.add_roles_in_transaction(ctx, db, cache, req);
        complete_unit_of_work(&self.uow, ctx, db, outcome)
    }

    /// The body add-roles runs inside its transaction.
    fn add_roles_in_transaction(
        &self,
        ctx: &mut Ctx,
        db: &mut Db,
        cache: &mut CacheStore,
        req: AddRolesRequest,
    ) -> (r: Result<UserResponse, Error>)
        requires
            old(ctx)@.tx is Some,
            old(cache).wf(),
        ensures
            final(db)@ == old(db)@,
            final(ctx)@.tx is Some,
            final(ctx)@.identity == old(ctx)@.identity,
            final(cache).wf(),
            final(cache)@ == old(cache)@,
            final(cache).spec_default_ttl() == old(cache).spec_default_ttl(),
            r is Err,
            has_user_id(old(ctx)@.tx->Some_0, req.user_id@) ==> (r matches Err(e) && (e
                matches Error::NotFound(m) && m@ == "User is not found"@)),
            !has_user_id(old(ctx)@.tx->Some_0, req.user_id@) ==> (r matches Err(e) && (e
                is NotFound || e is Internal)),
    {
        if self.user_repo.exists_by_id(ctx, db, &req.user_id)? {
            let m: String = "User is not found".to_string();
            return Err(Error::NotFound(m));
        }
        let mut i: usize = 0;
        while i < req.roles.len()
            invariant
                i <= req.roles.len(),
                db@ == old(db)@,
                ctx@.tx is Some,
                ctx@.identity == old(ctx)@.identity,
                !has_user_id(effective_view(ctx@, db@), req.user_id@),
                !has_user_id(old(ctx)@.tx->Some_0, req.user_id@),
                *cache == *old(cache),
                cache.wf(),
            decreases req.roles.len() - i,
        {
            self.role_repo.add(ctx, db, &req.user_id, &req.roles[i])?;
            i = i + 1;
        }
        self.get_by_id(ctx, db, cache, &req.user_id)
    }
}

} // verus!
