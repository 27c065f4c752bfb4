//! Role management over the credential store.

use vstd::prelude::*;

use vstd::string::StringExecFns;

use crate::context::Ctx;
use crate::error::Error;
use crate::repository::{effective_view, RoleRepository};
use crate::store::{find_role_by_id, has_role_id, has_role_name, Db, DbView, Role, RoleView};

verus! {

/// A request to create a role. The request declares no field rules, so
/// validation always accepts.
pub struct CreateRoleRequest {
    pub name: String,
}

impl CreateRoleRequest {
    pub fn validate(&self) -> (r: Result<(), Error>)
        ensures
            r is Ok,
    {
        Ok(())
    }
}

/// The role row as handlers return it. Timestamps are unix seconds.
#[derive(Debug)]
pub struct RoleResponse {
    pub id: String,
    pub name: String,
    pub created_at: i64,
    pub updated_at: i64,
}

/// Mathematical value of a role response.
pub ghost struct RoleResponseView {
    pub id: Seq<char>,
    pub name: Seq<char>,
    pub created_at: int,
    pub updated_at: int,
}

impl View for RoleResponse {
    type V = RoleResponseView;

    open spec fn view(&self) -> RoleResponseView {
        RoleResponseView {
            id: self.id@,
            name: self.name@,
            created_at: self.created_at as int,
            updated_at: self.updated_at as int,
        }
    }
}

/// The response a role row maps to.
pub open spec fn role_response_of(role: RoleView) -> RoleResponseView {
    RoleResponseView {
        id: role.id,
        name: role.name,
        created_at: role.created_at,
        updated_at: role.updated_at,
    }
}

/// The role service. Role creation is a single write, so no unit of work is
/// opened: with no ambient transaction it commits directly.
pub struct Service {
    pub role_repo: RoleRepository,
}

impl Service {
    pub fn new() -> (r: Service) {
        Service { role_repo: RoleRepository::new() }
    }

    /// Creates a role with the given fresh id and the clock reading as both
    /// timestamps; a taken name is refused as `Conflict`.
    pub fn create(
        &self,
        ctx: &mut Ctx,
        db: &mut Db,
        req: &CreateRoleRequest,
        new_role_id: String,
        now: i64,
    ) -> (r: Result<(), Error>)
        ensures
            final(ctx)@.identity == old(ctx)@.identity,
            (final(ctx)@.tx is Some) == (old(ctx)@.tx is Some),
            old(ctx)@.tx is Some ==> final(db)@ == old(db)@,
            old(ctx)@.tx is None ==> final(ctx)@ == old(ctx)@,
            has_role_name(effective_view(old(ctx)@, old(db)@), req.name@) ==> (r matches Err(e) && (
            e matches Error::Conflict(m) && m@ == "Role '"@ + req.name@ + "' already exists"@))
                && effective_view(final(ctx)@, final(db)@) == effective_view(old(ctx)@, old(db)@),
            r is Err ==> effective_view(final(ctx)@, final(db)@) == effective_view(
                old(ctx)@,
                old(db)@,
            ) && (r->Err_0 is Conflict || r->Err_0 is Internal),
            (!has_role_name(effective_view(old(ctx)@, old(db)@), req.name@) && !has_role_id(
                effective_view(old(ctx)@, old(db)@),
                new_role_id@,
            )) ==> r is Ok,
            r is Ok ==> effective_view(final(ctx)@, final(db)@) == (DbView {
                roles: effective_view(old(ctx)@, old(db)@).roles.push(
                    RoleView {
                        id: new_role_id@,
                        name: req.name@,
                        created_at: now as int,
                        updated_at: now as int,
                    },
                ),
                ..effective_view(old(ctx)@, old(db)@)
            }),
    {
        req.validate()?;
        let exists = self.role_repo.exists_by_name(ctx, db, &req.name)?;
        if exists {
            return Err(Error::Conflict(role_exists_message(&req.name)));
        }
        let new_role = Role { id: new_role_id, name: req.name.clone(), created_at: now, updated_at: now };
        self.role_repo.create(ctx, db, &new_role)
    }

    /// Looks a role up by id; an unknown id is `NotFound`.
    pub fn find_by_id(&self, ctx: &Ctx, db: &Db, role_id: &String) -> (r: Result<
        RoleResponse,
        Error,
    >)
        ensures
            find_role_by_id(effective_view(ctx@, db@).roles, role_id@) is None ==> (r matches Err(e)
                && (e matches Error::NotFound(m) && m@ == "Role with ID '"@ + role_id@
                + "' not found"@)),
            find_role_by_id(effective_view(ctx@, db@).roles, role_id@) matches Some(role) ==> (r
                matches Ok(res) && res@ == role_response_of(role)),
    {
        let found = self.role_repo.find_by_id(ctx, db, role_id)?;
        let role = match found {
            Some(role) => role,
            None => {
                return Err(Error::NotFound(role_not_found_message(role_id)));
            },
        };
        Ok(
            RoleResponse {
                id: role.id,
                name: role.name,
                created_at: role.created_at,
                updated_at: role.updated_at,
            },
        )
    }

    /// Every role, in insertion order, as responses.
    pub fn find_all(&self, ctx: &Ctx, db: &Db) -> (r: Result<Vec<RoleResponse>, Error>)
        ensures
            r is Ok,
            r->Ok_0@.len() == effective_view(ctx@, db@).roles.len(),
            forall|j: int|
                0 <= j < r->Ok_0@.len() ==> r->Ok_0@[j]@ == role_response_of(
                    effective_view(ctx@, db@).roles[j],
                ),
    {
        let roles = self.role_repo.find_all(ctx, db)?;
        let mut responses: Vec<RoleResponse> = Vec::new();
        let mut i: usize = 0;
        while i < roles.len()
            invariant
                i <= roles@.len(),
                roles@.len() == effective_view(ctx@, db@).roles.len(),
                forall|j: int|
                    0 <= j < roles@.len() ==> roles@[j]@ == effective_view(ctx@, db@).roles[j],
                responses@.len() == i as int,
                forall|j: int|
                    0 <= j < i ==> responses@[j]@ == role_response_of(
                        effective_view(ctx@, db@).roles[j],
                    ),
            decreases roles.len() - i,
        {
            responses.push(
                RoleResponse {
                    id: roles[i].id.clone(),
                    name: roles[i].name.clone(),
                    created_at: roles[i].created_at,
                    updated_at: roles[i].updated_at,
                },
            );
            i = i + 1;
        }
        Ok(responses)
    }
}

fn role_exists_message(name: &String) -> (r: String)
    ensures
        r@ == "Role '"@ + name@ + "' already exists"@,
{
    let mut m = String::from_str("Role '");
    m.append(name.as_str());
    m.append("' already exists");
    m
}

fn role_not_found_message(role_id: &String) -> (r: String)
    ensures
        r@ == "Role with ID '"@ + role_id@ + "' not found"@,
{
    let mut m = String::from_str("Role with ID '");
    m.append(role_id.as_str());
    m.append("' not found");
    m
}

} // verus!
