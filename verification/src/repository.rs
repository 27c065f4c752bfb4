//! The repository layer and its transactional seam.
//!
//! Every data access goes through one adapter: writes through [`execute`],
//! reads against the state [`effective`] returns. The adapter attempts to
//! take the active transaction handle from the ambient context; if one is
//! present the statement runs against that handle and the handle is
//! published back (retrieval is destructive), so later repository calls in
//! the same unit of work observe the same open transaction — and the handle
//! is re-published even when the statement fails, so the unit-of-work
//! manager can still roll it back. If no handle is present the statement
//! runs against the committed store directly, with autocommit semantics.
//!
//! This seam is what lets repository code be written once and run either
//! transactionally or standalone, decided entirely by ambient state: the
//! contracts of every repository method are stated over the effective view
//! alone, so behavior is identical in and out of a unit of work, except for
//! durability timing.

use vstd::prelude::*;

use crate::context::{Ctx, CtxView};
use crate::error::Error;
use crate::store::{
    find_role_by_id, find_role_by_name, find_user_by_email, find_user_by_id, has_attachment,
    has_role_id, has_role_name, has_user_email, has_user_id, statement_apply, statement_ok, Db,
    DbState, DbView, Role, Statement, StatementView, User, UserRole,
};

verus! {

/// The state a repository call observes: the staged state of the published
/// transaction when one is active, the committed store otherwise.
pub open spec fn effective_view(c: CtxView, d: DbView) -> DbView {
    match c.tx {
        Some(t) => t,
        None => d,
    }
}

/// Borrows the state the current call must run against, per the ambient
/// context: the staged transaction state when a handle is published, the
/// committed store otherwise.
pub fn effective<'a>(ctx: &'a Ctx, db: &'a Db) -> (r: &'a DbState)
    ensures
        r@ == effective_view(ctx@, db@),
{
    match ctx.read_transaction() {
        Some(tx) => &tx.staged,
        None => &db.state,
    }
}

/// Runs one write through the transactional seam.
///
/// With a transaction published, the statement touches only the staged
/// state — the committed store is unchanged, and the handle ends up back in
/// the slot whether or not the statement applied. With none published, the
/// statement commits directly and the context is untouched. Either way the
/// result and the new effective view are the same function of the old
/// effective view.
pub fn execute(ctx: &mut Ctx, db: &mut Db, stmt: &Statement) -> (r: Result<(), Error>)
    ensures
        final(ctx)@.identity == old(ctx)@.identity,
        (final(ctx)@.tx is Some) == (old(ctx)@.tx is Some),
        r is Ok <==> statement_ok(effective_view(old(ctx)@, old(db)@), stmt@),
        r is Ok ==> effective_view(final(ctx)@, final(db)@) == statement_apply(
            effective_view(old(ctx)@, old(db)@),
            stmt@,
        ),
        r matches Err(e) ==> e is Internal && effective_view(final(ctx)@, final(db)@)
            == effective_view(old(ctx)@, old(db)@),
        old(ctx)@.tx is Some ==> final(db)@ == old(db)@,
        old(ctx)@.tx is None ==> final(ctx)@ == old(ctx)@,
{
    match ctx.take_transaction() {
        Some(mut tx) => {
            let r = tx.staged.apply(stmt);
            ctx.publish_transaction(tx);
            r
        },
        None => db.state.apply(stmt),
    }
}

/// Repository transparency: every repository contract is a function of the
/// effective view alone, so two calls that observe equal effective views —
/// one inside a unit of work, one outside — agree on their result and on the
/// effective view they leave behind; only durability timing differs.
pub proof fn lemma_repository_transparency(
    c1: CtxView,
    d1: DbView,
    c2: CtxView,
    d2: DbView,
    s: StatementView,
    id: Seq<char>,
    email: Seq<char>,
    name: Seq<char>,
)
    requires
        effective_view(c1, d1) == effective_view(c2, d2),
    ensures
        statement_ok(effective_view(c1, d1), s) == statement_ok(effective_view(c2, d2), s),
        statement_apply(effective_view(c1, d1), s) == statement_apply(effective_view(c2, d2), s),
        find_user_by_id(effective_view(c1, d1).users, id) == find_user_by_id(
            effective_view(c2, d2).users,
            id,
        ),
        find_user_by_email(effective_view(c1, d1).users, email) == find_user_by_email(
            effective_view(c2, d2).users,
            email,
        ),
        find_role_by_id(effective_view(c1, d1).roles, id) == find_role_by_id(
            effective_view(c2, d2).roles,
            id,
        ),
        find_role_by_name(effective_view(c1, d1).roles, name) == find_role_by_name(
            effective_view(c2, d2).roles,
            name,
        ),
        has_attachment(effective_view(c1, d1), id, name) == has_attachment(
            effective_view(c2, d2),
            id,
            name,
        ),
{
}

/// Isolation between units of work in flight at once: each operation's
/// context is a distinct value holding its own transaction handle, and while
/// a transaction is active the adapter writes only that handle's staged
/// state. So after one operation runs a statement — its context moving from
/// `mine` to `mine_after`, the committed store untouched as [`execute`]
/// ensures — the operation itself observes its own write, while any other
/// in-flight operation still observes exactly its own staged state, and
/// neither operation's identity has moved.
pub proof fn lemma_units_of_work_isolated(
    mine: CtxView,
    mine_after: CtxView,
    other: CtxView,
    db: DbView,
    s: StatementView,
)
    requires
        mine.tx is Some,
        other.tx is Some,
        mine_after == (CtxView {
            tx: Some(statement_apply(mine.tx->Some_0, s)),
            identity: mine.identity,
        }),
    ensures
        effective_view(mine_after, db) == statement_apply(effective_view(mine, db), s),
        effective_view(other, db) == other.tx->Some_0,
        mine_after.identity == mine.identity,
{
}

/// Data access for user rows. Stateless: every call runs against the store
/// and context it is handed, through the transactional seam.
pub struct UserRepository {}

impl UserRepository {
    pub fn new() -> (r: UserRepository) {
        UserRepository {  }
    }

    /// Inserts the user row.
    pub fn create(&self, ctx: &mut Ctx, db: &mut Db, user: &User) -> (r: Result<(), Error>)
        ensures
            final(ctx)@.identity == old(ctx)@.identity,
            (final(ctx)@.tx is Some) == (old(ctx)@.tx is Some),
            r is Ok <==> !has_user_id(effective_view(old(ctx)@, old(db)@), user@.id)
                && !has_user_email(effective_view(old(ctx)@, old(db)@), user@.email),
            r is Ok ==> effective_view(final(ctx)@, final(db)@) == (DbView {
                users: effective_view(old(ctx)@, old(db)@).users.push(user@),
                ..effective_view(old(ctx)@, old(db)@)
            }),
            r matches Err(e) ==> e is Internal && effective_view(final(ctx)@, final(db)@)
                == effective_view(old(ctx)@, old(db)@),
            old(ctx)@.tx is Some ==> final(db)@ == old(db)@,
            old(ctx)@.tx is None ==> final(ctx)@ == old(ctx)@,
    {
        execute(ctx, db, &Statement::InsertUser(user.duplicate()))
    }

    /// First user row with the given id, or `None`.
    pub fn find_by_id(&self, ctx: &Ctx, db: &Db, user_id: &String) -> (r: Result<Option<User>, Error>)
        ensures
            r is Ok,
            r matches Ok(Some(u)) ==> find_user_by_id(
                effective_view(ctx@, db@).users,
                user_id@,
            ) == Some(u@),
            r matches Ok(None) ==> find_user_by_id(
                effective_view(ctx@, db@).users,
                user_id@,
            ) is None,
    {
        match effective(ctx, db).select_user_by_id(user_id) {
            Some(u) => Ok(Some(u.duplicate())),
            None => Ok(None),
        }
    }

    /// First user row with the given email, or `None`.
    pub fn find_by_email(&self, ctx: &Ctx, db: &Db, email: &String) -> (r: Result<Option<User>, Error>)
        ensures
            r is Ok,
            r matches Ok(Some(u)) ==> find_user_by_email(
                effective_view(ctx@, db@).users,
                email@,
            ) == Some(u@),
            r matches Ok(None) ==> find_user_by_email(
                effective_view(ctx@, db@).users,
                email@,
            ) is None,
    {
        match effective(ctx, db).select_user_by_email(email) {
            Some(u) => Ok(Some(u.duplicate())),
            None => Ok(None),
        }
    }

    /// Whether a user row with the given email exists.
    pub fn exists_by_email(&self, ctx: &Ctx, db: &Db, email: &String) -> (r: Result<bool, Error>)
        ensures
            r is Ok,
            r->Ok_0 == has_user_email(effective_view(ctx@, db@), email@),
    {
        Ok(effective(ctx, db).select_user_by_email(email).is_some())
    }

    /// Whether a user row with the given id exists.
    pub fn exists_by_id(&self, ctx: &Ctx, db: &Db, user_id: &String) -> (r: Result<bool, Error>)
        ensures
            r is Ok,
            r->Ok_0 == has_user_id(effective_view(ctx@, db@), user_id@),
    {
        Ok(effective(ctx, db).select_user_by_id(user_id).is_some())
    }
}

/// Data access for role rows and user-role attachments. Stateless, like
/// [`UserRepository`].
pub struct RoleRepository {}

impl RoleRepository {
    pub fn new() -> (r: RoleRepository) {
        RoleRepository {  }
    }

    /// Inserts the role row.
    pub fn create(&self, ctx: &mut Ctx, db: &mut Db, role: &Role) -> (r: Result<(), Error>)
        ensures
            final(ctx)@.identity == old(ctx)@.identity,
            (final(ctx)@.tx is Some) == (old(ctx)@.tx is Some),
            r is Ok <==> !has_role_id(effective_view(old(ctx)@, old(db)@), role@.id)
                && !has_role_name(effective_view(old(ctx)@, old(db)@), role@.name),
            r is Ok ==> effective_view(final(ctx)@, final(db)@) == (DbView {
                roles: effective_view(old(ctx)@, old(db)@).roles.push(role@),
                ..effective_view(old(ctx)@, old(db)@)
            }),
            r matches Err(e) ==> e is Internal && effective_view(final(ctx)@, final(db)@)
                == effective_view(old(ctx)@, old(db)@),
            old(ctx)@.tx is Some ==> final(db)@ == old(db)@,
            old(ctx)@.tx is None ==> final(ctx)@ == old(ctx)@,
    {
        execute(ctx, db, &Statement::InsertRole(role.duplicate()))
    }

    /// First role row with the given id, or `None`.
    pub fn find_by_id(&self, ctx: &Ctx, db: &Db, role_id: &String) -> (r: Result<Option<Role>, Error>)
        ensures
            r is Ok,
            r matches Ok(Some(role)) ==> find_role_by_id(
                effective_view(ctx@, db@).roles,
                role_id@,
            ) == Some(role@),
            r matches Ok(None) ==> find_role_by_id(
                effective_view(ctx@, db@).roles,
                role_id@,
            ) is None,
    {
        match effective(ctx, db).select_role_by_id(role_id) {
            Some(role) => Ok(Some(role.duplicate())),
            None => Ok(None),
        }
    }

    /// Every role row, in insertion order.
    pub fn find_all(&self, ctx: &Ctx, db: &Db) -> (r: Result<Vec<Role>, Error>)
        ensures
            r is Ok,
            r->Ok_0@.len() == effective_view(ctx@, db@).roles.len(),
            forall|j: int|
                0 <= j < r->Ok_0@.len() ==> r->Ok_0@[j]@ == effective_view(ctx@, db@).roles[j],
    {
        Ok(effective(ctx, db).select_all_roles())
    }

    /// First role row with the given name, or `None`.
    pub fn find_by_name(&self, ctx: &Ctx, db: &Db, name: &String) -> (r: Result<Option<Role>, Error>)
        ensures
            r is Ok,
            r matches Ok(Some(role)) ==> find_role_by_name(
                effective_view(ctx@, db@).roles,
                name@,
            ) == Some(role@),
            r matches Ok(None) ==> find_role_by_name(
                effective_view(ctx@, db@).roles,
                name@,
            ) is None,
    {
        match effective(ctx, db).select_role_by_name(name) {
            Some(role) => Ok(Some(role.duplicate())),
            None => Ok(None),
        }
    }

    /// Whether a role row with the given name exists.
    pub fn exists_by_name(&self, ctx: &Ctx, db: &Db, name: &String) -> (r: Result<bool, Error>)
        ensures
            r is Ok,
            r->Ok_0 == has_role_name(effective_view(ctx@, db@), name@),
    {
        Ok(effective(ctx, db).select_role_by_name(name).is_some())
    }

    /// Attaches the role to the user.
    pub fn add(&self, ctx: &mut Ctx, db: &mut Db, user_id: &String, role_id: &String) -> (r: Result<(), Error>)
        ensures
            final(ctx)@.identity == old(ctx)@.identity,
            (final(ctx)@.tx is Some) == (old(ctx)@.tx is Some),
            r is Ok <==> !has_attachment(effective_view(old(ctx)@, old(db)@), user_id@, role_id@),
            r is Ok ==> effective_view(final(ctx)@, final(db)@) == (DbView {
                user_roles: effective_view(old(ctx)@, old(db)@).user_roles.push(
                    crate::store::UserRoleView { user_id: user_id@, role_id: role_id@ },
                ),
                ..effective_view(old(ctx)@, old(db)@)
            }),
            r matches Err(e) ==> e is Internal && effective_view(final(ctx)@, final(db)@)
                == effective_view(old(ctx)@, old(db)@),
            old(ctx)@.tx is Some ==> final(db)@ == old(db)@,
            old(ctx)@.tx is None ==> final(ctx)@ == old(ctx)@,
    {
        execute(
            ctx,
            db,
            &Statement::InsertUserRole(
                UserRole { user_id: user_id.clone(), role_id: role_id.clone() },
            ),
        )
    }
}

} // verus!
