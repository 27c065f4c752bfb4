//! The credential store and its mathematical model.
//!
//! The store keeps three relations: users, roles, and the user-to-role
//! attachment. Rows are plain values keyed by opaque string identifiers;
//! timestamps are unix seconds. The committed store (`Db`) and the staged
//! state of an open transaction both carry a `DbState`, and every contract in
//! the repository and unit-of-work layers is stated over its view (`DbView`).
//!
//! Writes go through the small statement language `Statement`; a statement
//! either applies (appending one row) or is refused with a uniqueness
//! violation, mirroring the unique keys the schema declares (user id and
//! email, role id and name, one attachment per user-role pair).

use vstd::prelude::*;

use crate::error::Error;

verus! {

/// A user row. `password` holds the salted password hash, never the clear
/// text. Timestamps are unix seconds.
#[derive(Debug)]
pub struct User {
    pub id: String,
    pub email: String,
    pub password: String,
    pub name: String,
    pub phone_number: Option<String>,
    pub photo_url: Option<String>,
    pub created_at: i64,
    pub updated_at: i64,
    pub deleted_at: Option<i64>,
}

/// Mathematical value of a user row.
pub ghost struct UserView {
    pub id: Seq<char>,
    pub email: Seq<char>,
    pub password: Seq<char>,
    pub name: Seq<char>,
    pub phone_number: Option<Seq<char>>,
    pub photo_url: Option<Seq<char>>,
    pub created_at: int,
    pub updated_at: int,
    pub deleted_at: Option<int>,
}

impl View for User {
    type V = UserView;

    open spec fn view(&self) -> UserView {
        UserView {
            id: self.id@,
            email: self.email@,
            password: self.password@,
            name: self.name@,
            phone_number: match self.phone_number {
                Some(ref s) => Some(s@),
                None => None,
            },
            photo_url: match self.photo_url {
                Some(ref s) => Some(s@),
                None => None,
            },
            created_at: self.created_at as int,
            updated_at: self.updated_at as int,
            deleted_at: match self.deleted_at {
                Some(t) => Some(t as int),
                None => None,
            },
        }
    }
}

impl User {
    /// A value-preserving copy.
    pub fn duplicate(&self) -> (r: User)
        ensures
            r@ == self@,
    {
        User {
            id: self.id.clone(),
            email: self.email.clone(),
            password: self.password.clone(),
            name: self.name.clone(),
            phone_number: match &self.phone_number {
                Some(s) => Some(s.clone()),
                None => None,
            },
            photo_url: match &self.photo_url {
                Some(s) => Some(s.clone()),
                None => None,
            },
            created_at: self.created_at,
            updated_at: self.updated_at,
            deleted_at: match self.deleted_at {
                Some(t) => Some(t),
                None => None,
            },
        }
    }
}

/// A role row. Timestamps are unix seconds.
#[derive(Debug)]
pub struct Role {
    pub id: String,
    pub name: String,
    pub created_at: i64,
    pub updated_at: i64,
}

/// Mathematical value of a role row.
pub ghost struct RoleView {
    pub id: Seq<char>,
    pub name: Seq<char>,
    pub created_at: int,
    pub updated_at: int,
}

impl View for Role {
    type V = RoleView;

    open spec fn view(&self) -> RoleView {
        RoleView {
            id: self.id@,
            name: self.name@,
            created_at: self.created_at as int,
            updated_at: self.updated_at as int,
        }
    }
}

impl Role {
    /// A value-preserving copy.
    pub fn duplicate(&self) -> (r: Role)
        ensures
            r@ == self@,
    {
        Role {
            id: self.id.clone(),
            name: self.name.clone(),
            created_at: self.created_at,
            updated_at: self.updated_at,
        }
    }
}

/// One attachment of a role to a user.
#[derive(Debug)]
pub struct UserRole {
    pub user_id: String,
    pub role_id: String,
}

/// Mathematical value of an attachment row.
pub ghost struct UserRoleView {
    pub user_id: Seq<char>,
    pub role_id: Seq<char>,
}

impl View for UserRole {
    type V = UserRoleView;

    open spec fn view(&self) -> UserRoleView {
        UserRoleView { user_id: self.user_id@, role_id: self.role_id@ }
    }
}

/// The three relations of the credential store.
pub struct DbState {
    pub users: Vec<User>,
    pub roles: Vec<Role>,
    pub user_roles: Vec<UserRole>,
}

/// Mathematical value of the store: three row sequences in insertion order.
#[verifier::ext_equal]
pub ghost struct DbView {
    pub users: Seq<UserView>,
    pub roles: Seq<RoleView>,
    pub user_roles: Seq<UserRoleView>,
}

impl View for DbState {
    type V = DbView;

    open spec fn view(&self) -> DbView {
        DbView {
            users: self.users@.map(|i: int, u: User| u@),
            roles: self.roles@.map(|i: int, r: Role| r@),
            user_roles: self.user_roles@.map(|i: int, ur: UserRole| ur@),
        }
    }
}

impl DbState {
    /// An empty store.
    pub fn new() -> (r: DbState)
        ensures
            r@ == DbView::empty(),
    {
        let r = DbState { users: Vec::new(), roles: Vec::new(), user_roles: Vec::new() };
        proof {
            assert(r@.users =~= Seq::<UserView>::empty());
            assert(r@.roles =~= Seq::<RoleView>::empty());
            assert(r@.user_roles =~= Seq::<UserRoleView>::empty());
            assert(r@ =~= DbView::empty());
        }
        r
    }

    /// A value-preserving copy, row by row. The unit-of-work manager stages a
    /// transaction on such a copy of the committed state.
    pub fn duplicate(&self) -> (r: DbState)
        ensures
            r@ == self@,
    {
        let mut users: Vec<User> = Vec::new();
        let mut i: usize = 0;
        while i < self.users.len()
            invariant
                i <= self.users.len(),
                users@.len() == i as int,
                forall|j: int| 0 <= j < i ==> users@[j]@ == self.users@[j]@,
            decreases self.users.len() - i,
        {
            users.push(self.users[i].duplicate());
            i = i + 1;
        }
        let mut roles: Vec<Role> = Vec::new();
        let mut j: usize = 0;
        while j < self.roles.len()
            invariant
                j <= self.roles.len(),
                roles@.len() == j as int,
                forall|m: int| 0 <= m < j ==> roles@[m]@ == self.roles@[m]@,
            decreases self.roles.len() - j,
        {
            roles.push(self.roles[j].duplicate());
            j = j + 1;
        }
        let mut user_roles: Vec<UserRole> = Vec::new();
        let mut k: usize = 0;
        while k < self.user_roles.len()
            invariant
                k <= self.user_roles.len(),
                user_roles@.len() == k as int,
                forall|m: int| 0 <= m < k ==> user_roles@[m]@ == self.user_roles@[m]@,
            decreases self.user_roles.len() - k,
        {
            user_roles.push(UserRole {
                user_id: self.user_roles[k].user_id.clone(),
                role_id: self.user_roles[k].role_id.clone(),
            });
            k = k + 1;
        }
        let r = DbState { users, roles, user_roles };
        proof {
            assert(r@.users =~= self@.users);
            assert(r@.roles =~= self@.roles);
            assert(r@.user_roles =~= self@.user_roles);
            assert(r@ =~= self@);
        }
        r
    }
}

impl DbView {
    /// The view of a store with no rows.
    pub open spec fn empty() -> DbView {
        DbView {
            users: Seq::<UserView>::empty(),
            roles: Seq::<RoleView>::empty(),
            user_roles: Seq::<UserRoleView>::empty(),
        }
    }
}

/// The committed, durable store. Everything a transaction stages becomes
/// visible here only at commit.
pub struct Db {
    pub state: DbState,
}

impl View for Db {
    type V = DbView;

    open spec fn view(&self) -> DbView {
        self.state@
    }
}

impl Db {
    /// A store with no rows committed.
    pub fn new() -> (r: Db)
        ensures
            r@ == DbView::empty(),
    {
        Db { state: DbState::new() }
    }
}

/// One write against the store: the statement language of the repository
/// adapter.
pub enum Statement {
    /// Insert a user row; refused when the user id or the email is taken.
    InsertUser(User),
    /// Insert a role row; refused when the role id or the name is taken.
    InsertRole(Role),
    /// Attach a role to a user; refused when the pair is already attached.
    InsertUserRole(UserRole),
}

/// Mathematical value of a statement.
pub ghost enum StatementView {
    InsertUser(UserView),
    InsertRole(RoleView),
    InsertUserRole(UserRoleView),
}

impl View for Statement {
    type V = StatementView;

    open spec fn view(&self) -> StatementView {
        match self {
            Statement::InsertUser(u) => StatementView::InsertUser(u@),
            Statement::InsertRole(r) => StatementView::InsertRole(r@),
            Statement::InsertUserRole(ur) => StatementView::InsertUserRole(ur@),
        }
    }
}

/// First user row with the given id, scanning in insertion order.
pub open spec fn find_user_by_id(users: Seq<UserView>, id: Seq<char>) -> Option<UserView>
    decreases users.len(),
{
    if users.len() == 0 {
        None
    } else if users.first().id == id {
        Some(users.first())
    } else {
        find_user_by_id(users.drop_first(), id)
    }
}

/// First user row with the given email, scanning in insertion order.
pub open spec fn find_user_by_email(users: Seq<UserView>, email: Seq<char>) -> Option<UserView>
    decreases users.len(),
{
    if users.len() == 0 {
        None
    } else if users.first().email == email {
        Some(users.first())
    } else {
        find_user_by_email(users.drop_first(), email)
    }
}

/// First role row with the given id, scanning in insertion order.
pub open spec fn find_role_by_id(roles: Seq<RoleView>, id: Seq<char>) -> Option<RoleView>
    decreases roles.len(),
{
    if roles.len() == 0 {
        None
    } else if roles.first().id == id {
        Some(roles.first())
    } else {
        find_role_by_id(roles.drop_first(), id)
    }
}

/// First role row with the given name, scanning in insertion order.
pub open spec fn find_role_by_name(roles: Seq<RoleView>, name: Seq<char>) -> Option<RoleView>
    decreases roles.len(),
{
    if roles.len() == 0 {
        None
    } else if roles.first().name == name {
        Some(roles.first())
    } else {
        find_role_by_name(roles.drop_first(), name)
    }
}

/// Whether some user row carries the given email.
pub open spec fn has_user_email(d: DbView, email: Seq<char>) -> bool {
    find_user_by_email(d.users, email) is Some
}

/// Whether some user row carries the given id.
pub open spec fn has_user_id(d: DbView, id: Seq<char>) -> bool {
    find_user_by_id(d.users, id) is Some
}

/// Whether some role row carries the given name.
pub open spec fn has_role_name(d: DbView, name: Seq<char>) -> bool {
    find_role_by_name(d.roles, name) is Some
}

/// Whether some role row carries the given id.
pub open spec fn has_role_id(d: DbView, id: Seq<char>) -> bool {
    find_role_by_id(d.roles, id) is Some
}

/// Whether the role is already attached to the user.
pub open spec fn has_attachment(d: DbView, user_id: Seq<char>, role_id: Seq<char>) -> bool {
    exists|i: int|
        0 <= i < d.user_roles.len() && d.user_roles[i].user_id == user_id
            && d.user_roles[i].role_id == role_id
}

impl DbState {
    /// First user row with the given id.
    pub fn select_user_by_id(&self, id: &String) -> (r: Option<&User>)
        ensures
            r matches Some(u) ==> find_user_by_id(self@.users, id@) == Some(u@),
            r is None ==> find_user_by_id(self@.users, id@) is None,
    {
        let ghost target = self@.users;
        proof {
            assert(target.skip(0) =~= target);
        }
        let mut i: usize = 0;
        while i < self.users.len()
            invariant
                i <= self.users.len(),
                target == self@.users,
                find_user_by_id(target, id@) == find_user_by_id(target.skip(i as int), id@),
            decreases self.users.len() - i,
        {
            proof {
                assert(target.skip(i as int).first() == target[i as int]);
                assert(target.skip(i as int).drop_first() =~= target.skip(i as int + 1));
            }
            if self.users[i].id == *id {
                return Some(&self.users[i]);
            }
            i = i + 1;
        }
        proof {
            assert(target.skip(i as int) =~= Seq::<UserView>::empty());
        }
        None
    }

    /// First user row with the given email.
    pub fn select_user_by_email(&self, email: &String) -> (r: Option<&User>)
        ensures
            r matches Some(u) ==> find_user_by_email(self@.users, email@) == Some(u@),
            r is None ==> find_user_by_email(self@.users, email@) is None,
    {
        let ghost target = self@.users;
        proof {
            assert(target.skip(0) =~= target);
        }
        let mut i: usize = 0;
        while i < self.users.len()
            invariant
                i <= self.users.len(),
                target == self@.users,
                find_user_by_email(target, email@) == find_user_by_email(
                    target.skip(i as int),
                    email@,
                ),
            decreases self.users.len() - i,
        {
            proof {
                assert(target.skip(i as int).first() == target[i as int]);
                assert(target.skip(i as int).drop_first() =~= target.skip(i as int + 1));
            }
            if self.users[i].email == *email {
                return Some(&self.users[i]);
            }
            i = i + 1;
        }
        proof {
            assert(target.skip(i as int) =~= Seq::<UserView>::empty());
        }
        None
    }

    /// First role row with the given id.
    pub fn select_role_by_id(&self, id: &String) -> (r: Option<&Role>)
        ensures
            r matches Some(role) ==> find_role_by_id(self@.roles, id@) == Some(role@),
            r is None ==> find_role_by_id(self@.roles, id@) is None,
    {
        let ghost target = self@.roles;
        proof {
            assert(target.skip(0) =~= target);
        }
        let mut i: usize = 0;
        while i < self.roles.len()
            invariant
                i <= self.roles.len(),
                target == self@.roles,
                find_role_by_id(target, id@) == find_role_by_id(target.skip(i as int), id@),
            decreases self.roles.len() - i,
        {
            proof {
                assert(target.skip(i as int).first() == target[i as int]);
                assert(target.skip(i as int).drop_first() =~= target.skip(i as int + 1));
            }
            if self.roles[i].id == *id {
                return Some(&self.roles[i]);
            }
            i = i + 1;
        }
        proof {
            assert(target.skip(i as int) =~= Seq::<RoleView>::empty());
        }
        None
    }

    /// First role row with the given name.
    pub fn select_role_by_name(&self, name: &String) -> (r: Option<&Role>)
        ensures
            r matches Some(role) ==> find_role_by_name(self@.roles, name@) == Some(role@),
            r is None ==> find_role_by_name(self@.roles, name@) is None,
    {
        let ghost target = self@.roles;
        proof {
            assert(target.skip(0) =~= target);
        }
        let mut i: usize = 0;
        while i < self.roles.len()
            invariant
                i <= self.roles.len(),
                target == self@.roles,
                find_role_by_name(target, name@) == find_role_by_name(target.skip(i as int), name@),
            decreases self.roles.len() - i,
        {
            proof {
                assert(target.skip(i as int).first() == target[i as int]);
                assert(target.skip(i as int).drop_first() =~= target.skip(i as int + 1));
            }
            if self.roles[i].name == *name {
                return Some(&self.roles[i]);
            }
            i = i + 1;
        }
        proof {
            assert(target.skip(i as int) =~= Seq::<RoleView>::empty());
        }
        None
    }

    /// Whether the role is already attached to the user.
    pub fn select_attachment(&self, user_id: &String, role_id: &String) -> (r: bool)
        ensures
            r == has_attachment(self@, user_id@, role_id@),
    {
        let mut i: usize = 0;
        while i < self.user_roles.len()
            invariant
                i <= self.user_roles.len(),
                forall|j: int|
                    0 <= j < i ==> !(self@.user_roles[j].user_id == user_id@
                        && self@.user_roles[j].role_id == role_id@),
            decreases self.user_roles.len() - i,
        {
            if self.user_roles[i].user_id == *user_id && self.user_roles[i].role_id == *role_id {
                proof {
                    assert(self@.user_roles[i as int].user_id == user_id@);
                    assert(self@.user_roles[i as int].role_id == role_id@);
                }
                return true;
            }
            i = i + 1;
        }
        false
    }

    /// Every role row, in insertion order.
    pub fn select_all_roles(&self) -> (r: Vec<Role>)
        ensures
            r@.len() == self@.roles.len(),
            forall|j: int| 0 <= j < r@.len() ==> r@[j]@ == self@.roles[j],
    {
        let mut out: Vec<Role> = Vec::new();
        let mut i: usize = 0;
        while i < self.roles.len()
            invariant
                i <= self.roles.len(),
                out@.len() == i as int,
                forall|j: int| 0 <= j < i ==> out@[j]@ == self@.roles[j],
            decreases self.roles.len() - i,
        {
            out.push(self.roles[i].duplicate());
            i = i + 1;
        }
        out
    }

    /// Runs one statement against this state: the row is appended, or the
    /// statement is refused as a uniqueness violation — surfaced the way a
    /// driver error is, as `Internal` — and the state is left unchanged.
    pub fn apply(&mut self, stmt: &Statement) -> (r: Result<(), Error>)
        ensures
            r is Ok <==> statement_ok(old(self)@, stmt@),
            r is Ok ==> final(self)@ == statement_apply(old(self)@, stmt@),
            r matches Err(e) ==> final(self)@ == old(self)@ && (e matches Error::Internal(m)
                && m@ == "duplicate key"@),
    {
        match stmt {
            Statement::InsertUser(u) => {
                if self.select_user_by_id(&u.id).is_some()
                    || self.select_user_by_email(&u.email).is_some() {
                    return Err(Error::Internal(duplicate_key_message()));
                }
                self.users.push(u.duplicate());
                proof {
                    assert(self@ =~= statement_apply(old(self)@, stmt@));
                }
                Ok(())
            }
            Statement::InsertRole(role) => {
                if self.select_role_by_id(&role.id).is_some()
                    || self.select_role_by_name(&role.name).is_some() {
                    return Err(Error::Internal(duplicate_key_message()));
                }
                self.roles.push(role.duplicate());
                proof {
                    assert(self@ =~= statement_apply(old(self)@, stmt@));
                }
                Ok(())
            }
            Statement::InsertUserRole(ur) => {
                if self.select_attachment(&ur.user_id, &ur.role_id) {
                    return Err(Error::Internal(duplicate_key_message()));
                }
                self.user_roles.push(UserRole {
                    user_id: ur.user_id.clone(),
                    role_id: ur.role_id.clone(),
                });
                proof {
                    assert(self@ =~= statement_apply(old(self)@, stmt@));
                }
                Ok(())
            }
        }
    }
}

/// The message a refused statement carries, in place of a driver's
/// duplicate-entry report.
fn duplicate_key_message() -> (r: String)
    ensures
        r@ == "duplicate key"@,
{
    let r: String = "duplicate key".to_string();
    r
}

/// A found user row carries the id it was found by.
pub proof fn lemma_find_user_by_id_key(users: Seq<UserView>, id: Seq<char>)
    requires
        find_user_by_id(users, id) is Some,
    ensures
        find_user_by_id(users, id)->Some_0.id == id,
    decreases users.len(),
{
    if users.len() > 0 && users.first().id != id {
        lemma_find_user_by_id_key(users.drop_first(), id);
    }
}

/// A found user row carries the email it was found by.
pub proof fn lemma_find_user_by_email_key(users: Seq<UserView>, email: Seq<char>)
    requires
        find_user_by_email(users, email) is Some,
    ensures
        find_user_by_email(users, email)->Some_0.email == email,
    decreases users.len(),
{
    if users.len() > 0 && users.first().email != email {
        lemma_find_user_by_email_key(users.drop_first(), email);
    }
}

/// A found role row carries the name it was found by.
pub proof fn lemma_find_role_by_name_key(roles: Seq<RoleView>, name: Seq<char>)
    requires
        find_role_by_name(roles, name) is Some,
    ensures
        find_role_by_name(roles, name)->Some_0.name == name,
    decreases roles.len(),
{
    if roles.len() > 0 && roles.first().name != name {
        lemma_find_role_by_name_key(roles.drop_first(), name);
    }
}

/// The name of the default role attached at sign-up.
pub const ROLE_USER: &'static str = "USER";

/// Whether a statement applies to the given state: the unique keys of the
/// schema admit the new row.
pub open spec fn statement_ok(d: DbView, s: StatementView) -> bool {
    match s {
        StatementView::InsertUser(u) => !has_user_id(d, u.id) && !has_user_email(d, u.email),
        StatementView::InsertRole(r) => !has_role_id(d, r.id) && !has_role_name(d, r.name),
        StatementView::InsertUserRole(ur) => !has_attachment(d, ur.user_id, ur.role_id),
    }
}

/// The state after a statement that applies: the one new row appended.
pub open spec fn statement_apply(d: DbView, s: StatementView) -> DbView {
    match s {
        StatementView::InsertUser(u) => DbView { users: d.users.push(u), ..d },
        StatementView::InsertRole(r) => DbView { roles: d.roles.push(r), ..d },
        StatementView::InsertUserRole(ur) => DbView { user_roles: d.user_roles.push(ur), ..d },
    }
}

} // verus!
