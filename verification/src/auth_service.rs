//! The authentication service: sign-in, sign-up, sign-out and token refresh.
//!
//! Sign-up is the one flow that spans several writes — insert the user row,
//! attach the default role — and therefore runs as a unit of work: either
//! both rows are committed together, or the committed store is left exactly
//! as it was, whichever step failed. The cache takes no part in the
//! transaction, exactly as a remote cache would not; its only write happens
//! when a token pair is issued, after every store write has applied.

use vstd::prelude::*;

use vstd::string::StringExecFns;

use crate::auth_model::{AuthResponse, AuthResponseView, RefreshTokenRequest, SignInRequest, SignUpRequest};
use crate::cache::{CacheStore, CacheValue, CacheValueView};
use crate::config::Config;
use crate::context::Ctx;
use crate::crypto::{bcrypt_hash, bcrypt_matches, bcrypt_verify};
use crate::error::Error;
use crate::identity::get_current_identity;
use crate::repository::{effective_view, RoleRepository, UserRepository};
use crate::store::{
    find_role_by_name, find_user_by_email, find_user_by_id, has_attachment, has_role_name,
    has_user_email, has_user_id, lemma_find_role_by_name_key, lemma_find_user_by_id_key, Db,
    DbView, User, UserRoleView, UserView, ROLE_USER,
};
use crate::token::{
    claim_from_payload, jwt_decode_hs256, jwt_encode_hs256, jwt_token_of, now_timestamp, Claim,
    TokenError,
};
use crate::uow::{complete_unit_of_work, TransactionManager, Uow};
use crate::validate::{refresh_request_valid, sign_in_request_valid, sign_up_request_valid};

verus! {

/// The cache key under which a user's refresh token is held for revocation.
pub open spec fn refresh_key_view(user_id: Seq<char>) -> Seq<char> {
    "auth:refresh-token:"@ + user_id
}

/// Builds the refresh-token cache key for a user id.
pub fn refresh_token_key(user_id: &String) -> (r: String)
    ensures
        r@ == refresh_key_view(user_id@),
{
    let mut key = String::from_str("auth:refresh-token:");
    key.append(user_id.as_str());
    key
}

/// What a freshly issued token pair looks like: the response carries the
/// user's id and email, and each token is the HS256 signature of that
/// subject under the respective secret, expiring one configured lifetime
/// after `now`.
pub open spec fn tokens_of(cfg: Config, u: UserView, now: int, a: AuthResponseView) -> bool {
    &&& a.user_id == u.id
    &&& a.email == u.email
    &&& a.access_token == jwt_token_of(
        cfg.access_token_key_secret@,
        u.id,
        u.email,
        now + cfg.access_token_key_ttl as int,
        now,
    )
    &&& a.refresh_token == jwt_token_of(
        cfg.refresh_token_key_secret@,
        u.id,
        u.email,
        now + cfg.refresh_token_key_ttl as int,
        now,
    )
}

/// The user row sign-up inserts: fresh id, the requested email and name, the
/// password hash, both timestamps at `now`, everything else empty.
pub open spec fn signed_up_user(
    id: Seq<char>,
    email: Seq<char>,
    name: Seq<char>,
    hash: Seq<char>,
    now: int,
) -> UserView {
    UserView {
        id,
        email,
        password: hash,
        name,
        phone_number: None,
        photo_url: None,
        created_at: now,
        updated_at: now,
        deleted_at: None,
    }
}

/// Both token lifetimes added to `now` stay within the timestamp type.
pub open spec fn token_expiries_fit(cfg: Config, now: int) -> bool {
    &&& i64::MIN <= now + cfg.access_token_key_ttl as int <= i64::MAX
    &&& i64::MIN <= now + cfg.refresh_token_key_ttl as int <= i64::MAX
}

/// The authentication service.
pub struct Service {
    pub config: Config,
    pub uow: TransactionManager,
    pub user_repo: UserRepository,
    pub role_repo: RoleRepository,
}

impl Service {
    pub fn new(config: Config) -> (r: Service)
        ensures
            r.config == config,
    {
        Service {
            config,
            uow: TransactionManager::new(),
            user_repo: UserRepository::new(),
            role_repo: RoleRepository::new(),
        }
    }

    /// Signs one claim: the token for this subject, email and timestamps
    /// under the given secret.
    fn create_token(&self, key: &str, user_id: &str, email: &str, exp: i64, iat: i64) -> (r:
        Result<String, Error>)
        ensures
            r matches Ok(t) ==> t@ == jwt_token_of(key@, user_id@, email@, exp as int, iat as int),
            r matches Err(e) ==> e is Internal,
    {
        match jwt_encode_hs256(key, user_id, email, exp, iat) {
            Ok(t) => Ok(t),
            Err(m) => Err(Error::Internal(m)),
        }
    }

    /// Issues an access and a refresh token for the user at time `now`, and
    /// caches the refresh token under the user's revocation key with the
    /// refresh lifetime. On any failure the cache is untouched.
    pub fn issue_tokens_at(&self, cache: &mut CacheStore, user: &User, now: i64) -> (r: Result<
        AuthResponse,
        Error,
    >)
        requires
            old(cache).wf(),
            token_expiries_fit(self.config, now as int),
        ensures
            final(cache).wf(),
            final(cache).spec_default_ttl() == old(cache).spec_default_ttl(),
            r matches Ok(a) ==> tokens_of(self.config, user@, now as int, a@) && final(cache)@
                == old(cache)@.insert(
                refresh_key_view(user@.id),
                (CacheValueView::Text(a@.refresh_token), self.config.refresh_token_key_ttl as int),
            ),
            r matches Err(e) ==> e is Internal && final(cache)@ == old(cache)@,
    {
        let access_token = self.create_token(
            self.config.access_token_key_secret.as_str(),
            user.id.as_str(),
            user.email.as_str(),
            now + self.config.access_token_key_ttl,
            now,
        )?;
        let refresh_token = self.create_token(
            self.config.refresh_token_key_secret.as_str(),
            user.id.as_str(),
            user.email.as_str(),
            now + self.config.refresh_token_key_ttl,
            now,
        )?;
        let key = refresh_token_key(&user.id);
        cache.setx(
            key,
            CacheValue::Text(refresh_token.clone()),
            self.config.refresh_token_key_ttl,
        )?;
        Ok(
            AuthResponse {
                user_id: user.id.clone(),
                email: user.email.clone(),
                access_token,
                refresh_token,
            },
        )
    }

    /// Issues a token pair at the clock's current reading.
    pub fn issue_tokens(&self, cache: &mut CacheStore, user: &User) -> (r: Result<
        AuthResponse,
        Error,
    >)
        requires
            old(cache).wf(),
        ensures
            final(cache).wf(),
            final(cache).spec_default_ttl() == old(cache).spec_default_ttl(),
            r matches Ok(a) ==> (exists|now: int| #[trigger] tokens_of(
                self.config,
                user@,
                now,
                a@,
            )) && final(cache)@ == old(cache)@.insert(
                refresh_key_view(user@.id),
                (CacheValueView::Text(a@.refresh_token), self.config.refresh_token_key_ttl as int),
            ),
            r matches Err(e) ==> e is Internal && final(cache)@ == old(cache)@,
    {
        let now = now_timestamp();
        if now.checked_add(self.config.access_token_key_ttl).is_none()
            || now.checked_add(self.config.refresh_token_key_ttl).is_none() {
            return Err(Error::Internal(expiry_overflow_message()));
        }
        self.issue_tokens_at(cache, user, now)
    }

    /// Signs a caller in: the request must validate, the email must belong
    /// to a user, and the password must match that user's hash; then a fresh
    /// token pair is issued. The store is never written.
    pub fn sign_in(&self, ctx: &Ctx, db: &Db, cache: &mut CacheStore, req: &SignInRequest) -> (r:
        Result<AuthResponse, Error>)
        requires
            old(cache).wf(),
        ensures
            final(cache).wf(),
            final(cache).spec_default_ttl() == old(cache).spec_default_ttl(),
            r is Err ==> final(cache)@ == old(cache)@,
            !sign_in_request_valid(req.email@, req.password@) ==> (r matches Err(e) && e
                is BadRequest),
            sign_in_request_valid(req.email@, req.password@) && find_user_by_email(
                effective_view(ctx@, db@).users,
                req.email@,
            ) is None ==> (r matches Err(e) && (e matches Error::NotFound(m) && m@ == "User with email "@
                + req.email@ + " is not found"@)),
            (sign_in_request_valid(req.email@, req.password@) && (find_user_by_email(
                effective_view(ctx@, db@).users,
                req.email@,
            ) matches Some(u) && !bcrypt_matches(req.password@, u.password))) ==> (r matches Err(e)
                && (e is BadRequest || e is Internal)),
            (sign_in_request_valid(req.email@, req.password@) && (find_user_by_email(
                effective_view(ctx@, db@).users,
                req.email@,
            ) matches Some(u) && bcrypt_matches(req.password@, u.password))) ==> (r is Ok || (r
                matches Err(e) && e is Internal)),
            r matches Ok(a) ==> ({
                let found = find_user_by_email(effective_view(ctx@, db@).users, req.email@);
                &&& sign_in_request_valid(req.email@, req.password@)
                &&& found is Some
                &&& bcrypt_matches(req.password@, found->Some_0.password)
                &&& (exists|now: int| #[trigger] tokens_of(self.config, found->Some_0, now, a@))
                &&& final(cache)@ == old(cache)@.insert(
                    refresh_key_view(found->Some_0.id),
                    (
                        CacheValueView::Text(a@.refresh_token),
                        self.config.refresh_token_key_ttl as int,
                    ),
                )
            }),
    {
        req.validate()?;
        let found = self.user_repo.find_by_email(ctx, db, &req.email)?;
        let user = match found {
            Some(user) => user,
            None => {
                return Err(Error::NotFound(user_not_found_by_email_message(&req.email)));
            },
        };
        let is_matching = match bcrypt_verify(req.password.as_str(), user.password.as_str()) {
            Ok(b) => b,
            Err(m) => {
                return Err(Error::Internal(m));
            },
        };
        if !is_matching {
            let m: String = "Password doesn't match".to_string();
            return Err(Error::BadRequest(m));
        }
        self.issue_tokens(cache, &user)
    }

    /// Signs a caller up, as one unit of work: insert the user row, attach
    /// the default role, issue the first token pair. The caller supplies the
    /// fresh row id and the clock reading.
    ///
    /// Either the run succeeds and both rows are committed together, or the
    /// committed store is left exactly as it was: a taken email is refused
    /// as `Conflict` before anything is written, and a missing default role
    /// rolls the already-staged user row back and surfaces `NotFound`, so no
    /// orphan user row remains.
    pub fn sign_up(
        &self,
        ctx: &mut Ctx,
        db: &mut Db,
        cache: &mut CacheStore,
        req: &SignUpRequest,
        new_user_id: String,
        now: i64,
    ) -> (r: Result<AuthResponse, Error>)
        requires
            old(ctx)@.tx is None,
            old(cache).wf(),
            token_expiries_fit(self.config, now as int),
        ensures
            final(ctx)@.tx is None,
            final(ctx)@.identity == old(ctx)@.identity,
            final(cache).wf(),
            final(cache).spec_default_ttl() == old(cache).spec_default_ttl(),
            r is Err ==> final(db)@ == old(db)@ && final(cache)@ == old(cache)@,
            !sign_up_request_valid(req.name@, req.email@, req.password@) ==> (r matches Err(e) && e
                is BadRequest),
            sign_up_request_valid(req.name@, req.email@, req.password@) && has_user_email(
                old(db)@,
                req.email@,
            ) ==> (r matches Err(e) && (e matches Error::Conflict(m) && m@ == "Email "@ + req.email@
                + " already exists"@)),
            (sign_up_request_valid(req.name@, req.email@, req.password@) && !has_user_email(
                old(db)@,
                req.email@,
            ) && !has_user_id(old(db)@, new_user_id@) && !has_role_name(old(db)@, ROLE_USER@))
                ==> (r matches Err(e) && (e is NotFound || e is Internal)),
            (sign_up_request_valid(req.name@, req.email@, req.password@) && !has_user_email(
                old(db)@,
                req.email@,
            ) && !has_user_id(old(db)@, new_user_id@) && (find_role_by_name(
                old(db)@.roles,
                ROLE_USER@,
            ) matches Some(role) && !has_attachment(old(db)@, new_user_id@, role.id))) ==> (r is Ok
                || (r matches Err(e) && e is Internal)),
            r matches Ok(a) ==> (exists|hash: Seq<char>|
                {
                    let u = signed_up_user(new_user_id@, req.email@, req.name@, hash, now as int);
                    let role = find_role_by_name(old(db)@.roles, ROLE_USER@);
                    &&& #[trigger] bcrypt_matches(req.password@, hash)
                    &&& sign_up_request_valid(req.name@, req.email@, req.password@)
                    &&& role is Some
                    &&& final(db)@ == (DbView {
                        users: old(db)@.users.push(u),
                        roles: old(db)@.roles,
                        user_roles: old(db)@.user_roles.push(
                            UserRoleView { user_id: new_user_id@, role_id: role->Some_0.id },
                        ),
                    })
                    &&& tokens_of(self.config, u, now as int, a@)
                    &&& final(cache)@ == old(cache)@.insert(
                        refresh_key_view(new_user_id@),
                        (
                            CacheValueView::Text(a@.refresh_token),
                            self.config.refresh_token_key_ttl as int,
                        ),
                    )
                }),
    {
        if let Err(e) = self.uow.begin(ctx, db) {
            return Err(e);
        }
        let outcome = self.sign_up_in_transaction(ctx, db, cache, req, new_user_id, now);
        complete_unit_of_work(&self.uow, ctx, db, outcome)
    }

    /// The body sign-up runs inside its transaction: every write lands in
    /// the staged state, never in the committed store.
    fn sign_up_in_transaction(
        &self,
        ctx: &mut Ctx,
        db: &mut Db,
        cache: &mut CacheStore,
        req: &SignUpRequest,
        new_user_id: String,
        now: i64,
    ) -> (r: Result<AuthResponse, Error>)
        requires
            old(ctx)@.tx is Some,
            old(cache).wf(),
            token_expiries_fit(self.config, now as int),
        ensures
            final(db)@ == old(db)@,
            final(ctx)@.tx is Some,
            final(ctx)@.identity == old(ctx)@.identity,
            final(cache).wf(),
            final(cache).spec_default_ttl() == old(cache).spec_default_ttl(),
            r is Err ==> final(cache)@ == old(cache)@,
            !sign_up_request_valid(req.name@, req.email@, req.password@) ==> (r matches Err(e) && e
                is BadRequest),
            sign_up_request_valid(req.name@, req.email@, req.password@) && has_user_email(
                old(ctx)@.tx->Some_0,
                req.email@,
            ) ==> (r matches Err(e) && (e matches Error::Conflict(m) && m@ == "Email "@ + req.email@
                + " already exists"@)),
            (sign_up_request_valid(req.name@, req.email@, req.password@) && !has_user_email(
                old(ctx)@.tx->Some_0,
                req.email@,
            ) && !has_user_id(old(ctx)@.tx->Some_0, new_user_id@) && !has_role_name(
                old(ctx)@.tx->Some_0,
                ROLE_USER@,
            )) ==> (r matches Err(e) && (e is NotFound || e is Internal)),
            (sign_up_request_valid(req.name@, req.email@, req.password@) && !has_user_email(
                old(ctx)@.tx->Some_0,
                req.email@,
            ) && !has_user_id(old(ctx)@.tx->Some_0, new_user_id@) && (find_role_by_name(
                old(ctx)@.tx->Some_0.roles,
                ROLE_USER@,
            ) matches Some(role) && !has_attachment(old(ctx)@.tx->Some_0, new_user_id@, role.id)))
                ==> (r is Ok || (r matches Err(e) && e is Internal)),
            r matches Ok(a) ==> (exists|hash: Seq<char>|
                {
                    let d0 = old(ctx)@.tx->Some_0;
                    let u = signed_up_user(new_user_id@, req.email@, req.name@, hash, now as int);
                    let role = find_role_by_name(d0.roles, ROLE_USER@);
                    &&& #[trigger] bcrypt_matches(req.password@, hash)
                    &&& sign_up_request_valid(req.name@, req.email@, req.password@)
                    &&& role is Some
                    &&& final(ctx)@.tx == Some(
                        DbView {
                            users: d0.users.push(u),
                            roles: d0.roles,
                            user_roles: d0.user_roles.push(
                                UserRoleView { user_id: new_user_id@, role_id: role->Some_0.id },
                            ),
                        },
                    )
                    &&& tokens_of(self.config, u, now as int, a@)
                    &&& final(cache)@ == old(cache)@.insert(
                        refresh_key_view(new_user_id@),
                        (
                            CacheValueView::Text(a@.refresh_token),
                            self.config.refresh_token_key_ttl as int,
                        ),
                    )
                }),
    {
        req.validate()?;
        let is_present = self.user_repo.exists_by_email(ctx, db, &req.email)?;
        if is_present {
            return Err(Error::Conflict(email_exists_message(&req.email)));
        }
        let password = match bcrypt_hash(req.password.as_str(), 10) {
            Ok(h) => h,
            Err(m) => {
                return Err(Error::Internal(m));
            },
        };
        let user = User {
            id: new_user_id,
            email: req.email.clone(),
            password,
            name: req.name.clone(),
            phone_number: None,
            photo_url: None,
            created_at: now,
            updated_at: now,
            deleted_at: None,
        };
        self.user_repo.create(ctx, db, &user)?;
        let role = match self.role_repo.find_by_name(ctx, db, &role_user_name())? {
            Some(role) => role,
            None => {
                return Err(Error::NotFound(role_missing_message()));
            },
        };
        proof {
            lemma_find_role_by_name_key(effective_view(old(ctx)@, old(db)@).roles, ROLE_USER@);
        }
        self.role_repo.add(ctx, db, &user.id, &role.id)?;
        self.issue_tokens_at(cache, &user, now)
    }

    /// Signs the current caller out by deleting their cached refresh token;
    /// outside an authenticated scope this is an authorization failure and
    /// the cache is untouched. A refresh attempt after sign-out finds no
    /// cached token and fails with `NotFound`.
    pub fn sign_out(&self, ctx: &Ctx, cache: &mut CacheStore) -> (r: Result<(), Error>)
        requires
            old(cache).wf(),
        ensures
            final(cache).wf(),
            final(cache).spec_default_ttl() == old(cache).spec_default_ttl(),
            ctx@.identity is None ==> (r matches Err(e) && e is Forbidden) && final(cache)@ == old(
                cache,
            )@,
            ctx@.identity matches Some(id) ==> (r is Ok && final(cache)@ == old(cache)@.remove(
                refresh_key_view(id.user_id),
            )),
    {
        let identity = get_current_identity(ctx)?;
        let key = refresh_token_key(&identity.user_id);
        cache.del(key)
    }

    /// Refreshes a token pair from a verified refresh claim: the presented
    /// token must equal the cached token for the claim's subject — a token
    /// that does not match is refused as `BadRequest` even though its
    /// signature verified, an absent cache entry (after sign-out, or past
    /// its expiry) as `NotFound` — and the subject must still exist.
    pub fn refresh_with_claim(
        &self,
        ctx: &Ctx,
        db: &Db,
        cache: &mut CacheStore,
        claim: &Claim,
        presented: &String,
        now: i64,
    ) -> (r: Result<AuthResponse, Error>)
        requires
            old(cache).wf(),
            token_expiries_fit(self.config, now as int),
        ensures
            final(cache).wf(),
            final(cache).spec_default_ttl() == old(cache).spec_default_ttl(),
            r is Err ==> final(cache)@ == old(cache)@,
            !old(cache)@.contains_key(refresh_key_view(claim.sub@)) ==> (r matches Err(e) && (e
                matches Error::NotFound(m) && m@ == "Token is not found"@)),
            (old(cache)@.contains_key(refresh_key_view(claim.sub@)) && (old(cache)@[refresh_key_view(
                claim.sub@,
            )].0 matches CacheValueView::Text(t) && t != presented@)) ==> (r matches Err(e) && (e
                matches Error::BadRequest(m) && m@ == "Token doesn't match"@)),
            (old(cache)@.contains_key(refresh_key_view(claim.sub@)) && old(cache)@[refresh_key_view(
                claim.sub@,
            )].0 == CacheValueView::Text(presented@) && find_user_by_id(
                effective_view(ctx@, db@).users,
                claim.sub@,
            ) is None) ==> (r matches Err(e) && (e matches Error::NotFound(m) && m@
                == "User not found"@)),
            (old(cache)@.contains_key(refresh_key_view(claim.sub@)) && old(cache)@[refresh_key_view(
                claim.sub@,
            )].0 == CacheValueView::Text(presented@) && find_user_by_id(
                effective_view(ctx@, db@).users,
                claim.sub@,
            ) is Some) ==> (r is Ok || (r matches Err(e) && e is Internal)),
            r matches Ok(a) ==> ({
                let found = find_user_by_id(effective_view(ctx@, db@).users, claim.sub@);
                &&& old(cache)@.contains_key(refresh_key_view(claim.sub@))
                &&& old(cache)@[refresh_key_view(claim.sub@)].0 == CacheValueView::Text(presented@)
                &&& found is Some
                &&& tokens_of(self.config, found->Some_0, now as int, a@)
                &&& final(cache)@ == old(cache)@.insert(
                    refresh_key_view(claim.sub@),
                    (
                        CacheValueView::Text(a@.refresh_token),
                        self.config.refresh_token_key_ttl as int,
                    ),
                )
            }),
    {
        let key = refresh_token_key(&claim.sub);
        match cache.get_text(&key)? {
            Some(token) => {
                if !(token == *presented) {
                    let m: String = "Token doesn't match".to_string();
                    return Err(Error::BadRequest(m));
                }
                let found = self.user_repo.find_by_id(ctx, db, &claim.sub)?;
                let user = match found {
                    Some(user) => user,
                    None => {
                        let m: String = "User not found".to_string();
                        return Err(Error::NotFound(m));
                    },
                };
                proof {
                    lemma_find_user_by_id_key(effective_view(ctx@, db@).users, claim.sub@);
                }
                self.issue_tokens_at(cache, &user, now)
            },
            None => {
                let m: String = "Token is not found".to_string();
                Err(Error::NotFound(m))
            },
        }
    }

    /// Refreshes a token pair from a presented refresh token: the request
    /// must carry a token, the token's signature and expiry must verify, and
    /// then [`Self::refresh_with_claim`] decides against the cache and the
    /// store at the clock's current reading.
    pub fn refresh(
        &self,
        ctx: &Ctx,
        db: &Db,
        cache: &mut CacheStore,
        req: &RefreshTokenRequest,
    ) -> (r: Result<AuthResponse, Error>)
        requires
            old(cache).wf(),
        ensures
            final(cache).wf(),
            final(cache).spec_default_ttl() == old(cache).spec_default_ttl(),
            r is Err ==> final(cache)@ == old(cache)@,
            !refresh_request_valid(req.refresh_token@) ==> (r matches Err(e) && (e
                matches Error::BadRequest(m) && m@ == "Token is required"@)),
    {
        req.validate()?;
        let claim = self.verify_refresh_token(req.refresh_token.as_str())?;
        let now = now_timestamp();
        if now.checked_add(self.config.access_token_key_ttl).is_none()
            || now.checked_add(self.config.refresh_token_key_ttl).is_none() {
            return Err(Error::Internal(expiry_overflow_message()));
        }
        self.refresh_with_claim(ctx, db, cache, &claim, &req.refresh_token, now)
    }

    /// Verifies an access token against the access secret and classifies
    /// the failure: expiry is an authentication failure, a bad signature a
    /// bad request, anything else internal.
    pub fn verify_access_token(&self, token: &str) -> (r: Result<Claim, Error>)
        ensures
            r matches Err(e) ==> e is Unauthorized || e is BadRequest || e is Internal,
    {
        match jwt_decode_hs256(self.config.access_token_key_secret.as_str(), token) {
            Ok(payload) => claim_from_payload(&payload),
            Err(te) => Err(access_token_error(te)),
        }
    }

    /// Verifies a refresh token against the refresh secret and classifies
    /// the failure: here an expired token is a bad request, like a bad
    /// signature.
    pub fn verify_refresh_token(&self, token: &str) -> (r: Result<Claim, Error>)
        ensures
            r matches Err(e) ==> e is BadRequest || e is Internal,
    {
        match jwt_decode_hs256(self.config.refresh_token_key_secret.as_str(), token) {
            Ok(payload) => claim_from_payload(&payload),
            Err(te) => Err(refresh_token_error(te)),
        }
    }
}

/// A refresh that follows a sign-out must fail with `NotFound`: sign-out
/// leaves the cache without the subject's refresh-token entry — exactly
/// [`Service::sign_out`]'s postcondition — and [`Service::refresh_with_claim`]
/// refuses a subject with no cached entry as `NotFound`, whatever token the
/// attempt presents.
pub proof fn lemma_refresh_after_sign_out(
    before: Map<Seq<char>, (CacheValueView, int)>,
    sub: Seq<char>,
)
    ensures
        !before.remove(refresh_key_view(sub)).contains_key(refresh_key_view(sub)),
{
}

/// How access-token verification failures surface: expiry means the caller
/// must refresh (`Unauthorized`), a wrong signature is a malformed request,
/// all else is internal.
pub fn access_token_error(e: TokenError) -> (r: Error)
    ensures
        e is Expired ==> (r matches Error::Unauthorized(m) && m@ == "Token is expired"@),
        e is Invalid ==> (r matches Error::BadRequest(m) && m@ == "Token is not valid"@),
        e matches TokenError::Other(msg) ==> (r matches Error::Internal(m) && m@ == msg@),
{
    match e {
        TokenError::Expired => {
            let m: String = "Token is expired".to_string();
            Error::Unauthorized(m)
        },
        TokenError::Invalid => {
            let m: String = "Token is not valid".to_string();
            Error::BadRequest(m)
        },
        TokenError::Other(msg) => Error::Internal(msg),
    }
}

/// How refresh-token verification failures surface: an expired or forged
/// refresh token is a bad request either way, all else is internal.
pub fn refresh_token_error(e: TokenError) -> (r: Error)
    ensures
        e is Expired ==> (r matches Error::BadRequest(m) && m@ == "Token is expired"@),
        e is Invalid ==> (r matches Error::BadRequest(m) && m@ == "Token is not valid"@),
        e matches TokenError::Other(msg) ==> (r matches Error::Internal(m) && m@ == msg@),
{
    match e {
        TokenError::Expired => {
            let m: String = "Token is expired".to_string();
            Error::BadRequest(m)
        },
        TokenError::Invalid => {
            let m: String = "Token is not valid".to_string();
            Error::BadRequest(m)
        },
        TokenError::Other(msg) => Error::Internal(msg),
    }
}

/// The default role's name, as a lookup key.
fn role_user_name() -> (r: String)
    ensures
        r@ == ROLE_USER@,
{
    String::from_str(ROLE_USER)
}

fn user_not_found_by_email_message(email: &String) -> (r: String)
    ensures
        r@ == "User with email "@ + email@ + " is not found"@,
{
    let mut m = String::from_str("User with email ");
    m.append(email.as_str());
    m.append(" is not found");
    m
}

fn email_exists_message(email: &String) -> (r: String)
    ensures
        r@ == "Email "@ + email@ + " already exists"@,
{
    let mut m = String::from_str("Email ");
    m.append(email.as_str());
    m.append(" already exists");
    m
}

fn role_missing_message() -> (r: String)
    ensures
        r@ == "Role "@ + ROLE_USER@ + " is not found"@,
{
    let mut m = String::from_str("Role ");
    m.append(ROLE_USER);
    m.append(" is not found");
    m
}

fn expiry_overflow_message() -> (r: String)
    ensures
        r@ == "token expiry overflows the timestamp range"@,
{
    let r: String = "token expiry overflows the timestamp range".to_string();
    r
}

} // verus!
