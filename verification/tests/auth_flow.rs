//! End-to-end authentication flows against the in-memory store and cache.

use sipdah_be::auth_service::Service as AuthService;
use sipdah_be::{CacheStore, CacheValue, Config, Ctx, Db, Error, Role, SignInRequest, SignUpRequest, RefreshTokenRequest};

fn test_config() -> Config {
    Config {
        port: 8080,
        database_url: String::from("mysql://localhost/app"),
        cache_url: String::from("redis://localhost"),
        idle_timeout: 30,
        acquire_timeout: 15,
        max_connections: 10,
        min_connections: 1,
        access_token_key_secret: String::from("access-secret-for-tests"),
        access_token_key_ttl: 900,
        refresh_token_key_secret: String::from("refresh-secret-for-tests"),
        refresh_token_key_ttl: 604800,
        redis_default_ttl: 60,
    }
}

fn seed_user_role(db: &mut Db) {
    db.state.roles.push(Role {
        id: String::from("role-1"),
        name: String::from("USER"),
        created_at: 1_700_000_000,
        updated_at: 1_700_000_000,
    });
}

fn now() -> i64 {
    std::time::SystemTime::now()
        .duration_since(std::time::UNIX_EPOCH)
        .unwrap()
        .as_secs() as i64
}

fn sign_up_req(email: &str) -> SignUpRequest {
    SignUpRequest {
        name: String::from("Ada"),
        email: String::from(email),
        password: String::from("hunter22"),
    }
}

#[test]
fn sign_up_fresh_email_inserts_user_and_role() {
    let service = AuthService::new(test_config());
    let mut ctx = Ctx::new();
    let mut db = Db::new();
    let mut cache = CacheStore::new(60);
    seed_user_role(&mut db);

    let res = service
        .sign_up(&mut ctx, &mut db, &mut cache, &sign_up_req("a@x.com"), String::from("user-1"), now())
        .unwrap();
    assert_eq!(res.user_id, "user-1");
    assert_eq!(res.email, "a@x.com");
    assert_eq!(db.state.users.len(), 1);
    assert_eq!(db.state.users[0].email, "a@x.com");
    assert_ne!(db.state.users[0].password, "hunter22");
    assert_eq!(db.state.user_roles.len(), 1);
    assert_eq!(db.state.user_roles[0].user_id, "user-1");
    assert_eq!(db.state.user_roles[0].role_id, "role-1");

    let claim = service.verify_access_token(&res.access_token).unwrap();
    assert_eq!(claim.sub, "user-1");
    assert_eq!(claim.email, "a@x.com");
    assert!(claim.exp > claim.iat);
}

#[test]
fn sign_up_existing_email_is_conflict_and_inserts_nothing() {
    let service = AuthService::new(test_config());
    let mut ctx = Ctx::new();
    let mut db = Db::new();
    let mut cache = CacheStore::new(60);
    seed_user_role(&mut db);

    service
        .sign_up(&mut ctx, &mut db, &mut cache, &sign_up_req("a@x.com"), String::from("user-1"), now())
        .unwrap();
    let err = service
        .sign_up(&mut ctx, &mut db, &mut cache, &sign_up_req("a@x.com"), String::from("user-2"), now())
        .unwrap_err();
    match err {
        Error::Conflict(m) => assert_eq!(m, "Email a@x.com already exists"),
        other => panic!("expected Conflict, got {:?}", other),
    }
    assert_eq!(db.state.users.len(), 1);
    assert_eq!(db.state.user_roles.len(), 1);
}

#[test]
fn sign_up_without_default_role_rolls_back_user_row() {
    let service = AuthService::new(test_config());
    let mut ctx = Ctx::new();
    let mut db = Db::new();
    let mut cache = CacheStore::new(60);

    let err = service
        .sign_up(&mut ctx, &mut db, &mut cache, &sign_up_req("a@x.com"), String::from("user-1"), now())
        .unwrap_err();
    match err {
        Error::NotFound(m) => assert_eq!(m, "Role USER is not found"),
        other => panic!("expected NotFound, got {:?}", other),
    }
    assert_eq!(db.state.users.len(), 0);
    assert_eq!(db.state.user_roles.len(), 0);
}

#[test]
fn sign_up_invalid_email_is_bad_request() {
    let service = AuthService::new(test_config());
    let mut ctx = Ctx::new();
    let mut db = Db::new();
    let mut cache = CacheStore::new(60);
    seed_user_role(&mut db);

    let err = service
        .sign_up(&mut ctx, &mut db, &mut cache, &sign_up_req("not-an-email"), String::from("user-1"), now())
        .unwrap_err();
    assert!(matches!(err, Error::BadRequest(_)));
    assert_eq!(db.state.users.len(), 0);
}

#[test]
fn sign_in_unknown_email_is_not_found() {
    let service = AuthService::new(test_config());
    let ctx = Ctx::new();
    let db = Db::new();
    let mut cache = CacheStore::new(60);

    let req = SignInRequest { email: String::from("b@x.com"), password: String::from("hunter22") };
    let err = service.sign_in(&ctx, &db, &mut cache, &req).unwrap_err();
    match err {
        Error::NotFound(m) => assert_eq!(m, "User with email b@x.com is not found"),
        other => panic!("expected NotFound, got {:?}", other),
    }
}

#[test]
fn sign_in_wrong_password_is_bad_request() {
    let service = AuthService::new(test_config());
    let mut ctx = Ctx::new();
    let mut db = Db::new();
    let mut cache = CacheStore::new(60);
    seed_user_role(&mut db);
    service
        .sign_up(&mut ctx, &mut db, &mut cache, &sign_up_req("a@x.com"), String::from("user-1"), now())
        .unwrap();

    let req = SignInRequest { email: String::from("a@x.com"), password: String::from("wrong-pw") };
    let err = service.sign_in(&ctx, &db, &mut cache, &req).unwrap_err();
    match err {
        Error::BadRequest(m) => assert_eq!(m, "Password doesn't match"),
        other => panic!("expected BadRequest, got {:?}", other),
    }
}

#[test]
fn sign_in_right_password_issues_tokens() {
    let service = AuthService::new(test_config());
    let mut ctx = Ctx::new();
    let mut db = Db::new();
    let mut cache = CacheStore::new(60);
    seed_user_role(&mut db);
    service
        .sign_up(&mut ctx, &mut db, &mut cache, &sign_up_req("a@x.com"), String::from("user-1"), now())
        .unwrap();

    let req = SignInRequest { email: String::from("a@x.com"), password: String::from("hunter22") };
    let res = service.sign_in(&ctx, &db, &mut cache, &req).unwrap();
    assert_eq!(res.user_id, "user-1");
    let claim = service.verify_access_token(&res.access_token).unwrap();
    assert_eq!(claim.sub, "user-1");
}

#[test]
fn refresh_with_stale_token_is_rejected_despite_valid_signature() {
    let service = AuthService::new(test_config());
    let mut ctx = Ctx::new();
    let mut db = Db::new();
    let mut cache = CacheStore::new(60);
    seed_user_role(&mut db);
    // Issued a little in the past, so the pair a refresh issues now differs.
    let first = service
        .sign_up(&mut ctx, &mut db, &mut cache, &sign_up_req("a@x.com"), String::from("user-1"), now() - 10)
        .unwrap();

    // The cached value moves on with each refresh, so the first token goes
    // stale although its signature still verifies.
    let second = service
        .refresh(&ctx, &db, &mut cache, &RefreshTokenRequest { refresh_token: first.refresh_token.clone() })
        .unwrap();
    assert!(service.verify_refresh_token(&first.refresh_token).is_ok());
    assert_ne!(second.refresh_token, first.refresh_token);
    let err = service
        .refresh(&ctx, &db, &mut cache, &RefreshTokenRequest { refresh_token: first.refresh_token })
        .unwrap_err();
    match err {
        Error::BadRequest(m) => assert_eq!(m, "Token doesn't match"),
        other => panic!("expected BadRequest, got {:?}", other),
    }
}

#[test]
fn refresh_with_mismatching_cached_token_is_bad_request() {
    let service = AuthService::new(test_config());
    let mut ctx = Ctx::new();
    let mut db = Db::new();
    let mut cache = CacheStore::new(60);
    seed_user_role(&mut db);
    let res = service
        .sign_up(&mut ctx, &mut db, &mut cache, &sign_up_req("a@x.com"), String::from("user-1"), now())
        .unwrap();

    // Replace the cached value so the presented token no longer matches.
    cache
        .setx(
            String::from("auth:refresh-token:user-1"),
            CacheValue::Text(String::from("some-other-token")),
            604800,
        )
        .unwrap();
    let err = service
        .refresh(&ctx, &db, &mut cache, &RefreshTokenRequest { refresh_token: res.refresh_token })
        .unwrap_err();
    match err {
        Error::BadRequest(m) => assert_eq!(m, "Token doesn't match"),
        other => panic!("expected BadRequest, got {:?}", other),
    }
}

#[test]
fn sign_out_deletes_cached_token_and_refresh_then_fails() {
    let service = AuthService::new(test_config());
    let mut ctx = Ctx::new();
    let mut db = Db::new();
    let mut cache = CacheStore::new(60);
    seed_user_role(&mut db);
    let res = service
        .sign_up(&mut ctx, &mut db, &mut cache, &sign_up_req("a@x.com"), String::from("user-1"), now())
        .unwrap();

    ctx.publish_identity(sipdah_be::Identity {
        user_id: String::from("user-1"),
        email: String::from("a@x.com"),
    });
    service.sign_out(&ctx, &mut cache).unwrap();
    assert!(cache.get(&String::from("auth:refresh-token:user-1")).is_none());

    let err = service
        .refresh(&ctx, &db, &mut cache, &RefreshTokenRequest { refresh_token: res.refresh_token })
        .unwrap_err();
    match err {
        Error::NotFound(m) => assert_eq!(m, "Token is not found"),
        other => panic!("expected NotFound, got {:?}", other),
    }
}

#[test]
fn sign_out_without_identity_is_forbidden() {
    let service = AuthService::new(test_config());
    let ctx = Ctx::new();
    let mut cache = CacheStore::new(60);
    let err = service.sign_out(&ctx, &mut cache).unwrap_err();
    match err {
        Error::Forbidden(m) => assert_eq!(m, "Failed to retrieve current identity"),
        other => panic!("expected Forbidden, got {:?}", other),
    }
}

#[test]
fn expired_refresh_token_is_bad_request() {
    let service = AuthService::new(test_config());
    let mut db = Db::new();
    let mut cache = CacheStore::new(60);
    seed_user_role(&mut db);
    let mut ctx = Ctx::new();
    service
        .sign_up(&mut ctx, &mut db, &mut cache, &sign_up_req("a@x.com"), String::from("user-1"), now())
        .unwrap();
    let user = db.state.users[0].duplicate();

    // Issue a pair whose lifetimes ended long ago (beyond the verifier's
    // 60-second leeway).
    let res = service.issue_tokens_at(&mut cache, &user, now() - 1_000_000).unwrap();
    let err = service
        .refresh(&ctx, &db, &mut cache, &RefreshTokenRequest { refresh_token: res.refresh_token })
        .unwrap_err();
    match err {
        Error::BadRequest(m) => assert_eq!(m, "Token is expired"),
        other => panic!("expected BadRequest, got {:?}", other),
    }
}

#[test]
fn token_signed_with_wrong_secret_is_bad_request() {
    let service = AuthService::new(test_config());
    let db = Db::new();
    let ctx = Ctx::new();
    let mut cache = CacheStore::new(60);
    let mut other_config = test_config();
    other_config.refresh_token_key_secret = String::from("a-different-secret");
    let other = AuthService::new(other_config);
    let user = sipdah_be::User {
        id: String::from("user-1"),
        email: String::from("a@x.com"),
        password: String::from("x"),
        name: String::from("Ada"),
        phone_number: None,
        photo_url: None,
        created_at: 0,
        updated_at: 0,
        deleted_at: None,
    };
    let mut other_cache = CacheStore::new(60);
    let res = other.issue_tokens_at(&mut other_cache, &user, now()).unwrap();

    let err = service
        .refresh(&ctx, &db, &mut cache, &RefreshTokenRequest { refresh_token: res.refresh_token })
        .unwrap_err();
    match err {
        Error::BadRequest(m) => assert_eq!(m, "Token is not valid"),
        other => panic!("expected BadRequest, got {:?}", other),
    }
}

#[test]
fn empty_refresh_request_is_refused() {
    let service = AuthService::new(test_config());
    let db = Db::new();
    let ctx = Ctx::new();
    let mut cache = CacheStore::new(60);
    let err = service
        .refresh(&ctx, &db, &mut cache, &RefreshTokenRequest { refresh_token: String::new() })
        .unwrap_err();
    match err {
        Error::BadRequest(m) => assert_eq!(m, "Token is required"),
        other => panic!("expected BadRequest, got {:?}", other),
    }
}
