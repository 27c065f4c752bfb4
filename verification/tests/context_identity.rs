//! The ambient context store and identity propagation.

use sipdah_be::auth_service::Service as AuthService;
use sipdah_be::{
    auth, bearer_or_cookie_token, get_current_identity, CacheStore, Config, Ctx, Db, Error,
    Identity, Role, SignUpRequest, Tx,
};

fn test_config() -> Config {
    Config {
        port: 8080,
        database_url: String::from("mysql://localhost/app"),
        cache_url: String::from("redis://localhost"),
        idle_timeout: 30,
        acquire_timeout: 15,
        max_connections: 10,
        min_connections: 1,
        access_token_key_secret: String::from("access-secret-for-tests"),
        access_token_key_ttl: 900,
        refresh_token_key_secret: String::from("refresh-secret-for-tests"),
        refresh_token_key_ttl: 604800,
        redis_default_ttl: 60,
    }
}

fn now() -> i64 {
    std::time::SystemTime::now()
        .duration_since(std::time::UNIX_EPOCH)
        .unwrap()
        .as_secs() as i64
}

#[test]
fn identity_lookup_outside_authenticated_scope_is_forbidden() {
    let ctx = Ctx::new();
    let err = get_current_identity(&ctx).unwrap_err();
    match err {
        Error::Forbidden(m) => assert_eq!(m, "Failed to retrieve current identity"),
        other => panic!("expected Forbidden, got {:?}", other),
    }
}

#[test]
fn published_identity_is_readable_for_the_rest_of_the_scope() {
    let mut ctx = Ctx::new();
    ctx.publish_identity(Identity {
        user_id: String::from("user-1"),
        email: String::from("a@x.com"),
    });
    let id = get_current_identity(&ctx).unwrap();
    assert_eq!(id.user_id, "user-1");
    assert_eq!(id.email, "a@x.com");
    // Reading is not destructive.
    let again = get_current_identity(&ctx).unwrap();
    assert_eq!(again.user_id, "user-1");
}

#[test]
fn take_empties_the_slot_and_publish_restores_it() {
    let mut ctx = Ctx::new();
    let db = Db::new();
    assert!(!ctx.has_transaction());
    ctx.publish_transaction(Tx { staged: db.state });
    assert!(ctx.has_transaction());
    let tx = ctx.take_transaction().unwrap();
    assert!(!ctx.has_transaction());
    assert!(ctx.take_transaction().is_none());
    ctx.publish_transaction(tx);
    assert!(ctx.has_transaction());

    let mut ctx2 = Ctx::new();
    ctx2.publish_identity(Identity {
        user_id: String::from("user-1"),
        email: String::from("a@x.com"),
    });
    let taken = ctx2.take_identity().unwrap();
    assert!(ctx2.take_identity().is_none());
    assert_eq!(taken.user_id, "user-1");
}

#[test]
fn middleware_without_any_token_is_bad_request() {
    let service = AuthService::new(test_config());
    let mut ctx = Ctx::new();
    let err = auth(&service, &mut ctx, None, None).unwrap_err();
    match err {
        Error::BadRequest(m) => assert_eq!(m, "Access token is not provided"),
        other => panic!("expected BadRequest, got {:?}", other),
    }
    assert!(get_current_identity(&ctx).is_err());
}

#[test]
fn middleware_with_garbage_token_publishes_nothing() {
    let service = AuthService::new(test_config());
    let mut ctx = Ctx::new();
    let err = auth(&service, &mut ctx, Some(String::from("garbage")), None).unwrap_err();
    assert!(matches!(err, Error::Internal(_)));
    assert!(get_current_identity(&ctx).is_err());
}

#[test]
fn middleware_with_valid_token_publishes_the_claims_identity() {
    let service = AuthService::new(test_config());
    let mut ctx = Ctx::new();
    let mut db = Db::new();
    let mut cache = CacheStore::new(60);
    db.state.roles.push(Role {
        id: String::from("role-1"),
        name: String::from("USER"),
        created_at: 0,
        updated_at: 0,
    });
    let req = SignUpRequest {
        name: String::from("Ada"),
        email: String::from("a@x.com"),
        password: String::from("hunter22"),
    };
    let res = service
        .sign_up(&mut ctx, &mut db, &mut cache, &req, String::from("user-1"), now())
        .unwrap();

    let mut request_ctx = Ctx::new();
    let id = auth(&service, &mut request_ctx, Some(res.access_token.clone()), None).unwrap();
    assert_eq!(id.user_id, "user-1");
    assert_eq!(id.email, "a@x.com");
    let ambient = get_current_identity(&request_ctx).unwrap();
    assert_eq!(ambient.user_id, "user-1");

    // The cookie fallback carries the same token when no header came.
    let mut cookie_ctx = Ctx::new();
    let via_cookie = auth(&service, &mut cookie_ctx, None, Some(res.access_token)).unwrap();
    assert_eq!(via_cookie.user_id, "user-1");
}

#[test]
fn bearer_header_wins_over_cookie() {
    let picked = bearer_or_cookie_token(
        Some(String::from("header-token")),
        Some(String::from("cookie-token")),
    )
    .unwrap();
    assert_eq!(picked, "header-token");
    let fallback = bearer_or_cookie_token(None, Some(String::from("cookie-token"))).unwrap();
    assert_eq!(fallback, "cookie-token");
}
