//! The cache model and the user and role services.

use sipdah_be::role_service::Service as RoleService;
use sipdah_be::user_service::Service as UserService;
use sipdah_be::{
    AddRolesRequest, CacheStore, CacheValue, CreateRoleRequest, Ctx, Db, Error, Identity,
    TransactionManager, Uow, User,
};

fn seeded_db() -> Db {
    let mut db = Db::new();
    db.state.users.push(User {
        id: String::from("user-1"),
        email: String::from("a@x.com"),
        password: String::from("not-a-real-hash"),
        name: String::from("Ada"),
        phone_number: Some(String::from("555-0100")),
        photo_url: None,
        created_at: 1_700_000_000,
        updated_at: 1_700_000_001,
        deleted_at: None,
    });
    db
}

#[test]
fn cache_set_get_del_roundtrip() {
    let mut cache = CacheStore::new(60);
    assert!(cache.get(&String::from("k")).is_none());

    cache.setx(String::from("k"), CacheValue::Text(String::from("v1")), 10).unwrap();
    match cache.get(&String::from("k")).unwrap() {
        CacheValue::Text(s) => assert_eq!(s, "v1"),
        _ => panic!("expected text"),
    }

    // An upsert replaces the value under the key and touches no other key.
    cache.setx(String::from("k2"), CacheValue::Text(String::from("other")), 10).unwrap();
    cache.setx(String::from("k"), CacheValue::Text(String::from("v2")), 20).unwrap();
    assert_eq!(cache.get_text(&String::from("k")).unwrap(), Some(String::from("v2")));
    assert_eq!(cache.get_text(&String::from("k2")).unwrap(), Some(String::from("other")));

    cache.del(String::from("k")).unwrap();
    assert!(cache.get(&String::from("k")).is_none());
    assert_eq!(cache.get_text(&String::from("k")).unwrap(), None);
    assert_eq!(cache.get_text(&String::from("k2")).unwrap(), Some(String::from("other")));

    // Deleting an absent key is not an error.
    cache.del(String::from("missing")).unwrap();
}

#[test]
fn user_detail_is_returned_and_cached() {
    let service = UserService::new();
    let ctx = Ctx::new();
    let db = seeded_db();
    let mut cache = CacheStore::new(60);

    let res = service.get_by_id(&ctx, &db, &mut cache, &String::from("user-1")).unwrap();
    assert_eq!(res.id, "user-1");
    assert_eq!(res.email, "a@x.com");
    assert_eq!(res.name, "Ada");
    assert_eq!(res.phone_number, Some(String::from("555-0100")));
    match cache.get(&String::from("user:detail:user-1")).unwrap() {
        CacheValue::UserDetail(d) => assert_eq!(d.email, "a@x.com"),
        _ => panic!("expected a cached user detail"),
    }
}

#[test]
fn unknown_user_is_not_found_and_nothing_is_cached() {
    let service = UserService::new();
    let ctx = Ctx::new();
    let db = Db::new();
    let mut cache = CacheStore::new(60);
    let err = service.get_by_id(&ctx, &db, &mut cache, &String::from("nobody")).unwrap_err();
    match err {
        Error::NotFound(m) => assert_eq!(m, "User not found"),
        other => panic!("expected NotFound, got {:?}", other),
    }
    assert!(cache.get(&String::from("user:detail:nobody")).is_none());
}

#[test]
fn get_current_reads_the_ambient_identity() {
    let service = UserService::new();
    let mut ctx = Ctx::new();
    let db = seeded_db();
    let mut cache = CacheStore::new(60);

    let err = service.get_current(&ctx, &db, &mut cache).unwrap_err();
    assert!(matches!(err, Error::Forbidden(_)));

    ctx.publish_identity(Identity {
        user_id: String::from("user-1"),
        email: String::from("a@x.com"),
    });
    let res = service.get_current(&ctx, &db, &mut cache).unwrap();
    assert_eq!(res.id, "user-1");
}

#[test]
fn add_roles_guard_refuses_an_existing_user_and_commits_nothing() {
    let service = UserService::new();
    let mut ctx = Ctx::new();
    let mut db = seeded_db();
    let mut cache = CacheStore::new(60);
    let req = AddRolesRequest {
        user_id: String::from("user-1"),
        roles: vec![String::from("role-1")],
    };
    let err = service.add_roles(&mut ctx, &mut db, &mut cache, req).unwrap_err();
    match err {
        Error::NotFound(m) => assert_eq!(m, "User is not found"),
        other => panic!("expected NotFound, got {:?}", other),
    }
    assert_eq!(db.state.user_roles.len(), 0);
}

#[test]
fn add_roles_for_an_absent_user_rolls_its_attachments_back() {
    let service = UserService::new();
    let mut ctx = Ctx::new();
    let mut db = Db::new();
    let mut cache = CacheStore::new(60);
    let req = AddRolesRequest {
        user_id: String::from("ghost"),
        roles: vec![String::from("role-1"), String::from("role-2")],
    };
    let err = service.add_roles(&mut ctx, &mut db, &mut cache, req).unwrap_err();
    match err {
        Error::NotFound(m) => assert_eq!(m, "User not found"),
        other => panic!("expected NotFound, got {:?}", other),
    }
    assert_eq!(db.state.user_roles.len(), 0);
}

#[test]
fn role_create_find_and_list() {
    let service = RoleService::new();
    let mut ctx = Ctx::new();
    let mut db = Db::new();

    service
        .create(&mut ctx, &mut db, &CreateRoleRequest { name: String::from("USER") }, String::from("role-1"), 1_700_000_000)
        .unwrap();
    service
        .create(&mut ctx, &mut db, &CreateRoleRequest { name: String::from("ADMIN") }, String::from("role-2"), 1_700_000_001)
        .unwrap();

    let err = service
        .create(&mut ctx, &mut db, &CreateRoleRequest { name: String::from("USER") }, String::from("role-3"), 1_700_000_002)
        .unwrap_err();
    match err {
        Error::Conflict(m) => assert_eq!(m, "Role 'USER' already exists"),
        other => panic!("expected Conflict, got {:?}", other),
    }

    let found = service.find_by_id(&ctx, &db, &String::from("role-2")).unwrap();
    assert_eq!(found.name, "ADMIN");
    assert_eq!(found.created_at, 1_700_000_001);

    let missing = service.find_by_id(&ctx, &db, &String::from("role-9")).unwrap_err();
    match missing {
        Error::NotFound(m) => assert_eq!(m, "Role with ID 'role-9' not found"),
        other => panic!("expected NotFound, got {:?}", other),
    }

    let all = service.find_all(&ctx, &db).unwrap();
    assert_eq!(all.len(), 2);
    assert_eq!(all[0].name, "USER");
    assert_eq!(all[1].name, "ADMIN");
}

#[test]
fn role_created_inside_a_transaction_stays_staged() {
    let service = RoleService::new();
    let uow = TransactionManager::new();
    let mut ctx = Ctx::new();
    let mut db = Db::new();
    uow.begin(&mut ctx, &db).unwrap();
    service
        .create(&mut ctx, &mut db, &CreateRoleRequest { name: String::from("USER") }, String::from("role-1"), 0)
        .unwrap();
    assert_eq!(db.state.roles.len(), 0);
    uow.commit(&mut ctx, &mut db).unwrap();
    assert_eq!(db.state.roles.len(), 1);
}
