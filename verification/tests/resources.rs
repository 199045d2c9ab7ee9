use aisboost::applications;
use aisboost::store::Store;
use aisboost::templates;
use aisboost::types::{ApplicationPayload, Status, TemplatePayload, Type};

fn demo_payload() -> ApplicationPayload {
    ApplicationPayload {
        name: "demo".to_string(),
        duration: 3,
        checkpoints: 2,
        prefix: "x".to_string(),
        length: 10,
    }
}

fn provider_payload(kind: Type) -> TemplatePayload {
    TemplatePayload {
        kind,
        api_key: "key-123".to_string(),
        api_url: "https://provider.example/api".to_string(),
    }
}

#[test]
fn create_application_round_trip() {
    let mut store = Store::new();
    let st = applications::create(&mut store, 1, demo_payload());
    assert_eq!(st, Status::Created);

    let fetched = applications::get_by_id(&store, 1, 1);
    match fetched {
        Ok(a) => {
            assert_eq!(a.id, 1);
            assert_eq!(a.name, "demo");
            assert_eq!(a.duration, 3);
            assert_eq!(a.checkpoints, 2);
            assert_eq!(a.prefix, "x");
            assert_eq!(a.length, 10);
        }
        Err(_) => panic!("owner must see the created application"),
    }

    let listed = applications::index(&store, 1);
    assert_eq!(listed.len(), 1);
    assert_eq!(listed[0].id, 1);
    assert_eq!(listed[0].name, "demo");

    let foreign = applications::get_by_id(&store, 2, 1);
    match foreign {
        Err(st) => assert_eq!(st, Status::NotFound),
        Ok(_) => panic!("another user must not see the application"),
    }
}

#[test]
fn invalid_payloads_rejected_before_storage() {
    let mut store = Store::new();
    let cases: Vec<ApplicationPayload> = vec![
        ApplicationPayload { name: "d".to_string(), ..demo_payload() },
        ApplicationPayload { name: "d".repeat(33), ..demo_payload() },
        ApplicationPayload { duration: 0, ..demo_payload() },
        ApplicationPayload { checkpoints: 0, ..demo_payload() },
        ApplicationPayload { checkpoints: 6, ..demo_payload() },
        ApplicationPayload { prefix: String::new(), ..demo_payload() },
        ApplicationPayload { prefix: "p".repeat(7), ..demo_payload() },
        ApplicationPayload { length: 7, ..demo_payload() },
        ApplicationPayload { length: 25, ..demo_payload() },
    ];
    for payload in cases {
        let st = applications::create(&mut store, 1, payload);
        assert_eq!(st, Status::UnprocessableEntity);
    }
    assert_eq!(store.applications.len(), 0);
}

#[test]
fn boundary_payloads_accepted() {
    let mut store = Store::new();
    let st = applications::create(
        &mut store,
        1,
        ApplicationPayload {
            name: "ab".to_string(),
            duration: 1,
            checkpoints: 1,
            prefix: "p".repeat(6),
            length: 24,
        },
    );
    assert_eq!(st, Status::Created);
    let st = applications::create(
        &mut store,
        1,
        ApplicationPayload {
            name: "n".repeat(32),
            duration: 255,
            checkpoints: 5,
            prefix: "p".to_string(),
            length: 8,
        },
    );
    assert_eq!(st, Status::Created);
    assert_eq!(store.applications.len(), 2);
}

#[test]
fn cross_user_application_access_denied() {
    let mut store = Store::new();
    assert_eq!(applications::create(&mut store, 2, demo_payload()), Status::Created);

    match applications::get_by_id(&store, 1, 1) {
        Err(st) => assert_eq!(st, Status::NotFound),
        Ok(_) => panic!("foreign application must be NotFound"),
    }
    assert_eq!(applications::patch_by_id(&mut store, 1, 1, demo_payload()), Status::NotFound);
    assert_eq!(applications::delete_by_id(&mut store, 1, 1), Status::NotFound);
    // identical to an id that exists nowhere
    match applications::get_by_id(&store, 1, 99) {
        Err(st) => assert_eq!(st, Status::NotFound),
        Ok(_) => panic!("absent application must be NotFound"),
    }
    assert_eq!(store.applications.len(), 1);
    assert_eq!(store.applications[0].name, "demo");
}

#[test]
fn application_patch_replaces_fields() {
    let mut store = Store::new();
    assert_eq!(applications::create(&mut store, 1, demo_payload()), Status::Created);
    let replacement = ApplicationPayload {
        name: "renamed".to_string(),
        duration: 5,
        checkpoints: 4,
        prefix: "yy".to_string(),
        length: 12,
    };
    assert_eq!(applications::patch_by_id(&mut store, 1, 1, replacement), Status::Okay);
    let a = applications::get_by_id(&store, 1, 1).ok().unwrap();
    assert_eq!(a.name, "renamed");
    assert_eq!(a.duration, 5);
    assert_eq!(a.checkpoints, 4);
    assert_eq!(a.prefix, "yy");
    assert_eq!(a.length, 12);
}

#[test]
fn application_delete_idempotent() {
    let mut store = Store::new();
    assert_eq!(applications::create(&mut store, 1, demo_payload()), Status::Created);
    assert_eq!(applications::delete_by_id(&mut store, 1, 1), Status::NoContent);
    assert_eq!(applications::delete_by_id(&mut store, 1, 1), Status::NotFound);
    assert_eq!(store.applications.len(), 0);
}

#[test]
fn applications_index_scoped_to_owner() {
    let mut store = Store::new();
    assert_eq!(applications::create(&mut store, 1, demo_payload()), Status::Created);
    assert_eq!(
        applications::create(
            &mut store,
            2,
            ApplicationPayload { name: "other".to_string(), ..demo_payload() },
        ),
        Status::Created,
    );
    let mine = applications::index(&store, 1);
    assert_eq!(mine.len(), 1);
    assert_eq!(mine[0].name, "demo");
    let theirs = applications::index(&store, 2);
    assert_eq!(theirs.len(), 1);
    assert_eq!(theirs[0].name, "other");
    assert_eq!(applications::index(&store, 3).len(), 0);
}

#[test]
fn type_string_forms_round_trip() {
    let kinds = vec![Type::Linkvertise, Type::Lootlabs, Type::Workink, Type::Shrtfly];
    let names = vec!["linkvertise", "lootlabs", "workink", "shrtfly"];
    for (kind, name) in kinds.into_iter().zip(names.into_iter()) {
        assert_eq!(kind.to_string(), name);
        assert_eq!(Type::from_string(name), Some(kind));
    }
    assert_eq!(Type::from_string("unknown"), None);
    assert_eq!(Type::from_string("Linkvertise"), None);
    assert_eq!(Type::from_string(""), None);
}

#[test]
fn template_create_requires_ownership() {
    let mut store = Store::new();
    assert_eq!(applications::create(&mut store, 2, demo_payload()), Status::Created);
    let st = templates::create(&mut store, 1, 1, provider_payload(Type::Linkvertise));
    assert_eq!(st, Status::NotFound);
    assert_eq!(store.templates.len(), 0);
}

#[test]
fn template_create_raw_rejects_unknown_kind() {
    let mut store = Store::new();
    assert_eq!(applications::create(&mut store, 1, demo_payload()), Status::Created);
    let st = templates::create_raw(
        &mut store,
        1,
        1,
        "unknown",
        "k".to_string(),
        "https://provider.example".to_string(),
    );
    assert_eq!(st, Status::UnprocessableEntity);
    assert_eq!(store.templates.len(), 0);
}

#[test]
fn template_create_raw_accepts_recognized_kind() {
    let mut store = Store::new();
    assert_eq!(applications::create(&mut store, 1, demo_payload()), Status::Created);
    let st = templates::create_raw(
        &mut store,
        1,
        1,
        "lootlabs",
        "k".to_string(),
        "https://provider.example".to_string(),
    );
    assert_eq!(st, Status::Created);
    assert_eq!(store.templates.len(), 1);
    assert_eq!(store.templates[0].kind, "lootlabs");
}

#[test]
fn template_round_trip() {
    let mut store = Store::new();
    assert_eq!(applications::create(&mut store, 1, demo_payload()), Status::Created);
    assert_eq!(
        templates::create(&mut store, 1, 1, provider_payload(Type::Workink)),
        Status::Created,
    );
    let t = templates::get_by_id(&store, 1, 1, 1).ok().unwrap();
    assert_eq!(t.id, 1);
    assert_eq!(t.kind, "workink");
    assert_eq!(t.api_key, "key-123");
    assert_eq!(t.api_url, "https://provider.example/api");
}

#[test]
fn template_under_foreign_parent_not_found() {
    let mut store = Store::new();
    assert_eq!(applications::create(&mut store, 1, demo_payload()), Status::Created);
    assert_eq!(
        applications::create(
            &mut store,
            1,
            ApplicationPayload { name: "second".to_string(), ..demo_payload() },
        ),
        Status::Created,
    );
    assert_eq!(
        templates::create(&mut store, 1, 1, provider_payload(Type::Shrtfly)),
        Status::Created,
    );
    // the template's parent is application 1; scoped to application 2 it is invisible
    match templates::get_by_id(&store, 1, 2, 1) {
        Err(st) => assert_eq!(st, Status::NotFound),
        Ok(_) => panic!("template must be invisible under a foreign parent"),
    }
    assert_eq!(
        templates::patch_by_id(&mut store, 1, 2, 1, provider_payload(Type::Lootlabs)),
        Status::NotFound,
    );
    assert_eq!(templates::delete_by_id(&mut store, 1, 2, 1), Status::NotFound);
    assert_eq!(store.templates.len(), 1);
    assert_eq!(store.templates[0].kind, "shrtfly");
}

#[test]
fn template_chain_requires_application_owner() {
    let mut store = Store::new();
    assert_eq!(applications::create(&mut store, 2, demo_payload()), Status::Created);
    assert_eq!(
        templates::create(&mut store, 2, 1, provider_payload(Type::Linkvertise)),
        Status::Created,
    );
    // user 1 does not own the parent application: every link fails the same way
    match templates::get_by_id(&store, 1, 1, 1) {
        Err(st) => assert_eq!(st, Status::NotFound),
        Ok(_) => panic!("template id alone must not grant access"),
    }
    match templates::index(&store, 1, 1) {
        Err(st) => assert_eq!(st, Status::NotFound),
        Ok(_) => panic!("template list must require ownership"),
    }
    assert_eq!(
        templates::patch_by_id(&mut store, 1, 1, 1, provider_payload(Type::Lootlabs)),
        Status::NotFound,
    );
    assert_eq!(templates::delete_by_id(&mut store, 1, 1, 1), Status::NotFound);
    assert_eq!(store.templates.len(), 1);
}

#[test]
fn template_patch_replaces_fields() {
    let mut store = Store::new();
    assert_eq!(applications::create(&mut store, 1, demo_payload()), Status::Created);
    assert_eq!(
        templates::create(&mut store, 1, 1, provider_payload(Type::Linkvertise)),
        Status::Created,
    );
    let st = templates::patch_by_id(
        &mut store,
        1,
        1,
        1,
        TemplatePayload {
            kind: Type::Shrtfly,
            api_key: "rotated".to_string(),
            api_url: "https://other.example".to_string(),
        },
    );
    assert_eq!(st, Status::Okay);
    let t = templates::get_by_id(&store, 1, 1, 1).ok().unwrap();
    assert_eq!(t.kind, "shrtfly");
    assert_eq!(t.api_key, "rotated");
    assert_eq!(t.api_url, "https://other.example");
}

#[test]
fn template_patch_absent_id_not_found() {
    let mut store = Store::new();
    assert_eq!(applications::create(&mut store, 1, demo_payload()), Status::Created);
    let st = templates::patch_by_id(&mut store, 1, 1, 9, provider_payload(Type::Lootlabs));
    assert_eq!(st, Status::NotFound);
}

#[test]
fn template_delete_idempotent() {
    let mut store = Store::new();
    assert_eq!(applications::create(&mut store, 1, demo_payload()), Status::Created);
    assert_eq!(
        templates::create(&mut store, 1, 1, provider_payload(Type::Linkvertise)),
        Status::Created,
    );
    assert_eq!(templates::delete_by_id(&mut store, 1, 1, 1), Status::NoContent);
    assert_eq!(templates::delete_by_id(&mut store, 1, 1, 1), Status::NotFound);
    assert_eq!(store.templates.len(), 0);
}

#[test]
fn templates_index_scoped_to_parent() {
    let mut store = Store::new();
    assert_eq!(applications::create(&mut store, 1, demo_payload()), Status::Created);
    assert_eq!(
        applications::create(
            &mut store,
            1,
            ApplicationPayload { name: "second".to_string(), ..demo_payload() },
        ),
        Status::Created,
    );
    assert_eq!(
        templates::create(&mut store, 1, 1, provider_payload(Type::Linkvertise)),
        Status::Created,
    );
    assert_eq!(
        templates::create(&mut store, 1, 2, provider_payload(Type::Lootlabs)),
        Status::Created,
    );
    let first = templates::index(&store, 1, 1).ok().unwrap();
    assert_eq!(first.len(), 1);
    assert_eq!(first[0].kind, "linkvertise");
    let second = templates::index(&store, 1, 2).ok().unwrap();
    assert_eq!(second.len(), 1);
    assert_eq!(second[0].kind, "lootlabs");
}
