use backend_core::handlers::{
    create_post, create_user, delete_post, delete_user, get_post_by_id, get_posts, get_user_by_id,
    get_users, update_post, update_user,
};
use backend_core::pagination::PaginationParams;
use backend_core::store::Store;
use backend_core::validation::{
    CreatePostRequest, CreateUserRequest, UpdatePostRequest, UpdateUserRequest,
};

const NOW: i64 = 1_700_000_000;

fn user_payload(email: &str, name: &str) -> CreateUserRequest {
    CreateUserRequest {
        email: email.to_string(),
        username: name.to_string(),
        password: "secret-password".to_string(),
        full_name: Some("Some One".to_string()),
    }
}

fn post_payload(title: &str, content: &str) -> CreatePostRequest {
    CreatePostRequest { title: title.to_string(), content: content.to_string(), is_published: None }
}

#[test]
fn create_user_returns_201_with_positive_id() {
    let mut store = Store::new();
    let (status, env) = create_user(&mut store, &user_payload("a@example.com", "alice"), NOW);
    assert_eq!(status, 201);
    assert!(env.success);
    let d = env.data.unwrap();
    assert!(d.id > 0);
    assert_eq!(d.email, "a@example.com");
    assert_eq!(d.username, "alice");
    assert_eq!(d.full_name, Some("Some One".to_string()));
    assert!(d.is_active);
}

#[test]
fn stored_credential_is_a_bcrypt_digest_not_the_plaintext() {
    let mut store = Store::new();
    let (status, _) = create_user(&mut store, &user_payload("a@example.com", "alice"), NOW);
    assert_eq!(status, 201);
    let digest = store.users[0].password_hash.clone();
    assert_ne!(digest, "secret-password");
    assert_eq!(digest.len(), 60);
    assert!(digest.starts_with("$2b$"));
    assert!(bcrypt::verify("secret-password", &digest).unwrap());
    assert!(!bcrypt::verify("wrong-password", &digest).unwrap());
}

#[test]
fn duplicate_email_returns_409() {
    let mut store = Store::new();
    let (s1, _) = create_user(&mut store, &user_payload("a@example.com", "alice"), NOW);
    assert_eq!(s1, 201);
    let (s2, env) = create_user(&mut store, &user_payload("a@example.com", "alicia"), NOW);
    assert_eq!(s2, 409);
    assert!(!env.success);
    assert_eq!(store.users.len(), 1);
}

#[test]
fn invalid_create_user_returns_400() {
    let mut store = Store::new();
    let bad = CreateUserRequest {
        email: "not-an-email".to_string(),
        username: "alice".to_string(),
        password: "secret-password".to_string(),
        full_name: None,
    };
    let (status, env) = create_user(&mut store, &bad, NOW);
    assert_eq!(status, 400);
    assert!(!env.success);
    assert_eq!(env.message, "Invalid input data");
    assert_eq!(store.users.len(), 0);
}

#[test]
fn get_user_round_trip() {
    let mut store = Store::new();
    let (_, env) = create_user(&mut store, &user_payload("a@example.com", "alice"), NOW);
    let id = env.data.unwrap().id;
    let (status, found) = get_user_by_id(&store, id);
    assert_eq!(status, 200);
    assert!(found.success);
    assert_eq!(found.data.unwrap().email, "a@example.com");
    let (status2, missing) = get_user_by_id(&store, id + 1);
    assert_eq!(status2, 200);
    assert!(!missing.success);
    assert_eq!(missing.message, "User not found");
}

#[test]
fn list_users_pagination_and_totals() {
    let mut store = Store::new();
    for i in 0..15 {
        let email = format!("u{}@example.com", i);
        let name = format!("user{:02}", i);
        let (s, _) = create_user(&mut store, &user_payload(&email, &name), NOW);
        assert_eq!(s, 201);
    }
    let params = PaginationParams { page: Some(1), limit: Some(10) };
    let (_, env) = get_users(&store, &params);
    let pr = env.data.unwrap();
    assert_eq!(pr.page, 1);
    assert_eq!(pr.limit, 10);
    assert_eq!(pr.total, 15);
    assert_eq!(pr.total_pages, 2);
    assert_eq!(pr.data.len(), 10);
    // newest first: the last created user leads the first page
    assert_eq!(pr.data[0].id, 15);
    assert_eq!(pr.data[9].id, 6);

    let params2 = PaginationParams { page: Some(2), limit: Some(10) };
    let (_, env2) = get_users(&store, &params2);
    let pr2 = env2.data.unwrap();
    assert_eq!(pr2.data.len(), 5);
    assert_eq!(pr2.data[0].id, 5);
    assert_eq!(pr2.data[4].id, 1);

    let params3 = PaginationParams { page: Some(3), limit: Some(10) };
    let (_, env3) = get_users(&store, &params3);
    assert_eq!(env3.data.unwrap().data.len(), 0);

    // defaults apply when nothing is sent
    let (_, env4) = get_users(&store, &PaginationParams { page: None, limit: None });
    let pr4 = env4.data.unwrap();
    assert_eq!(pr4.page, 1);
    assert_eq!(pr4.limit, 10);
}

#[test]
fn partial_update_keeps_absent_user_fields() {
    let mut store = Store::new();
    let (_, env) = create_user(&mut store, &user_payload("a@example.com", "alice"), NOW);
    let id = env.data.unwrap().id;
    let patch = UpdateUserRequest {
        email: None,
        username: Some("alice2".to_string()),
        full_name: None,
        is_active: None,
    };
    let (status, env2) = update_user(&mut store, id, &patch, NOW + 5);
    assert_eq!(status, 200);
    let d = env2.data.unwrap();
    assert_eq!(d.username, "alice2");
    assert_eq!(d.email, "a@example.com");
    assert_eq!(d.full_name, Some("Some One".to_string()));
    assert!(d.is_active);
    assert_eq!(d.created_at, NOW);
    assert_eq!(d.updated_at, NOW + 5);
}

#[test]
fn update_user_email_conflict_returns_409() {
    let mut store = Store::new();
    create_user(&mut store, &user_payload("a@example.com", "alice"), NOW);
    let (_, env) = create_user(&mut store, &user_payload("b@example.com", "bob"), NOW);
    let bob = env.data.unwrap().id;
    let patch = UpdateUserRequest {
        email: Some("a@example.com".to_string()),
        username: None,
        full_name: None,
        is_active: None,
    };
    let (status, env2) = update_user(&mut store, bob, &patch, NOW);
    assert_eq!(status, 409);
    assert!(!env2.success);
}

#[test]
fn update_missing_user_is_not_found_signal() {
    let mut store = Store::new();
    let patch = UpdateUserRequest { email: None, username: None, full_name: None, is_active: None };
    let (status, env) = update_user(&mut store, 42, &patch, NOW);
    assert_eq!(status, 200);
    assert!(!env.success);
    assert_eq!(env.message, "User not found");
}

#[test]
fn delete_missing_user_is_not_found_signal() {
    let mut store = Store::new();
    let (status, env) = delete_user(&mut store, 42);
    assert_eq!(status, 200);
    assert!(!env.success);
    assert_eq!(env.message, "User not found");
}

#[test]
fn delete_user_cascades_to_posts() {
    let mut store = Store::new();
    let (_, env) = create_user(&mut store, &user_payload("a@example.com", "alice"), NOW);
    let alice = env.data.unwrap().id;
    let (_, env2) = create_user(&mut store, &user_payload("b@example.com", "bob"), NOW);
    let bob = env2.data.unwrap().id;
    let (s1, p1) = create_post(&mut store, alice, &post_payload("t1", "c1"), NOW);
    assert_eq!(s1, 201);
    let pid1 = p1.data.unwrap().id;
    let (_, p2) = create_post(&mut store, bob, &post_payload("t2", "c2"), NOW);
    let pid2 = p2.data.unwrap().id;

    let (_, env3) = delete_user(&mut store, alice);
    assert!(env3.success);
    assert_eq!(env3.data.unwrap(), "User deleted");

    let (_, gone) = get_user_by_id(&store, alice);
    assert!(!gone.success);
    let (_, post_gone) = get_post_by_id(&store, pid1);
    assert!(!post_gone.success);
    assert_eq!(post_gone.message, "Post not found");
    let (_, post_kept) = get_post_by_id(&store, pid2);
    assert!(post_kept.success);
}

#[test]
fn create_post_for_missing_user_is_store_fault() {
    let mut store = Store::new();
    let (status, env) = create_post(&mut store, 7, &post_payload("t", "c"), NOW);
    assert_eq!(status, 500);
    assert!(!env.success);
    assert_eq!(env.message, "Failed to create post");
}

#[test]
fn create_post_defaults_unpublished() {
    let mut store = Store::new();
    let (_, env) = create_user(&mut store, &user_payload("a@example.com", "alice"), NOW);
    let alice = env.data.unwrap().id;
    let (status, env2) = create_post(&mut store, alice, &post_payload("title", "content"), NOW);
    assert_eq!(status, 201);
    let d = env2.data.unwrap();
    assert!(!d.is_published);
    assert_eq!(d.user_id, alice);
    assert_eq!(d.title, "title");
}

#[test]
fn partial_update_keeps_absent_post_fields() {
    let mut store = Store::new();
    let (_, env) = create_user(&mut store, &user_payload("a@example.com", "alice"), NOW);
    let alice = env.data.unwrap().id;
    let (_, env2) = create_post(
        &mut store,
        alice,
        &CreatePostRequest {
            title: "A".to_string(),
            content: "B".to_string(),
            is_published: None,
        },
        NOW,
    );
    let pid = env2.data.unwrap().id;
    let patch = UpdatePostRequest {
        title: Some("new".to_string()),
        content: None,
        is_published: None,
    };
    let (status, env3) = update_post(&mut store, pid, &patch, NOW + 1);
    assert_eq!(status, 200);
    let d = env3.data.unwrap();
    assert_eq!(d.title, "new");
    assert_eq!(d.content, "B");
    assert!(!d.is_published);
}

#[test]
fn delete_missing_post_is_not_found_signal() {
    let mut store = Store::new();
    let (status, env) = delete_post(&mut store, 9);
    assert_eq!(status, 200);
    assert!(!env.success);
    assert_eq!(env.message, "Post not found");
}

#[test]
fn list_posts_totals_match_ceiling() {
    let mut store = Store::new();
    let (_, env) = create_user(&mut store, &user_payload("a@example.com", "alice"), NOW);
    let alice = env.data.unwrap().id;
    for i in 0..7 {
        let title = format!("t{}", i);
        create_post(&mut store, alice, &post_payload(&title, "body"), NOW);
    }
    let params = PaginationParams { page: Some(1), limit: Some(3) };
    let (_, env2) = get_posts(&store, &params);
    let pr = env2.data.unwrap();
    assert_eq!(pr.total, 7);
    assert_eq!(pr.total_pages, 3);
    assert_eq!(pr.data.len(), 3);
    let params3 = PaginationParams { page: Some(3), limit: Some(3) };
    let (_, env3) = get_posts(&store, &params3);
    assert_eq!(env3.data.unwrap().data.len(), 1);
}

#[test]
fn invalid_post_payloads_return_400() {
    let mut store = Store::new();
    let (_, env) = create_user(&mut store, &user_payload("a@example.com", "alice"), NOW);
    let alice = env.data.unwrap().id;
    let empty_content =
        CreatePostRequest { title: "t".to_string(), content: "".to_string(), is_published: None };
    let (s1, _) = create_post(&mut store, alice, &empty_content, NOW);
    assert_eq!(s1, 400);
    let long_title = CreatePostRequest {
        title: "x".repeat(201),
        content: "c".to_string(),
        is_published: None,
    };
    let (s2, _) = create_post(&mut store, alice, &long_title, NOW);
    assert_eq!(s2, 400);
    let max_title =
        CreatePostRequest { title: "x".repeat(200), content: "c".to_string(), is_published: None };
    let (s3, _) = create_post(&mut store, alice, &max_title, NOW);
    assert_eq!(s3, 201);
}
