use backend_core::pagination::PaginationParams;
use backend_core::post_service::PostService;
use backend_core::store::Store;
use backend_core::user_service::UserService;
use backend_core::validation::{CreatePostRequest, CreateUserRequest};

const NOW: i64 = 1_700_000_000;

fn seed_user(store: &mut Store, email: &str) -> i32 {
    let req = CreateUserRequest {
        email: email.to_string(),
        username: "someone".to_string(),
        password: "secret".to_string(),
        full_name: None,
    };
    UserService::create_user(store, &req, NOW).unwrap().id
}

fn seed_post(store: &mut Store, user_id: i32, title: &str, published: bool) -> i32 {
    let req = CreatePostRequest {
        title: title.to_string(),
        content: "body".to_string(),
        is_published: Some(published),
    };
    PostService::create_post(store, user_id, &req, NOW).unwrap().id
}

#[test]
fn counts_track_rows() {
    let mut store = Store::new();
    assert_eq!(UserService::get_user_count(&store), 0);
    let alice = seed_user(&mut store, "a@example.com");
    seed_user(&mut store, "b@example.com");
    assert_eq!(UserService::get_user_count(&store), 2);
    seed_post(&mut store, alice, "t", false);
    assert_eq!(PostService::get_post_count(&store), 1);
}

#[test]
fn posts_by_user_filters_the_page() {
    let mut store = Store::new();
    let alice = seed_user(&mut store, "a@example.com");
    let bob = seed_user(&mut store, "b@example.com");
    seed_post(&mut store, alice, "a1", false);
    seed_post(&mut store, bob, "b1", false);
    seed_post(&mut store, alice, "a2", true);
    let params = PaginationParams { page: Some(1), limit: Some(10) };
    let of_alice = PostService::get_posts_by_user(&store, alice, &params);
    assert_eq!(of_alice.len(), 2);
    assert!(of_alice.iter().all(|p| p.user_id == alice));
    // newest first, within the page
    assert_eq!(of_alice[0].title, "a2");
    assert_eq!(of_alice[1].title, "a1");
}

#[test]
fn published_posts_filters_the_page() {
    let mut store = Store::new();
    let alice = seed_user(&mut store, "a@example.com");
    seed_post(&mut store, alice, "draft", false);
    let live = seed_post(&mut store, alice, "live", true);
    let params = PaginationParams { page: Some(1), limit: Some(10) };
    let published = PostService::get_published_posts(&store, &params);
    assert_eq!(published.len(), 1);
    assert_eq!(published[0].id, live);
    assert!(published[0].is_published);
}

#[test]
fn service_delete_outcomes() {
    let mut store = Store::new();
    let alice = seed_user(&mut store, "a@example.com");
    let pid = seed_post(&mut store, alice, "t", false);
    assert!(!PostService::delete_post(&mut store, pid + 100));
    assert!(PostService::delete_post(&mut store, pid));
    assert!(!PostService::delete_post(&mut store, pid));
    assert!(UserService::delete_user(&mut store, alice));
    assert!(!UserService::delete_user(&mut store, alice));
}
