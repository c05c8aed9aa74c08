//! The computing half of each endpoint: validate the payload, call the
//! service, and wrap the outcome in the envelope with its status code.
//! Decoding HTTP requests and writing HTTP responses is the surrounding
//! program's job. A missing row answers 200 with a failure envelope — the
//! "not found" signal — never a fault; store faults answer 500 with a
//! generic message.

use vstd::prelude::*;

use crate::entities::{
    spec_post_response, spec_user_response, to_post_responses, to_user_responses,
    post_to_response, posts_to_responses, user_to_response, users_to_responses, UserResponse,
    PostResponse,
};
use crate::envelope::{ApiResponse, PaginatedResponse};
use crate::error::AppError;
use crate::pagination::{
    ceil_div, effective_limit, effective_page, normalize, page_of, total_pages, PaginationParams,
};
use crate::post_repo::spec_merge_post;
use crate::post_service::PostService;
use crate::store::{email_taken, email_taken_by_other, post_id_exists, user_id_exists, Store};
use crate::user_repo::spec_merge_user;
use crate::user_service::{digest_matches, UserService};
use crate::validation::{
    CreatePostRequest, CreateUserRequest, UpdatePostRequest, UpdateUserRequest,
};

verus! {

/// The update payload asks for an email that another user already has.
pub open spec fn update_conflict(users: Seq<crate::entities::User>, payload: UpdateUserRequest, id: i32) -> bool {
    match payload.email {
        Some(e) => email_taken_by_other(users, e@, id),
        None => false,
    }
}

/// `POST /users`: 400 on invalid input, 409 on a taken email, 201 with the
/// created user otherwise; 500 only for a store fault or a failed digest
/// computation. The response carries every stored field but the digest,
/// which has no place in a `UserResponse` at all.
pub fn create_user(store: &mut Store, payload: &CreateUserRequest, now: i64) -> (r: (
    u16,
    ApiResponse<UserResponse>,
))
    requires
        old(store).wf(),
    ensures
        final(store).wf(),
        r.1.well_formed(),
        !payload.valid() ==> r.0 == 400 && !r.1.success && r.1.message@ == "Invalid input data"@
            && *final(store) == *old(store),
        (payload.valid() && email_taken(old(store).users@, payload.email@)) ==> r.0 == 409,
        r.0 == 409 ==> !r.1.success && email_taken(old(store).users@, payload.email@) && *final(store) == *old(store),
        r.0 == 500 ==> !r.1.success && *final(store) == *old(store),
        (payload.valid() && !email_taken(old(store).users@, payload.email@) && old(store).next_user_id < i32::MAX) ==> (r.0 == 201 || r.0 == 500),
        r.0 == 201 ==> ({
            &&& payload.valid()
            &&& !email_taken(old(store).users@, payload.email@)
            &&& r.1.success
            &&& r.1.message@ == "User created successfully"@
            &&& r.1.data matches Some(d) && d.id == old(store).next_user_id && d.id >= 1
                && d.email == payload.email && d.username == payload.username && d.full_name
                == payload.full_name && d.is_active == true && d.created_at == now && d.updated_at
                == now
            &&& final(store).users@.len() == old(store).users@.len() + 1
            &&& forall|k: int|
                0 <= k < old(store).users@.len() ==> final(store).users@[k] == old(store).users@[k]
            &&& final(store).users@.last().id == old(store).next_user_id
            &&& final(store).users@.last().email == payload.email
            &&& final(store).users@.last().password_hash@.len() == 60
            &&& final(store).users@.last().password_hash@[0] == '$'
            &&& final(store).users@.last().password_hash@[1] == '2'
            &&& final(store).users@.last().password_hash@[2] == 'b'
            &&& final(store).users@.last().password_hash@[3] == '$'
            &&& digest_matches(payload.password@, final(store).users@.last().password_hash@)
            &&& final(store).posts@ == old(store).posts@
        }),
{
    if !payload.validate() {
        return (400, ApiResponse::error("Invalid input data"));
    }
    match UserService::create_user(store, payload, now) {
        Ok(u) => {
            let resp = user_to_response(&u);
            (201, ApiResponse::success(resp, "User created successfully"))
        },
        Err(AppError::Conflict(_)) => (409, ApiResponse::error("User already exists")),
        Err(_) => (500, ApiResponse::error("Failed to create user")),
    }
}

/// `GET /users?page=&limit=`: always 200 with the requested page, its echoed
/// pagination, the total row count, and `total_pages = ceil(total / limit)`.
pub fn get_users(store: &Store, params: &PaginationParams) -> (r: (
    u16,
    ApiResponse<PaginatedResponse<UserResponse>>,
))
    requires
        store.wf(),
    ensures
        r.0 == 200,
        r.1.success,
        r.1.well_formed(),
        r.1.message@ == "Users retrieved successfully"@,
        r.1.data matches Some(pr) && {
            &&& pr.page == effective_page(params.page)
            &&& pr.limit == effective_limit(params.limit)
            &&& pr.total == store.users@.len()
            &&& pr.total_pages == ceil_div(
                store.users@.len() as int,
                effective_limit(params.limit) as int,
            )
            &&& pr.data@ == to_user_responses(
                page_of(store.users@, effective_page(params.page), effective_limit(params.limit)),
            )
            &&& pr.data@.len() <= pr.limit
        },
{
    let (page, limit) = normalize(params);
    let users = UserService::get_users(store, params);
    let total_rows = UserService::get_user_count(store);
    let total = total_rows as u64;
    let tp = total_pages(total, limit);
    let data = users_to_responses(&users);
    let pr = PaginatedResponse { data, page, limit, total, total_pages: tp };
    (200, ApiResponse::success(pr, "Users retrieved successfully"))
}

/// `GET /users/{id}`: 200 either way; a failure envelope saying "not found"
/// when no row carries the id.
pub fn get_user_by_id(store: &Store, id: i32) -> (r: (u16, ApiResponse<UserResponse>))
    ensures
        r.0 == 200,
        r.1.well_formed(),
        user_id_exists(store.users@, id) ==> r.1.success && r.1.message@
            == "User found successfully"@ && (r.1.data matches Some(d) && exists|i: int|
            0 <= i < store.users@.len() && (#[trigger] store.users@[i]).id == id && d
                == spec_user_response(store.users@[i])),
        !user_id_exists(store.users@, id) ==> !r.1.success && r.1.data is None && r.1.message@
            == "User not found"@,
{
    match UserService::get_user_by_id(store, id) {
        Some(u) => {
            let resp = user_to_response(&u);
            proof {
                let i = choose|i: int|
                    0 <= i < store.users@.len() && (#[trigger] store.users@[i]) == u
                        && store.users@[i].id == id;
                assert(store.users@[i].id == id && resp == spec_user_response(store.users@[i]));
            }
            (200, ApiResponse::success(resp, "User found successfully"))
        },
        None => (200, ApiResponse::error("User not found")),
    }
}

/// `PUT /users/{id}`: 400 on invalid input; a "not found" failure envelope
/// for a missing row; 409 when the payload asks for an email another user
/// has; otherwise 200 with the merged row — present fields written, absent
/// fields untouched.
pub fn update_user(store: &mut Store, id: i32, payload: &UpdateUserRequest, now: i64) -> (r: (
    u16,
    ApiResponse<UserResponse>,
))
    requires
        old(store).wf(),
    ensures
        final(store).wf(),
        r.1.well_formed(),
        final(store).posts@ == old(store).posts@,
        final(store).next_user_id == old(store).next_user_id,
        final(store).next_post_id == old(store).next_post_id,
        !payload.valid() ==> r.0 == 400 && !r.1.success && r.1.message@ == "Invalid input data"@
            && final(store).users@ == old(store).users@,
        (payload.valid() && !user_id_exists(old(store).users@, id)) ==> r.0 == 200
            && !r.1.success && r.1.message@ == "User not found"@ && final(store).users@ == old(store).users@,
        (payload.valid() && user_id_exists(old(store).users@, id) && update_conflict(
            old(store).users@,
            *payload,
            id,
        )) ==> r.0 == 409 && !r.1.success && final(store).users@ == old(store).users@,
        (payload.valid() && user_id_exists(old(store).users@, id) && !update_conflict(
            old(store).users@,
            *payload,
            id,
        )) ==> r.0 == 200 && r.1.success && r.1.message@ == "User updated successfully"@ && (
        r.1.data matches Some(d) && exists|i: int|
            0 <= i < old(store).users@.len() && (#[trigger] old(store).users@[i]).id == id && d
                == spec_user_response(spec_merge_user(old(store).users@[i], *payload, now))
                && final(store).users@ == old(store).users@.update(
                i,
                spec_merge_user(old(store).users@[i], *payload, now),
            )),
{
    if !payload.validate() {
        return (400, ApiResponse::error("Invalid input data"));
    }
    match UserService::update_user(store, id, payload, now) {
        Ok(Some(u)) => {
            let resp = user_to_response(&u);
            (200, ApiResponse::success(resp, "User updated successfully"))
        },
        Ok(None) => (200, ApiResponse::error("User not found")),
        Err(_) => (409, ApiResponse::error("Email already in use")),
    }
}

/// `DELETE /users/{id}`: 200 either way; on success the row and — by the
/// cascade — every post it owned are gone; a missing id answers the
/// "not found" failure envelope, never a fault.
pub fn delete_user(store: &mut Store, id: i32) -> (r: (u16, ApiResponse<String>))
    requires
        old(store).wf(),
    ensures
        final(store).wf(),
        r.0 == 200,
        r.1.well_formed(),
        final(store).next_user_id == old(store).next_user_id,
        final(store).next_post_id == old(store).next_post_id,
        user_id_exists(old(store).users@, id) ==> r.1.success && r.1.message@
            == "User deleted successfully"@ && (r.1.data matches Some(d) && d@
            == "User deleted"@) && final(store).users@ == old(store).users@.filter(
            crate::store::keep_other_users(id),
        ) && final(store).posts@ == old(store).posts@.filter(crate::store::keep_other_owners(id))
            && !user_id_exists(final(store).users@, id),
        !user_id_exists(old(store).users@, id) ==> !r.1.success && r.1.message@
            == "User not found"@ && *final(store) == *old(store),
{
    if UserService::delete_user(store, id) {
        (200, ApiResponse::success("User deleted".to_owned(), "User deleted successfully"))
    } else {
        (200, ApiResponse::error("User not found"))
    }
}

/// `POST /posts`: 400 on invalid input, 201 with the created post otherwise;
/// 500 exactly when the owner does not exist or the id space is exhausted.
pub fn create_post(store: &mut Store, user_id: i32, payload: &CreatePostRequest, now: i64) -> (r: (
    u16,
    ApiResponse<PostResponse>,
))
    requires
        old(store).wf(),
    ensures
        final(store).wf(),
        r.1.well_formed(),
        !payload.valid() ==> r.0 == 400 && !r.1.success && r.1.message@ == "Invalid input data"@
            && *final(store) == *old(store),
        r.0 == 500 ==> !r.1.success && *final(store) == *old(store) && (!user_id_exists(
            old(store).users@,
            user_id,
        ) || old(store).next_post_id == i32::MAX),
        (payload.valid() && user_id_exists(old(store).users@, user_id) && old(store).next_post_id < i32::MAX) ==> r.0 == 201,
        r.0 == 201 ==> ({
            &&& payload.valid()
            &&& user_id_exists(old(store).users@, user_id)
            &&& r.1.success
            &&& r.1.message@ == "Post created successfully"@
            &&& r.1.data matches Some(d) && d.id == old(store).next_post_id && d.id >= 1
                && d.title == payload.title && d.content == payload.content && d.user_id == user_id
                && d.is_published == (match payload.is_published {
                Some(b) => b,
                None => false,
            }) && d.created_at == now && d.updated_at == now
            &&& final(store).posts@.len() == old(store).posts@.len() + 1
            &&& forall|k: int|
                0 <= k < old(store).posts@.len() ==> final(store).posts@[k] == old(store).posts@[k]
            &&& final(store).posts@.last() == (crate::entities::Post {
                id: old(store).next_post_id,
                title: payload.title,
                content: payload.content,
                user_id: user_id,
                is_published: match payload.is_published {
                    Some(b) => b,
                    None => false,
                },
                created_at: now,
                updated_at: now,
            })
            &&& final(store).users@ == old(store).users@
        }),
{
    if !payload.validate() {
        return (400, ApiResponse::error("Invalid input data"));
    }
    match PostService::create_post(store, user_id, payload, now) {
        Ok(p) => {
            let resp = post_to_response(&p);
            (201, ApiResponse::success(resp, "Post created successfully"))
        },
        Err(_) => (500, ApiResponse::error("Failed to create post")),
    }
}

/// `GET /posts?page=&limit=`: always 200 with the requested page, its echoed
/// pagination, the total row count, and `total_pages = ceil(total / limit)`.
pub fn get_posts(store: &Store, params: &PaginationParams) -> (r: (
    u16,
    ApiResponse<PaginatedResponse<PostResponse>>,
))
    requires
        store.wf(),
    ensures
        r.0 == 200,
        r.1.success,
        r.1.well_formed(),
        r.1.message@ == "Posts retrieved successfully"@,
        r.1.data matches Some(pr) && {
            &&& pr.page == effective_page(params.page)
            &&& pr.limit == effective_limit(params.limit)
            &&& pr.total == store.posts@.len()
            &&& pr.total_pages == ceil_div(
                store.posts@.len() as int,
                effective_limit(params.limit) as int,
            )
            &&& pr.data@ == to_post_responses(
                page_of(store.posts@, effective_page(params.page), effective_limit(params.limit)),
            )
            &&& pr.data@.len() <= pr.limit
        },
{
    let (page, limit) = normalize(params);
    let posts = PostService::get_posts(store, params);
    let total_rows = PostService::get_post_count(store);
    let total = total_rows as u64;
    let tp = total_pages(total, limit);
    let data = posts_to_responses(&posts);
    let pr = PaginatedResponse { data, page, limit, total, total_pages: tp };
    (200, ApiResponse::success(pr, "Posts retrieved successfully"))
}

/// `GET /posts/{id}`: 200 either way; a failure envelope saying "not found"
/// when no row carries the id.
pub fn get_post_by_id(store: &Store, id: i32) -> (r: (u16, ApiResponse<PostResponse>))
    ensures
        r.0 == 200,
        r.1.well_formed(),
        post_id_exists(store.posts@, id) ==> r.1.success && r.1.message@
            == "Post found successfully"@ && (r.1.data matches Some(d) && exists|i: int|
            0 <= i < store.posts@.len() && (#[trigger] store.posts@[i]).id == id && d
                == spec_post_response(store.posts@[i])),
        !post_id_exists(store.posts@, id) ==> !r.1.success && r.1.data is None && r.1.message@
            == "Post not found"@,
{
    match PostService::get_post_by_id(store, id) {
        Some(p) => {
            let resp = post_to_response(&p);
            proof {
                let i = choose|i: int|
                    0 <= i < store.posts@.len() && (#[trigger] store.posts@[i]) == p
                        && store.posts@[i].id == id;
                assert(store.posts@[i].id == id && resp == spec_post_response(store.posts@[i]));
            }
            (200, ApiResponse::success(resp, "Post found successfully"))
        },
        None => (200, ApiResponse::error("Post not found")),
    }
}

/// `PUT /posts/{id}`: 400 on invalid input; a "not found" failure envelope
/// for a missing row; otherwise 200 with the merged row — present fields
/// written, absent fields untouched.
pub fn update_post(store: &mut Store, id: i32, payload: &UpdatePostRequest, now: i64) -> (r: (
    u16,
    ApiResponse<PostResponse>,
))
    requires
        old(store).wf(),
    ensures
        final(store).wf(),
        r.1.well_formed(),
        final(store).users@ == old(store).users@,
        final(store).next_user_id == old(store).next_user_id,
        final(store).next_post_id == old(store).next_post_id,
        !payload.valid() ==> r.0 == 400 && !r.1.success && r.1.message@ == "Invalid input data"@
            && final(store).posts@ == old(store).posts@,
        (payload.valid() && !post_id_exists(old(store).posts@, id)) ==> r.0 == 200
            && !r.1.success && r.1.message@ == "Post not found"@ && final(store).posts@ == old(store).posts@,
        (payload.valid() && post_id_exists(old(store).posts@, id)) ==> r.0 == 200 && r.1.success
            && r.1.message@ == "Post updated successfully"@ && (r.1.data matches Some(d)
            && exists|i: int|
            0 <= i < old(store).posts@.len() && (#[trigger] old(store).posts@[i]).id == id && d
                == spec_post_response(spec_merge_post(old(store).posts@[i], *payload, now))
                && final(store).posts@ == old(store).posts@.update(
                i,
                spec_merge_post(old(store).posts@[i], *payload, now),
            )),
{
    if !payload.validate() {
        return (400, ApiResponse::error("Invalid input data"));
    }
    match PostService::update_post(store, id, payload, now) {
        Some(p) => {
            let resp = post_to_response(&p);
            (200, ApiResponse::success(resp, "Post updated successfully"))
        },
        None => (200, ApiResponse::error("Post not found")),
    }
}

/// `DELETE /posts/{id}`: 200 either way; a missing id answers the
/// "not found" failure envelope, never a fault.
pub fn delete_post(store: &mut Store, id: i32) -> (r: (u16, ApiResponse<String>))
    requires
        old(store).wf(),
    ensures
        final(store).wf(),
        r.0 == 200,
        r.1.well_formed(),
        final(store).users@ == old(store).users@,
        final(store).next_user_id == old(store).next_user_id,
        final(store).next_post_id == old(store).next_post_id,
        post_id_exists(old(store).posts@, id) ==> r.1.success && r.1.message@
            == "Post deleted successfully"@ && (r.1.data matches Some(d) && d@
            == "Post deleted"@) && final(store).posts@ == old(store).posts@.filter(
            crate::store::keep_other_posts(id),
        ) && !post_id_exists(final(store).posts@, id),
        !post_id_exists(old(store).posts@, id) ==> !r.1.success && r.1.message@
            == "Post not found"@ && *final(store) == *old(store),
{
    if PostService::delete_post(store, id) {
        (200, ApiResponse::success("Post deleted".to_owned(), "Post deleted successfully"))
    } else {
        (200, ApiResponse::error("Post not found"))
    }
}

} // verus!
