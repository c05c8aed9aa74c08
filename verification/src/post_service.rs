//! Business rules on top of the post repository: pagination defaulting, and
//! the owner- and published-filtered views of a page.

use vstd::prelude::*;

use crate::entities::Post;
use crate::error::{AppError, RepoError};
use crate::pagination::{effective_limit, effective_page, page_of, PaginationParams};
use crate::post_repo::{spec_merge_post, PostRepository};
use crate::store::{post_id_exists, user_id_exists, Store};
use crate::validation::{CreatePostRequest, UpdatePostRequest};

verus! {

/// Keeps the posts owned by user `id`.
pub open spec fn owned_by(id: i32) -> spec_fn(Post) -> bool {
    |p: Post| p.user_id == id
}

/// Keeps the published posts.
pub open spec fn published_only() -> spec_fn(Post) -> bool {
    |p: Post| p.is_published
}

fn filter_owned(posts: &Vec<Post>, user_id: i32) -> (r: Vec<Post>)
    ensures
        r@ == posts@.filter(owned_by(user_id)),
{
    let ghost pred = owned_by(user_id);
    let n: usize = posts.len();
    let mut out: Vec<Post> = Vec::new();
    let mut i: usize = 0;
    while i < n
        invariant
            i <= n,
            n == posts@.len(),
            pred == owned_by(user_id),
            out@ == posts@.subrange(0, i as int).filter(pred),
        decreases n - i,
    {
        proof {
            reveal(Seq::filter);
            assert(posts@.subrange(0, i + 1).drop_last() =~= posts@.subrange(0, i as int));
            assert(posts@.subrange(0, i + 1).last() == posts@[i as int]);
        }
        if posts[i].user_id == user_id {
            out.push(posts[i].clone());
        }
        i += 1;
    }
    proof {
        assert(posts@.subrange(0, n as int) =~= posts@);
    }
    out
}

fn filter_published(posts: &Vec<Post>) -> (r: Vec<Post>)
    ensures
        r@ == posts@.filter(published_only()),
{
    let ghost pred = published_only();
    let n: usize = posts.len();
    let mut out: Vec<Post> = Vec::new();
    let mut i: usize = 0;
    while i < n
        invariant
            i <= n,
            n == posts@.len(),
            pred == published_only(),
            out@ == posts@.subrange(0, i as int).filter(pred),
        decreases n - i,
    {
        proof {
            reveal(Seq::filter);
            assert(posts@.subrange(0, i + 1).drop_last() =~= posts@.subrange(0, i as int));
            assert(posts@.subrange(0, i + 1).last() == posts@[i as int]);
        }
        if posts[i].is_published {
            out.push(posts[i].clone());
        }
        i += 1;
    }
    proof {
        assert(posts@.subrange(0, n as int) =~= posts@);
    }
    out
}

pub struct PostService;

impl PostService {
    /// Create a post owned by `user_id`; a missing owner or an exhausted id
    /// space is a store-level fault.
    pub fn create_post(store: &mut Store, user_id: i32, post_data: &CreatePostRequest, now: i64) -> (r:
        Result<Post, AppError>)
        requires
            old(store).wf(),
        ensures
            final(store).wf(),
            match r {
                Ok(p) => {
                    &&& user_id_exists(old(store).users@, user_id)
                    &&& old(store).next_post_id < i32::MAX
                    &&& p == (Post {
                        id: old(store).next_post_id,
                        title: post_data.title,
                        content: post_data.content,
                        user_id: user_id,
                        is_published: match post_data.is_published {
                            Some(b) => b,
                            None => false,
                        },
                        created_at: now,
                        updated_at: now,
                    })
                    &&& final(store).posts@ == old(store).posts@.push(p)
                    &&& final(store).users@ == old(store).users@
                    &&& final(store).next_post_id == old(store).next_post_id + 1
                    &&& final(store).next_user_id == old(store).next_user_id
                },
                Err(e) => {
                    &&& e matches AppError::DatabaseError(_)
                    &&& !user_id_exists(old(store).users@, user_id) || old(store).next_post_id
                        == i32::MAX
                    &&& *final(store) == *old(store)
                },
            },
    {
        match PostRepository::create(store, user_id, post_data, now) {
            Ok(p) => Ok(p),
            Err(RepoError::Conflict) => Err(
                AppError::DatabaseError("Failed to create post".to_owned()),
            ),
            Err(RepoError::Store) => Err(
                AppError::DatabaseError("Failed to create post".to_owned()),
            ),
        }
    }

    /// The requested page of posts, after pagination defaulting.
    pub fn get_posts(store: &Store, params: &PaginationParams) -> (r: Vec<Post>)
        ensures
            r@ == page_of(
                store.posts@,
                effective_page(params.page),
                effective_limit(params.limit),
            ),
            r@.len() <= effective_limit(params.limit),
    {
        let (page, limit) = crate::pagination::normalize(params);
        PostRepository::find_all(store, page, limit)
    }

    /// Look a post up by id.
    pub fn get_post_by_id(store: &Store, id: i32) -> (r: Option<Post>)
        ensures
            match r {
                Some(p) => exists|i: int|
                    0 <= i < store.posts@.len() && (#[trigger] store.posts@[i]) == p
                        && store.posts@[i].id == id,
                None => !post_id_exists(store.posts@, id),
            },
    {
        PostRepository::find_by_id(store, id)
    }

    /// Partial update; `None` exactly when the id is absent.
    pub fn update_post(store: &mut Store, id: i32, post_data: &UpdatePostRequest, now: i64) -> (r:
        Option<Post>)
        requires
            old(store).wf(),
        ensures
            final(store).wf(),
            final(store).users@ == old(store).users@,
            final(store).next_user_id == old(store).next_user_id,
            final(store).next_post_id == old(store).next_post_id,
            match r {
                None => {
                    &&& !post_id_exists(old(store).posts@, id)
                    &&& final(store).posts@ == old(store).posts@
                },
                Some(p) => exists|i: int|
                    0 <= i < old(store).posts@.len() && (#[trigger] old(store).posts@[i]).id == id
                        && p == spec_merge_post(old(store).posts@[i], *post_data, now)
                        && final(store).posts@ == old(store).posts@.update(i, p),
            },
    {
        PostRepository::update(store, id, post_data, now)
    }

    /// Delete a post; a missing id is an ordinary `false`.
    pub fn delete_post(store: &mut Store, id: i32) -> (r: bool)
        requires
            old(store).wf(),
        ensures
            final(store).wf(),
            r == post_id_exists(old(store).posts@, id),
            final(store).users@ == old(store).users@,
            final(store).next_user_id == old(store).next_user_id,
            final(store).next_post_id == old(store).next_post_id,
            !r ==> *final(store) == *old(store),
            r ==> final(store).posts@ == old(store).posts@.filter(
                crate::store::keep_other_posts(id),
            ),
            !post_id_exists(final(store).posts@, id),
    {
        PostRepository::delete(store, id)
    }

    /// Total number of posts.
    pub fn get_post_count(store: &Store) -> (r: usize)
        ensures
            r == store.posts@.len(),
    {
        PostRepository::count(store)
    }

    /// The requested page of posts, narrowed to those owned by `user_id`
    /// (the page is fetched first, then filtered).
    pub fn get_posts_by_user(store: &Store, user_id: i32, params: &PaginationParams) -> (r: Vec<
        Post,
    >)
        ensures
            r@ == page_of(
                store.posts@,
                effective_page(params.page),
                effective_limit(params.limit),
            ).filter(owned_by(user_id)),
    {
        let page = Self::get_posts(store, params);
        filter_owned(&page, user_id)
    }

    /// The requested page of posts, narrowed to the published ones
    /// (the page is fetched first, then filtered).
    pub fn get_published_posts(store: &Store, params: &PaginationParams) -> (r: Vec<Post>)
        ensures
            r@ == page_of(
                store.posts@,
                effective_page(params.page),
                effective_limit(params.limit),
            ).filter(published_only()),
    {
        let page = Self::get_posts(store, params);
        filter_published(&page)
    }
}

} // verus!
