//! CRUD on the posts table. Every post is created against an existing user
//! (the foreign key); "not found" is an ordinary outcome, never a fault.

use vstd::prelude::*;

use crate::entities::Post;
use crate::error::RepoError;
use crate::pagination::page_of;
use crate::store::{
    keep_other_posts, lemma_filter_ordered, post_id_exists, user_id_exists, Store,
};
use crate::user_repo::find_user_index;
use crate::validation::{CreatePostRequest, UpdatePostRequest};

verus! {

use vstd::pervasive::VecAdditionalExecFns;

pub struct PostRepository;

/// `p` with the fields present in `req` written over it; `updated_at` is set
/// to the update instant, everything absent keeps its prior value. The owner
/// never changes through an update.
pub open spec fn spec_merge_post(p: Post, req: UpdatePostRequest, now: i64) -> Post {
    Post {
        id: p.id,
        title: match req.title {
            Some(t) => t,
            None => p.title,
        },
        content: match req.content {
            Some(c) => c,
            None => p.content,
        },
        user_id: p.user_id,
        is_published: match req.is_published {
            Some(b) => b,
            None => p.is_published,
        },
        created_at: p.created_at,
        updated_at: now,
    }
}

/// A partial update writes only what the payload carries: every field the
/// payload leaves out keeps its prior value, and the id, the owner and the
/// creation instant are never touched.
pub proof fn lemma_update_preserves_absent_fields(p: Post, req: UpdatePostRequest, now: i64)
    ensures
        spec_merge_post(p, req, now).id == p.id,
        spec_merge_post(p, req, now).user_id == p.user_id,
        spec_merge_post(p, req, now).created_at == p.created_at,
        req.title is None ==> spec_merge_post(p, req, now).title == p.title,
        req.content is None ==> spec_merge_post(p, req, now).content == p.content,
        req.is_published is None ==> spec_merge_post(p, req, now).is_published == p.is_published,
{
}

fn find_post_index(posts: &Vec<Post>, id: i32) -> (r: Option<usize>)
    ensures
        match r {
            Some(i) => i < posts@.len() && posts@[i as int].id == id,
            None => !post_id_exists(posts@, id),
        },
{
    let mut i: usize = 0;
    while i < posts.len()
        invariant
            i <= posts@.len(),
            forall|k: int| 0 <= k < i ==> (#[trigger] posts@[k]).id != id,
        decreases posts@.len() - i,
    {
        if posts[i].id == id {
            return Some(i);
        }
        i += 1;
    }
    None
}

impl PostRepository {
    /// Insert a new post row owned by `user_id`, unpublished unless the
    /// payload says otherwise, both timestamps set to `now`. Fails with
    /// `Store` exactly when the owner does not exist (the foreign key) or
    /// the id space is exhausted.
    pub fn create(store: &mut Store, user_id: i32, post_data: &CreatePostRequest, now: i64) -> (r:
        Result<Post, RepoError>)
        requires
            old(store).wf(),
        ensures
            final(store).wf(),
            match r {
                Ok(p) => {
                    &&& user_id_exists(old(store).users@, user_id)
                    &&& old(store).next_post_id < i32::MAX
                    &&& p == (Post {
                        id: old(store).next_post_id,
                        title: post_data.title,
                        content: post_data.content,
                        user_id: user_id,
                        is_published: match post_data.is_published {
                            Some(b) => b,
                            None => false,
                        },
                        created_at: now,
                        updated_at: now,
                    })
                    &&& final(store).posts@ == old(store).posts@.push(p)
                    &&& final(store).users@ == old(store).users@
                    &&& final(store).next_post_id == old(store).next_post_id + 1
                    &&& final(store).next_user_id == old(store).next_user_id
                },
                Err(e) => {
                    &&& e == RepoError::Store
                    &&& !user_id_exists(old(store).users@, user_id) || old(store).next_post_id
                        == i32::MAX
                    &&& *final(store) == *old(store)
                },
            },
    {
        let owner = match find_user_index(&store.users, user_id) {
            Some(_) => true,
            None => false,
        };
        if !owner {
            return Err(RepoError::Store);
        }
        if store.next_post_id == i32::MAX {
            return Err(RepoError::Store);
        }
        let p = Post {
            id: store.next_post_id,
            title: post_data.title.clone(),
            content: post_data.content.clone(),
            user_id: user_id,
            is_published: match post_data.is_published {
                Some(b) => b,
                None => false,
            },
            created_at: now,
            updated_at: now,
        };
        let ret = p.clone();
        store.posts.push(p);
        store.next_post_id = store.next_post_id + 1;
        proof {
            let olds = old(store).users@;
            assert forall|k: int|
                0 <= k < store.posts@.len() implies user_id_exists(
                store.users@,
                (#[trigger] store.posts@[k]).user_id,
            ) by {
                if k < store.posts@.len() - 1 {
                    let w = choose|i: int|
                        0 <= i < olds.len() && olds[i].id == old(store).posts@[k].user_id;
                    assert(store.users@[w].id == store.posts@[k].user_id);
                }
            }
        }
        Ok(ret)
    }

    /// Look a post up by id: `None` exactly when no row carries the id.
    pub fn find_by_id(store: &Store, id: i32) -> (r: Option<Post>)
        ensures
            match r {
                Some(p) => exists|i: int|
                    0 <= i < store.posts@.len() && (#[trigger] store.posts@[i]) == p
                        && store.posts@[i].id == id,
                None => !post_id_exists(store.posts@, id),
            },
    {
        match find_post_index(&store.posts, id) {
            Some(i) => {
                let p = store.posts[i].clone();
                proof {
                    assert(store.posts@[i as int] == p);
                }
                Some(p)
            },
            None => None,
        }
    }

    /// The requested page of posts, newest first: exactly
    /// `page_of(store.posts@, page, limit)`, hence never more than `limit`
    /// items.
    pub fn find_all(store: &Store, page: u64, limit: u64) -> (r: Vec<Post>)
        requires
            page >= 1,
            limit >= 1,
        ensures
            r@ == page_of(store.posts@, page, limit),
            r@.len() <= limit,
    {
        let n: usize = store.posts.len();
        let mut out: Vec<Post> = Vec::new();
        let off: u64 = match (page - 1).checked_mul(limit) {
            Some(o) => o,
            None => {
                proof {
                    assert(out@ =~= page_of(store.posts@, page, limit));
                }
                return out;
            },
        };
        if off >= n as u64 {
            proof {
                assert(out@ =~= page_of(store.posts@, page, limit));
            }
            return out;
        }
        let off_us: usize = off as usize;
        let avail: usize = n - off_us;
        let count: usize = if (avail as u64) > limit {
            limit as usize
        } else {
            avail
        };
        let mut j: usize = 0;
        while j < count
            invariant
                j <= count,
                n == store.posts@.len(),
                off_us < n,
                off_us as u64 == off,
                off as int == (page - 1) * limit,
                count <= n - off_us,
                count as u64 <= limit,
                count == n - off_us || count as u64 == limit,
                out@.len() == j,
                forall|k: int| 0 <= k < j ==> out@[k] == store.posts@[n - 1 - off_us - k],
            decreases count - j,
        {
            let idx: usize = n - 1 - off_us - j;
            out.push(store.posts[idx].clone());
            j += 1;
        }
        proof {
            assert(out@ =~= page_of(store.posts@, page, limit));
        }
        out
    }

    /// Partial update: write only the fields present in `post_data` over the
    /// stored row, bump `updated_at`, leave every other row alone. `None`
    /// exactly when the id is absent.
    pub fn update(store: &mut Store, id: i32, post_data: &UpdatePostRequest, now: i64) -> (r:
        Option<Post>)
        requires
            old(store).wf(),
        ensures
            final(store).wf(),
            final(store).users@ == old(store).users@,
            final(store).next_user_id == old(store).next_user_id,
            final(store).next_post_id == old(store).next_post_id,
            match r {
                None => {
                    &&& !post_id_exists(old(store).posts@, id)
                    &&& final(store).posts@ == old(store).posts@
                },
                Some(p) => exists|i: int|
                    0 <= i < old(store).posts@.len() && (#[trigger] old(store).posts@[i]).id == id
                        && p == spec_merge_post(old(store).posts@[i], *post_data, now)
                        && final(store).posts@ == old(store).posts@.update(i, p),
            },
    {
        let idx: usize = match find_post_index(&store.posts, id) {
            Some(i) => i,
            None => {
                return None;
            },
        };
        let merged = Post {
            id: store.posts[idx].id,
            title: match &post_data.title {
                Some(t) => t.clone(),
                None => store.posts[idx].title.clone(),
            },
            content: match &post_data.content {
                Some(c) => c.clone(),
                None => store.posts[idx].content.clone(),
            },
            user_id: store.posts[idx].user_id,
            is_published: match post_data.is_published {
                Some(b) => b,
                None => store.posts[idx].is_published,
            },
            created_at: store.posts[idx].created_at,
            updated_at: now,
        };
        let ret = merged.clone();
        store.posts.set(idx, merged);
        proof {
            let i = idx as int;
            let oldp = old(store).posts@;
            let newp = store.posts@;
            assert(ret == spec_merge_post(oldp[i], *post_data, now));
            assert forall|k: int| 0 <= k < newp.len() implies (#[trigger] newp[k]).id == oldp[k].id
                && newp[k].user_id == oldp[k].user_id by {}
            assert forall|k: int|
                0 <= k < newp.len() implies user_id_exists(
                store.users@,
                (#[trigger] newp[k]).user_id,
            ) by {
                assert(user_id_exists(store.users@, oldp[k].user_id));
            }
        }
        Some(ret)
    }

    /// Remove a post row. Returns whether a row existed; a missing id is an
    /// ordinary `false`, never a fault.
    pub fn delete(store: &mut Store, id: i32) -> (r: bool)
        requires
            old(store).wf(),
        ensures
            final(store).wf(),
            r == post_id_exists(old(store).posts@, id),
            final(store).users@ == old(store).users@,
            final(store).next_user_id == old(store).next_user_id,
            final(store).next_post_id == old(store).next_post_id,
            !r ==> *final(store) == *old(store),
            r ==> final(store).posts@ == old(store).posts@.filter(keep_other_posts(id)),
            !post_id_exists(final(store).posts@, id),
    {
        let exists_row = match find_post_index(&store.posts, id) {
            Some(_) => true,
            None => false,
        };
        if !exists_row {
            return false;
        }
        let ghost ppred = keep_other_posts(id);
        let m: usize = store.posts.len();
        let mut kept_posts: Vec<Post> = Vec::new();
        let mut j: usize = 0;
        while j < m
            invariant
                j <= m,
                m == store.posts@.len(),
                ppred == keep_other_posts(id),
                kept_posts@ == store.posts@.subrange(0, j as int).filter(ppred),
            decreases m - j,
        {
            proof {
                reveal(Seq::filter);
                assert(store.posts@.subrange(0, j + 1).drop_last() =~= store.posts@.subrange(
                    0,
                    j as int,
                ));
                assert(store.posts@.subrange(0, j + 1).last() == store.posts@[j as int]);
            }
            if store.posts[j].id != id {
                kept_posts.push(store.posts[j].clone());
            }
            j += 1;
        }
        proof {
            assert(store.posts@.subrange(0, m as int) =~= store.posts@);
        }
        store.posts = kept_posts;
        proof {
            let oldp = old(store).posts@;
            let newp = store.posts@;
            lemma_filter_ordered(oldp, ppred, |p: Post| p.id as int);
            assert(newp == oldp.filter(ppred));
            assert forall|k: int| 0 <= k < newp.len() implies 1 <= (#[trigger] newp[k]).id
                < store.next_post_id && newp[k].id != id by {
                oldp.lemma_filter_pred(ppred, k);
                assert(oldp.contains(newp[k]));
                let w = choose|w: int| 0 <= w < oldp.len() && oldp[w] == newp[k];
            }
            assert forall|k: int|
                0 <= k < newp.len() implies user_id_exists(
                store.users@,
                (#[trigger] newp[k]).user_id,
            ) by {
                assert(oldp.contains(newp[k]));
                let w = choose|w: int| 0 <= w < oldp.len() && oldp[w] == newp[k];
                assert(user_id_exists(store.users@, oldp[w].user_id));
            }
        }
        true
    }

    /// Number of post rows.
    pub fn count(store: &Store) -> (r: usize)
        ensures
            r == store.posts@.len(),
    {
        store.posts.len()
    }
}

} // verus!
