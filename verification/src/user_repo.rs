//! CRUD on the users table. "Not found" is an ordinary outcome (`None` /
//! `false`), distinct from a repository fault; the unique-email constraint
//! surfaces as `RepoError::Conflict`. Deleting a user cascades to the posts
//! it owns.

use vstd::prelude::*;

use crate::entities::{Post, User};
use crate::error::RepoError;
use crate::pagination::page_of;
use crate::store::{
    email_taken, email_taken_by_other, keep_other_owners, keep_other_users, lemma_filter_ordered,
    user_id_exists, Store,
};
use crate::validation::{CreateUserRequest, UpdateUserRequest};

verus! {

use vstd::pervasive::VecAdditionalExecFns;

pub struct UserRepository;

/// `u` with the fields present in `req` written over it; `updated_at` is set
/// to the update instant, everything absent keeps its prior value.
pub open spec fn spec_merge_user(u: User, req: UpdateUserRequest, now: i64) -> User {
    User {
        id: u.id,
        email: match req.email {
            Some(e) => e,
            None => u.email,
        },
        username: match req.username {
            Some(n) => n,
            None => u.username,
        },
        password_hash: u.password_hash,
        full_name: match req.full_name {
            Some(n) => Some(n),
            None => u.full_name,
        },
        is_active: match req.is_active {
            Some(b) => b,
            None => u.is_active,
        },
        created_at: u.created_at,
        updated_at: now,
    }
}

/// Deleting a user cascades: a post that was owned by the deleted user is
/// not found in what the cascade leaves behind.
pub proof fn lemma_cascade_delete(old_posts: Seq<Post>, user_id: i32, pid: i32)
    requires
        forall|a: int, b: int| 0 <= a < b < old_posts.len() ==> old_posts[a].id < old_posts[b].id,
        exists|i: int|
            0 <= i < old_posts.len() && (#[trigger] old_posts[i]).id == pid
                && old_posts[i].user_id == user_id,
    ensures
        !crate::store::post_id_exists(old_posts.filter(crate::store::keep_other_owners(user_id)), pid),
{
    let pred = crate::store::keep_other_owners(user_id);
    let filtered = old_posts.filter(pred);
    let w = choose|i: int|
        0 <= i < old_posts.len() && (#[trigger] old_posts[i]).id == pid && old_posts[i].user_id
            == user_id;
    lemma_filter_ordered(old_posts, pred, |p: Post| p.id as int);
    assert forall|k: int| 0 <= k < filtered.len() implies (#[trigger] filtered[k]).id != pid by {
        old_posts.lemma_filter_pred(pred, k);
        assert(old_posts.contains(filtered[k]));
        let m = choose|m: int| 0 <= m < old_posts.len() && old_posts[m] == filtered[k];
        if filtered[k].id == pid {
            // post ids are strictly increasing, so `m` must be the very row
            // owned by the deleted user — which the filter dropped
            if m < w {
                assert(old_posts[m].id < old_posts[w].id);
            }
            if w < m {
                assert(old_posts[w].id < old_posts[m].id);
            }
            assert(m == w);
            assert(false);
        }
    }
}

/// A partial update writes only what the payload carries: every field the
/// payload leaves out keeps its prior value, and the id, the credential and
/// the creation instant are never touched.
pub proof fn lemma_update_preserves_absent_fields(u: User, req: UpdateUserRequest, now: i64)
    ensures
        spec_merge_user(u, req, now).id == u.id,
        spec_merge_user(u, req, now).password_hash == u.password_hash,
        spec_merge_user(u, req, now).created_at == u.created_at,
        req.email is None ==> spec_merge_user(u, req, now).email == u.email,
        req.username is None ==> spec_merge_user(u, req, now).username == u.username,
        req.full_name is None ==> spec_merge_user(u, req, now).full_name == u.full_name,
        req.is_active is None ==> spec_merge_user(u, req, now).is_active == u.is_active,
{
}

pub(crate) fn email_exists(users: &Vec<User>, email: &String) -> (r: bool)
    ensures
        r == email_taken(users@, email@),
{
    let mut i: usize = 0;
    while i < users.len()
        invariant
            i <= users@.len(),
            forall|k: int| 0 <= k < i ==> (#[trigger] users@[k]).email@ != email@,
        decreases users@.len() - i,
    {
        if users[i].email == *email {
            return true;
        }
        i += 1;
    }
    false
}

fn email_exists_on_other(users: &Vec<User>, email: &String, id: i32) -> (r: bool)
    ensures
        r == email_taken_by_other(users@, email@, id),
{
    let mut i: usize = 0;
    while i < users.len()
        invariant
            i <= users@.len(),
            forall|k: int|
                0 <= k < i ==> ((#[trigger] users@[k]).email@ != email@ || users@[k].id == id),
        decreases users@.len() - i,
    {
        if users[i].email == *email && users[i].id != id {
            return true;
        }
        i += 1;
    }
    false
}

pub(crate) fn find_user_index(users: &Vec<User>, id: i32) -> (r: Option<usize>)
    ensures
        match r {
            Some(i) => i < users@.len() && users@[i as int].id == id,
            None => !user_id_exists(users@, id),
        },
{
    let mut i: usize = 0;
    while i < users.len()
        invariant
            i <= users@.len(),
            forall|k: int| 0 <= k < i ==> (#[trigger] users@[k]).id != id,
        decreases users@.len() - i,
    {
        if users[i].id == id {
            return Some(i);
        }
        i += 1;
    }
    None
}

impl UserRepository {
    /// Insert a new user row. The caller hands the credential already in the
    /// form to be stored; the row gets the next free id and both timestamps
    /// set to `now`. Fails with `Conflict` if and only if the email is
    /// already taken, and with `Store` only when the id space is exhausted.
    pub fn create(store: &mut Store, user_data: &CreateUserRequest, now: i64) -> (r: Result<
        User,
        RepoError,
    >)
        requires
            old(store).wf(),
        ensures
            final(store).wf(),
            match r {
                Ok(u) => {
                    &&& !email_taken(old(store).users@, user_data.email@)
                    &&& old(store).next_user_id < i32::MAX
                    &&& u == (User {
                        id: old(store).next_user_id,
                        email: user_data.email,
                        username: user_data.username,
                        password_hash: user_data.password,
                        full_name: user_data.full_name,
                        is_active: true,
                        created_at: now,
                        updated_at: now,
                    })
                    &&& final(store).users@ == old(store).users@.push(u)
                    &&& final(store).posts@ == old(store).posts@
                    &&& final(store).next_user_id == old(store).next_user_id + 1
                    &&& final(store).next_post_id == old(store).next_post_id
                },
                Err(RepoError::Conflict) => {
                    &&& email_taken(old(store).users@, user_data.email@)
                    &&& *final(store) == *old(store)
                },
                Err(RepoError::Store) => {
                    &&& !email_taken(old(store).users@, user_data.email@)
                    &&& old(store).next_user_id == i32::MAX
                    &&& *final(store) == *old(store)
                },
            },
    {
        if email_exists(&store.users, &user_data.email) {
            return Err(RepoError::Conflict);
        }
        if store.next_user_id == i32::MAX {
            return Err(RepoError::Store);
        }
        let u = User {
            id: store.next_user_id,
            email: user_data.email.clone(),
            username: user_data.username.clone(),
            password_hash: user_data.password.clone(),
            full_name: match &user_data.full_name {
                Some(n) => Some(n.clone()),
                None => None,
            },
            is_active: true,
            created_at: now,
            updated_at: now,
        };
        let ret = u.clone();
        store.users.push(u);
        store.next_user_id = store.next_user_id + 1;
        proof {
            let new_users = store.users@;
            let olds = old(store).users@;
            assert forall|k: int|
                0 <= k < store.posts@.len() implies user_id_exists(
                new_users,
                (#[trigger] store.posts@[k]).user_id,
            ) by {
                let w = choose|i: int|
                    0 <= i < olds.len() && olds[i].id == store.posts@[k].user_id;
                assert(new_users[w].id == store.posts@[k].user_id);
            }
        }
        Ok(ret)
    }

    /// Look a user up by id: `None` exactly when no row carries the id.
    pub fn find_by_id(store: &Store, id: i32) -> (r: Option<User>)
        ensures
            match r {
                Some(u) => exists|i: int|
                    0 <= i < store.users@.len() && (#[trigger] store.users@[i]) == u
                        && store.users@[i].id == id,
                None => !user_id_exists(store.users@, id),
            },
    {
        match find_user_index(&store.users, id) {
            Some(i) => {
                let u = store.users[i].clone();
                proof {
                    assert(store.users@[i as int] == u);
                }
                Some(u)
            },
            None => None,
        }
    }

    /// The requested page of users, newest first: exactly
    /// `page_of(store.users@, page, limit)`, hence never more than `limit`
    /// items.
    pub fn find_all(store: &Store, page: u64, limit: u64) -> (r: Vec<User>)
        requires
            page >= 1,
            limit >= 1,
        ensures
            r@ == page_of(store.users@, page, limit),
            r@.len() <= limit,
    {
        let n: usize = store.users.len();
        let mut out: Vec<User> = Vec::new();
        let off: u64 = match (page - 1).checked_mul(limit) {
            Some(o) => o,
            None => {
                proof {
                    assert(out@ =~= page_of(store.users@, page, limit));
                }
                return out;
            },
        };
        if off >= n as u64 {
            proof {
                assert(out@ =~= page_of(store.users@, page, limit));
            }
            return out;
        }
        let off_us: usize = off as usize;
        let avail: usize = n - off_us;
        let count: usize = if (avail as u64) > limit {
            limit as usize
        } else {
            avail
        };
        let mut j: usize = 0;
        while j < count
            invariant
                j <= count,
                n == store.users@.len(),
                off_us < n,
                off_us as u64 == off,
                off as int == (page - 1) * limit,
                count <= n - off_us,
                count as u64 <= limit,
                count == n - off_us || count as u64 == limit,
                out@.len() == j,
                forall|k: int| 0 <= k < j ==> out@[k] == store.users@[n - 1 - off_us - k],
            decreases count - j,
        {
            let idx: usize = n - 1 - off_us - j;
            out.push(store.users[idx].clone());
            j += 1;
        }
        proof {
            assert(out@ =~= page_of(store.users@, page, limit));
        }
        out
    }

    /// Partial update: write only the fields present in `user_data` over the
    /// stored row, bump `updated_at`, leave every other row alone. `None`
    /// exactly when the id is absent; `Conflict` exactly when the payload
    /// asks for an email another user already has.
    pub fn update(store: &mut Store, id: i32, user_data: &UpdateUserRequest, now: i64) -> (r:
        Result<Option<User>, RepoError>)
        requires
            old(store).wf(),
        ensures
            final(store).wf(),
            final(store).posts@ == old(store).posts@,
            final(store).next_user_id == old(store).next_user_id,
            final(store).next_post_id == old(store).next_post_id,
            match r {
                Ok(opt) => match opt {
                    None => {
                        &&& !user_id_exists(old(store).users@, id)
                        &&& final(store).users@ == old(store).users@
                    },
                    Some(u) => {
                        &&& !(match user_data.email {
                            Some(e) => email_taken_by_other(old(store).users@, e@, id),
                            None => false,
                        })
                        &&& exists|i: int|
                            0 <= i < old(store).users@.len() && (#[trigger] old(
                                store,
                            ).users@[i]).id == id && u == spec_merge_user(
                                old(store).users@[i],
                                *user_data,
                                now,
                            ) && final(store).users@ == old(store).users@.update(i, u)
                    },
                },
                Err(e) => {
                    &&& e == RepoError::Conflict
                    &&& user_id_exists(old(store).users@, id)
                    &&& match user_data.email {
                        Some(e2) => email_taken_by_other(old(store).users@, e2@, id),
                        None => false,
                    }
                    &&& final(store).users@ == old(store).users@
                },
            },
    {
        let idx: usize = match find_user_index(&store.users, id) {
            Some(i) => i,
            None => {
                return Ok(None);
            },
        };
        match &user_data.email {
            Some(e) => {
                if email_exists_on_other(&store.users, e, id) {
                    return Err(RepoError::Conflict);
                }
            },
            None => {},
        }
        let merged = User {
            id: store.users[idx].id,
            email: match &user_data.email {
                Some(e) => e.clone(),
                None => store.users[idx].email.clone(),
            },
            username: match &user_data.username {
                Some(n) => n.clone(),
                None => store.users[idx].username.clone(),
            },
            password_hash: store.users[idx].password_hash.clone(),
            full_name: match &user_data.full_name {
                Some(n) => Some(n.clone()),
                None => match &store.users[idx].full_name {
                    Some(n) => Some(n.clone()),
                    None => None,
                },
            },
            is_active: match user_data.is_active {
                Some(b) => b,
                None => store.users[idx].is_active,
            },
            created_at: store.users[idx].created_at,
            updated_at: now,
        };
        let ret = merged.clone();
        store.users.set(idx, merged);
        proof {
            let i = idx as int;
            let olds = old(store).users@;
            let news = store.users@;
            assert(news == olds.update(i, ret));
            assert(ret == spec_merge_user(olds[i], *user_data, now));
            assert forall|k: int| 0 <= k < news.len() implies (#[trigger] news[k]).id
                == olds[k].id by {}
            assert forall|a: int, b: int|
                0 <= a < b < news.len() implies news[a].email@ != news[b].email@ by {
                if a != i && b != i {
                    assert(news[a] == olds[a] && news[b] == olds[b]);
                } else {
                    let other: int = if a == i {
                        b
                    } else {
                        a
                    };
                    assert(news[other] == olds[other]);
                    if olds[other].id == id {
                        // two rows cannot share the id: ids are strictly increasing
                        assert(olds[other].id != olds[i].id);
                    }
                    match user_data.email {
                        Some(e) => {
                            assert(!(olds[other].email@ == e@ && olds[other].id != id));
                        },
                        None => {
                            assert(news[i].email == olds[i].email);
                        },
                    }
                }
            }
            assert forall|k: int|
                0 <= k < store.posts@.len() implies user_id_exists(
                news,
                (#[trigger] store.posts@[k]).user_id,
            ) by {
                let w = choose|m: int|
                    0 <= m < olds.len() && olds[m].id == store.posts@[k].user_id;
                assert(news[w].id == olds[w].id);
            }
        }
        Ok(Some(ret))
    }

    /// Remove a user row and, in the same step, every post it owns (the
    /// cascade of the foreign key). Returns whether a row existed; a missing
    /// id is an ordinary `false`, never a fault.
    pub fn delete(store: &mut Store, id: i32) -> (r: bool)
        requires
            old(store).wf(),
        ensures
            final(store).wf(),
            r == user_id_exists(old(store).users@, id),
            final(store).next_user_id == old(store).next_user_id,
            final(store).next_post_id == old(store).next_post_id,
            !r ==> *final(store) == *old(store),
            r ==> final(store).users@ == old(store).users@.filter(keep_other_users(id)),
            r ==> final(store).posts@ == old(store).posts@.filter(keep_other_owners(id)),
            !user_id_exists(final(store).users@, id),
    {
        let exists_row = match find_user_index(&store.users, id) {
            Some(_) => true,
            None => false,
        };
        if !exists_row {
            return false;
        }
        let ghost upred = keep_other_users(id);
        let ghost ppred = keep_other_owners(id);

        let n: usize = store.users.len();
        let mut kept_users: Vec<User> = Vec::new();
        let mut i: usize = 0;
        while i < n
            invariant
                i <= n,
                n == store.users@.len(),
                upred == keep_other_users(id),
                kept_users@ == store.users@.subrange(0, i as int).filter(upred),
            decreases n - i,
        {
            proof {
                reveal(Seq::filter);
                assert(store.users@.subrange(0, i + 1).drop_last() =~= store.users@.subrange(
                    0,
                    i as int,
                ));
                assert(store.users@.subrange(0, i + 1).last() == store.users@[i as int]);
            }
            if store.users[i].id != id {
                kept_users.push(store.users[i].clone());
            }
            i += 1;
        }
        proof {
            assert(store.users@.subrange(0, n as int) =~= store.users@);
        }

        let m: usize = store.posts.len();
        let mut kept_posts: Vec<Post> = Vec::new();
        let mut j: usize = 0;
        while j < m
            invariant
                j <= m,
                m == store.posts@.len(),
                ppred == keep_other_owners(id),
                kept_posts@ == store.posts@.subrange(0, j as int).filter(ppred),
            decreases m - j,
        {
            proof {
                reveal(Seq::filter);
                assert(store.posts@.subrange(0, j + 1).drop_last() =~= store.posts@.subrange(
                    0,
                    j as int,
                ));
                assert(store.posts@.subrange(0, j + 1).last() == store.posts@[j as int]);
            }
            if store.posts[j].user_id != id {
                kept_posts.push(store.posts[j].clone());
            }
            j += 1;
        }
        proof {
            assert(store.posts@.subrange(0, m as int) =~= store.posts@);
        }

        store.users = kept_users;
        store.posts = kept_posts;

        proof {
            let olds = old(store).users@;
            let oldp = old(store).posts@;
            let news = store.users@;
            let newp = store.posts@;
            lemma_filter_ordered(olds, upred, |u: User| u.id as int);
            lemma_filter_ordered(oldp, ppred, |p: Post| p.id as int);
            assert(news == olds.filter(upred));
            assert(newp == oldp.filter(ppred));
            assert forall|k: int| 0 <= k < news.len() implies 1 <= (#[trigger] news[k]).id
                < store.next_user_id && news[k].id != id by {
                assert(olds.contains(news[k]));
                let w = choose|w: int| 0 <= w < olds.len() && olds[w] == news[k];
                olds.lemma_filter_pred(upred, k);
            }
            assert forall|k: int| 0 <= k < newp.len() implies 1 <= (#[trigger] newp[k]).id
                < store.next_post_id by {
                assert(oldp.contains(newp[k]));
                let w = choose|w: int| 0 <= w < oldp.len() && oldp[w] == newp[k];
            }
            assert forall|k: int|
                0 <= k < newp.len() implies user_id_exists(
                news,
                (#[trigger] newp[k]).user_id,
            ) by {
                oldp.lemma_filter_pred(ppred, k);
                assert(oldp.contains(newp[k]));
                let w = choose|w: int| 0 <= w < oldp.len() && oldp[w] == newp[k];
                let uw = choose|uw: int| 0 <= uw < olds.len() && olds[uw].id == newp[k].user_id;
                assert(upred(olds[uw]));
                olds.lemma_filter_contains(upred, uw);
                assert(news.contains(olds[uw]));
                let v = choose|v: int| 0 <= v < news.len() && news[v] == olds[uw];
                assert(news[v].id == newp[k].user_id);
            }
        }
        true
    }

    /// Number of user rows.
    pub fn count(store: &Store) -> (r: usize)
        ensures
            r == store.users@.len(),
    {
        store.users.len()
    }
}

} // verus!
