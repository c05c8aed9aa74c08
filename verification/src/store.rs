//! The relational store, modeled in memory: one table per entity, rows in
//! creation order, store-assigned increasing identifiers, a unique-email
//! constraint on users, and a foreign key from every post to its owning
//! user. The repositories are the only code that touches it.

use vstd::prelude::*;

use crate::entities::{Post, User};

verus! {

/// Some user row carries this id.
pub open spec fn user_id_exists(users: Seq<User>, id: i32) -> bool {
    exists|i: int| 0 <= i < users.len() && users[i].id == id
}

/// Some user row carries this email.
pub open spec fn email_taken(users: Seq<User>, email: Seq<char>) -> bool {
    exists|i: int| 0 <= i < users.len() && users[i].email@ == email
}

/// Some user row other than `id`'s carries this email.
pub open spec fn email_taken_by_other(users: Seq<User>, email: Seq<char>, id: i32) -> bool {
    exists|i: int| 0 <= i < users.len() && users[i].email@ == email && users[i].id != id
}

/// Some post row carries this id.
pub open spec fn post_id_exists(posts: Seq<Post>, id: i32) -> bool {
    exists|i: int| 0 <= i < posts.len() && posts[i].id == id
}

/// Keeps the user rows whose id is not `id`.
pub open spec fn keep_other_users(id: i32) -> spec_fn(User) -> bool {
    |u: User| u.id != id
}

/// Keeps the post rows whose id is not `id`.
pub open spec fn keep_other_posts(id: i32) -> spec_fn(Post) -> bool {
    |p: Post| p.id != id
}

/// Keeps the post rows not owned by user `id` (what a cascade leaves).
pub open spec fn keep_other_owners(id: i32) -> spec_fn(Post) -> bool {
    |p: Post| p.user_id != id
}

/// Filtering keeps only members of the original sequence, in their original
/// order: every kept element occurs in the original, and if a key increases
/// strictly along the original, it increases strictly along the result.
pub proof fn lemma_filter_ordered<A>(s: Seq<A>, pred: spec_fn(A) -> bool, key: spec_fn(A) -> int)
    ensures
        forall|k: int| 0 <= k < s.filter(pred).len() ==> s.contains(#[trigger] s.filter(pred)[k]),
        (forall|a: int, b: int| 0 <= a < b < s.len() ==> key(s[a]) < key(s[b])) ==> (forall|
            a: int,
            b: int,
        |
            0 <= a < b < s.filter(pred).len() ==> key(s.filter(pred)[a]) < key(
                s.filter(pred)[b],
            )),
    decreases s.len(),
{
    reveal(Seq::filter);
    if s.len() > 0 {
        let dl = s.drop_last();
        let out = s.filter(pred);
        lemma_filter_ordered(dl, pred, key);
        assert forall|k: int| 0 <= k < out.len() implies s.contains(out[k]) by {
            if pred(s.last()) && k == out.len() - 1 {
                assert(s[s.len() - 1] == out[k]);
            } else {
                assert(out[k] == dl.filter(pred)[k]);
                assert(dl.contains(dl.filter(pred)[k]));
                let m = choose|m: int| 0 <= m < dl.len() && dl[m] == out[k];
                assert(dl[m] == s[m]);
                assert(s[m] == out[k]);
            }
        }
        if forall|a: int, b: int| 0 <= a < b < s.len() ==> key(s[a]) < key(s[b]) {
            assert forall|a: int, b: int| 0 <= a < b < dl.len() implies key(dl[a]) < key(
                dl[b],
            ) by {
                assert(dl[a] == s[a] && dl[b] == s[b]);
            }
            assert forall|a: int, b: int| 0 <= a < b < out.len() implies key(out[a]) < key(
                out[b],
            ) by {
                if pred(s.last()) && b == out.len() - 1 {
                    assert(out[a] == dl.filter(pred)[a]);
                    assert(dl.contains(dl.filter(pred)[a]));
                    let m = choose|m: int| 0 <= m < dl.len() && dl[m] == out[a];
                    assert(dl[m] == s[m]);
                    assert(key(s[m]) < key(s[s.len() - 1]));
                } else {
                    assert(dl.filter(pred)[a] == out[a] && dl.filter(pred)[b] == out[b]);
                }
            }
        }
    }
}

/// The store: both tables plus the next identifier each table will assign.
/// Rows stand in creation order, so ascending ids mean ascending creation
/// time.
#[derive(Debug)]
pub struct Store {
    pub users: Vec<User>,
    pub posts: Vec<Post>,
    pub next_user_id: i32,
    pub next_post_id: i32,
}

impl Store {
    /// The store's invariant: positive, strictly increasing ids below the
    /// next free one; no two users share an email; every post's `user_id`
    /// names an existing user (the foreign key the cascade maintains).
    pub open spec fn wf(&self) -> bool {
        &&& 1 <= self.next_user_id
        &&& 1 <= self.next_post_id
        &&& forall|i: int|
            0 <= i < self.users@.len() ==> 1 <= (#[trigger] self.users@[i]).id < self.next_user_id
        &&& forall|i: int, j: int|
            0 <= i < j < self.users@.len() ==> self.users@[i].id < self.users@[j].id
        &&& forall|i: int, j: int|
            0 <= i < j < self.users@.len() ==> self.users@[i].email@ != self.users@[j].email@
        &&& forall|i: int|
            0 <= i < self.posts@.len() ==> 1 <= (#[trigger] self.posts@[i]).id < self.next_post_id
        &&& forall|i: int, j: int|
            0 <= i < j < self.posts@.len() ==> self.posts@[i].id < self.posts@[j].id
        &&& forall|i: int|
            0 <= i < self.posts@.len() ==> user_id_exists(
                self.users@,
                (#[trigger] self.posts@[i]).user_id,
            )
    }

    /// An empty store.
    pub fn new() -> (r: Store)
        ensures
            r.wf(),
            r.users@.len() == 0,
            r.posts@.len() == 0,
            r.next_user_id == 1,
            r.next_post_id == 1,
    {
        Store { users: Vec::new(), posts: Vec::new(), next_user_id: 1, next_post_id: 1 }
    }
}

} // verus!
