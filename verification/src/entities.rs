//! The two entities the store holds, and the outward-facing representation
//! of each. `UserResponse` has no credential field at all: the password
//! digest can never reach a response body.

use vstd::prelude::*;

verus! {

/// A stored user row. `password_hash` holds the one-way digest, never the
/// plaintext. Timestamps are seconds since the epoch.
#[derive(Debug, PartialEq)]
pub struct User {
    pub id: i32,
    pub email: String,
    pub username: String,
    pub password_hash: String,
    pub full_name: Option<String>,
    pub is_active: bool,
    pub created_at: i64,
    pub updated_at: i64,
}

impl Clone for User {
    fn clone(&self) -> (r: Self)
        ensures
            r == *self,
    {
        User {
            id: self.id,
            email: self.email.clone(),
            username: self.username.clone(),
            password_hash: self.password_hash.clone(),
            full_name: clone_opt_string(&self.full_name),
            is_active: self.is_active,
            created_at: self.created_at,
            updated_at: self.updated_at,
        }
    }
}

/// A stored post row, owned by exactly one user through `user_id`.
#[derive(Debug, PartialEq)]
pub struct Post {
    pub id: i32,
    pub title: String,
    pub content: String,
    pub user_id: i32,
    pub is_published: bool,
    pub created_at: i64,
    pub updated_at: i64,
}

impl Clone for Post {
    fn clone(&self) -> (r: Self)
        ensures
            r == *self,
    {
        Post {
            id: self.id,
            title: self.title.clone(),
            content: self.content.clone(),
            user_id: self.user_id,
            is_published: self.is_published,
            created_at: self.created_at,
            updated_at: self.updated_at,
        }
    }
}

pub(crate) fn clone_opt_string(o: &Option<String>) -> (r: Option<String>)
    ensures
        r == *o,
{
    match o {
        Some(s) => Some(s.clone()),
        None => None,
    }
}

/// What a user looks like on the wire: every stored field except the
/// password digest.
#[derive(Debug, PartialEq)]
pub struct UserResponse {
    pub id: i32,
    pub email: String,
    pub username: String,
    pub full_name: Option<String>,
    pub is_active: bool,
    pub created_at: i64,
    pub updated_at: i64,
}

impl Clone for UserResponse {
    fn clone(&self) -> (r: Self)
        ensures
            r == *self,
    {
        UserResponse {
            id: self.id,
            email: self.email.clone(),
            username: self.username.clone(),
            full_name: clone_opt_string(&self.full_name),
            is_active: self.is_active,
            created_at: self.created_at,
            updated_at: self.updated_at,
        }
    }
}

/// What a post looks like on the wire.
#[derive(Debug, PartialEq)]
pub struct PostResponse {
    pub id: i32,
    pub title: String,
    pub content: String,
    pub user_id: i32,
    pub is_published: bool,
    pub created_at: i64,
    pub updated_at: i64,
}

impl Clone for PostResponse {
    fn clone(&self) -> (r: Self)
        ensures
            r == *self,
    {
        PostResponse {
            id: self.id,
            title: self.title.clone(),
            content: self.content.clone(),
            user_id: self.user_id,
            is_published: self.is_published,
            created_at: self.created_at,
            updated_at: self.updated_at,
        }
    }
}

/// The projection a handler applies before a user leaves the system: all
/// fields but the digest, which has no counterpart in the response.
pub open spec fn spec_user_response(u: User) -> UserResponse {
    UserResponse {
        id: u.id,
        email: u.email,
        username: u.username,
        full_name: u.full_name,
        is_active: u.is_active,
        created_at: u.created_at,
        updated_at: u.updated_at,
    }
}

pub fn user_to_response(u: &User) -> (r: UserResponse)
    ensures
        r == spec_user_response(*u),
{
    UserResponse {
        id: u.id,
        email: u.email.clone(),
        username: u.username.clone(),
        full_name: clone_opt_string(&u.full_name),
        is_active: u.is_active,
        created_at: u.created_at,
        updated_at: u.updated_at,
    }
}

/// The projection applied to every user of a fetched page.
pub open spec fn to_user_responses(s: Seq<User>) -> Seq<UserResponse> {
    s.map_values(|u: User| spec_user_response(u))
}

/// Project a whole page of users.
pub fn users_to_responses(users: &Vec<User>) -> (r: Vec<UserResponse>)
    ensures
        r@ == to_user_responses(users@),
{
    let n: usize = users.len();
    let mut out: Vec<UserResponse> = Vec::new();
    let mut i: usize = 0;
    while i < n
        invariant
            i <= n,
            n == users@.len(),
            out@.len() == i,
            forall|k: int| 0 <= k < i ==> out@[k] == spec_user_response(#[trigger] users@[k]),
        decreases n - i,
    {
        out.push(user_to_response(&users[i]));
        i += 1;
    }
    proof {
        assert(out@ =~= to_user_responses(users@));
    }
    out
}

pub open spec fn spec_post_response(p: Post) -> PostResponse {
    PostResponse {
        id: p.id,
        title: p.title,
        content: p.content,
        user_id: p.user_id,
        is_published: p.is_published,
        created_at: p.created_at,
        updated_at: p.updated_at,
    }
}

pub fn post_to_response(p: &Post) -> (r: PostResponse)
    ensures
        r == spec_post_response(*p),
{
    PostResponse {
        id: p.id,
        title: p.title.clone(),
        content: p.content.clone(),
        user_id: p.user_id,
        is_published: p.is_published,
        created_at: p.created_at,
        updated_at: p.updated_at,
    }
}

/// The projection applied to every post of a fetched page.
pub open spec fn to_post_responses(s: Seq<Post>) -> Seq<PostResponse> {
    s.map_values(|p: Post| spec_post_response(p))
}

/// Project a whole page of posts.
pub fn posts_to_responses(posts: &Vec<Post>) -> (r: Vec<PostResponse>)
    ensures
        r@ == to_post_responses(posts@),
{
    let n: usize = posts.len();
    let mut out: Vec<PostResponse> = Vec::new();
    let mut i: usize = 0;
    while i < n
        invariant
            i <= n,
            n == posts@.len(),
            out@.len() == i,
            forall|k: int| 0 <= k < i ==> out@[k] == spec_post_response(#[trigger] posts@[k]),
        decreases n - i,
    {
        out.push(post_to_response(&posts[i]));
        i += 1;
    }
    proof {
        assert(out@ =~= to_post_responses(posts@));
    }
    out
}

} // verus!
