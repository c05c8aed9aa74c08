//! Business rules on top of the user repository: the plaintext password is
//! replaced by its one-way bcrypt digest before anything reaches the store,
//! and pagination defaulting happens here, once.

use vstd::prelude::*;

use crate::entities::{clone_opt_string, User};
use crate::error::{AppError, RepoError};
use crate::pagination::{effective_limit, effective_page, page_of, PaginationParams};
use crate::store::{email_taken, email_taken_by_other, user_id_exists, Store};
use crate::user_repo::{email_exists, spec_merge_user, UserRepository};
use crate::validation::{CreateUserRequest, UpdateUserRequest};

verus! {

/// Whether `bcrypt::verify` accepts `password` against `digest`: a function
/// of the two strings alone.
pub uninterp spec fn digest_matches(password: Seq<char>, digest: Seq<char>) -> bool;

/// Relies on `bcrypt::hash` with `DEFAULT_COST`: on success the result is a
/// 60-character bcrypt digest in the `$2b$` form, which `bcrypt::verify`
/// accepts against `password`. The salt comes from the OS, so nothing ties
/// the results of two calls together.
#[verifier::external_body]
fn bcrypt_hash(password: &str) -> (r: Option<String>)
    ensures
        r matches Some(h) ==> h@.len() == 60 && h@[0] == '$' && h@[1] == '2' && h@[2] == 'b'
            && h@[3] == '$' && digest_matches(password@, h@),
{
    bcrypt::hash(password, bcrypt::DEFAULT_COST).ok()
}

pub struct UserService;

impl UserService {
    /// Create a user. The stored credential is the bcrypt digest of the
    /// given password — never the plaintext — and the digest verifies
    /// against that password. A taken email is a `Conflict`; only a failure
    /// of the digest computation itself yields `InternalServerError`.
    pub fn create_user(store: &mut Store, user_data: &CreateUserRequest, now: i64) -> (r: Result<
        User,
        AppError,
    >)
        requires
            old(store).wf(),
        ensures
            final(store).wf(),
            match r {
                Ok(u) => {
                    &&& !email_taken(old(store).users@, user_data.email@)
                    &&& old(store).next_user_id < i32::MAX
                    &&& u.id == old(store).next_user_id
                    &&& u.email == user_data.email
                    &&& u.username == user_data.username
                    &&& u.full_name == user_data.full_name
                    &&& u.is_active == true
                    &&& u.created_at == now
                    &&& u.updated_at == now
                    &&& digest_matches(user_data.password@, u.password_hash@)
                    &&& u.password_hash@.len() == 60
                    &&& u.password_hash@[0] == '$' && u.password_hash@[1] == '2'
                        && u.password_hash@[2] == 'b' && u.password_hash@[3] == '$'
                    &&& final(store).users@ == old(store).users@.push(u)
                    &&& final(store).posts@ == old(store).posts@
                    &&& final(store).next_user_id == old(store).next_user_id + 1
                    &&& final(store).next_post_id == old(store).next_post_id
                },
                Err(e) => {
                    &&& *final(store) == *old(store)
                    &&& match e {
                        AppError::Conflict(_) => email_taken(old(store).users@, user_data.email@),
                        AppError::DatabaseError(_) => {
                            &&& !email_taken(old(store).users@, user_data.email@)
                            &&& old(store).next_user_id == i32::MAX
                        },
                        // the digest computation itself failed
                        AppError::InternalServerError(_) => true,
                        _ => false,
                    }
                },
            },
            email_taken(old(store).users@, user_data.email@) ==> r matches Err(
                AppError::Conflict(_),
            ),
            (!email_taken(old(store).users@, user_data.email@) && old(store).next_user_id
                < i32::MAX) ==> (r is Ok || r matches Err(AppError::InternalServerError(_))),
    {
        if email_exists(&store.users, &user_data.email) {
            return Err(AppError::Conflict("User already exists".to_owned()));
        }
        let digest = match bcrypt_hash(user_data.password.as_str()) {
            Some(d) => d,
            None => {
                return Err(AppError::InternalServerError("Failed to hash password".to_owned()));
            },
        };
        let hashed = CreateUserRequest {
            email: user_data.email.clone(),
            username: user_data.username.clone(),
            password: digest,
            full_name: clone_opt_string(&user_data.full_name),
        };
        match UserRepository::create(store, &hashed, now) {
            Ok(u) => Ok(u),
            Err(RepoError::Conflict) => Err(AppError::Conflict("User already exists".to_owned())),
            Err(RepoError::Store) => Err(
                AppError::DatabaseError("Failed to create user".to_owned()),
            ),
        }
    }

    /// The requested page of users, after pagination defaulting.
    pub fn get_users(store: &Store, params: &PaginationParams) -> (r: Vec<User>)
        ensures
            r@ == page_of(
                store.users@,
                effective_page(params.page),
                effective_limit(params.limit),
            ),
            r@.len() <= effective_limit(params.limit),
    {
        let (page, limit) = crate::pagination::normalize(params);
        UserRepository::find_all(store, page, limit)
    }

    /// Look a user up by id.
    pub fn get_user_by_id(store: &Store, id: i32) -> (r: Option<User>)
        ensures
            match r {
                Some(u) => exists|i: int|
                    0 <= i < store.users@.len() && (#[trigger] store.users@[i]) == u
                        && store.users@[i].id == id,
                None => !user_id_exists(store.users@, id),
            },
    {
        UserRepository::find_by_id(store, id)
    }

    /// Partial update; a duplicate email is a `Conflict`.
    pub fn update_user(store: &mut Store, id: i32, user_data: &UpdateUserRequest, now: i64) -> (r:
        Result<Option<User>, AppError>)
        requires
            old(store).wf(),
        ensures
            final(store).wf(),
            final(store).posts@ == old(store).posts@,
            final(store).next_user_id == old(store).next_user_id,
            final(store).next_post_id == old(store).next_post_id,
            match r {
                Ok(opt) => match opt {
                    None => {
                        &&& !user_id_exists(old(store).users@, id)
                        &&& final(store).users@ == old(store).users@
                    },
                    Some(u) => {
                        &&& !(match user_data.email {
                            Some(e) => email_taken_by_other(old(store).users@, e@, id),
                            None => false,
                        })
                        &&& exists|i: int|
                            0 <= i < old(store).users@.len()
                                && (#[trigger] old(store).users@[i]).id == id
                                && u == spec_merge_user(old(store).users@[i], *user_data, now)
                                && final(store).users@ == old(store).users@.update(i, u)
                    },
                },
                Err(e) => {
                    &&& e matches AppError::Conflict(_)
                    &&& user_id_exists(old(store).users@, id)
                    &&& match user_data.email {
                        Some(e2) => email_taken_by_other(old(store).users@, e2@, id),
                        None => false,
                    }
                    &&& final(store).users@ == old(store).users@
                },
            },
    {
        match UserRepository::update(store, id, user_data, now) {
            Ok(opt) => Ok(opt),
            Err(_) => Err(AppError::Conflict("Email already in use".to_owned())),
        }
    }

    /// Delete a user and, by cascade, its posts.
    pub fn delete_user(store: &mut Store, id: i32) -> (r: bool)
        requires
            old(store).wf(),
        ensures
            final(store).wf(),
            r == user_id_exists(old(store).users@, id),
            final(store).next_user_id == old(store).next_user_id,
            final(store).next_post_id == old(store).next_post_id,
            !r ==> *final(store) == *old(store),
            r ==> final(store).users@ == old(store).users@.filter(
                crate::store::keep_other_users(id),
            ),
            r ==> final(store).posts@ == old(store).posts@.filter(
                crate::store::keep_other_owners(id),
            ),
            !user_id_exists(final(store).users@, id),
    {
        UserRepository::delete(store, id)
    }

    /// Total number of users.
    pub fn get_user_count(store: &Store) -> (r: usize)
        ensures
            r == store.users@.len(),
    {
        UserRepository::count(store)
    }
}

} // verus!
