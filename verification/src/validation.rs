//! Request payloads and the per-field validation rules applied to them
//! before any store access. Lengths count characters, not bytes. A request
//! is accepted or rejected as a whole; update payloads apply each rule only
//! when the field is present.

use vstd::prelude::*;

verus! {

use vstd::string::StrSliceExecFns;

/// Whether `s` is an email address under the HTML5 grammar, as
/// `validator::ValidateEmail` decides it; a function of the characters alone.
pub uninterp spec fn is_email(s: Seq<char>) -> bool;

/// Relies on `validator::ValidateEmail::validate_email` for `&str`: the
/// HTML5 email grammar. The result depends on the characters alone; an empty
/// string and a string without `'@'` are rejected.
#[verifier::external_body]
fn check_email(s: &str) -> (r: bool)
    ensures
        r == is_email(s@),
        s@.len() == 0 ==> !r,
        !s@.contains('@') ==> !r,
{
    validator::ValidateEmail::validate_email(&s)
}

pub open spec fn valid_username(s: Seq<char>) -> bool {
    3 <= s.len() <= 50
}

pub open spec fn valid_password(s: Seq<char>) -> bool {
    s.len() >= 6
}

pub open spec fn valid_full_name(s: Seq<char>) -> bool {
    1 <= s.len() <= 100
}

pub open spec fn valid_title(s: Seq<char>) -> bool {
    1 <= s.len() <= 200
}

pub open spec fn valid_content(s: Seq<char>) -> bool {
    s.len() >= 1
}

/// Payload of `POST /users`.
#[derive(Debug, PartialEq)]
pub struct CreateUserRequest {
    pub email: String,
    pub username: String,
    pub password: String,
    pub full_name: Option<String>,
}

/// Payload of `PUT /users/{id}`: absent fields are left unchanged.
#[derive(Debug, PartialEq)]
pub struct UpdateUserRequest {
    pub email: Option<String>,
    pub username: Option<String>,
    pub full_name: Option<String>,
    pub is_active: Option<bool>,
}

/// Payload of `POST /posts`.
#[derive(Debug, PartialEq)]
pub struct CreatePostRequest {
    pub title: String,
    pub content: String,
    pub is_published: Option<bool>,
}

/// Payload of `PUT /posts/{id}`: absent fields are left unchanged.
#[derive(Debug, PartialEq)]
pub struct UpdatePostRequest {
    pub title: Option<String>,
    pub content: Option<String>,
    pub is_published: Option<bool>,
}

impl CreateUserRequest {
    pub open spec fn valid(&self) -> bool {
        &&& is_email(self.email@)
        &&& valid_username(self.username@)
        &&& valid_password(self.password@)
        &&& match self.full_name {
            Some(n) => valid_full_name(n@),
            None => true,
        }
    }

    /// Accept or reject the whole payload.
    pub fn validate(&self) -> (r: bool)
        ensures
            r == self.valid(),
    {
        if !check_email(self.email.as_str()) {
            return false;
        }
        let ulen = self.username.as_str().unicode_len();
        if ulen < 3 || ulen > 50 {
            return false;
        }
        if self.password.as_str().unicode_len() < 6 {
            return false;
        }
        match &self.full_name {
            Some(n) => {
                let nlen = n.as_str().unicode_len();
                1 <= nlen && nlen <= 100
            },
            None => true,
        }
    }
}

impl UpdateUserRequest {
    pub open spec fn valid(&self) -> bool {
        &&& match self.email {
            Some(e) => is_email(e@),
            None => true,
        }
        &&& match self.username {
            Some(u) => valid_username(u@),
            None => true,
        }
        &&& match self.full_name {
            Some(n) => valid_full_name(n@),
            None => true,
        }
    }

    /// Accept or reject the whole payload; each rule applies only to the
    /// fields that are present.
    pub fn validate(&self) -> (r: bool)
        ensures
            r == self.valid(),
    {
        match &self.email {
            Some(e) => {
                if !check_email(e.as_str()) {
                    return false;
                }
            },
            None => {},
        }
        match &self.username {
            Some(u) => {
                let ulen = u.as_str().unicode_len();
                if ulen < 3 || ulen > 50 {
                    return false;
                }
            },
            None => {},
        }
        match &self.full_name {
            Some(n) => {
                let nlen = n.as_str().unicode_len();
                if nlen < 1 || nlen > 100 {
                    return false;
                }
            },
            None => {},
        }
        true
    }
}

impl CreatePostRequest {
    pub open spec fn valid(&self) -> bool {
        valid_title(self.title@) && valid_content(self.content@)
    }

    pub fn validate(&self) -> (r: bool)
        ensures
            r == self.valid(),
    {
        let tlen = self.title.as_str().unicode_len();
        if tlen < 1 || tlen > 200 {
            return false;
        }
        self.content.as_str().unicode_len() >= 1
    }
}

impl UpdatePostRequest {
    pub open spec fn valid(&self) -> bool {
        &&& match self.title {
            Some(t) => valid_title(t@),
            None => true,
        }
        &&& match self.content {
            Some(c) => valid_content(c@),
            None => true,
        }
    }

    pub fn validate(&self) -> (r: bool)
        ensures
            r == self.valid(),
    {
        match &self.title {
            Some(t) => {
                let tlen = t.as_str().unicode_len();
                if tlen < 1 || tlen > 200 {
                    return false;
                }
            },
            None => {},
        }
        match &self.content {
            Some(c) => {
                if c.as_str().unicode_len() < 1 {
                    return false;
                }
            },
            None => {},
        }
        true
    }
}

} // verus!
