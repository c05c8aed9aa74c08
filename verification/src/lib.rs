//! Contract layer of a CRUD backend for Users and Posts: request validation,
//! a uniform response envelope, pagination arithmetic, an in-memory store
//! model with per-entity repositories and services, and stateless token-based
//! authentication.

pub mod auth;
pub mod codec;
pub mod config;
pub mod decimal;
pub mod entities;
pub mod envelope;
pub mod error;
pub mod handlers;
pub mod jwt;
pub mod pagination;
pub mod post_repo;
pub mod post_service;
pub mod store;
pub mod user_repo;
pub mod user_service;
pub mod validation;

use vstd::prelude::*;

verus! {

/// Health probe: a constant success envelope with payload `"OK"`.
pub fn health_check() -> (r: envelope::ApiResponse<String>)
    ensures
        r.success,
        r.data is Some,
        r.data->0@ == "OK"@,
        r.message@ == "Service is healthy"@,
{
    envelope::ApiResponse::success("OK".to_owned(), "Service is healthy")
}

} // verus!
