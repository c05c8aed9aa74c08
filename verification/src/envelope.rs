//! The uniform response envelope: every body sent to a client is either a
//! success envelope carrying a payload or an error envelope carrying none,
//! plus the paginated-list wrapper that list endpoints place inside a
//! success envelope.

use vstd::prelude::*;

verus! {

/// Uniform wrapper around every response body: a success flag, a
/// human-readable message, and an optional payload.
#[derive(Debug, Clone, PartialEq)]
pub struct ApiResponse<T> {
    pub success: bool,
    pub message: String,
    pub data: Option<T>,
}

impl<T> ApiResponse<T> {
    /// The envelope carries a payload exactly when it reports success.
    pub open spec fn well_formed(&self) -> bool {
        self.success <==> self.data is Some
    }

    /// Success envelope: `success` is true and the payload is present.
    pub fn success(data: T, message: &str) -> (r: Self)
        ensures
            r.success,
            r.message@ == message@,
            r.data == Some(data),
            r.well_formed(),
    {
        Self { success: true, message: message.to_owned(), data: Some(data) }
    }

    /// Error envelope: `success` is false and no payload is present.
    pub fn error(message: &str) -> (r: Self)
        ensures
            !r.success,
            r.message@ == message@,
            r.data is None,
            r.well_formed(),
    {
        Self { success: false, message: message.to_owned(), data: None }
    }
}

/// Paginated-list wrapper: the fetched page of items together with the
/// echoed page and limit, the total item count, and the total page count.
/// Unlike `ApiResponse`, its `data` is always the item list, possibly empty.
#[derive(Debug, Clone, PartialEq)]
pub struct PaginatedResponse<T> {
    pub data: Vec<T>,
    pub page: u64,
    pub limit: u64,
    pub total: u64,
    pub total_pages: u64,
}

} // verus!
