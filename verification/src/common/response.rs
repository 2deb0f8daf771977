//! Response handling utilities.

use vstd::prelude::*;

verus! {

/// A paginated response from the API
#[derive(Debug, Clone)]
pub struct PaginatedResponse<T> {
    /// The items in this page
    pub data: Vec<T>,
    /// The total number of items
    pub total: Option<u64>,
    /// The number of items per page
    pub limit: Option<u64>,
    /// The offset of this page
    pub offset: Option<u64>,
    /// Whether there are more pages
    pub has_more: Option<bool>,
    /// Cursor for the next page
    pub next_cursor: Option<String>,
}

impl<T> PaginatedResponse<T> {
    /// Whether the page says that another follows: by its flag or by a cursor.
    pub open spec fn spec_has_next_page(&self) -> bool {
        self.has_more == Some(true) || self.next_cursor is Some
    }

    /// The offset at which the next page starts, where there is one, this page
    /// gives its own offset and limit, and their sum is a `u64`.
    pub open spec fn spec_next_offset(&self) -> Option<u64> {
        if self.spec_has_next_page() && self.offset is Some && self.limit is Some
            && self.offset->0 + self.limit->0 <= u64::MAX {
            Some((self.offset->0 + self.limit->0) as u64)
        } else {
            None
        }
    }

    /// Check if there are more pages
    pub fn has_next_page(&self) -> (r: bool)
        ensures
            r == self.spec_has_next_page(),
    {
        let more = match self.has_more {
            Some(b) => b,
            None => false,
        };
        more || self.next_cursor.is_some()
    }

    /// Get the next offset for pagination
    pub fn next_offset(&self) -> (r: Option<u64>)
        ensures
            r == self.spec_next_offset(),
    {
        if self.has_next_page() {
            match (self.offset, self.limit) {
                (Some(offset), Some(limit)) => offset.checked_add(limit),
                _ => None,
            }
        } else {
            None
        }
    }
}

/// A response that may contain a continuation token for streaming
#[derive(Debug, Clone)]
pub struct StreamResponse<T> {
    /// The data in this response
    pub data: T,
    /// Continuation token for the next chunk
    pub continuation_token: Option<String>,
    /// Whether this is the final chunk
    pub is_final: Option<bool>,
}

/// Generic API response wrapper
#[derive(Debug, Clone)]
pub struct ApiResponse<T> {
    /// The response data
    pub data: T,
    /// Response metadata
    pub meta: Option<ResponseMetadata>,
}

/// Response metadata
#[derive(Debug, Clone)]
pub struct ResponseMetadata {
    /// Request ID for tracking
    pub request_id: Option<String>,
    /// Response timestamp
    pub timestamp: Option<String>,
    /// API version
    pub version: Option<String>,
}

/// Empty response for endpoints that return no data
#[derive(Debug, Clone)]
pub struct EmptyResponse {}

/// Response for operations that return an ID
#[derive(Debug, Clone)]
pub struct IdResponse {
    /// The ID of the created/updated resource
    pub id: String,
}

/// Response for operations that return a status
#[derive(Debug, Clone)]
pub struct StatusResponse {
    /// The status of the operation
    pub status: String,
    /// Optional message
    pub message: Option<String>,
}

} // verus!
