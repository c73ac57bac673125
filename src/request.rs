//! What the transport hands the core of each request.

use vstd::prelude::*;

verus! {

/// A request header as the transport found it.
#[derive(Debug, PartialEq, Eq)]
pub enum HeaderField {
    /// The header was not sent.
    Missing,
    /// The header was sent but its value is not visible text.
    NotText,
    /// The header's value.
    Text(String),
}

/// A request to store `content` at the path named by the `path` header.
pub struct TransferRequest {
    /// The raw bytes of the authorization header, if it was sent.
    pub authorization: Option<Vec<u8>>,
    pub path: HeaderField,
    pub content: Vec<u8>,
}

/// A request to remove the file or tree named by the `path` header.
pub struct DeleteRequest {
    /// The raw bytes of the authorization header, if it was sent.
    pub authorization: Option<Vec<u8>>,
    pub path: HeaderField,
}

} // verus!
