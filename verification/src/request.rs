//! The parsed representation of one incoming HTTP message. The byte-level
//! parser is an external collaborator: it populates these fields from the
//! header lines of the raw request.

use vstd::prelude::*;
use std::collections::HashMap;

verus! {

/// One incoming request: remote address, method, URL, a mapping from
/// header name to header value, and the ordered body chunks.
pub struct Request {
    pub remote_address: String,
    pub method: String,
    pub url: String,
    pub headers: HashMap<String, String>,
    pub data: Vec<String>,
}

} // verus!
