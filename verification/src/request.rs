//! What is sent to the source for one page.

use vstd::prelude::*;

verus! {

/// A request's body.
pub enum RequestBody {
    Json(serde_json::Value),
    Text(String),
}

/// A request for one page.
pub struct PageRequest {
    pub url: String,
    pub query_pairs: Vec<(String, String)>,
    pub body: Option<RequestBody>,
}

} // verus!
