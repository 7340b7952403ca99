//! Decisions of a paginated HTTP fetch: how many rows and pages to ask for,
//! where the next page is, what may be cached and under which key, and when the
//! fetch is over. Sending requests and reading responses is the caller's part.

pub mod cache;
pub mod course;
pub mod error;
pub mod fetch;
pub mod hash;
pub mod headers;
pub mod json;
pub mod limits;
pub mod request;
pub mod target;
pub mod text;
pub mod vary;
