//! What is known of a fetch before its first request: the source, the table and
//! the policies declared for it.

use crate::limits::SearchLimits;
use vstd::prelude::*;

verus! {

/// The source that a request goes to.
pub struct HttpSource {
    pub source_schema: String,
    pub source_version: String,
}

/// The HTTP methods that a table request may use.
#[derive(Clone, Copy, Debug, PartialEq, Eq, Structural)]
pub enum HttpMethod {
    GET,
    POST,
}

/// How pages follow one another, once the declared pagination was validated.
#[derive(Clone, Copy, Debug, PartialEq, Eq, Structural)]
pub enum ValidatedPaginationMode {
    /// One page only.
    SinglePage,
    /// The response holds a cursor that the next request sends in its query.
    CursorQuery,
    /// The response holds a cursor that the next request sends in its body.
    CursorBody,
    /// Requests count pages.
    Page,
    /// Requests count rows, from the given start.
    Offset { start: i64 },
    /// The response's `Link` header holds the next page's URL.
    LinkHeader,
    /// Pages are linked as with `LinkHeader`.
    Auto,
}

/// The declared pagination of a table.
pub struct PaginationSpec {
    pub page_start: i64,
    pub page_step: i64,
    pub offset_start: i64,
    pub max_pages: Option<usize>,
    /// Where a response holds the next cursor.
    pub response_cursor_path: Vec<String>,
}

/// Where a response says whether it succeeded, and why not.
pub struct ResponseSpec {
    /// Empty where the source reports no success flag.
    pub ok_path: Vec<String>,
    /// Empty where the source reports no error text.
    pub error_path: Vec<String>,
}

/// Whether responses are cached.
#[derive(Clone, Copy, Debug, PartialEq, Eq, Structural)]
pub enum HttpCacheMode {
    Off,
    Ttl,
}

/// How long a cached response lives.
#[derive(Clone, Copy, Debug, PartialEq, Eq, Structural)]
pub struct Ttl {
    pub secs: u64,
    pub subsec_nanos: u32,
}

/// The declared caching of a table.
pub struct HttpCachePolicy {
    pub mode: HttpCacheMode,
    /// Pages after this one are not cached.
    pub max_pages: Option<usize>,
    /// Responses estimated larger than this are not cached.
    pub max_entry_bytes: Option<usize>,
    /// Request headers whose values are part of the cache key.
    pub vary_headers: Vec<String>,
    pub ttl: Ttl,
}

/// The table or search function that is fetched.
pub struct HttpFetchTarget {
    pub name: String,
    pub method: HttpMethod,
    pub fetch_limit_default: Option<usize>,
    pub search_limits: Option<SearchLimits>,
    pub pagination: PaginationSpec,
    pub response: ResponseSpec,
    pub cache: Option<HttpCachePolicy>,
}

/// The text that names a method in a request line and in a cache key.
pub fn http_method_label(method: HttpMethod) -> (label: &'static str)
    ensures
        label@ == method_label(method),
{
    match method {
        HttpMethod::GET => "GET",
        HttpMethod::POST => "POST",
    }
}

pub open spec fn method_label(method: HttpMethod) -> Seq<char> {
    match method {
        HttpMethod::GET => "GET"@,
        HttpMethod::POST => "POST"@,
    }
}

/// A method is called by its name.
pub proof fn law_methods_are_called_by_name(method: HttpMethod, label: &'static str)
    requires
        call_ensures(http_method_label, (method,), label),
    ensures
        method is GET ==> label@ == seq!['G', 'E', 'T'],
        method is POST ==> label@ == seq!['P', 'O', 'S', 'T'],
{
    reveal_strlit("GET");
    reveal_strlit("POST");
}

} // verus!
