use paged_fetch::limits::{resolve_fetch_limits, FetchLimits, SearchLimits};
use paged_fetch::target::{
    http_method_label, HttpFetchTarget, HttpMethod, PaginationSpec, ResponseSpec,
};

fn target(fetch_limit_default: Option<usize>, search: Option<SearchLimits>) -> HttpFetchTarget {
    HttpFetchTarget {
        name: "issues".to_string(),
        method: HttpMethod::GET,
        fetch_limit_default,
        search_limits: search,
        pagination: PaginationSpec {
            page_start: 1,
            page_step: 1,
            offset_start: 0,
            max_pages: None,
            response_cursor_path: Vec::new(),
        },
        response: ResponseSpec { ok_path: Vec::new(), error_path: Vec::new() },
        cache: None,
    }
}

fn limits(
    effective_limit: Option<usize>,
    page_size_limit: Option<usize>,
    max_search_calls: Option<usize>,
) -> FetchLimits {
    FetchLimits { effective_limit, page_size_limit, max_search_calls }
}

fn search(default_top_k: usize, max_top_k: usize, max_calls_per_query: usize) -> Option<SearchLimits> {
    Some(SearchLimits { default_top_k, max_top_k, max_calls_per_query })
}

#[test]
fn query_limit_wins_over_default() {
    assert_eq!(
        resolve_fetch_limits(&target(Some(100), None), Some(7)),
        limits(Some(7), Some(7), None)
    );
}

#[test]
fn default_limits_rows_but_not_pages() {
    assert_eq!(
        resolve_fetch_limits(&target(Some(100), None), None),
        limits(Some(100), None, None)
    );
}

#[test]
fn no_limit_at_all() {
    assert_eq!(resolve_fetch_limits(&target(None, None), None), limits(None, None, None));
}

#[test]
fn search_default_is_used_without_query_limit() {
    assert_eq!(
        resolve_fetch_limits(&target(Some(1), search(10, 50, 3)), None),
        limits(Some(10), Some(10), Some(3))
    );
}

#[test]
fn search_caps_rows_by_all_calls_and_pages_by_one() {
    assert_eq!(
        resolve_fetch_limits(&target(None, search(10, 50, 3)), Some(1000)),
        limits(Some(150), Some(50), Some(3))
    );
}

#[test]
fn search_between_one_call_and_all_calls() {
    assert_eq!(
        resolve_fetch_limits(&target(None, search(10, 50, 3)), Some(120)),
        limits(Some(120), Some(50), Some(3))
    );
}

#[test]
fn search_product_beyond_the_largest_number() {
    assert_eq!(
        resolve_fetch_limits(&target(None, search(10, usize::MAX, 3)), Some(usize::MAX)),
        limits(Some(usize::MAX), Some(usize::MAX), Some(3))
    );
}

#[test]
fn search_without_calls_returns_nothing() {
    assert_eq!(
        resolve_fetch_limits(&target(None, search(10, 50, 0)), Some(5)),
        limits(Some(0), Some(5), Some(0))
    );
}

#[test]
fn search_calls_suffice_for_the_limit() {
    for requested in [0usize, 1, 49, 50, 51, 150, 151, 9999] {
        let resolved = resolve_fetch_limits(&target(None, search(10, 50, 3)), Some(requested));
        assert!(resolved.effective_limit.unwrap() <= resolved.page_size_limit.unwrap() * 3);
    }
}

#[test]
fn method_labels() {
    assert_eq!(http_method_label(HttpMethod::GET), "GET");
    assert_eq!(http_method_label(HttpMethod::POST), "POST");
}
