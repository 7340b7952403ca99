use paged_fetch::cache::{
    cache_slot, fill_slot, is_success, page_cache_policy, serve, CacheKeyParts, FetchSkipped,
    FetchedPayload, HttpCacheEntry,
};
use paged_fetch::error::{unwrap_network_error, NetworkFailure, SourceError};
use paged_fetch::fetch::{FetchedPage, PageFlow, RowFetch};
use paged_fetch::hash::hash_cache_bytes;
use paged_fetch::json::PathValue;
use paged_fetch::request::{PageRequest, RequestBody};
use paged_fetch::target::{
    HttpCacheMode, HttpCachePolicy, HttpFetchTarget, HttpMethod, HttpSource, PaginationSpec,
    ResponseSpec, Ttl, ValidatedPaginationMode,
};
use paged_fetch::vary::{ResolvedHeader, ResolvedValue, VaryHeaderError};
use std::sync::Arc;

const TTL: Ttl = Ttl { secs: 60, subsec_nanos: 5 };

fn source() -> HttpSource {
    HttpSource { source_schema: "github".to_string(), source_version: "1.2".to_string() }
}

fn policy(mode: HttpCacheMode, max_pages: Option<usize>) -> HttpCachePolicy {
    HttpCachePolicy {
        mode,
        max_pages,
        max_entry_bytes: None,
        vary_headers: vec!["X-Tenant".to_string()],
        ttl: TTL,
    }
}

fn target(cache: Option<HttpCachePolicy>) -> HttpFetchTarget {
    HttpFetchTarget {
        name: "issues".to_string(),
        method: HttpMethod::POST,
        fetch_limit_default: None,
        search_limits: None,
        pagination: PaginationSpec {
            page_start: 1,
            page_step: 1,
            offset_start: 0,
            max_pages: None,
            response_cursor_path: Vec::new(),
        },
        response: ResponseSpec { ok_path: Vec::new(), error_path: Vec::new() },
        cache,
    }
}

fn request() -> PageRequest {
    PageRequest {
        url: "https://api.test/issues".to_string(),
        query_pairs: vec![("page".to_string(), "1".to_string())],
        body: Some(RequestBody::Text("abc".to_string())),
    }
}

fn response(ok_path: &[&str]) -> ResponseSpec {
    ResponseSpec {
        ok_path: ok_path.iter().map(|step| step.to_string()).collect(),
        error_path: Vec::new(),
    }
}

fn fetched(
    ok: PathValue,
    estimated_bytes: usize,
) -> Result<Option<FetchedPayload<&'static str>>, SourceError<String, u8>> {
    Ok(Some(FetchedPayload {
        payload: "payload",
        next_url: Some("next".to_string()),
        estimated_bytes,
        ok,
    }))
}

#[test]
fn policy_counts_pages() {
    let bounded = target(Some(policy(HttpCacheMode::Ttl, Some(2))));
    assert!(page_cache_policy(&bounded, 1).is_some());
    assert!(page_cache_policy(&bounded, 2).is_some());
    assert!(page_cache_policy(&bounded, 3).is_none());
    let unbounded = target(Some(policy(HttpCacheMode::Ttl, None)));
    assert!(page_cache_policy(&unbounded, usize::MAX).is_some());
    assert!(page_cache_policy(&target(Some(policy(HttpCacheMode::Off, None))), 1).is_none());
    assert!(page_cache_policy(&target(None), 1).is_none());
}

#[test]
fn slot_holds_what_the_key_is_made_of() {
    let source = source();
    let target = target(Some(policy(HttpCacheMode::Ttl, None)));
    let request = request();
    let headers = [ResolvedHeader {
        name: "x-tenant".to_string(),
        value: ResolvedValue::Text("acme".to_string()),
    }];
    let slot = cache_slot(&source, &target, 1, &request, &headers, &[]).ok().unwrap().unwrap();
    assert_eq!(slot.key.source_schema, "github");
    assert_eq!(slot.key.source_version, "1.2");
    assert_eq!(slot.key.table, "issues");
    assert_eq!(slot.key.method, "POST");
    assert_eq!(slot.key.url, "https://api.test/issues");
    assert_eq!(slot.key.query_pairs, &vec![("page".to_string(), "1".to_string())]);
    assert_eq!(slot.key.body_hash, Some(hash_cache_bytes(b"abc")));
    assert_eq!(
        slot.key.vary_headers,
        vec![("x-tenant".to_string(), Some(hash_cache_bytes(b"acme")))]
    );
    assert_eq!(slot.key.ttl_secs, 60);
    assert_eq!(slot.max_entry_bytes, usize::MAX);
    assert_eq!(slot.ttl, TTL);
}

#[test]
fn slot_without_body_and_with_a_size_bound() {
    let source = source();
    let mut policy = policy(HttpCacheMode::Ttl, None);
    policy.max_entry_bytes = Some(10);
    policy.vary_headers = Vec::new();
    let target = target(Some(policy));
    let request = PageRequest { url: "u".to_string(), query_pairs: Vec::new(), body: None };
    let slot = cache_slot(&source, &target, 1, &request, &[], &[]).ok().unwrap().unwrap();
    assert_eq!(slot.key.body_hash, None);
    assert!(slot.key.vary_headers.is_empty());
    assert_eq!(slot.max_entry_bytes, 10);
}

#[test]
fn no_slot_beyond_the_cached_pages() {
    let source = source();
    let target = target(Some(policy(HttpCacheMode::Ttl, Some(1))));
    let request = request();
    let headers =
        [ResolvedHeader { name: "h".to_string(), value: ResolvedValue::Unresolved }];
    assert!(matches!(cache_slot(&source, &target, 2, &request, &headers, &[]), Ok(None)));
    assert!(matches!(
        cache_slot(&source, &target, 1, &request, &headers, &[]),
        Err(VaryHeaderError::Unresolved)
    ));
}

#[test]
fn good_response_is_cached() {
    let outcome = fill_slot(fetched(PathValue::Bool(true), 10), &response(&["ok"]), 10, TTL);
    match outcome {
        Ok(entry) => {
            assert_eq!(entry.payload, "payload");
            assert_eq!(entry.next_url, Some("next".to_string()));
            assert_eq!(entry.ttl, TTL);
            assert_eq!(entry.estimated_bytes, 10);
        }
        Err(_) => panic!("not cached"),
    }
}

#[test]
fn response_without_flag_is_cached() {
    assert!(fill_slot(fetched(PathValue::Missing, 1), &response(&[]), 10, TTL).is_ok());
}

#[test]
fn failed_or_large_response_is_served_but_not_cached() {
    for (ok, bytes) in [
        (PathValue::Bool(false), 1),
        (PathValue::Missing, 1),
        (PathValue::Other, 1),
        (PathValue::Text("true".to_string()), 1),
        (PathValue::Bool(true), 11),
    ] {
        let outcome = fill_slot(fetched(ok, bytes), &response(&["ok"]), 10, TTL);
        assert!(matches!(outcome, Err(FetchSkipped::NotCacheable { payload: "payload", .. })));
        let served = serve(outcome).ok().unwrap();
        assert_eq!(served, Some(("payload", Some("next".to_string()))));
    }
}

#[test]
fn no_data_serves_no_page() {
    let outcome: Result<HttpCacheEntry<u8>, FetchSkipped<u8, String, u8>> =
        fill_slot(Ok(None), &response(&[]), 10, TTL);
    assert!(matches!(outcome, Err(FetchSkipped::NoData)));
    assert!(matches!(serve(outcome), Ok(None)));
}

#[test]
fn cached_response_is_served() {
    let outcome: Result<_, FetchSkipped<u8, String, u8>> = Ok(HttpCacheEntry {
        payload: 7u8,
        next_url: None,
        ttl: TTL,
        estimated_bytes: 1,
    });
    assert_eq!(serve(outcome).ok().unwrap(), Some((7u8, None)));
}

#[test]
fn provider_error_keeps_its_variant() {
    let failed: Result<Option<FetchedPayload<u8>>, SourceError<String, u8>> =
        Err(SourceError::Provider("rate limited".to_string()));
    let outcome = fill_slot(failed, &response(&[]), 10, TTL);
    match serve(outcome) {
        Err(NetworkFailure::Provider(error)) => assert_eq!(error, "rate limited"),
        _ => panic!("not the provider's error"),
    }
}

#[test]
fn other_error_stays_shared() {
    let shared: Arc<SourceError<String, u8>> = Arc::new(SourceError::Other(9));
    let held = shared.clone();
    match unwrap_network_error(shared) {
        NetworkFailure::Shared(error) => assert!(Arc::ptr_eq(&error, &held)),
        _ => panic!("not shared"),
    }
}

#[test]
fn skipped_constructors() {
    assert!(matches!(FetchSkipped::<u8, u8, u8>::no_data(), FetchSkipped::NoData));
    assert!(matches!(
        FetchSkipped::<u8, u8, u8>::not_cacheable(3, None),
        FetchSkipped::NotCacheable { payload: 3, next_url: None }
    ));
    match FetchSkipped::<u8, u8, u8>::network_error(SourceError::Other(4)) {
        FetchSkipped::NetworkError(error) => assert!(matches!(*error, SourceError::Other(4))),
        _ => panic!("not an error"),
    }
}

#[test]
fn skipped_outcome_is_copied() {
    let skipped: FetchSkipped<String, u8, u8> =
        FetchSkipped::not_cacheable("p".to_string(), Some("n".to_string()));
    assert!(matches!(
        skipped.clone(),
        FetchSkipped::NotCacheable { payload, next_url } if payload == "p"
            && next_url == Some("n".to_string())
    ));
    let failed: FetchSkipped<String, u8, u8> = FetchSkipped::network_error(SourceError::Other(4));
    match (&failed, failed.clone()) {
        (FetchSkipped::NetworkError(a), FetchSkipped::NetworkError(b)) => {
            assert!(Arc::ptr_eq(a, &b))
        }
        _ => panic!("not an error"),
    }
}

#[test]
fn success_is_a_flag_that_is_true_or_none() {
    assert!(is_success(&response(&[]), &PathValue::Missing));
    assert!(is_success(&response(&["ok"]), &PathValue::Bool(true)));
    assert!(!is_success(&response(&["ok"]), &PathValue::Bool(false)));
    assert!(!is_success(&response(&["ok"]), &PathValue::Missing));
}

fn tenant(name: &str, value: &str) -> ResolvedHeader {
    ResolvedHeader { name: name.to_string(), value: ResolvedValue::Text(value.to_string()) }
}

fn same_keys(left: &CacheKeyParts, right: &CacheKeyParts) -> bool {
    left.source_schema == right.source_schema
        && left.source_version == right.source_version
        && left.table == right.table
        && left.method == right.method
        && left.url == right.url
        && left.query_pairs == right.query_pairs
        && left.body_hash == right.body_hash
        && left.vary_headers == right.vary_headers
        && left.ttl_secs == right.ttl_secs
}

#[test]
fn equal_requests_have_equal_keys() {
    let source = source();
    let target = target(Some(policy(HttpCacheMode::Ttl, None)));
    let (first, second) = (request(), request());
    let lower = [tenant("x-tenant", "acme")];
    let upper = [tenant("X-TENANT", "acme")];
    let other = [tenant("x-tenant", "other")];
    let one = cache_slot(&source, &target, 1, &first, &lower, &[]).ok().unwrap().unwrap();
    let two = cache_slot(&source, &target, 2, &second, &[], &upper).ok().unwrap().unwrap();
    assert!(same_keys(&one.key, &two.key));
    let three = cache_slot(&source, &target, 1, &first, &other, &[]).ok().unwrap().unwrap();
    assert!(!same_keys(&one.key, &three.key));
    let mut moved = request();
    moved.query_pairs[0].1 = "2".to_string();
    let four = cache_slot(&source, &target, 1, &moved, &lower, &[]).ok().unwrap().unwrap();
    assert!(!same_keys(&one.key, &four.key));
}

/// A response as the source answers: the rows, and whether a page follows.
type Payload = (Vec<u32>, Option<String>);

fn read(payload: &Payload, next_url: Option<String>) -> FetchedPage<u32> {
    FetchedPage {
        ok: PathValue::Missing,
        error: PathValue::Missing,
        cursor: PathValue::Missing,
        rows: payload.0.clone(),
        exhausted: false,
        offset_step: Ok(0),
        next_url,
    }
}

/// Runs a linked fetch through `cache`, by URL, and counts the requests made.
fn run(cache: &mut Vec<(String, HttpCacheEntry<Payload>)>) -> (Vec<u32>, usize) {
    let (source, filters) = (source(), Vec::new());
    let mut policy = policy(HttpCacheMode::Ttl, None);
    policy.vary_headers = Vec::new();
    let target = target(Some(policy));
    let answers = [
        ("https://api.test/issues", (vec![1, 2], Some("https://api.test/2".to_string()))),
        ("https://api.test/2", (vec![3], Some("https://api.test/3".to_string()))),
        ("https://api.test/3", (vec![4, 5], None)),
    ];
    let mut fetch: RowFetch<u32> =
        RowFetch::start(&source, &target, &filters, Ok(ValidatedPaginationMode::LinkHeader), None)
            .ok()
            .unwrap();
    let mut requests = 0;
    loop {
        let request = fetch.begin_page().ok().unwrap().unwrap_or_else(request);
        let slot =
            cache_slot(&source, &target, fetch.page_count, &request, &[], &[]).ok().unwrap().unwrap();
        let stored = cache.iter().position(|(url, _)| url == slot.key.url);
        let outcome: Result<HttpCacheEntry<Payload>, FetchSkipped<Payload, String, u8>> =
            match stored {
                Some(at) => Ok(HttpCacheEntry {
                    payload: cache[at].1.payload.clone(),
                    next_url: cache[at].1.next_url.clone(),
                    ttl: cache[at].1.ttl,
                    estimated_bytes: cache[at].1.estimated_bytes,
                }),
                None => {
                    requests += 1;
                    let answer =
                        &answers.iter().find(|(url, _)| *url == slot.key.url).unwrap().1;
                    let fetched = Ok(Some(FetchedPayload {
                        payload: answer.clone(),
                        next_url: answer.1.clone(),
                        estimated_bytes: 1,
                        ok: PathValue::Missing,
                    }));
                    fill_slot(fetched, &target.response, slot.max_entry_bytes, slot.ttl)
                }
            };
        if let (Ok(entry), None) = (&outcome, stored) {
            cache.push((
                slot.key.url.to_string(),
                HttpCacheEntry {
                    payload: entry.payload.clone(),
                    next_url: entry.next_url.clone(),
                    ttl: entry.ttl,
                    estimated_bytes: entry.estimated_bytes,
                },
            ));
        }
        let (payload, next_url) = serve(outcome).ok().unwrap().unwrap();
        if fetch.finish_page(Some(read(&payload, next_url))).ok() == Some(PageFlow::Done) {
            return (fetch.into_rows(), requests);
        }
    }
}

#[test]
fn repeated_fetch_is_served_from_the_cache() {
    let mut cache = Vec::new();
    assert_eq!(run(&mut cache), (vec![1, 2, 3, 4, 5], 3));
    assert_eq!(cache.len(), 3);
    assert_eq!(run(&mut cache), (vec![1, 2, 3, 4, 5], 0));
}
