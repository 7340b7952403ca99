//! Which pages are cached, under which key, and what becomes of a page that was
//! fetched for the cache.

use crate::error::{hands_on, unwrap_network_error, NetworkFailure, SourceError};
use crate::hash::{
    body_text, cache_hash, hash_request_body, law_named_hash_is_of_all_bytes, slice_writes,
};
use crate::headers::header_key;
use crate::json::{json_text, PathValue};
use crate::request::{PageRequest, RequestBody};
use crate::target::{
    http_method_label, method_label, HttpCacheMode, HttpCachePolicy, HttpFetchTarget, HttpSource,
    ResponseSpec, Ttl,
};
use crate::vary::{
    cache_vary_header_hashes, is_vary_outcome, law_names_are_compared_without_case,
    lemma_few_names_are_never_refused, must_refuse_some, same_but_for_case, vary_entries, vary_error, ResolvedHeader, VaryHeaderError,
};
use std::collections::hash_map::DefaultHasher;
use std::sync::Arc;
use vstd::prelude::*;
use vstd::std_specs::hash::DefaultHasherAdditionalSpecFns;
use vstd::utf8::encode_utf8;

verus! {

/// The policy under which the page is cached: a policy that caches at all, and
/// whose last cached page does not come before this one.
pub open spec fn policy_for_page(cache: Option<HttpCachePolicy>, page_count: int) -> Option<
    HttpCachePolicy,
> {
    match cache {
        Some(policy) => if policy.mode == HttpCacheMode::Ttl && (policy.max_pages is None
            || page_count <= policy.max_pages->0) {
            Some(policy)
        } else {
            None
        },
        None => None,
    }
}

/// The policy under which the page with this number is cached, if it is.
pub fn page_cache_policy(target: &HttpFetchTarget, page_count: usize) -> (policy: Option<
    &HttpCachePolicy,
>)
    ensures
        match policy {
            Some(policy) => policy_for_page(target.cache, page_count as int) == Some(*policy),
            None => policy_for_page(target.cache, page_count as int) is None,
        },
{
    let policy = match &target.cache {
        Some(policy) => policy,
        None => return None,
    };
    if policy.mode != HttpCacheMode::Ttl {
        return None;
    }
    match policy.max_pages {
        Some(max_cache_pages) => if page_count <= max_cache_pages {
            Some(policy)
        } else {
            None
        },
        None => Some(policy),
    }
}

/// Everything that a cached page's key is made of.
pub struct CacheKeyParts<'a> {
    pub source_schema: &'a str,
    pub source_version: &'a str,
    pub table: &'a str,
    pub method: &'static str,
    pub url: &'a str,
    pub query_pairs: &'a Vec<(String, String)>,
    pub body_hash: Option<u64>,
    pub vary_headers: Vec<(String, Option<u64>)>,
    pub ttl_secs: u64,
}

/// Where a page belongs in the cache.
pub struct CacheSlot<'a> {
    pub key: CacheKeyParts<'a>,
    /// The largest estimated size that is cached.
    pub max_entry_bytes: usize,
    pub ttl: Ttl,
}

/// What a cached page's key says.
#[verifier::ext_equal]
pub struct CacheKeyView {
    pub source_schema: Seq<char>,
    pub source_version: Seq<char>,
    pub table: Seq<char>,
    pub method: Seq<char>,
    pub url: Seq<char>,
    pub query_pairs: Seq<(Seq<char>, Seq<char>)>,
    pub body_hash: Option<u64>,
    pub vary_headers: Seq<(Seq<char>, Option<u64>)>,
    pub ttl_secs: u64,
}

impl<'a> View for CacheKeyParts<'a> {
    type V = CacheKeyView;

    open spec fn view(&self) -> CacheKeyView {
        CacheKeyView {
            source_schema: self.source_schema@,
            source_version: self.source_version@,
            table: self.table@,
            method: self.method@,
            url: self.url@,
            query_pairs: self.query_pairs.deep_view(),
            body_hash: self.body_hash,
            vary_headers: self.vary_headers.deep_view(),
            ttl_secs: self.ttl_secs,
        }
    }
}

pub open spec fn has_text_body(request: PageRequest) -> bool {
    request.body is Some && request.body->0 is Text
}

/// The text of a request's body, if it has one.
pub open spec fn request_body_text(request: PageRequest) -> Option<Seq<char>> {
    match request.body {
        Some(body) => Some(body_text(body)),
        None => None,
    }
}

/// What the key of a page says that `request` asks for with `headers`.
pub open spec fn page_key(
    source: HttpSource,
    target: HttpFetchTarget,
    policy: HttpCachePolicy,
    request: PageRequest,
    headers: Seq<ResolvedHeader>,
) -> CacheKeyView {
    CacheKeyView {
        source_schema: source.source_schema@,
        source_version: source.source_version@,
        table: target.name@,
        method: method_label(target.method),
        url: request.url@,
        query_pairs: request.query_pairs.deep_view(),
        body_hash: match request_body_text(request) {
            Some(text) => Some(cache_hash(encode_utf8(text))),
            None => None,
        },
        vary_headers: vary_entries(
            headers,
            has_text_body(request),
            policy.vary_headers.deep_view(),
        ),
        ttl_secs: policy.ttl.secs,
    }
}

/// `slot` is where the page belongs that `request` asks for with `headers`.
pub open spec fn is_slot_for(
    slot: CacheSlot,
    source: HttpSource,
    target: HttpFetchTarget,
    policy: HttpCachePolicy,
    request: PageRequest,
    headers: Seq<ResolvedHeader>,
) -> bool {
    &&& slot.key@ == page_key(source, target, policy, request, headers)
    &&& slot.max_entry_bytes == (match policy.max_entry_bytes {
        Some(max_entry_bytes) => max_entry_bytes,
        None => usize::MAX,
    })
    &&& slot.ttl == policy.ttl
}

/// Where the page that `request` asks for belongs in the cache; nowhere, if the
/// page with this number is not cached.
pub fn cache_slot<'a>(
    source: &'a HttpSource,
    target: &'a HttpFetchTarget,
    page_count: usize,
    request: &'a PageRequest,
    request_headers: &[ResolvedHeader],
    table_headers: &[ResolvedHeader],
) -> (slot: Result<Option<CacheSlot<'a>>, VaryHeaderError>)
    ensures
        match (policy_for_page(target.cache, page_count as int), slot) {
            (None, slot) => slot matches Ok(None),
            (Some(policy), Ok(None)) => false,
            (Some(policy), Ok(Some(slot))) => {
                &&& vary_error(
                    request_headers@ + table_headers@,
                    policy.vary_headers.deep_view(),
                ) is None
                &&& policy.vary_headers@.len() > 0 ==> !must_refuse_some(
                    request_headers@ + table_headers@,
                    has_text_body(*request),
                )
                &&& is_slot_for(
                    slot,
                    *source,
                    *target,
                    policy,
                    *request,
                    request_headers@ + table_headers@,
                )
            },
            (Some(policy), Err(error)) => is_vary_outcome(
                Err(error),
                request_headers@ + table_headers@,
                has_text_body(*request),
                policy.vary_headers.deep_view(),
            ),
        },
{
    let policy = match page_cache_policy(target, page_count) {
        Some(policy) => policy,
        None => return Ok(None),
    };
    let body_hash = match &request.body {
        Some(body) => Some(hash_request_body(body)),
        None => None,
    };
    let vary_headers = match cache_vary_header_hashes(
        request_headers,
        table_headers,
        request.body.as_ref(),
        policy.vary_headers.as_slice(),
    ) {
        Ok(vary_headers) => vary_headers,
        Err(error) => return Err(error),
    };
    let key = CacheKeyParts {
        source_schema: source.source_schema.as_str(),
        source_version: source.source_version.as_str(),
        table: target.name.as_str(),
        method: http_method_label(target.method),
        url: request.url.as_str(),
        query_pairs: &request.query_pairs,
        body_hash,
        vary_headers,
        ttl_secs: policy.ttl.secs,
    };
    Ok(
        Some(
            CacheSlot {
                key,
                max_entry_bytes: policy.max_entry_bytes.unwrap_or(usize::MAX),
                ttl: policy.ttl,
            },
        ),
    )
}

/// Two sources, targets and policies say the same as far as a cache key goes, and
/// two requests send the same with the same headers.
pub open spec fn same_key_inputs(
    source_a: HttpSource,
    source_b: HttpSource,
    target_a: HttpFetchTarget,
    target_b: HttpFetchTarget,
    policy_a: HttpCachePolicy,
    policy_b: HttpCachePolicy,
    request_a: PageRequest,
    request_b: PageRequest,
    headers_a: Seq<ResolvedHeader>,
    headers_b: Seq<ResolvedHeader>,
) -> bool {
    &&& source_a.source_schema@ == source_b.source_schema@
    &&& source_a.source_version@ == source_b.source_version@
    &&& target_a.name@ == target_b.name@
    &&& target_a.method == target_b.method
    &&& policy_a.vary_headers.deep_view() == policy_b.vary_headers.deep_view()
    &&& policy_a.ttl.secs == policy_b.ttl.secs
    &&& request_a.url@ == request_b.url@
    &&& request_a.query_pairs.deep_view() == request_b.query_pairs.deep_view()
    &&& request_body_text(request_a) == request_body_text(request_b)
    &&& has_text_body(request_a) == has_text_body(request_b)
    &&& same_but_for_case(headers_a, headers_b)
}

/// Equal requests have equal keys, in every part: the slots of two requests that
/// send the same, for the same source and table, are one.
pub proof fn law_equal_requests_have_equal_keys(
    slot_a: CacheSlot,
    slot_b: CacheSlot,
    source_a: HttpSource,
    source_b: HttpSource,
    target_a: HttpFetchTarget,
    target_b: HttpFetchTarget,
    policy_a: HttpCachePolicy,
    policy_b: HttpCachePolicy,
    request_a: PageRequest,
    request_b: PageRequest,
    headers_a: Seq<ResolvedHeader>,
    headers_b: Seq<ResolvedHeader>,
)
    requires
        is_slot_for(slot_a, source_a, target_a, policy_a, request_a, headers_a),
        is_slot_for(slot_b, source_b, target_b, policy_b, request_b, headers_b),
        same_key_inputs(
            source_a,
            source_b,
            target_a,
            target_b,
            policy_a,
            policy_b,
            request_a,
            request_b,
            headers_a,
            headers_b,
        ),
    ensures
        slot_a.key@ == slot_b.key@,
{
    law_names_are_compared_without_case(
        headers_a,
        headers_b,
        has_text_body(request_a),
        policy_a.vary_headers.deep_view(),
        policy_b.vary_headers.deep_view(),
    );
}

/// Pages that differ in their source, table, method, URL, query, time to live, in the
/// hash of their body or in the entries of their vary headers have different keys.
pub proof fn law_keys_tell_pages_apart(
    slot_a: CacheSlot,
    slot_b: CacheSlot,
    source_a: HttpSource,
    source_b: HttpSource,
    target_a: HttpFetchTarget,
    target_b: HttpFetchTarget,
    policy_a: HttpCachePolicy,
    policy_b: HttpCachePolicy,
    request_a: PageRequest,
    request_b: PageRequest,
    headers_a: Seq<ResolvedHeader>,
    headers_b: Seq<ResolvedHeader>,
)
    requires
        is_slot_for(slot_a, source_a, target_a, policy_a, request_a, headers_a),
        is_slot_for(slot_b, source_b, target_b, policy_b, request_b, headers_b),
        slot_a.key@ == slot_b.key@,
    ensures
        source_a.source_schema@ == source_b.source_schema@,
        source_a.source_version@ == source_b.source_version@,
        target_a.name@ == target_b.name@,
        target_a.method == target_b.method,
        request_a.url@ == request_b.url@,
        request_a.query_pairs.deep_view() == request_b.query_pairs.deep_view(),
        policy_a.ttl.secs == policy_b.ttl.secs,
        request_a.body is Some <==> request_b.body is Some,
        request_a.body is Some ==> cache_hash(encode_utf8(request_body_text(request_a)->0))
            == cache_hash(encode_utf8(request_body_text(request_b)->0)),
        vary_entries(headers_a, has_text_body(request_a), policy_a.vary_headers.deep_view())
            == vary_entries(headers_b, has_text_body(request_b), policy_b.vary_headers.deep_view()),
{
    assert(slot_a.key@.url == slot_b.key@.url);
    assert(slot_a.key@.body_hash == slot_b.key@.body_hash);
    reveal_strlit("GET");
    reveal_strlit("POST");
    assert(method_label(target_a.method).len() == method_label(target_b.method).len());
}

/// A response as it came from the source.
pub struct FetchedPayload<T> {
    pub payload: T,
    pub next_url: Option<String>,
    pub estimated_bytes: usize,
    /// What the payload holds at the response's `ok_path`.
    pub ok: PathValue,
}

/// A cached response.
pub struct HttpCacheEntry<T> {
    pub payload: T,
    pub next_url: Option<String>,
    pub ttl: Ttl,
    pub estimated_bytes: usize,
}

/// Why a response was not put into the cache. All who wait for the same entry get
/// the same outcome, so an error is shared.
pub enum FetchSkipped<T, P, X> {
    /// The source has no data.
    NoData,
    /// The response serves those who wait for it and is then dropped.
    NotCacheable { payload: T, next_url: Option<String> },
    /// The request failed.
    NetworkError(Arc<SourceError<P, X>>),
}

impl<T, P, X> FetchSkipped<T, P, X> {
    pub fn network_error(err: SourceError<P, X>) -> (skipped: Self)
        ensures
            skipped == FetchSkipped::<T, P, X>::NetworkError(Arc::new(err)),
    {
        FetchSkipped::NetworkError(Arc::new(err))
    }

    pub fn no_data() -> (skipped: Self)
        ensures
            skipped == FetchSkipped::<T, P, X>::NoData,
    {
        FetchSkipped::NoData
    }

    pub fn not_cacheable(payload: T, next_url: Option<String>) -> (skipped: Self)
        ensures
            skipped == (FetchSkipped::<T, P, X>::NotCacheable { payload, next_url }),
    {
        FetchSkipped::NotCacheable { payload, next_url }
    }
}

/// All who wait for an entry get their own copy of why there is none.
impl<T: Clone, P, X> Clone for FetchSkipped<T, P, X> {
    fn clone(&self) -> (copy: Self)
        ensures
            match *self {
                FetchSkipped::NoData => copy is NoData,
                FetchSkipped::NotCacheable { payload, next_url } => {
                    &&& copy is NotCacheable
                    &&& cloned::<T>(payload, copy->payload)
                    &&& copy->next_url == next_url
                },
                FetchSkipped::NetworkError(err) => copy == FetchSkipped::<T, P, X>::NetworkError(
                    err,
                ),
            },
    {
        match self {
            FetchSkipped::NoData => FetchSkipped::NoData,
            FetchSkipped::NotCacheable { payload, next_url } => FetchSkipped::NotCacheable {
                payload: payload.clone(),
                next_url: next_url.clone(),
            },
            FetchSkipped::NetworkError(err) => FetchSkipped::NetworkError(err.clone()),
        }
    }
}

/// The source does not say that the request failed: it reports no success flag, or
/// a flag that is `true`.
pub open spec fn reports_success(response: ResponseSpec, ok: bool) -> bool {
    response.ok_path@.len() == 0 || ok
}

/// Whether a response, which holds `ok` at the target's `ok_path`, reports success.
pub fn is_success(response: &ResponseSpec, ok: &PathValue) -> (success: bool)
    ensures
        success == reports_success(*response, ok.holds_true()),
{
    response.ok_path.len() == 0 || ok.is_true()
}

/// What becomes of a request made to fill a cache slot. A response is cached if it
/// reports success and is estimated no larger than `max_entry_bytes`.
pub open spec fn slot_outcome<T, P, X>(
    fetched: Result<Option<FetchedPayload<T>>, SourceError<P, X>>,
    response: ResponseSpec,
    max_entry_bytes: usize,
    ttl: Ttl,
) -> Result<HttpCacheEntry<T>, FetchSkipped<T, P, X>> {
    match fetched {
        Err(err) => Err(FetchSkipped::NetworkError(Arc::new(err))),
        Ok(None) => Err(FetchSkipped::NoData),
        Ok(Some(page)) => if reports_success(response, page.ok.holds_true()) && page.estimated_bytes
            <= max_entry_bytes {
            Ok(
                HttpCacheEntry {
                    payload: page.payload,
                    next_url: page.next_url,
                    ttl,
                    estimated_bytes: page.estimated_bytes,
                },
            )
        } else {
            Err(FetchSkipped::NotCacheable { payload: page.payload, next_url: page.next_url })
        },
    }
}

/// Decides what becomes of a request made to fill a cache slot.
pub fn fill_slot<T, P, X>(
    fetched: Result<Option<FetchedPayload<T>>, SourceError<P, X>>,
    response: &ResponseSpec,
    max_entry_bytes: usize,
    ttl: Ttl,
) -> (outcome: Result<HttpCacheEntry<T>, FetchSkipped<T, P, X>>)
    ensures
        outcome == slot_outcome(fetched, *response, max_entry_bytes, ttl),
{
    let page = match fetched {
        Err(err) => return Err(FetchSkipped::network_error(err)),
        Ok(None) => return Err(FetchSkipped::no_data()),
        Ok(Some(page)) => page,
    };
    if !is_success(response, &page.ok) {
        return Err(FetchSkipped::not_cacheable(page.payload, page.next_url));
    }
    if page.estimated_bytes > max_entry_bytes {
        return Err(FetchSkipped::not_cacheable(page.payload, page.next_url));
    }
    Ok(
        HttpCacheEntry {
            payload: page.payload,
            next_url: page.next_url,
            ttl,
            estimated_bytes: page.estimated_bytes,
        },
    )
}

/// What the cache serves for an outcome: a page, no page, or a shared error.
pub open spec fn served<T, P, X>(
    outcome: Result<HttpCacheEntry<T>, FetchSkipped<T, P, X>>,
) -> Result<Option<(T, Option<String>)>, Arc<SourceError<P, X>>> {
    match outcome {
        Ok(entry) => Ok(Some((entry.payload, entry.next_url))),
        Err(FetchSkipped::NoData) => Ok(None),
        Err(FetchSkipped::NotCacheable { payload, next_url }) => Ok(Some((payload, next_url))),
        Err(FetchSkipped::NetworkError(err)) => Err(err),
    }
}

/// Takes from the cache's outcome the page to go on with, if there is one.
pub fn serve<T, P: Clone, X>(outcome: Result<HttpCacheEntry<T>, FetchSkipped<T, P, X>>) -> (page:
    Result<Option<(T, Option<String>)>, NetworkFailure<P, X>>)
    ensures
        match served(outcome) {
            Ok(expected) => page == Ok::<Option<(T, Option<String>)>, NetworkFailure<P, X>>(
                expected,
            ),
            Err(err) => page is Err && hands_on(err, page->Err_0),
        },
{
    match outcome {
        Ok(entry) => Ok(Some((entry.payload, entry.next_url))),
        Err(FetchSkipped::NetworkError(err)) => Err(unwrap_network_error(err)),
        Err(FetchSkipped::NoData) => Ok(None),
        Err(FetchSkipped::NotCacheable { payload, next_url }) => Ok(Some((payload, next_url))),
    }
}

/// Going through the cache does not change what the first to ask for a page gets:
/// the page, or that there is none, or the error, is what the source answered,
/// whether or not the response is then cached.
pub proof fn law_cache_serves_what_was_fetched<T, P, X>(
    fetched: Result<Option<FetchedPayload<T>>, SourceError<P, X>>,
    response: ResponseSpec,
    max_entry_bytes: usize,
    ttl: Ttl,
)
    ensures
        served(slot_outcome(fetched, response, max_entry_bytes, ttl)) == (match fetched {
            Ok(Some(page)) => Ok::<Option<(T, Option<String>)>, Arc<SourceError<P, X>>>(
                Some((page.payload, page.next_url)),
            ),
            Ok(None) => Ok(None),
            Err(err) => Err(Arc::new(err)),
        }),
{
}

/// Whoever finds a response in the cache gets what the one who put it there got.
pub proof fn law_cache_hit_repeats_the_page<T, P, X>(
    fetched: Result<Option<FetchedPayload<T>>, SourceError<P, X>>,
    response: ResponseSpec,
    max_entry_bytes: usize,
    ttl: Ttl,
    entry: HttpCacheEntry<T>,
)
    requires
        slot_outcome(fetched, response, max_entry_bytes, ttl) == Ok::<
            HttpCacheEntry<T>,
            FetchSkipped<T, P, X>,
        >(entry),
    ensures
        fetched is Ok && fetched->Ok_0 is Some,
        entry.payload == fetched->Ok_0->0.payload,
        entry.next_url == fetched->Ok_0->0.next_url,
        entry.ttl == ttl,
{
}

/// Only a response that reports success and is within the size bound is cached.
pub proof fn law_only_good_responses_are_cached<T, P, X>(
    fetched: Result<Option<FetchedPayload<T>>, SourceError<P, X>>,
    response: ResponseSpec,
    max_entry_bytes: usize,
    ttl: Ttl,
)
    ensures
        slot_outcome(fetched, response, max_entry_bytes, ttl) is Ok <==> {
            &&& fetched is Ok
            &&& fetched->Ok_0 is Some
            &&& reports_success(response, fetched->Ok_0->0.ok.holds_true())
            &&& fetched->Ok_0->0.estimated_bytes <= max_entry_bytes
        },
{
}

/// A page is cached if and only if the target's policy caches by time to live and,
/// where it says how many pages are cached, the page is no later than these. The
/// policy is the target's own.
pub proof fn law_pages_are_cached_as_declared(
    target: &HttpFetchTarget,
    page_count: usize,
    policy: Option<&HttpCachePolicy>,
)
    requires
        call_ensures(page_cache_policy, (target, page_count), policy),
    ensures
        policy is Some <==> {
            &&& target.cache is Some
            &&& target.cache->0.mode is Ttl
            &&& (target.cache->0.max_pages matches Some(max_pages) ==> page_count <= max_pages)
        },
        policy matches Some(policy) ==> *policy == target.cache->0,
{
}

/// A page has a slot, or else an error, if and only if it is cached.
pub proof fn law_cached_pages_have_slots<'a>(
    source: &'a HttpSource,
    target: &'a HttpFetchTarget,
    page_count: usize,
    request: &'a PageRequest,
    request_headers: &[ResolvedHeader],
    table_headers: &[ResolvedHeader],
    slot: Result<Option<CacheSlot<'a>>, VaryHeaderError>,
)
    requires
        call_ensures(
            cache_slot,
            (source, target, page_count, request, request_headers, table_headers),
            slot,
        ),
    ensures
        slot matches Ok(None) <==> !{
            &&& target.cache is Some
            &&& target.cache->0.mode is Ttl
            &&& (target.cache->0.max_pages matches Some(max_pages) ==> page_count <= max_pages)
        },
{
}

/// The key of a page has the source and its version, the table, the method by its
/// name, the URL, the whole query, the hash of the body's own text and the seconds to
/// live, each as it is. The slot has the policy's time to live and its bound on the
/// size, or none.
pub proof fn law_key_has_all_that_is_asked_for<'a>(
    source: &'a HttpSource,
    target: &'a HttpFetchTarget,
    page_count: usize,
    request: &'a PageRequest,
    request_headers: &[ResolvedHeader],
    table_headers: &[ResolvedHeader],
    result: Result<Option<CacheSlot<'a>>, VaryHeaderError>,
    slot: CacheSlot<'a>,
)
    requires
        call_ensures(
            cache_slot,
            (source, target, page_count, request, request_headers, table_headers),
            result,
        ),
        result == Ok::<Option<CacheSlot<'a>>, VaryHeaderError>(Some(slot)),
    ensures
        slot.key.source_schema@ == source.source_schema@,
        slot.key.source_version@ == source.source_version@,
        slot.key.table@ == target.name@,
        target.method is GET ==> slot.key.method@ == "GET"@,
        target.method is POST ==> slot.key.method@ == "POST"@,
        slot.key.url@ == request.url@,
        slot.key.query_pairs.deep_view() == request.query_pairs.deep_view(),
        match request.body {
            None => slot.key.body_hash is None,
            Some(RequestBody::Json(value)) => slot.key.body_hash == Some(
                DefaultHasher::spec_finish(slice_writes(encode_utf8(json_text(value)))),
            ),
            Some(RequestBody::Text(text)) => slot.key.body_hash == Some(
                DefaultHasher::spec_finish(slice_writes(encode_utf8(text@))),
            ),
        },
        slot.key.ttl_secs == target.cache->0.ttl.secs,
        slot.ttl == target.cache->0.ttl,
        target.cache->0.max_entry_bytes matches Some(max_entry_bytes) ==> slot.max_entry_bytes
            == max_entry_bytes,
        target.cache->0.max_entry_bytes is None ==> slot.max_entry_bytes == usize::MAX,
{
    lemma_key_is_that_of_the_page(slot);
    match request.body {
        Some(RequestBody::Json(value)) => {
            law_named_hash_is_of_all_bytes(encode_utf8(json_text(value)));
        },
        Some(RequestBody::Text(text)) => {
            law_named_hash_is_of_all_bytes(encode_utf8(text@));
        },
        None => {},
    }
}

/// What a key is by its view, it is by its parts.
proof fn lemma_key_is_that_of_the_page(slot: CacheSlot)
    ensures
        slot.key@.source_schema == slot.key.source_schema@,
        slot.key@.source_version == slot.key.source_version@,
        slot.key@.table == slot.key.table@,
        slot.key@.method == slot.key.method@,
        slot.key@.url == slot.key.url@,
        slot.key@.query_pairs == slot.key.query_pairs.deep_view(),
        slot.key@.body_hash == slot.key.body_hash,
        slot.key@.vary_headers == slot.key.vary_headers.deep_view(),
        slot.key@.ttl_secs == slot.key.ttl_secs,
{
}

/// The key of a page has the entries of the policy's vary headers for the request.
/// Where these cannot be made, the page has no slot, and the reason is theirs. Only a
/// refusal by the header map can come in the way.
pub proof fn law_key_has_the_entries_of_the_request<'a>(
    source: &'a HttpSource,
    target: &'a HttpFetchTarget,
    page_count: usize,
    request: &'a PageRequest,
    request_headers: &[ResolvedHeader],
    table_headers: &[ResolvedHeader],
    result: Result<Option<CacheSlot<'a>>, VaryHeaderError>,
    body: Option<&RequestBody>,
    vary_headers: &[String],
    entries: Result<Vec<(String, Option<u64>)>, VaryHeaderError>,
)
    requires
        call_ensures(
            cache_slot,
            (source, target, page_count, request, request_headers, table_headers),
            result,
        ),
        !(result matches Ok(None)),
        body is Some <==> request.body is Some,
        body is Some ==> *body->0 == request.body->0,
        vary_headers@ == target.cache->0.vary_headers@,
        call_ensures(
            cache_vary_header_hashes,
            (request_headers, table_headers, body, vary_headers),
            entries,
        ),
        !(result matches Err(VaryHeaderError::TooManyHeaders)),
        !(entries matches Err(VaryHeaderError::TooManyHeaders)),
    ensures
        result is Ok <==> entries is Ok,
        result is Ok ==> {
            &&& result->Ok_0 is Some
            &&& result->Ok_0->0.key.vary_headers@.len() == entries->Ok_0@.len()
            &&& forall|i: int|
                0 <= i < entries->Ok_0@.len() ==> {
                    &&& (#[trigger] result->Ok_0->0.key.vary_headers@[i]).0@
                        == entries->Ok_0@[i].0@
                    &&& result->Ok_0->0.key.vary_headers@[i].1 == entries->Ok_0@[i].1
                }
        },
        entries matches Err(VaryHeaderError::Unresolved) ==> result matches Err(
            VaryHeaderError::Unresolved,
        ),
        entries matches Err(VaryHeaderError::Execution { detail }) ==> (result matches Err(
            VaryHeaderError::Execution { detail: reason },
        ) && reason@ == detail@),
{
    let policy = target.cache->0;
    assert(vary_headers.deep_view() == policy.vary_headers.deep_view());
    if result is Ok {
        let key = result->Ok_0->0.key;
        lemma_key_is_that_of_the_page(result->Ok_0->0);
        assert(entries is Ok);
        let listed = entries->Ok_0;
        assert(key.vary_headers.deep_view() == listed.deep_view());
        assert(key.vary_headers.deep_view().len() == key.vary_headers@.len());
        assert(listed.deep_view().len() == listed@.len());
        assert forall|i: int| 0 <= i < listed@.len() implies {
            &&& (#[trigger] key.vary_headers@[i]).0@ == listed@[i].0@
            &&& key.vary_headers@[i].1 == listed@[i].1
        } by {
            assert(key.vary_headers.deep_view()[i] == key.vary_headers@[i].deep_view());
            assert(listed.deep_view()[i] == listed@[i].deep_view());
        }
    }
}

/// Keys tell bodies apart as far as hashes of their whole texts do: where the keys of
/// two pages agree on the body, both requests have one or neither has, and the hashes
/// of the JSON text, or of the text, are equal.
pub proof fn law_keys_tell_bodies_apart<'a>(
    source_a: &'a HttpSource,
    target_a: &'a HttpFetchTarget,
    page_count_a: usize,
    request_a: &'a PageRequest,
    request_headers_a: &[ResolvedHeader],
    table_headers_a: &[ResolvedHeader],
    result_a: Result<Option<CacheSlot<'a>>, VaryHeaderError>,
    slot_a: CacheSlot<'a>,
    source_b: &'a HttpSource,
    target_b: &'a HttpFetchTarget,
    page_count_b: usize,
    request_b: &'a PageRequest,
    request_headers_b: &[ResolvedHeader],
    table_headers_b: &[ResolvedHeader],
    result_b: Result<Option<CacheSlot<'a>>, VaryHeaderError>,
    slot_b: CacheSlot<'a>,
)
    requires
        call_ensures(
            cache_slot,
            (source_a, target_a, page_count_a, request_a, request_headers_a, table_headers_a),
            result_a,
        ),
        result_a == Ok::<Option<CacheSlot<'a>>, VaryHeaderError>(Some(slot_a)),
        call_ensures(
            cache_slot,
            (source_b, target_b, page_count_b, request_b, request_headers_b, table_headers_b),
            result_b,
        ),
        result_b == Ok::<Option<CacheSlot<'a>>, VaryHeaderError>(Some(slot_b)),
        slot_a.key.body_hash == slot_b.key.body_hash,
    ensures
        request_a.body is Some <==> request_b.body is Some,
        (request_a.body matches Some(RequestBody::Json(_)) && request_b.body matches Some(
            RequestBody::Json(_),
        )) ==> cache_hash(encode_utf8(json_text(request_a.body->0->Json_0))) == cache_hash(
            encode_utf8(json_text(request_b.body->0->Json_0)),
        ),
        (request_a.body matches Some(RequestBody::Text(_)) && request_b.body matches Some(
            RequestBody::Text(_),
        )) ==> cache_hash(encode_utf8(request_a.body->0->Text_0@)) == cache_hash(
            encode_utf8(request_b.body->0->Text_0@),
        ),
        (request_a.body matches Some(RequestBody::Json(_)) && request_b.body matches Some(
            RequestBody::Text(_),
        )) ==> cache_hash(encode_utf8(json_text(request_a.body->0->Json_0))) == cache_hash(
            encode_utf8(request_b.body->0->Text_0@),
        ),
{
    law_key_has_all_that_is_asked_for(
        source_a,
        target_a,
        page_count_a,
        request_a,
        request_headers_a,
        table_headers_a,
        result_a,
        slot_a,
    );
    law_key_has_all_that_is_asked_for(
        source_b,
        target_b,
        page_count_b,
        request_b,
        request_headers_b,
        table_headers_b,
        result_b,
        slot_b,
    );
}

/// A response reports success if and only if the target has no path to a success
/// flag, or the response holds the boolean `true` at that path, however long it is.
pub proof fn law_success_is_no_flag_or_true(response: &ResponseSpec, ok: &PathValue, success: bool)
    requires
        call_ensures(is_success, (response, ok), success),
    ensures
        success <==> response.ok_path@.len() == 0 || *ok == PathValue::Bool(true),
{
}

/// A response is cached if and only if it came, with no flag or the boolean `true`
/// where the target has one, and is estimated no larger than permitted. The entry has
/// the response as it came, with its link, its size and the time to live.
pub proof fn law_responses_are_cached_as_they_came<T, P, X>(
    fetched: Result<Option<FetchedPayload<T>>, SourceError<P, X>>,
    response: &ResponseSpec,
    max_entry_bytes: usize,
    ttl: Ttl,
    outcome: Result<HttpCacheEntry<T>, FetchSkipped<T, P, X>>,
)
    requires
        call_ensures(fill_slot::<T, P, X>, (fetched, response, max_entry_bytes, ttl), outcome),
    ensures
        outcome is Ok <==> (fetched matches Ok(Some(page)) && (response.ok_path@.len() == 0
            || page.ok == PathValue::Bool(true)) && page.estimated_bytes <= max_entry_bytes),
        outcome matches Ok(entry) ==> {
            &&& entry.payload == fetched->Ok_0->0.payload
            &&& entry.next_url == fetched->Ok_0->0.next_url
            &&& entry.estimated_bytes == fetched->Ok_0->0.estimated_bytes
            &&& entry.ttl == ttl
        },
{
}

/// A response that came and is not cached serves as it came, with its link; that
/// there is no data is kept; and an error is kept as it is.
pub proof fn law_what_is_not_cached_is_kept_as_it_came<T, P, X>(
    fetched: Result<Option<FetchedPayload<T>>, SourceError<P, X>>,
    response: &ResponseSpec,
    max_entry_bytes: usize,
    ttl: Ttl,
    outcome: Result<HttpCacheEntry<T>, FetchSkipped<T, P, X>>,
)
    requires
        call_ensures(fill_slot::<T, P, X>, (fetched, response, max_entry_bytes, ttl), outcome),
    ensures
        fetched matches Ok(None) ==> outcome matches Err(FetchSkipped::NoData),
        fetched matches Err(error) ==> (outcome matches Err(FetchSkipped::NetworkError(shared))
            && *shared == error),
        fetched matches Ok(Some(page)) ==> outcome is Ok || (outcome matches Err(
            FetchSkipped::NotCacheable { payload, next_url },
        ) && payload == page.payload && next_url == page.next_url),
{
}

/// What the cache holds or hands on is served as it is: a response with its link,
/// whether or not it was cached, no page where there is no data, and a failure where
/// the request failed, of the kind that the failure was.
pub proof fn law_outcomes_are_served_as_they_are<T, P: Clone, X>(
    outcome: Result<HttpCacheEntry<T>, FetchSkipped<T, P, X>>,
    page: Result<Option<(T, Option<String>)>, NetworkFailure<P, X>>,
)
    requires
        call_ensures(serve::<T, P, X>, (outcome,), page),
    ensures
        outcome matches Ok(entry) ==> (page matches Ok(Some(served)) && served.0 == entry.payload
            && served.1 == entry.next_url),
        outcome matches Err(FetchSkipped::NotCacheable { payload, next_url }) ==> (
        page matches Ok(Some(served)) && served.0 == payload && served.1 == next_url),
        outcome matches Err(FetchSkipped::NoData) ==> page matches Ok(None),
        outcome matches Err(FetchSkipped::NetworkError(err)) ==> match *err {
            SourceError::Provider(original) => page matches Err(NetworkFailure::Provider(copy))
                && cloned::<P>(original, copy),
            SourceError::Other(_) => page matches Err(NetworkFailure::Shared(shared)) && shared
                == err,
        },
{
}

/// Going through the cache changes nothing: what is served of an outcome is the
/// response as it came, with its link, or that there is none, or the failure.
pub proof fn law_serving_gives_back_what_was_fetched<T, P: Clone, X>(
    fetched: Result<Option<FetchedPayload<T>>, SourceError<P, X>>,
    response: &ResponseSpec,
    max_entry_bytes: usize,
    ttl: Ttl,
    outcome: Result<HttpCacheEntry<T>, FetchSkipped<T, P, X>>,
    page: Result<Option<(T, Option<String>)>, NetworkFailure<P, X>>,
)
    requires
        call_ensures(fill_slot::<T, P, X>, (fetched, response, max_entry_bytes, ttl), outcome),
        call_ensures(serve::<T, P, X>, (outcome,), page),
    ensures
        fetched matches Ok(Some(got)) ==> (page matches Ok(Some(served)) && served.0 == got.payload
            && served.1 == got.next_url),
        fetched matches Ok(None) ==> page matches Ok(None),
        fetched is Err ==> page is Err,
{
    law_what_is_not_cached_is_kept_as_it_came(fetched, response, max_entry_bytes, ttl, outcome);
    law_responses_are_cached_as_they_came(fetched, response, max_entry_bytes, ttl, outcome);
    law_outcomes_are_served_as_they_are(outcome, page);
}

/// No page is without a slot for too many headers where all names under which values
/// are sent are among fewer than 6554.
pub proof fn law_slots_are_not_refused_with_few_names<'a>(
    source: &'a HttpSource,
    target: &'a HttpFetchTarget,
    page_count: usize,
    request: &'a PageRequest,
    request_headers: &[ResolvedHeader],
    table_headers: &[ResolvedHeader],
    result: Result<Option<CacheSlot<'a>>, VaryHeaderError>,
    names: Set<Seq<char>>,
)
    requires
        call_ensures(
            cache_slot,
            (source, target, page_count, request, request_headers, table_headers),
            result,
        ),
        names.finite(),
        names.len() < 6554,
        forall|j: int|
            0 <= j < request_headers@.len() + table_headers@.len() && (
            #[trigger] (request_headers@ + table_headers@)[j]).value is Text ==> names.contains(
                header_key((request_headers@ + table_headers@)[j].name@),
            ),
    ensures
        !(result matches Err(VaryHeaderError::TooManyHeaders)),
{
    if result matches Err(VaryHeaderError::TooManyHeaders) {
        lemma_few_names_are_never_refused(
            Err(VaryHeaderError::TooManyHeaders),
            request_headers@ + table_headers@,
            has_text_body(*request),
            target.cache->0.vary_headers.deep_view(),
            names,
        );
    }
}

} // verus!
