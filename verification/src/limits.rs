//! How many rows a fetch returns, how large its pages are and how many requests
//! it may make.

use crate::target::HttpFetchTarget;
use vstd::prelude::*;

verus! {

/// The bounds that a search function declares.
#[derive(Clone, Copy, Debug, PartialEq, Eq, Structural)]
pub struct SearchLimits {
    /// Rows asked for where the query sets no limit.
    pub default_top_k: usize,
    /// Rows that one call can return.
    pub max_top_k: usize,
    /// Calls that one query may make.
    pub max_calls_per_query: usize,
}

/// The bounds of one fetch.
#[derive(Clone, Copy, Debug, PartialEq, Eq, Structural)]
pub struct FetchLimits {
    /// The fetch stops once it holds this many rows.
    pub effective_limit: Option<usize>,
    /// No page needs to be larger than this.
    pub page_size_limit: Option<usize>,
    /// The fetch stops after this many calls.
    pub max_search_calls: Option<usize>,
}

pub open spec fn at_most(a: int, b: int) -> int {
    if a <= b {
        a
    } else {
        b
    }
}

/// The rows a query asks for: its own limit, or the declared default.
pub open spec fn requested_top_k(search: SearchLimits, sql_limit: Option<usize>) -> usize {
    match sql_limit {
        Some(limit) => limit,
        None => search.default_top_k,
    }
}

/// What `limits` must be. Without declared search limits the query's own limit
/// counts, then the target's default, and pages are bounded by the query's limit
/// alone. With them, the rows asked for are capped by what all permitted calls
/// together can return, and a page by what one call can.
pub open spec fn is_limits_for(
    limits: FetchLimits,
    search_limits: Option<SearchLimits>,
    fetch_limit_default: Option<usize>,
    sql_limit: Option<usize>,
) -> bool {
    match search_limits {
        None => {
            &&& limits.effective_limit == (if sql_limit is Some {
                sql_limit
            } else {
                fetch_limit_default
            })
            &&& limits.page_size_limit == sql_limit
            &&& limits.max_search_calls is None
        },
        Some(search) => {
            let requested = requested_top_k(search, sql_limit) as int;
            &&& limits.effective_limit is Some
            &&& limits.effective_limit->0 == at_most(
                requested,
                search.max_top_k * search.max_calls_per_query,
            )
            &&& limits.page_size_limit is Some
            &&& limits.page_size_limit->0 == at_most(requested, search.max_top_k as int)
            &&& limits.max_search_calls == Some(search.max_calls_per_query)
        },
    }
}

/// The limits of a fetch of `target` by a query that asks for `sql_limit` rows.
pub fn resolve_fetch_limits(target: &HttpFetchTarget, sql_limit: Option<usize>) -> (limits:
    FetchLimits)
    ensures
        is_limits_for(limits, target.search_limits, target.fetch_limit_default, sql_limit),
{
    let search_limits = match target.search_limits {
        Some(search_limits) => search_limits,
        None => {
            return FetchLimits {
                effective_limit: match sql_limit {
                    Some(limit) => Some(limit),
                    None => target.fetch_limit_default,
                },
                page_size_limit: sql_limit,
                max_search_calls: None,
            };
        },
    };
    let requested_top_k: usize = sql_limit.unwrap_or(search_limits.default_top_k);
    // A product that overflows is larger than any number of rows asked for.
    let effective_limit: usize = match search_limits.max_top_k.checked_mul(
        search_limits.max_calls_per_query,
    ) {
        Some(max_candidates) => if requested_top_k <= max_candidates {
            requested_top_k
        } else {
            max_candidates
        },
        None => requested_top_k,
    };
    let page_size_limit: usize = if requested_top_k <= search_limits.max_top_k {
        requested_top_k
    } else {
        search_limits.max_top_k
    };
    FetchLimits {
        effective_limit: Some(effective_limit),
        page_size_limit: Some(page_size_limit),
        max_search_calls: Some(search_limits.max_calls_per_query),
    }
}

/// A search never returns more rows than the query asked for, nor than its
/// permitted calls can return, and never asks for a page larger than one call can
/// return or than the query needs.
pub proof fn law_search_stays_within_declared_limits(
    limits: FetchLimits,
    search: SearchLimits,
    fetch_limit_default: Option<usize>,
    sql_limit: Option<usize>,
)
    requires
        is_limits_for(limits, Some(search), fetch_limit_default, sql_limit),
    ensures
        limits.effective_limit->0 <= requested_top_k(search, sql_limit),
        limits.effective_limit->0 <= search.max_top_k * search.max_calls_per_query,
        limits.page_size_limit->0 <= requested_top_k(search, sql_limit),
        limits.page_size_limit->0 <= search.max_top_k,
{
}

/// The permitted calls, each with a full page, suffice for the rows to return.
pub proof fn law_search_calls_suffice(
    limits: FetchLimits,
    search: SearchLimits,
    fetch_limit_default: Option<usize>,
    sql_limit: Option<usize>,
)
    requires
        is_limits_for(limits, Some(search), fetch_limit_default, sql_limit),
    ensures
        limits.effective_limit->0 <= limits.page_size_limit->0 * limits.max_search_calls->0,
{
    let requested = requested_top_k(search, sql_limit) as int;
    let calls = search.max_calls_per_query as int;
    if requested <= search.max_top_k {
        if calls == 0 {
            assert(search.max_top_k * calls == 0) by (nonlinear_arith)
                requires
                    calls == 0,
            ;
        }
        assert(calls >= 1 ==> requested <= requested * calls) by (nonlinear_arith)
            requires
                requested >= 0,
        ;
        assert(requested * calls >= 0) by (nonlinear_arith)
            requires
                requested >= 0,
                calls >= 0,
        ;
    }
}

/// A limit that the query sets is kept where no search limits are declared,
/// whatever the target's default.
pub proof fn law_query_limit_wins_over_default(
    limits: FetchLimits,
    fetch_limit_default: Option<usize>,
    sql_limit: Option<usize>,
)
    requires
        is_limits_for(limits, None, fetch_limit_default, sql_limit),
        sql_limit is Some,
    ensures
        limits.effective_limit == sql_limit,
        limits.page_size_limit == sql_limit,
{
}

/// A search returns as many rows as the query asks for wherever all permitted calls
/// together can return them, and what they can return otherwise. Its pages are as
/// large as the query needs, or as one call can return, and all declared calls are
/// permitted.
pub proof fn law_search_is_cut_no_shorter_than_declared(
    target: &HttpFetchTarget,
    search: SearchLimits,
    limit: usize,
    limits: FetchLimits,
)
    requires
        call_ensures(resolve_fetch_limits, (target, Some(limit)), limits),
        target.search_limits == Some(search),
    ensures
        limit <= search.max_top_k * search.max_calls_per_query ==> limits.effective_limit == Some(
            limit,
        ),
        limit > search.max_top_k * search.max_calls_per_query ==> {
            &&& limits.effective_limit is Some
            &&& limits.effective_limit->0 == search.max_top_k * search.max_calls_per_query
        },
        limit <= search.max_top_k ==> limits.page_size_limit == Some(limit),
        limit > search.max_top_k ==> limits.page_size_limit == Some(search.max_top_k),
        limits.max_search_calls == Some(search.max_calls_per_query),
{
}

/// A search by a query without a limit is the search by a query that asks for the
/// declared default.
pub proof fn law_search_default_stands_for_the_limit(
    target: &HttpFetchTarget,
    search: SearchLimits,
    unlimited: FetchLimits,
    limited: FetchLimits,
)
    requires
        call_ensures(resolve_fetch_limits, (target, None), unlimited),
        call_ensures(resolve_fetch_limits, (target, Some(search.default_top_k)), limited),
        target.search_limits == Some(search),
    ensures
        unlimited == limited,
{
}

/// Where the query sets a limit, neither a search's default nor the target's has any
/// part in the limits.
pub proof fn law_defaults_have_no_part_where_the_query_sets_a_limit(
    target_a: &HttpFetchTarget,
    target_b: &HttpFetchTarget,
    limit: usize,
    limits_a: FetchLimits,
    limits_b: FetchLimits,
)
    requires
        call_ensures(resolve_fetch_limits, (target_a, Some(limit)), limits_a),
        call_ensures(resolve_fetch_limits, (target_b, Some(limit)), limits_b),
        match (target_a.search_limits, target_b.search_limits) {
            (Some(a), Some(b)) => a.max_top_k == b.max_top_k && a.max_calls_per_query
                == b.max_calls_per_query,
            (None, None) => true,
            _ => false,
        },
    ensures
        limits_a == limits_b,
{
}

/// A search does not go by the target's default, whether or not the query sets a
/// limit.
pub proof fn law_search_goes_by_its_own_limits(
    target_a: &HttpFetchTarget,
    target_b: &HttpFetchTarget,
    sql_limit: Option<usize>,
    limits_a: FetchLimits,
    limits_b: FetchLimits,
)
    requires
        call_ensures(resolve_fetch_limits, (target_a, sql_limit), limits_a),
        call_ensures(resolve_fetch_limits, (target_b, sql_limit), limits_b),
        target_a.search_limits is Some,
        target_a.search_limits == target_b.search_limits,
    ensures
        limits_a == limits_b,
{
}

/// A query that asks for more rows gets no fewer, and no smaller pages.
pub proof fn law_larger_limit_gets_no_less(
    target: &HttpFetchTarget,
    limit: usize,
    larger_limit: usize,
    smaller: FetchLimits,
    larger: FetchLimits,
)
    requires
        call_ensures(resolve_fetch_limits, (target, Some(limit)), smaller),
        call_ensures(resolve_fetch_limits, (target, Some(larger_limit)), larger),
        limit <= larger_limit,
    ensures
        smaller.effective_limit is Some && larger.effective_limit is Some,
        smaller.effective_limit->0 <= larger.effective_limit->0,
        smaller.page_size_limit is Some && larger.page_size_limit is Some,
        smaller.page_size_limit->0 <= larger.page_size_limit->0,
        smaller.max_search_calls == larger.max_search_calls,
{
}

/// Where no search limits are declared, a limit that the query sets bounds the rows
/// and the pages. Without one the target's default bounds the rows, if there is one,
/// and nothing bounds the pages. Calls have no bound.
pub proof fn law_limits_without_a_search(
    target: &HttpFetchTarget,
    sql_limit: Option<usize>,
    limits: FetchLimits,
)
    requires
        call_ensures(resolve_fetch_limits, (target, sql_limit), limits),
        target.search_limits is None,
    ensures
        limits.max_search_calls is None,
        sql_limit matches Some(limit) ==> limits.effective_limit == Some(limit),
        sql_limit matches Some(limit) ==> limits.page_size_limit == Some(limit),
        sql_limit is None ==> limits.effective_limit == target.fetch_limit_default,
        sql_limit is None ==> limits.page_size_limit is None,
{
}

} // verus!
