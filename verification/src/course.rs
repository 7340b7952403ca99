//! What holds of a fetch over its whole course.

use crate::cache::{
    page_key, policy_for_page, slot_outcome, CacheKeyView, FetchSkipped, FetchedPayload,
    HttpCacheEntry,
};
use crate::error::{ProviderQueryError, ProviderQueryErrorView};
use crate::fetch::{
    after_page, begun, calls_spent, first_state, follows_links, is_following_link, limit_reached,
    max_pages_failure, page_view, saturated, uses_cursor, FetchPlan, FetchView, FetchedPage,
    PageFlow, PageView, RowFetch, Verdict,
};
use crate::limits::{is_limits_for, requested_top_k, FetchLimits, SearchLimits};
use crate::request::PageRequest;
use crate::target::{HttpFetchTarget, ValidatedPaginationMode};
use crate::text::{is_white_space, law_nothing_is_left_of_white_space, trimmed};
use crate::vary::{vary_error, ResolvedHeader};
use vstd::prelude::*;

verus! {

/// How far a fetch gets with given pages.
pub enum Course<R> {
    /// It waits for its next page.
    Waiting(FetchView<R>),
    /// It is done.
    Finished(FetchView<R>),
    /// It failed, after so many pages were asked for.
    Failed { error: ProviderQueryErrorView, asked: nat },
}

/// How far a fetch gets if the source answers with `pages`, in their order.
pub open spec fn course<R>(
    plan: FetchPlan,
    fetch: FetchView<R>,
    pages: Seq<Option<PageView<R>>>,
) -> Course<R>
    decreases pages.len(),
{
    if fetch.page_count >= plan.max_pages {
        Course::Failed { error: max_pages_failure(plan), asked: fetch.page_count }
    } else if pages.len() == 0 {
        Course::Waiting(fetch)
    } else {
        let (next, verdict) = after_page(plan, begun(fetch), pages.first());
        match verdict {
            Verdict::More => course(plan, next, pages.drop_first()),
            Verdict::Done => Course::Finished(next),
            Verdict::Failed(error) => Course::Failed { error, asked: next.page_count },
        }
    }
}

/// The rows of `pages`, in their order.
pub open spec fn rows_of<R>(pages: Seq<Option<PageView<R>>>) -> Seq<R>
    decreases pages.len(),
{
    if pages.len() == 0 {
        Seq::empty()
    } else {
        (match pages.first() {
            Some(page) => page.rows,
            None => Seq::empty(),
        }) + rows_of(pages.drop_first())
    }
}

/// The first of `rows`, as many as the limit lets through.
pub open spec fn within_limit<R>(limits: FetchLimits, rows: Seq<R>) -> Seq<R> {
    if limit_reached(limits, rows.len()) {
        rows.take(limits.effective_limit->0 as int)
    } else {
        rows
    }
}

/// A fetch that has no more rows than it may return.
pub open spec fn is_within_limit<R>(plan: FetchPlan, fetch: FetchView<R>) -> bool {
    plan.limits.effective_limit is Some ==> fetch.rows.len() <= plan.limits.effective_limit->0
}

/// A finished fetch returns the rows of the pages that it asked for, in their
/// order, up to its limit: none is missing, repeated or moved.
pub proof fn law_returns_rows_of_pages_in_order<R>(
    plan: FetchPlan,
    fetch: FetchView<R>,
    pages: Seq<Option<PageView<R>>>,
    end: FetchView<R>,
)
    requires
        is_within_limit(plan, fetch),
        course(plan, fetch, pages) == Course::Finished(end),
    ensures
        fetch.page_count < end.page_count <= fetch.page_count + pages.len(),
        end.rows == within_limit(
            plan.limits,
            fetch.rows + rows_of(pages.take(end.page_count - fetch.page_count)),
        ),
    decreases pages.len(),
{
    let (next, verdict) = after_page(plan, begun(fetch), pages.first());
    let first_rows = match pages.first() {
        Some(page) => page.rows,
        None => Seq::empty(),
    };
    match verdict {
        Verdict::More => {
            law_returns_rows_of_pages_in_order(plan, next, pages.drop_first(), end);
            let n = end.page_count - fetch.page_count;
            assert(pages.take(n).first() == pages.first());
            assert(pages.take(n).drop_first() == pages.drop_first().take(n - 1));
            assert(next.rows + rows_of(pages.drop_first().take(n - 1)) == fetch.rows + rows_of(
                pages.take(n),
            ));
        },
        _ => {
            assert(pages.take(1).drop_first().len() == 0);
            assert(pages.take(1).first() == pages.first());
            assert(rows_of(pages.take(1).drop_first()) == Seq::<R>::empty());
            assert(rows_of(pages.take(1)) == first_rows);
            assert(end == next);
            assert(end.rows == within_limit(plan.limits, fetch.rows + first_rows));
        },
    }
}

/// A finished fetch returns no more rows than its limit.
pub proof fn law_returns_no_more_than_limit<R>(
    plan: FetchPlan,
    fetch: FetchView<R>,
    pages: Seq<Option<PageView<R>>>,
    end: FetchView<R>,
)
    requires
        is_within_limit(plan, fetch),
        course(plan, fetch, pages) == Course::Finished(end),
    ensures
        is_within_limit(plan, end),
{
    law_returns_rows_of_pages_in_order(plan, fetch, pages, end);
}

/// A fetch without a limit that finishes returns every row of every page that it
/// asked for.
pub proof fn law_returns_all_rows_without_limit<R>(
    plan: FetchPlan,
    fetch: FetchView<R>,
    pages: Seq<Option<PageView<R>>>,
    end: FetchView<R>,
)
    requires
        plan.limits.effective_limit is None,
        course(plan, fetch, pages) == Course::Finished(end),
    ensures
        end.rows == fetch.rows + rows_of(pages.take(end.page_count - fetch.page_count)),
{
    law_returns_rows_of_pages_in_order(plan, fetch, pages, end);
}

/// A fetch never asks for more pages than it may, whether it finishes, fails or still
/// waits.
pub proof fn law_asks_for_no_more_than_max_pages<R>(
    plan: FetchPlan,
    fetch: FetchView<R>,
    pages: Seq<Option<PageView<R>>>,
)
    ensures
        match course(plan, fetch, pages) {
            Course::Waiting(end) => end.page_count < plan.max_pages,
            Course::Finished(end) => end.page_count <= plan.max_pages,
            Course::Failed { asked, .. } => asked <= plan.max_pages || asked == fetch.page_count,
        },
    decreases pages.len(),
{
    if fetch.page_count < plan.max_pages && pages.len() > 0 {
        let (next, verdict) = after_page(plan, begun(fetch), pages.first());
        if verdict is More {
            law_asks_for_no_more_than_max_pages(plan, next, pages.drop_first());
        }
    }
}

/// However the source answers, a fetch comes to an end: it waits for no page once
/// it has all that it may ask for.
pub proof fn law_comes_to_an_end<R>(
    plan: FetchPlan,
    fetch: FetchView<R>,
    pages: Seq<Option<PageView<R>>>,
)
    requires
        fetch.page_count + pages.len() >= plan.max_pages,
    ensures
        !(course(plan, fetch, pages) is Waiting),
    decreases pages.len(),
{
    if fetch.page_count < plan.max_pages {
        let (next, verdict) = after_page(plan, begun(fetch), pages.first());
        if verdict is More {
            law_comes_to_an_end(plan, next, pages.drop_first());
        }
    }
}

/// What a fetch came to depends on no page after its last.
pub proof fn law_later_pages_have_no_part<R>(
    plan: FetchPlan,
    fetch: FetchView<R>,
    pages: Seq<Option<PageView<R>>>,
    later: Seq<Option<PageView<R>>>,
)
    requires
        !(course(plan, fetch, pages) is Waiting),
    ensures
        course(plan, fetch, pages + later) == course(plan, fetch, pages),
    decreases pages.len(),
{
    if fetch.page_count < plan.max_pages {
        let (next, verdict) = after_page(plan, begun(fetch), pages.first());
        assert((pages + later).first() == pages.first());
        assert((pages + later).drop_first() == pages.drop_first() + later);
        if verdict is More {
            law_later_pages_have_no_part(plan, next, pages.drop_first(), later);
        }
    }
}

/// A table that is not paginated takes one page, whatever comes of it.
pub proof fn law_single_page_is_enough<R>(
    plan: FetchPlan,
    fetch: FetchView<R>,
    pages: Seq<Option<PageView<R>>>,
)
    requires
        plan.mode is SinglePage,
        pages.len() > 0,
    ensures
        !(course(plan, fetch, pages) is Waiting),
        course(plan, fetch, pages) matches Course::Finished(end) ==> end.page_count
            == fetch.page_count + 1,
{
}

/// A search makes no more calls than it may, counting at least its first, whether it
/// finishes, fails or still waits; while it waits, a call is left to it. It never
/// holds more rows than the query asked for or than its calls can return.
pub proof fn law_search_is_bounded<R>(
    plan: FetchPlan,
    fetch: FetchView<R>,
    pages: Seq<Option<PageView<R>>>,
    search: SearchLimits,
    fetch_limit_default: Option<usize>,
    sql_limit: Option<usize>,
)
    requires
        is_limits_for(plan.limits, Some(search), fetch_limit_default, sql_limit),
        fetch.page_count == 0,
        fetch.rows.len() == 0,
    ensures
        match course(plan, fetch, pages) {
            Course::Waiting(end) => {
                &&& end.page_count == 0 || end.page_count < search.max_calls_per_query
                &&& end.rows.len() <= requested_top_k(search, sql_limit)
                &&& end.rows.len() <= search.max_top_k * search.max_calls_per_query
            },
            Course::Finished(end) => {
                &&& end.page_count <= 1 || end.page_count <= search.max_calls_per_query
                &&& end.rows.len() <= requested_top_k(search, sql_limit)
                &&& end.rows.len() <= search.max_top_k * search.max_calls_per_query
            },
            Course::Failed { asked, .. } => asked <= 1 || asked <= search.max_calls_per_query,
        },
{
    lemma_stays_within_bounds(plan, fetch, pages);
}

/// Over its course a fetch stays within its limit and its calls.
proof fn lemma_stays_within_bounds<R>(
    plan: FetchPlan,
    fetch: FetchView<R>,
    pages: Seq<Option<PageView<R>>>,
)
    requires
        plan.limits.max_search_calls is Some,
        fetch.page_count == 0 || !calls_spent(plan.limits, fetch.page_count),
        is_within_limit(plan, fetch),
    ensures
        match course(plan, fetch, pages) {
            Course::Waiting(end) => {
                &&& end.page_count == 0 || !calls_spent(plan.limits, end.page_count)
                &&& is_within_limit(plan, end)
            },
            Course::Finished(end) => {
                &&& end.page_count <= 1 || end.page_count <= plan.limits.max_search_calls->0
                &&& is_within_limit(plan, end)
            },
            Course::Failed { asked, .. } => asked <= 1 || asked
                <= plan.limits.max_search_calls->0,
        },
    decreases pages.len(),
{
    if fetch.page_count < plan.max_pages && pages.len() > 0 {
        let (next, verdict) = after_page(plan, begun(fetch), pages.first());
        if verdict is More {
            lemma_stays_within_bounds(plan, next, pages.drop_first());
        }
    }
}

/// A fetch that waits for a page took in each of the others: all came, reported
/// success and left the limit out of reach.
proof fn lemma_waits_after_each_page<R>(
    plan: FetchPlan,
    fetch: FetchView<R>,
    pages: Seq<Option<PageView<R>>>,
    end: FetchView<R>,
)
    requires
        course(plan, fetch, pages) == Course::Waiting(end),
        pages.len() > 0,
    ensures
        pages.first() is Some,
        ({
            let (next, verdict) = after_page(plan, begun(fetch), pages.first());
            &&& verdict is More
            &&& course(plan, next, pages.drop_first()) == Course::Waiting(end)
        }),
{
}

/// The first page is never one that a response linked to.
pub proof fn law_first_page_is_not_a_link(target: HttpFetchTarget, mode: ValidatedPaginationMode)
    ensures
        !is_following_link(mode, first_state(target, mode)),
{
}

/// Where pages are linked, each page after the first is the one that the response
/// before it linked to.
pub proof fn law_follows_the_last_link<R>(
    plan: FetchPlan,
    fetch: FetchView<R>,
    pages: Seq<Option<PageView<R>>>,
    end: FetchView<R>,
)
    requires
        follows_links(plan.mode),
        course(plan, fetch, pages) == Course::Waiting(end),
        pages.len() > 0,
    ensures
        is_following_link(plan.mode, end.state),
        pages.last() is Some,
        end.state.next_url == pages.last()->0.next_url,
    decreases pages.len(),
{
    lemma_waits_after_each_page(plan, fetch, pages, end);
    let (next, verdict) = after_page(plan, begun(fetch), pages.first());
    if pages.len() > 1 {
        law_follows_the_last_link(plan, next, pages.drop_first(), end);
        assert(pages.drop_first().last() == pages.last());
    }
}

/// Where pages have cursors, each page after the first is asked for by the cursor
/// of the response before it, which is not empty and has no white space around it.
pub proof fn law_sends_the_last_cursor<R>(
    plan: FetchPlan,
    fetch: FetchView<R>,
    pages: Seq<Option<PageView<R>>>,
    end: FetchView<R>,
)
    requires
        uses_cursor(plan.mode),
        course(plan, fetch, pages) == Course::Waiting(end),
        pages.len() > 0,
    ensures
        pages.last() is Some,
        pages.last()->0.cursor is Some,
        end.state.cursor == Some(trimmed(pages.last()->0.cursor->0)),
        end.state.cursor->0.len() > 0,
        !is_white_space(end.state.cursor->0.first()),
        !is_white_space(end.state.cursor->0.last()),
    decreases pages.len(),
{
    lemma_waits_after_each_page(plan, fetch, pages, end);
    let (next, verdict) = after_page(plan, begun(fetch), pages.first());
    if pages.len() > 1 {
        law_sends_the_last_cursor(plan, next, pages.drop_first(), end);
        assert(pages.drop_first().last() == pages.last());
    } else {
        lemma_trimmed_ends(pages.last()->0.cursor->0);
    }
}

proof fn lemma_trimmed_ends(s: Seq<char>)
    ensures
        trimmed(s).len() > 0 ==> !is_white_space(trimmed(s).first()) && !is_white_space(
            trimmed(s).last(),
        ),
    decreases s.len(),
{
    if s.len() > 0 && is_white_space(s.first()) {
        lemma_trimmed_ends(s.drop_first());
    } else if s.len() > 0 && is_white_space(s.last()) {
        lemma_trimmed_ends(s.drop_last());
    }
}

/// Where pages are numbered, the number grows by the declared step with each page,
/// and stays at the largest (or smallest) number that can be told once it gets
/// there.
pub proof fn law_page_numbers_step<R>(
    plan: FetchPlan,
    fetch: FetchView<R>,
    pages: Seq<Option<PageView<R>>>,
    end: FetchView<R>,
)
    requires
        plan.mode is Page,
        i64::MIN <= fetch.state.page <= i64::MAX,
        course(plan, fetch, pages) == Course::Waiting(end),
    ensures
        end.state.page == saturated(
            fetch.state.page + pages.len() * plan.target.pagination.page_step,
        ),
    decreases pages.len(),
{
    let step = plan.target.pagination.page_step as int;
    let n = pages.len() as int;
    if pages.len() > 0 {
        lemma_waits_after_each_page(plan, fetch, pages, end);
        let (next, verdict) = after_page(plan, begun(fetch), pages.first());
        law_page_numbers_step(plan, next, pages.drop_first(), end);
        assert(n * step == step + (n - 1) * step) by (nonlinear_arith);
        assert(step >= 0 ==> (n - 1) * step >= 0) by (nonlinear_arith)
            requires
                n >= 1,
        ;
        assert(step <= 0 ==> (n - 1) * step <= 0) by (nonlinear_arith)
            requires
                n >= 1,
        ;
    } else {
        assert(n * step == 0) by (nonlinear_arith)
            requires
                n == 0,
        ;
    }
}

/// The offset after the steps that the pages give, each added to the one before and
/// held to what an `i64` can hold.
pub open spec fn offset_after<R>(start: int, pages: Seq<Option<PageView<R>>>) -> int
    decreases pages.len(),
{
    if pages.len() == 0 {
        start
    } else {
        offset_after(
            saturated(start + pages.first()->0.offset_step->Ok_0),
            pages.drop_first(),
        )
    }
}

/// Where pages are found by offset, each page gives a step, and the offset is the
/// start with all steps since added one by one, saturating.
pub proof fn law_offsets_step<R>(
    plan: FetchPlan,
    fetch: FetchView<R>,
    pages: Seq<Option<PageView<R>>>,
    end: FetchView<R>,
)
    requires
        plan.mode is Offset,
        course(plan, fetch, pages) == Course::Waiting(end),
    ensures
        forall|i: int|
            0 <= i < pages.len() ==> (#[trigger] pages[i]) is Some && pages[i]->0.offset_step is Ok,
        end.state.offset == offset_after(fetch.state.offset, pages),
    decreases pages.len(),
{
    if pages.len() > 0 {
        lemma_waits_after_each_page(plan, fetch, pages, end);
        let (next, verdict) = after_page(plan, begun(fetch), pages.first());
        law_offsets_step(plan, next, pages.drop_first(), end);
        assert forall|i: int| 0 <= i < pages.len() implies (#[trigger] pages[i]) is Some
            && pages[i]->0.offset_step is Ok by {
            if i > 0 {
                assert(pages[i] == pages.drop_first()[i - 1]);
            }
        }
    }
}

/// The steps that the pages give, added up.
pub open spec fn steps_of<R>(pages: Seq<Option<PageView<R>>>) -> int
    decreases pages.len(),
{
    if pages.len() == 0 {
        0
    } else {
        pages.first()->0.offset_step->Ok_0 + steps_of(pages.drop_first())
    }
}

/// Where no step leads back, the offset after all steps is their sum with the start,
/// or the largest number that an `i64` can hold.
pub proof fn law_forward_offsets_add_up<R>(start: int, pages: Seq<Option<PageView<R>>>)
    requires
        i64::MIN <= start <= i64::MAX,
        forall|i: int|
            0 <= i < pages.len() ==> (#[trigger] pages[i])->0.offset_step->Ok_0 >= 0,
    ensures
        steps_of(pages) >= 0,
        offset_after(start, pages) == saturated(start + steps_of(pages)),
    decreases pages.len(),
{
    if pages.len() > 0 {
        let rest = pages.drop_first();
        assert(pages[0]->0.offset_step->Ok_0 >= 0);
        assert forall|i: int| 0 <= i < rest.len() implies (
        #[trigger] rest[i])->0.offset_step->Ok_0 >= 0 by {
            assert(rest[i] == pages[i + 1]);
        }
        law_forward_offsets_add_up(saturated(start + pages.first()->0.offset_step->Ok_0), rest);
    }
}

/// What is the same in two fetches of one target by equal queries: how a page's
/// request and headers come from the state of the fetch, and how a page is read off
/// a response and its link.
#[verifier::reject_recursive_types(R)]
#[verifier::reject_recursive_types(T)]
pub struct Surroundings<R, T> {
    pub request: spec_fn(FetchView<R>) -> PageRequest,
    pub headers: spec_fn(FetchView<R>) -> Seq<ResolvedHeader>,
    pub read: spec_fn(T, Option<String>) -> PageView<R>,
}

/// The key of the page that a fetch asks for, if the page is cached and no header
/// stands in the way.
pub open spec fn key_of_page<R, T>(
    plan: FetchPlan,
    around: Surroundings<R, T>,
    asking: FetchView<R>,
) -> Option<CacheKeyView> {
    match policy_for_page(plan.target.cache, asking.page_count as int) {
        Some(policy) => if vary_error(
            (around.headers)(asking),
            policy.vary_headers.deep_view(),
        ) is None {
            Some(
                page_key(
                    *plan.source,
                    *plan.target,
                    policy,
                    (around.request)(asking),
                    (around.headers)(asking),
                ),
            )
        } else {
            None
        },
        None => None,
    }
}

/// The fetch at the time when it asks for the page at `i`.
pub open spec fn asking_at<R>(
    plan: FetchPlan,
    fetch: FetchView<R>,
    pages: Seq<Option<PageView<R>>>,
    i: int,
) -> FetchView<R>
    decreases i,
{
    if i <= 0 {
        begun(fetch)
    } else {
        asking_at(
            plan,
            after_page(plan, begun(fetch), pages.first()).0,
            pages.drop_first(),
            i - 1,
        )
    }
}

/// The page at `i` was read off a response that went into the cache under the page's
/// key and is still there.
pub open spec fn is_stored<R, T, P, X>(
    plan: FetchPlan,
    fetch: FetchView<R>,
    pages: Seq<Option<PageView<R>>>,
    fetched: Seq<FetchedPayload<T>>,
    around: Surroundings<R, T>,
    cache: Map<CacheKeyView, HttpCacheEntry<T>>,
    i: int,
) -> bool {
    let asking = asking_at(plan, fetch, pages, i);
    let policy = policy_for_page(plan.target.cache, asking.page_count as int);
    let key = key_of_page(plan, around, asking);
    &&& pages[i] == Some((around.read)(fetched[i].payload, fetched[i].next_url))
    &&& key is Some
    &&& cache.contains_key(key->0)
    &&& exists|max_entry_bytes: usize| #[trigger]
        slot_outcome::<T, P, X>(
            Ok(Some(fetched[i])),
            plan.target.response,
            max_entry_bytes,
            policy->0.ttl,
        ) == Ok::<HttpCacheEntry<T>, FetchSkipped<T, P, X>>(cache[key->0])
}

/// How far a fetch gets on the cache alone: where a page is not cached, it waits.
pub open spec fn course_on_cache<R, T>(
    plan: FetchPlan,
    fetch: FetchView<R>,
    around: Surroundings<R, T>,
    cache: Map<CacheKeyView, HttpCacheEntry<T>>,
) -> Course<R>
    decreases plan.max_pages - fetch.page_count,
{
    let key = key_of_page(plan, around, begun(fetch));
    if fetch.page_count >= plan.max_pages {
        Course::Failed { error: max_pages_failure(plan), asked: fetch.page_count }
    } else if key is None || !cache.contains_key(key->0) {
        Course::Waiting(fetch)
    } else {
        let entry = cache[key->0];
        let page = Some((around.read)(entry.payload, entry.next_url));
        let (next, verdict) = after_page(plan, begun(fetch), page);
        match verdict {
            Verdict::More => course_on_cache(plan, next, around, cache),
            Verdict::Done => Course::Finished(next),
            Verdict::Failed(error) => Course::Failed { error, asked: next.page_count },
        }
    }
}

/// A fetch that repeats one whose pages are all in the cache comes to the same end,
/// with the same rows and by the same pages, and no request is made: each stored
/// response stands for the one that it was, for its rows, for whether it reports
/// success and for the choice of the next page.
pub proof fn law_cache_repeats_the_fetch<R, T, P, X>(
    plan: FetchPlan,
    fetch: FetchView<R>,
    pages: Seq<Option<PageView<R>>>,
    fetched: Seq<FetchedPayload<T>>,
    around: Surroundings<R, T>,
    cache: Map<CacheKeyView, HttpCacheEntry<T>>,
    end: FetchView<R>,
)
    requires
        course(plan, fetch, pages) == Course::Finished(end),
        fetched.len() == pages.len(),
        forall|i: int|
            0 <= i < end.page_count - fetch.page_count ==> #[trigger] is_stored::<R, T, P, X>(
                plan,
                fetch,
                pages,
                fetched,
                around,
                cache,
                i,
            ),
    ensures
        course_on_cache(plan, fetch, around, cache) == Course::Finished(end),
    decreases pages.len(),
{
    let (next, verdict) = after_page(plan, begun(fetch), pages.first());
    lemma_finishes_after_its_pages(plan, fetch, pages, end);
    assert(is_stored::<R, T, P, X>(plan, fetch, pages, fetched, around, cache, 0));
    if verdict is More {
        lemma_finishes_after_its_pages(plan, next, pages.drop_first(), end);
        assert forall|i: int| 0 <= i < end.page_count - next.page_count implies #[trigger] is_stored::<
            R,
            T,
            P,
            X,
        >(plan, next, pages.drop_first(), fetched.drop_first(), around, cache, i) by {
            assert(is_stored::<R, T, P, X>(plan, fetch, pages, fetched, around, cache, i + 1));
            assert(asking_at(plan, fetch, pages, i + 1) == asking_at(
                plan,
                next,
                pages.drop_first(),
                i,
            ));
        }
        law_cache_repeats_the_fetch::<R, T, P, X>(
            plan,
            next,
            pages.drop_first(),
            fetched.drop_first(),
            around,
            cache,
            end,
        );
    }
}

/// A fetch that finishes asked for one page or more, of those that there are.
proof fn lemma_finishes_after_its_pages<R>(
    plan: FetchPlan,
    fetch: FetchView<R>,
    pages: Seq<Option<PageView<R>>>,
    end: FetchView<R>,
)
    requires
        course(plan, fetch, pages) == Course::Finished(end),
    ensures
        fetch.page_count < end.page_count <= fetch.page_count + pages.len(),
    decreases pages.len(),
{
    let (next, verdict) = after_page(plan, begun(fetch), pages.first());
    if verdict is More {
        lemma_finishes_after_its_pages(plan, next, pages.drop_first(), end);
    }
}

/// The course of a fetch is what its calls come to, one page after another: beginning
/// a page and finishing it with what came takes the fetch one page further on its
/// course.
pub proof fn law_calls_take_the_course<'a, R>(
    begun: &mut RowFetch<'a, R>,
    request: Result<Option<PageRequest>, ProviderQueryError>,
    finished: &mut RowFetch<'a, R>,
    page: Option<FetchedPage<R>>,
    flow: Result<PageFlow, ProviderQueryError>,
    later: Seq<Option<PageView<R>>>,
)
    requires
        call_ensures(RowFetch::<'a, R>::begin_page, (begun,), request),
        request is Ok,
        *final(begun) == *old(finished),
        call_ensures(RowFetch::<'a, R>::finish_page, (finished, page), flow),
    ensures
        course(old(begun).plan, old(begun)@, seq![page_view(page)] + later) == (match flow {
            Ok(PageFlow::More) => course(final(finished).plan, final(finished)@, later),
            Ok(PageFlow::Done) => Course::Finished(final(finished)@),
            Err(error) => Course::Failed {
                error: error@,
                asked: final(finished).page_count as nat,
            },
        }),
{
    let pages = seq![page_view(page)] + later;
    assert(pages.first() == page_view(page));
    assert(pages.drop_first() == later);
    assert(final(finished)@.page_count == final(finished).page_count);
}

/// A fetch that may begin no further page fails on its course, with the error of the
/// call.
pub proof fn law_calls_end_with_the_permitted_pages<'a, R>(
    begun: &mut RowFetch<'a, R>,
    request: Result<Option<PageRequest>, ProviderQueryError>,
    later: Seq<Option<PageView<R>>>,
)
    requires
        call_ensures(RowFetch::<'a, R>::begin_page, (begun,), request),
        request is Err,
    ensures
        course(old(begun).plan, old(begun)@, later) == (Course::<R>::Failed {
            error: request->Err_0@,
            asked: old(begun).page_count as nat,
        }),
{
}

/// A fetch that finishes has a reason to: its last page did not come, its rows reach
/// the limit, its calls are spent, or its last page leads to no other one. A page
/// leads on by a cursor of more than white space, by a link, or by not being the last
/// one; a table that is not paginated has one page.
pub proof fn law_finished_fetch_has_a_reason<R>(
    plan: FetchPlan,
    fetch: FetchView<R>,
    pages: Seq<Option<PageView<R>>>,
    end: FetchView<R>,
)
    requires
        course(plan, fetch, pages) == Course::Finished(end),
    ensures
        fetch.page_count < end.page_count <= fetch.page_count + pages.len(),
        ({
            let last = pages[end.page_count - fetch.page_count - 1];
            ||| last is None
            ||| plan.limits.effective_limit matches Some(limit) && end.rows.len() == limit
            ||| plan.limits.max_search_calls matches Some(calls) && end.page_count >= calls
            ||| match plan.mode {
                ValidatedPaginationMode::SinglePage => true,
                ValidatedPaginationMode::CursorQuery | ValidatedPaginationMode::CursorBody => {
                    last->0.cursor matches Some(cursor) ==> forall|i: int|
                        0 <= i < cursor.len() ==> is_white_space(#[trigger] cursor[i])
                },
                ValidatedPaginationMode::Page => last->0.exhausted,
                ValidatedPaginationMode::Offset { .. } => last->0.exhausted,
                ValidatedPaginationMode::LinkHeader | ValidatedPaginationMode::Auto => {
                    last->0.next_url is None
                },
            }
        }),
    decreases pages.len(),
{
    let (next, verdict) = after_page(plan, begun(fetch), pages.first());
    lemma_finishes_after_its_pages(plan, fetch, pages, end);
    if verdict is More {
        law_finished_fetch_has_a_reason(plan, next, pages.drop_first(), end);
        let i = end.page_count - next.page_count - 1;
        assert(pages.drop_first()[i] == pages[i + 1]);
    } else {
        assert(pages[0] == pages.first());
        if pages.first() is Some && pages.first()->0.cursor is Some {
            law_nothing_is_left_of_white_space(pages.first()->0.cursor->0);
        }
    }
}

/// As long as pages come with success and lead on, and neither the permitted pages,
/// the limit nor the calls are reached, a fetch goes on and has gathered the rows of
/// all pages, in their order.
pub proof fn law_fetch_goes_on_while_pages_lead_on<R>(
    plan: FetchPlan,
    fetch: FetchView<R>,
    pages: Seq<Option<PageView<R>>>,
)
    requires
        fetch.page_count + pages.len() < plan.max_pages,
        plan.limits.effective_limit matches Some(limit) ==> fetch.rows.len() + rows_of(pages).len()
            < limit,
        plan.limits.max_search_calls matches Some(calls) ==> fetch.page_count + pages.len() < calls,
        forall|i: int|
            0 <= i < pages.len() ==> {
                &&& (#[trigger] pages[i]) is Some
                &&& plan.target.response.ok_path@.len() == 0 || pages[i]->0.ok
                &&& match plan.mode {
                    ValidatedPaginationMode::SinglePage => false,
                    ValidatedPaginationMode::CursorQuery | ValidatedPaginationMode::CursorBody => {
                        pages[i]->0.cursor matches Some(cursor) && !forall|j: int|
                            0 <= j < cursor.len() ==> is_white_space(#[trigger] cursor[j])
                    },
                    ValidatedPaginationMode::Page => !pages[i]->0.exhausted,
                    ValidatedPaginationMode::Offset { .. } => !pages[i]->0.exhausted
                        && pages[i]->0.offset_step is Ok,
                    ValidatedPaginationMode::LinkHeader | ValidatedPaginationMode::Auto => {
                        pages[i]->0.next_url is Some
                    },
                }
            },
    ensures
        course(plan, fetch, pages) matches Course::Waiting(end) && {
            &&& end.page_count == fetch.page_count + pages.len()
            &&& end.rows == fetch.rows + rows_of(pages)
        },
    decreases pages.len(),
{
    if pages.len() == 0 {
        assert(fetch.rows + rows_of(pages) == fetch.rows);
    } else {
        let rest = pages.drop_first();
        let (next, verdict) = after_page(plan, begun(fetch), pages.first());
        assert(pages[0] is Some);
        if pages[0]->0.cursor is Some {
            law_nothing_is_left_of_white_space(pages[0]->0.cursor->0);
        }
        assert(verdict is More);
        assert(next.rows + rows_of(rest) == fetch.rows + rows_of(pages));
        assert forall|i: int| 0 <= i < rest.len() implies #[trigger] rest[i] == pages[i + 1] by {
        }
        law_fetch_goes_on_while_pages_lead_on(plan, next, rest);
    }
}

/// Every page before the last that a fetch asks for came, with success, and led on.
pub proof fn law_pages_before_the_last_led_on<R>(
    plan: FetchPlan,
    fetch: FetchView<R>,
    pages: Seq<Option<PageView<R>>>,
    end: FetchView<R>,
)
    requires
        course(plan, fetch, pages) == Course::Finished(end),
    ensures
        forall|i: int|
            0 <= i < end.page_count - fetch.page_count - 1 ==> {
                &&& (#[trigger] pages[i]) is Some
                &&& plan.target.response.ok_path@.len() == 0 || pages[i]->0.ok
                &&& plan.limits.max_search_calls matches Some(calls) ==> fetch.page_count + i + 1
                    < calls
                &&& match plan.mode {
                    ValidatedPaginationMode::SinglePage => false,
                    ValidatedPaginationMode::CursorQuery | ValidatedPaginationMode::CursorBody => {
                        pages[i]->0.cursor matches Some(cursor) && !forall|j: int|
                            0 <= j < cursor.len() ==> is_white_space(#[trigger] cursor[j])
                    },
                    ValidatedPaginationMode::Page => !pages[i]->0.exhausted,
                    ValidatedPaginationMode::Offset { .. } => !pages[i]->0.exhausted
                        && pages[i]->0.offset_step is Ok,
                    ValidatedPaginationMode::LinkHeader | ValidatedPaginationMode::Auto => {
                        pages[i]->0.next_url is Some
                    },
                }
            },
    decreases pages.len(),
{
    let (next, verdict) = after_page(plan, begun(fetch), pages.first());
    lemma_finishes_after_its_pages(plan, fetch, pages, end);
    if verdict is More {
        let rest = pages.drop_first();
        law_pages_before_the_last_led_on(plan, next, rest, end);
        assert(pages[0] == pages.first());
        if pages[0]->0.cursor is Some {
            law_nothing_is_left_of_white_space(pages[0]->0.cursor->0);
        }
        assert forall|i: int|
            0 <= i < end.page_count - fetch.page_count - 1 && i > 0 implies #[trigger] pages[i]
            == rest[i - 1] by {
        }
    }
}

} // verus!
