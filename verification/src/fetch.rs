//! The course of a paginated fetch, from one page to the next.

use crate::cache::{is_success, reports_success};
use crate::error::{
    api_failure, new_api_failure, new_pagination_failure, pagination_failure, ProviderQueryError,
    ProviderQueryErrorView,
};
use crate::limits::{is_limits_for, resolve_fetch_limits, FetchLimits};
use crate::json::PathValue;
use crate::request::PageRequest;
use crate::target::{HttpFetchTarget, HttpSource, ResponseSpec, ValidatedPaginationMode};
use crate::text::{
    decimal, decimal_text, is_white_space, law_nothing_is_left_of_white_space, trim, trimmed,
};
use vstd::prelude::*;
use vstd::string::*;

verus! {

/// The pages that a fetch may ask for where the target declares no other number.
pub const DEFAULT_MAX_PAGES: usize = 10_000;

/// Where the next page is.
pub struct PageState {
    pub cursor: Option<String>,
    pub page: i64,
    pub offset: i64,
    pub next_url: Option<String>,
}

pub struct PageStateView {
    pub cursor: Option<Seq<char>>,
    pub page: int,
    pub offset: int,
    pub next_url: Option<Seq<char>>,
}

impl View for PageState {
    type V = PageStateView;

    open spec fn view(&self) -> PageStateView {
        PageStateView {
            cursor: self.cursor.deep_view(),
            page: self.page as int,
            offset: self.offset as int,
            next_url: self.next_url.deep_view(),
        }
    }
}

/// What stays the same over a fetch.
pub struct FetchPlan<'a> {
    pub source: &'a HttpSource,
    pub target: &'a HttpFetchTarget,
    /// The filters of the query, as errors report them.
    pub filters: &'a Vec<(String, String)>,
    pub mode: ValidatedPaginationMode,
    pub limits: FetchLimits,
    pub max_pages: usize,
}

/// A page as it is read off a response.
pub struct FetchedPage<R> {
    /// What the response holds at the target's `ok_path`.
    pub ok: PathValue,
    /// What it holds at the target's `error_path`.
    pub error: PathValue,
    /// What it holds at the target's `response_cursor_path`.
    pub cursor: PathValue,
    pub rows: Vec<R>,
    /// Whether so few rows came that no page can follow.
    pub exhausted: bool,
    /// How far the next offset is, or why that cannot be told.
    pub offset_step: Result<i64, String>,
    /// The URL of the next page, if the response links to one.
    pub next_url: Option<String>,
}

#[verifier::ext_equal]
pub struct PageView<R> {
    pub ok: bool,
    pub error: Option<Seq<char>>,
    pub cursor: Option<Seq<char>>,
    pub rows: Seq<R>,
    pub exhausted: bool,
    pub offset_step: Result<int, Seq<char>>,
    pub next_url: Option<Seq<char>>,
}

impl<R> View for FetchedPage<R> {
    type V = PageView<R>;

    open spec fn view(&self) -> PageView<R> {
        PageView {
            ok: self.ok.holds_true(),
            error: self.error.text(),
            cursor: self.cursor.text(),
            rows: self.rows@,
            exhausted: self.exhausted,
            offset_step: match self.offset_step {
                Ok(step) => Ok(step as int),
                Err(detail) => Err(detail@),
            },
            next_url: self.next_url.deep_view(),
        }
    }
}

pub open spec fn page_view<R>(page: Option<FetchedPage<R>>) -> Option<PageView<R>> {
    match page {
        Some(page) => Some(page@),
        None => None,
    }
}

/// A fetch under way.
pub struct RowFetch<'a, R> {
    pub plan: FetchPlan<'a>,
    pub state: PageState,
    /// The pages asked for so far.
    pub page_count: usize,
    /// The rows gathered so far.
    pub rows: Vec<R>,
}

#[verifier::ext_equal]
pub struct FetchView<R> {
    pub state: PageStateView,
    pub page_count: nat,
    pub rows: Seq<R>,
}

impl<'a, R> View for RowFetch<'a, R> {
    type V = FetchView<R>;

    open spec fn view(&self) -> FetchView<R> {
        FetchView { state: self.state@, page_count: self.page_count as nat, rows: self.rows@ }
    }
}

/// Whether a fetch goes on after a page.
#[derive(Clone, Copy, Debug, PartialEq, Eq, Structural)]
pub enum PageFlow {
    More,
    Done,
}

/// What a page means for the fetch.
pub enum Verdict {
    More,
    Done,
    Failed(ProviderQueryErrorView),
}

pub open spec fn verdict_of(flow: Result<PageFlow, ProviderQueryError>) -> Verdict {
    match flow {
        Ok(PageFlow::More) => Verdict::More,
        Ok(PageFlow::Done) => Verdict::Done,
        Err(error) => Verdict::Failed(error@),
    }
}

/// The nearest number to `n` that an `i64` can hold.
pub open spec fn saturated(n: int) -> int {
    if n > i64::MAX {
        i64::MAX as int
    } else if n < i64::MIN {
        i64::MIN as int
    } else {
        n
    }
}

fn saturating_sum(a: i64, b: i64) -> (sum: i64)
    ensures
        sum == saturated(a + b),
{
    match a.checked_add(b) {
        Some(sum) => sum,
        None => if b >= 0 {
            i64::MAX
        } else {
            i64::MIN
        },
    }
}

/// The state before the first page.
pub open spec fn first_state(
    target: HttpFetchTarget,
    mode: ValidatedPaginationMode,
) -> PageStateView {
    PageStateView {
        cursor: None,
        page: target.pagination.page_start as int,
        offset: match mode {
            ValidatedPaginationMode::Offset { start } => start as int,
            _ => target.pagination.offset_start as int,
        },
        next_url: None,
    }
}

pub open spec fn max_pages_of(target: HttpFetchTarget) -> usize {
    match target.pagination.max_pages {
        Some(max_pages) => max_pages,
        None => DEFAULT_MAX_PAGES,
    }
}

/// The error of a fetch that would need more pages than it may ask for.
pub open spec fn max_pages_failure(plan: FetchPlan) -> ProviderQueryErrorView {
    pagination_failure(
        plan.source.source_schema@,
        plan.target.name@,
        "exceeded pagination max_pages="@ + decimal(plan.max_pages as nat),
    )
}

pub open spec fn follows_links(mode: ValidatedPaginationMode) -> bool {
    mode is LinkHeader || mode is Auto
}

pub open spec fn uses_cursor(mode: ValidatedPaginationMode) -> bool {
    mode is CursorQuery || mode is CursorBody
}

/// The next page is the one that the last response linked to.
pub open spec fn is_following_link(mode: ValidatedPaginationMode, state: PageStateView) -> bool {
    follows_links(mode) && state.next_url is Some
}

/// The source's own words for a failed request, where it has any.
pub open spec fn api_detail(response: ResponseSpec, error: Option<Seq<char>>) -> Seq<char> {
    if response.error_path@.len() > 0 && error is Some {
        error->0
    } else {
        "unknown source API error"@
    }
}

/// So many rows are enough.
pub open spec fn limit_reached(limits: FetchLimits, rows: nat) -> bool {
    limits.effective_limit is Some && rows >= limits.effective_limit->0
}

/// No further call may be made.
pub open spec fn calls_spent(limits: FetchLimits, page_count: nat) -> bool {
    limits.max_search_calls is Some && page_count >= limits.max_search_calls->0
}

/// The fetch once its next page is begun.
pub open spec fn begun<R>(fetch: FetchView<R>) -> FetchView<R> {
    FetchView { page_count: fetch.page_count + 1, ..fetch }
}

/// Where pagination leads after a page.
pub enum Advance {
    Next(PageStateView),
    Stop,
    Fail(Seq<char>),
}

/// Where pagination leads after `page`: to what its cursor or link points at, or to
/// the next number or offset unless the pages are exhausted.
pub open spec fn advance<R>(
    mode: ValidatedPaginationMode,
    page_step: int,
    state: PageStateView,
    page: PageView<R>,
) -> Advance {
    match mode {
        ValidatedPaginationMode::SinglePage => Advance::Stop,
        ValidatedPaginationMode::CursorQuery | ValidatedPaginationMode::CursorBody => {
            if page.cursor is Some && trimmed(page.cursor->0).len() > 0 {
                Advance::Next(
                    PageStateView { cursor: Some(trimmed(page.cursor->0)), ..state },
                )
            } else {
                Advance::Stop
            }
        },
        ValidatedPaginationMode::Page => if page.exhausted {
            Advance::Stop
        } else {
            Advance::Next(PageStateView { page: saturated(state.page + page_step), ..state })
        },
        ValidatedPaginationMode::Offset { .. } => if page.exhausted {
            Advance::Stop
        } else {
            match page.offset_step {
                Ok(step) => Advance::Next(
                    PageStateView { offset: saturated(state.offset + step), ..state },
                ),
                Err(detail) => Advance::Fail(detail),
            }
        },
        ValidatedPaginationMode::LinkHeader | ValidatedPaginationMode::Auto => {
            if page.next_url is Some {
                Advance::Next(PageStateView { next_url: page.next_url, ..state })
            } else {
                Advance::Stop
            }
        },
    }
}

/// What a fetch comes to with the page that it asked for. No page ends it; a page
/// that reports failure fails it. Otherwise the page's rows are gathered, and the
/// fetch is done once the limit is reached (rows beyond it are dropped), once no
/// call is left, or where pagination stops.
pub open spec fn after_page<R>(
    plan: FetchPlan,
    fetch: FetchView<R>,
    page: Option<PageView<R>>,
) -> (FetchView<R>, Verdict) {
    match page {
        None => (fetch, Verdict::Done),
        Some(page) => if !reports_success(plan.target.response, page.ok) {
            (
                fetch,
                Verdict::Failed(
                    api_failure(
                        plan.source.source_schema@,
                        plan.target.name@,
                        plan.filters.deep_view(),
                        api_detail(plan.target.response, page.error),
                    ),
                ),
            )
        } else {
            let rows = fetch.rows + page.rows;
            if limit_reached(plan.limits, rows.len()) {
                (
                    FetchView { rows: rows.take(plan.limits.effective_limit->0 as int), ..fetch },
                    Verdict::Done,
                )
            } else if calls_spent(plan.limits, fetch.page_count) {
                (FetchView { rows, ..fetch }, Verdict::Done)
            } else {
                match advance(
                    plan.mode,
                    plan.target.pagination.page_step as int,
                    fetch.state,
                    page,
                ) {
                    Advance::Next(state) => (FetchView { rows, state, ..fetch }, Verdict::More),
                    Advance::Stop => (FetchView { rows, ..fetch }, Verdict::Done),
                    Advance::Fail(detail) => (
                        FetchView { rows, ..fetch },
                        Verdict::Failed(
                            pagination_failure(
                                plan.source.source_schema@,
                                plan.target.name@,
                                detail,
                            ),
                        ),
                    ),
                }
            }
        },
    }
}

impl<'a, R> RowFetch<'a, R> {
    /// A fetch of `target` before its first page. `validated` is what validating
    /// the declared pagination came to.
    pub fn start(
        source: &'a HttpSource,
        target: &'a HttpFetchTarget,
        filters: &'a Vec<(String, String)>,
        validated: Result<ValidatedPaginationMode, String>,
        sql_limit: Option<usize>,
    ) -> (fetch: Result<RowFetch<'a, R>, ProviderQueryError>)
        ensures
            match validated {
                Err(detail) => {
                    &&& fetch is Err
                    &&& fetch->Err_0@ == pagination_failure(
                        source.source_schema@,
                        target.name@,
                        detail@,
                    )
                },
                Ok(mode) => {
                    &&& fetch is Ok
                    &&& fetch->Ok_0.plan.source == source
                    &&& fetch->Ok_0.plan.target == target
                    &&& fetch->Ok_0.plan.filters == filters
                    &&& fetch->Ok_0.plan.mode == mode
                    &&& fetch->Ok_0.plan.max_pages == max_pages_of(*target)
                    &&& is_limits_for(
                        fetch->Ok_0.plan.limits,
                        target.search_limits,
                        target.fetch_limit_default,
                        sql_limit,
                    )
                    &&& fetch->Ok_0@ == (FetchView::<R> {
                        state: first_state(*target, mode),
                        page_count: 0,
                        rows: Seq::empty(),
                    })
                },
            },
    {
        let limits = resolve_fetch_limits(target, sql_limit);
        let mode = match validated {
            Ok(mode) => mode,
            Err(detail) => {
                return Err(new_pagination_failure(&source.source_schema, &target.name, detail));
            },
        };
        let offset: i64 = match mode {
            ValidatedPaginationMode::Offset { start } => start,
            _ => target.pagination.offset_start,
        };
        let max_pages: usize = target.pagination.max_pages.unwrap_or(DEFAULT_MAX_PAGES);
        Ok(
            RowFetch {
                plan: FetchPlan { source, target, filters, mode, limits, max_pages },
                state: PageState {
                    cursor: None,
                    page: target.pagination.page_start,
                    offset,
                    next_url: None,
                },
                page_count: 0,
                rows: Vec::new(),
            },
        )
    }

    /// Begins the next page, unless all permitted pages were asked for. Where the
    /// last response linked to the page, the request is that link alone; otherwise
    /// the caller is to make one for the current state.
    pub fn begin_page(&mut self) -> (request: Result<Option<PageRequest>, ProviderQueryError>)
        ensures
            final(self).plan == old(self).plan,
            final(self).state == old(self).state,
            final(self).rows == old(self).rows,
            old(self).page_count >= old(self).plan.max_pages ==> {
                &&& request is Err
                &&& request->Err_0@ == max_pages_failure(old(self).plan)
                &&& final(self).page_count == old(self).page_count
            },
            old(self).page_count < old(self).plan.max_pages ==> {
                &&& request is Ok
                &&& final(self)@ == begun(old(self)@)
                &&& request->Ok_0 is Some <==> is_following_link(
                    old(self).plan.mode,
                    old(self).state@,
                )
                &&& request->Ok_0 matches Some(request) ==> {
                    &&& Some(request.url@) == old(self).state@.next_url
                    &&& request.query_pairs@.len() == 0
                    &&& request.body is None
                }
            },
    {
        if self.page_count >= self.plan.max_pages {
            let mut detail = "exceeded pagination max_pages=".to_owned();
            detail.append(decimal_text(self.plan.max_pages).as_str());
            return Err(
                new_pagination_failure(
                    &self.plan.source.source_schema,
                    &self.plan.target.name,
                    detail,
                ),
            );
        }
        self.page_count = self.page_count + 1;
        let follows_links = match self.plan.mode {
            ValidatedPaginationMode::LinkHeader | ValidatedPaginationMode::Auto => true,
            _ => false,
        };
        if !follows_links {
            return Ok(None);
        }
        match &self.state.next_url {
            Some(next) => Ok(
                Some(PageRequest { url: next.clone(), query_pairs: Vec::new(), body: None }),
            ),
            None => Ok(None),
        }
    }

    /// Takes in the page that was asked for, or that there is none.
    pub fn finish_page(&mut self, page: Option<FetchedPage<R>>) -> (flow: Result<
        PageFlow,
        ProviderQueryError,
    >)
        ensures
            final(self).plan == old(self).plan,
            (final(self)@, verdict_of(flow)) == after_page(
                old(self).plan,
                old(self)@,
                page_view(page),
            ),
    {
        let page = match page {
            Some(page) => page,
            None => return Ok(PageFlow::Done),
        };
        if let Err(error) = self.check_response(&page.ok, page.error) {
            return Err(error);
        }
        let mut page_rows = page.rows;
        self.rows.append(&mut page_rows);
        if let Some(limit) = self.plan.limits.effective_limit {
            if self.rows.len() >= limit {
                self.rows.truncate(limit);
                return Ok(PageFlow::Done);
            }
        }
        if let Some(max_calls) = self.plan.limits.max_search_calls {
            if self.page_count >= max_calls {
                return Ok(PageFlow::Done);
            }
        }
        match self.plan.mode {
            ValidatedPaginationMode::SinglePage => Ok(PageFlow::Done),
            ValidatedPaginationMode::CursorQuery | ValidatedPaginationMode::CursorBody => {
                match next_cursor(page.cursor) {
                    Some(cursor) => {
                        self.state.cursor = Some(cursor);
                        Ok(PageFlow::More)
                    },
                    None => Ok(PageFlow::Done),
                }
            },
            ValidatedPaginationMode::Page => {
                if page.exhausted {
                    return Ok(PageFlow::Done);
                }
                self.state.page = saturating_sum(
                    self.state.page,
                    self.plan.target.pagination.page_step,
                );
                Ok(PageFlow::More)
            },
            ValidatedPaginationMode::Offset { .. } => {
                if page.exhausted {
                    return Ok(PageFlow::Done);
                }
                match page.offset_step {
                    Ok(step) => {
                        self.state.offset = saturating_sum(self.state.offset, step);
                        Ok(PageFlow::More)
                    },
                    Err(detail) => Err(
                        new_pagination_failure(
                            &self.plan.source.source_schema,
                            &self.plan.target.name,
                            detail,
                        ),
                    ),
                }
            },
            ValidatedPaginationMode::LinkHeader | ValidatedPaginationMode::Auto => {
                match page.next_url {
                    Some(next) => {
                        self.state.next_url = Some(next);
                        Ok(PageFlow::More)
                    },
                    None => Ok(PageFlow::Done),
                }
            },
        }
    }

    /// Fails where the response reports that the request failed.
    fn check_response(&self, ok: &PathValue, error: PathValue) -> (checked: Result<
        (),
        ProviderQueryError,
    >)
        ensures
            checked is Ok <==> reports_success(self.plan.target.response, ok.holds_true()),
            checked matches Err(failure) ==> failure@ == api_failure(
                self.plan.source.source_schema@,
                self.plan.target.name@,
                self.plan.filters.deep_view(),
                api_detail(self.plan.target.response, error.text()),
            ),
    {
        if is_success(&self.plan.target.response, ok) {
            return Ok(());
        }
        let detail = if self.plan.target.response.error_path.len() == 0 {
            "unknown source API error".to_owned()
        } else {
            match error {
                PathValue::Text(text) => text,
                _ => "unknown source API error".to_owned(),
            }
        };
        Err(
            new_api_failure(
                &self.plan.source.source_schema,
                &self.plan.target.name,
                self.plan.filters,
                detail,
            ),
        )
    }

    /// The rows gathered by a fetch that is done.
    pub fn into_rows(self) -> (rows: Vec<R>)
        ensures
            rows == self.rows,
    {
        self.rows
    }
}

/// The cursor to go on with: the response's text without surrounding white space,
/// if anything is left of it.
fn next_cursor(cursor: PathValue) -> (next: Option<String>)
    ensures
        next is Some <==> cursor.text() is Some && trimmed(cursor.text()->0).len() > 0,
        next is Some ==> next->0@ == trimmed(cursor.text()->0),
{
    match cursor {
        PathValue::Text(text) => {
            let cursor = trim(text.as_str());
            if cursor.is_empty() {
                None
            } else {
                Some(cursor.to_owned())
            }
        },
        _ => None,
    }
}

/// A fetch starts where its target says: with no page asked for, no row, no cursor
/// and no link, at the declared page and offset, and with the limits that the query
/// and the target come to. It may ask for as many pages as declared, or for 10000.
pub proof fn law_fetch_starts_where_declared<'a, R>(
    source: &'a HttpSource,
    target: &'a HttpFetchTarget,
    filters: &'a Vec<(String, String)>,
    mode: ValidatedPaginationMode,
    sql_limit: Option<usize>,
    started: Result<RowFetch<'a, R>, ProviderQueryError>,
    limits: FetchLimits,
)
    requires
        call_ensures(
            RowFetch::<'a, R>::start,
            (source, target, filters, Ok(mode), sql_limit),
            started,
        ),
        call_ensures(resolve_fetch_limits, (target, sql_limit), limits),
    ensures
        started is Ok,
        started->Ok_0.plan.source == source,
        started->Ok_0.plan.target == target,
        started->Ok_0.plan.filters == filters,
        started->Ok_0.plan.mode == mode,
        started->Ok_0.plan.limits == limits,
        target.pagination.max_pages matches Some(max_pages) ==> started->Ok_0.plan.max_pages
            == max_pages,
        target.pagination.max_pages is None ==> started->Ok_0.plan.max_pages == 10000,
        started->Ok_0.page_count == 0,
        started->Ok_0.rows@.len() == 0,
        started->Ok_0.state.cursor is None,
        started->Ok_0.state.next_url is None,
        started->Ok_0.state.page == target.pagination.page_start,
        mode matches ValidatedPaginationMode::Offset { start } ==> started->Ok_0.state.offset
            == start,
        !(mode is Offset) ==> started->Ok_0.state.offset == target.pagination.offset_start,
{
    assert(started->Ok_0@.page_count == 0);
    assert(started->Ok_0@.state.page == target.pagination.page_start);
    assert(started->Ok_0@.state.offset == started->Ok_0.state.offset);
    assert(started->Ok_0.state@.cursor is None && started->Ok_0.state@.next_url is None);
}

/// A fetch whose pagination is unusable does not start, and says why.
pub proof fn law_unusable_pagination_is_reported<'a, R>(
    source: &'a HttpSource,
    target: &'a HttpFetchTarget,
    filters: &'a Vec<(String, String)>,
    reason: String,
    sql_limit: Option<usize>,
    started: Result<RowFetch<'a, R>, ProviderQueryError>,
)
    requires
        call_ensures(
            RowFetch::<'a, R>::start,
            (source, target, filters, Err(reason), sql_limit),
            started,
        ),
    ensures
        started matches Err(ProviderQueryError::Pagination {
            source_schema,
            table,
            method,
            url,
            detail,
        }) && {
            &&& source_schema@ == source.source_schema@
            &&& table@ == target.name@
            &&& method is None
            &&& url is None
            &&& detail@ == reason@
        },
{
}

/// A page is begun if and only if fewer pages than permitted were asked for, and
/// counts from then on. The rows and the state stay as they are.
pub proof fn law_each_permitted_page_is_begun_and_counted<'a, R>(
    fetch: &mut RowFetch<'a, R>,
    request: Result<Option<PageRequest>, ProviderQueryError>,
)
    requires
        call_ensures(RowFetch::<'a, R>::begin_page, (fetch,), request),
    ensures
        request is Ok <==> old(fetch).page_count < old(fetch).plan.max_pages,
        request is Ok ==> final(fetch).page_count == old(fetch).page_count + 1,
        request is Err ==> final(fetch).page_count == old(fetch).page_count,
        final(fetch).plan == old(fetch).plan,
        final(fetch).state == old(fetch).state,
        final(fetch).rows == old(fetch).rows,
{
    assert(request is Ok ==> final(fetch)@.page_count == old(fetch)@.page_count + 1);
}

/// A fetch that would need another page than the permitted ones says how many these
/// are, in decimal.
pub proof fn law_pages_beyond_the_permitted_are_reported<'a, R>(
    fetch: &mut RowFetch<'a, R>,
    request: Result<Option<PageRequest>, ProviderQueryError>,
    number: String,
)
    requires
        call_ensures(RowFetch::<'a, R>::begin_page, (fetch,), request),
        call_ensures(decimal_text, (old(fetch).plan.max_pages,), number),
        old(fetch).page_count >= old(fetch).plan.max_pages,
    ensures
        request matches Err(ProviderQueryError::Pagination {
            source_schema,
            table,
            method,
            url,
            detail,
        }) && {
            &&& source_schema@ == old(fetch).plan.source.source_schema@
            &&& table@ == old(fetch).plan.target.name@
            &&& method is None
            &&& url is None
            &&& detail@ == "exceeded pagination max_pages="@ + number@
        },
{
}

/// Where pages are linked, the page that the last response linked to is asked for by
/// that link alone. Nothing else is asked for by a link.
pub proof fn law_links_are_asked_for_as_they_are<'a, R>(
    fetch: &mut RowFetch<'a, R>,
    request: Result<Option<PageRequest>, ProviderQueryError>,
)
    requires
        call_ensures(RowFetch::<'a, R>::begin_page, (fetch,), request),
        request is Ok,
    ensures
        request->Ok_0 is Some <==> (old(fetch).plan.mode is LinkHeader || old(fetch).plan.mode
            is Auto) && old(fetch).state.next_url is Some,
        request->Ok_0 matches Some(request) ==> {
            &&& request.url@ == old(fetch).state.next_url->0@
            &&& request.query_pairs@.len() == 0
            &&& request.body is None
        },
{
    assert(old(fetch).state@.next_url is Some <==> old(fetch).state.next_url is Some);
}

/// A fetch that gets no page is done, and is left as it was.
pub proof fn law_no_page_ends_the_fetch<'a, R>(
    fetch: &mut RowFetch<'a, R>,
    flow: Result<PageFlow, ProviderQueryError>,
)
    requires
        call_ensures(RowFetch::<'a, R>::finish_page, (fetch, None), flow),
    ensures
        flow is Ok && flow->Ok_0 is Done,
        final(fetch).rows@ == old(fetch).rows@,
        final(fetch).page_count == old(fetch).page_count,
        final(fetch).plan == old(fetch).plan,
{
    assert(final(fetch)@.rows == old(fetch)@.rows);
    assert(final(fetch)@.page_count == old(fetch)@.page_count);
}

/// A response fails the fetch as a request that failed if and only if the target has
/// a path to a success flag, of any length, and the response does not hold the
/// boolean `true` there. The error has the source's own words where the target has a
/// path to them and the response holds a text there. No row is gathered.
pub proof fn law_failed_request_fails_the_fetch<'a, R>(
    fetch: &mut RowFetch<'a, R>,
    page: FetchedPage<R>,
    flow: Result<PageFlow, ProviderQueryError>,
)
    requires
        call_ensures(RowFetch::<'a, R>::finish_page, (fetch, Some(page)), flow),
    ensures
        flow matches Err(ProviderQueryError::ApiRequest { .. }) <==> {
            &&& old(fetch).plan.target.response.ok_path@.len() > 0
            &&& page.ok != PathValue::Bool(true)
        },
        flow matches Err(ProviderQueryError::ApiRequest {
            source_schema,
            table,
            status,
            method,
            url,
            filters,
            detail,
        }) ==> {
            &&& source_schema@ == old(fetch).plan.source.source_schema@
            &&& table@ == old(fetch).plan.target.name@
            &&& status is None
            &&& method is None
            &&& url is None
            &&& filters.deep_view() == old(fetch).plan.filters.deep_view()
            &&& (old(fetch).plan.target.response.error_path@.len() > 0 && page.error is Text
                ==> detail@ == page.error->Text_0@)
            &&& (old(fetch).plan.target.response.error_path@.len() == 0 || !(page.error is Text)
                ==> detail@ == "unknown source API error"@)
            &&& final(fetch).rows@ == old(fetch).rows@
        },
{
    assert(verdict_of(flow) is Failed <==> flow is Err);
    assert(flow is Err ==> verdict_of(flow)->Failed_0 == flow->Err_0@);
    assert(final(fetch)@.rows == final(fetch).rows@);
}

/// A page that came with success leaves the fetch with a reason to be done if and
/// only if the fetch is done: the rows reach the limit, the calls are spent, or the
/// page leads to no other one. A page leads on by a cursor that is a text of more
/// than white space, by a link, or by not being the last; a page of a table that is
/// not paginated never does.
pub proof fn law_done_if_and_only_if_there_is_a_reason<'a, R>(
    fetch: &mut RowFetch<'a, R>,
    page: FetchedPage<R>,
    flow: Result<PageFlow, ProviderQueryError>,
)
    requires
        call_ensures(RowFetch::<'a, R>::finish_page, (fetch, Some(page)), flow),
        !(flow matches Err(ProviderQueryError::ApiRequest { .. })),
    ensures
        flow is Ok && flow->Ok_0 is Done <==> {
            ||| old(fetch).plan.limits.effective_limit matches Some(limit) && old(
                fetch,
            ).rows@.len() + page.rows@.len() >= limit
            ||| old(fetch).plan.limits.max_search_calls matches Some(calls) && old(fetch).page_count
                >= calls
            ||| match old(fetch).plan.mode {
                ValidatedPaginationMode::SinglePage => true,
                ValidatedPaginationMode::CursorQuery | ValidatedPaginationMode::CursorBody => {
                    match page.cursor {
                        PathValue::Text(cursor) => forall|i: int|
                            0 <= i < cursor@.len() ==> is_white_space(#[trigger] cursor@[i]),
                        _ => true,
                    }
                },
                ValidatedPaginationMode::Page => page.exhausted,
                ValidatedPaginationMode::Offset { .. } => page.exhausted,
                ValidatedPaginationMode::LinkHeader | ValidatedPaginationMode::Auto => {
                    page.next_url is None
                },
            }
        },
{
    lemma_success_means(fetch, page, flow);
    if let PathValue::Text(cursor) = page.cursor {
        law_nothing_is_left_of_white_space(cursor@);
    }
    assert(page@.next_url is None <==> page.next_url is None);
}

/// What finishing a page means in terms of its verdict.
proof fn lemma_success_means<'a, R>(
    fetch: &mut RowFetch<'a, R>,
    page: FetchedPage<R>,
    flow: Result<PageFlow, ProviderQueryError>,
)
    requires
        call_ensures(RowFetch::<'a, R>::finish_page, (fetch, Some(page)), flow),
    ensures
        final(fetch).plan == old(fetch).plan,
        (final(fetch)@, verdict_of(flow)) == after_page(
            old(fetch).plan,
            old(fetch)@,
            Some(page@),
        ),
        flow matches Err(ProviderQueryError::ApiRequest { .. }) <==> !reports_success(
            old(fetch).plan.target.response,
            page@.ok,
        ),
{
    assert(verdict_of(flow) is Failed <==> flow is Err);
    assert(flow is Err ==> verdict_of(flow)->Failed_0 == flow->Err_0@);
}

/// A page that came with success and leads on, with rows and calls left to go, takes
/// the fetch to the next page, unless pages are found by offset and the page cannot
/// tell the step: then the fetch fails with the reason for that. It fails of nothing
/// else.
pub proof fn law_goes_on_or_tells_why_not<'a, R>(
    fetch: &mut RowFetch<'a, R>,
    page: FetchedPage<R>,
    flow: Result<PageFlow, ProviderQueryError>,
)
    requires
        call_ensures(RowFetch::<'a, R>::finish_page, (fetch, Some(page)), flow),
        !(flow matches Err(ProviderQueryError::ApiRequest { .. })),
        !(flow matches Ok(PageFlow::Done)),
    ensures
        flow is Err <==> old(fetch).plan.mode is Offset && page.offset_step is Err,
        flow is Ok <==> !(old(fetch).plan.mode is Offset && page.offset_step is Err),
        flow is Ok ==> flow->Ok_0 is More,
        flow matches Err(error) ==> (error matches ProviderQueryError::Pagination {
            source_schema,
            table,
            method,
            url,
            detail,
        } && {
            &&& source_schema@ == old(fetch).plan.source.source_schema@
            &&& table@ == old(fetch).plan.target.name@
            &&& method is None
            &&& url is None
            &&& detail@ == page.offset_step->Err_0@
        }),
{
    lemma_success_means(fetch, page, flow);
    assert(verdict_of(flow) is Failed <==> flow is Err);
    assert(flow is Err ==> verdict_of(flow)->Failed_0 == flow->Err_0@);
    assert(page@.offset_step is Err <==> page.offset_step is Err);
}

/// The rows of a page that came with success are put behind those gathered before,
/// all of them and in their order, up to the limit; the rows before stay.
pub proof fn law_rows_are_gathered_in_order<'a, R>(
    fetch: &mut RowFetch<'a, R>,
    page: FetchedPage<R>,
    flow: Result<PageFlow, ProviderQueryError>,
)
    requires
        call_ensures(RowFetch::<'a, R>::finish_page, (fetch, Some(page)), flow),
        flow is Ok,
    ensures
        match old(fetch).plan.limits.effective_limit {
            Some(limit) => if old(fetch).rows@.len() + page.rows@.len() >= limit {
                final(fetch).rows@ == (old(fetch).rows@ + page.rows@).subrange(0, limit as int)
            } else {
                final(fetch).rows@ == old(fetch).rows@ + page.rows@
            },
            None => final(fetch).rows@ == old(fetch).rows@ + page.rows@,
        },
        final(fetch).page_count == old(fetch).page_count,
        final(fetch).plan == old(fetch).plan,
{
    lemma_success_means(fetch, page, flow);
    assert(final(fetch)@.rows == final(fetch).rows@);
    assert(old(fetch)@.rows == old(fetch).rows@ && page@.rows == page.rows@);
    assert(final(fetch)@.page_count == old(fetch)@.page_count);
}

/// A fetch goes on by what the page says and by nothing else: by its cursor without
/// the white space around it, by its link, by the declared step from one page number
/// to the next, or by the step that it tells from its offset to the next. A number
/// that would be too large or too small to hold is the largest or the smallest. The
/// rest of the state stays.
pub proof fn law_next_page_is_the_one_led_to<'a, R>(
    fetch: &mut RowFetch<'a, R>,
    page: FetchedPage<R>,
    flow: Result<PageFlow, ProviderQueryError>,
)
    requires
        call_ensures(RowFetch::<'a, R>::finish_page, (fetch, Some(page)), flow),
        flow matches Ok(PageFlow::More),
    ensures
        match old(fetch).plan.mode {
            ValidatedPaginationMode::SinglePage => false,
            ValidatedPaginationMode::CursorQuery | ValidatedPaginationMode::CursorBody => {
                &&& page.cursor is Text
                &&& final(fetch).state.cursor is Some
                &&& final(fetch).state.cursor->0@ == trimmed(page.cursor->Text_0@)
            },
            _ => final(fetch).state.cursor.deep_view() == old(fetch).state.cursor.deep_view(),
        },
        match old(fetch).plan.mode {
            ValidatedPaginationMode::LinkHeader | ValidatedPaginationMode::Auto => {
                &&& page.next_url is Some
                &&& final(fetch).state.next_url is Some
                &&& final(fetch).state.next_url->0@ == page.next_url->0@
            },
            _ => final(fetch).state.next_url.deep_view() == old(fetch).state.next_url.deep_view(),
        },
        !(old(fetch).plan.mode is Page) ==> final(fetch).state.page == old(fetch).state.page,
        old(fetch).plan.mode is Page ==> {
            let sum = old(fetch).state.page + old(fetch).plan.target.pagination.page_step;
            &&& (i64::MIN <= sum <= i64::MAX ==> final(fetch).state.page == sum)
            &&& (sum > i64::MAX ==> final(fetch).state.page == i64::MAX)
            &&& (sum < i64::MIN ==> final(fetch).state.page == i64::MIN)
        },
        !(old(fetch).plan.mode is Offset) ==> final(fetch).state.offset == old(fetch).state.offset,
        old(fetch).plan.mode is Offset ==> {
            let sum = old(fetch).state.offset + page.offset_step->Ok_0;
            &&& page.offset_step is Ok
            &&& (i64::MIN <= sum <= i64::MAX ==> final(fetch).state.offset == sum)
            &&& (sum > i64::MAX ==> final(fetch).state.offset == i64::MAX)
            &&& (sum < i64::MIN ==> final(fetch).state.offset == i64::MIN)
        },
{
    lemma_success_means(fetch, page, flow);
    assert(final(fetch)@.state == final(fetch).state@ && old(fetch)@.state == old(fetch).state@);
    assert(final(fetch).state@.page == final(fetch).state.page);
    assert(final(fetch).state@.offset == final(fetch).state.offset);
    assert(old(fetch).state@.page == old(fetch).state.page);
    assert(old(fetch).state@.offset == old(fetch).state.offset);
    assert(final(fetch).state@.cursor == final(fetch).state.cursor.deep_view());
    assert(final(fetch).state@.next_url == final(fetch).state.next_url.deep_view());
    assert(page@.next_url == page.next_url.deep_view());
}

/// What a page comes to does not depend on where the fetch was when it asked for it:
/// two fetches with the same plan, as many rows and as many pages take the same page
/// the same way.
pub proof fn law_the_way_to_a_page_has_no_part<'a, R>(
    a: &mut RowFetch<'a, R>,
    b: &mut RowFetch<'a, R>,
    page: FetchedPage<R>,
    flow_a: Result<PageFlow, ProviderQueryError>,
    flow_b: Result<PageFlow, ProviderQueryError>,
)
    requires
        call_ensures(RowFetch::<'a, R>::finish_page, (a, Some(page)), flow_a),
        call_ensures(RowFetch::<'a, R>::finish_page, (b, Some(page)), flow_b),
        old(a).plan == old(b).plan,
        old(a).rows@.len() == old(b).rows@.len(),
        old(a).page_count == old(b).page_count,
    ensures
        flow_a is Ok <==> flow_b is Ok,
        flow_a is Ok ==> flow_a->Ok_0 == flow_b->Ok_0,
        flow_a is Err ==> flow_a->Err_0@ == flow_b->Err_0@,
{
    lemma_success_means(a, page, flow_a);
    lemma_success_means(b, page, flow_b);
    assert(verdict_of(flow_a) == verdict_of(flow_b));
    assert(verdict_of(flow_a) is Failed <==> flow_a is Err);
    assert(verdict_of(flow_b) is Failed <==> flow_b is Err);
}

/// The rows of a fetch are handed out as they were gathered.
pub proof fn law_rows_are_handed_out_as_gathered<'a, R>(fetch: RowFetch<'a, R>, rows: Vec<R>)
    requires
        call_ensures(RowFetch::<'a, R>::into_rows, (fetch,), rows),
    ensures
        rows@ == fetch.rows@,
{
}

/// Whatever comes of a page, the plan and the count of pages stay, and a fetch that
/// does not go on stays where it is.
pub proof fn law_finishing_a_page_leaves_the_rest<'a, R>(
    fetch: &mut RowFetch<'a, R>,
    page: Option<FetchedPage<R>>,
    flow: Result<PageFlow, ProviderQueryError>,
)
    requires
        call_ensures(RowFetch::<'a, R>::finish_page, (fetch, page), flow),
    ensures
        final(fetch).plan == old(fetch).plan,
        final(fetch).page_count == old(fetch).page_count,
        !(flow matches Ok(PageFlow::More)) ==> {
            &&& final(fetch).state.cursor.deep_view() == old(fetch).state.cursor.deep_view()
            &&& final(fetch).state.next_url.deep_view() == old(fetch).state.next_url.deep_view()
            &&& final(fetch).state.page == old(fetch).state.page
            &&& final(fetch).state.offset == old(fetch).state.offset
        },
{
    assert(final(fetch)@.page_count == old(fetch)@.page_count);
    assert(verdict_of(flow) is More <==> flow matches Ok(PageFlow::More));
    if !(flow matches Ok(PageFlow::More)) {
        assert(final(fetch)@.state == old(fetch)@.state);
        assert(final(fetch).state@ == old(fetch).state@);
    }
}

} // verus!
