use paged_fetch::error::ProviderQueryError;
use paged_fetch::fetch::{FetchedPage, PageFlow, RowFetch, DEFAULT_MAX_PAGES};
use paged_fetch::limits::SearchLimits;
use paged_fetch::json::PathValue;
use paged_fetch::target::{
    HttpFetchTarget, HttpMethod, HttpSource, PaginationSpec, ResponseSpec, ValidatedPaginationMode,
};

fn source() -> HttpSource {
    HttpSource { source_schema: "github".to_string(), source_version: "1".to_string() }
}

fn target() -> HttpFetchTarget {
    HttpFetchTarget {
        name: "issues".to_string(),
        method: HttpMethod::GET,
        fetch_limit_default: None,
        search_limits: None,
        pagination: PaginationSpec {
            page_start: 1,
            page_step: 2,
            offset_start: 30,
            max_pages: None,
            response_cursor_path: Vec::new(),
        },
        response: ResponseSpec { ok_path: Vec::new(), error_path: Vec::new() },
        cache: None,
    }
}

fn page(rows: &[u32]) -> FetchedPage<u32> {
    FetchedPage {
        ok: PathValue::Missing,
        error: PathValue::Missing,
        cursor: PathValue::Missing,
        rows: rows.to_vec(),
        exhausted: false,
        offset_step: Ok(10),
        next_url: None,
    }
}

fn start<'a>(
    source: &'a HttpSource,
    target: &'a HttpFetchTarget,
    filters: &'a Vec<(String, String)>,
    mode: ValidatedPaginationMode,
    sql_limit: Option<usize>,
) -> RowFetch<'a, u32> {
    RowFetch::start(source, target, filters, Ok(mode), sql_limit).ok().unwrap()
}

fn pagination_detail(error: ProviderQueryError) -> String {
    match error {
        ProviderQueryError::Pagination { source_schema, table, method, url, detail } => {
            assert_eq!((source_schema.as_str(), table.as_str()), ("github", "issues"));
            assert_eq!((method, url), (None, None));
            detail
        }
        _ => panic!("expected a pagination error"),
    }
}

#[test]
fn unusable_pagination_fails_at_once() {
    let (source, target, filters) = (source(), target(), Vec::new());
    let started: Result<RowFetch<u32>, _> =
        RowFetch::start(&source, &target, &filters, Err("no cursor path".to_string()), None);
    match started {
        Err(error) => assert_eq!(pagination_detail(error), "no cursor path"),
        Ok(_) => panic!("started"),
    }
}

#[test]
fn first_state() {
    let (source, target, filters) = (source(), target(), Vec::new());
    let fetch = start(&source, &target, &filters, ValidatedPaginationMode::Page, Some(5));
    assert_eq!(fetch.state.page, 1);
    assert_eq!(fetch.state.offset, 30);
    assert!(fetch.state.cursor.is_none() && fetch.state.next_url.is_none());
    assert_eq!(fetch.plan.max_pages, DEFAULT_MAX_PAGES);
    assert_eq!(fetch.plan.max_pages, 10000);
    assert_eq!(fetch.plan.limits.effective_limit, Some(5));
    let mode = ValidatedPaginationMode::Offset { start: 7 };
    assert_eq!(start(&source, &target, &filters, mode, None).state.offset, 7);
}

#[test]
fn single_page() {
    let (source, target, filters) = (source(), target(), Vec::new());
    let mut fetch = start(&source, &target, &filters, ValidatedPaginationMode::SinglePage, None);
    assert!(fetch.begin_page().unwrap_or(None).is_none());
    assert_eq!(fetch.finish_page(Some(page(&[1, 2]))).ok(), Some(PageFlow::Done));
    assert_eq!(fetch.into_rows(), vec![1, 2]);
}

#[test]
fn no_page_ends_the_fetch() {
    let (source, target, filters) = (source(), target(), Vec::new());
    let mut fetch = start(&source, &target, &filters, ValidatedPaginationMode::Page, None);
    assert!(fetch.begin_page().is_ok());
    assert_eq!(fetch.finish_page(Some(page(&[1]))).ok(), Some(PageFlow::More));
    assert!(fetch.begin_page().is_ok());
    assert_eq!(fetch.finish_page(None).ok(), Some(PageFlow::Done));
    assert_eq!(fetch.into_rows(), vec![1]);
}

#[test]
fn too_many_pages() {
    let (source, mut target, filters) = (source(), target(), Vec::new());
    target.pagination.max_pages = Some(12);
    let mut fetch = start(&source, &target, &filters, ValidatedPaginationMode::Page, None);
    for _ in 0..12 {
        assert!(fetch.begin_page().is_ok());
        assert_eq!(fetch.finish_page(Some(page(&[]))).ok(), Some(PageFlow::More));
    }
    match fetch.begin_page() {
        Err(error) => {
            assert_eq!(pagination_detail(error), "exceeded pagination max_pages=12")
        }
        Ok(_) => panic!("began another page"),
    }
    assert_eq!(fetch.page_count, 12);
}

#[test]
fn no_page_permitted() {
    let (source, mut target, filters) = (source(), target(), Vec::new());
    target.pagination.max_pages = Some(0);
    let mut fetch = start(&source, &target, &filters, ValidatedPaginationMode::SinglePage, None);
    match fetch.begin_page() {
        Err(error) => assert_eq!(pagination_detail(error), "exceeded pagination max_pages=0"),
        Ok(_) => panic!("began a page"),
    }
}

#[test]
fn limit_drops_the_rows_beyond_it() {
    let (source, target, filters) = (source(), target(), Vec::new());
    let mut fetch = start(&source, &target, &filters, ValidatedPaginationMode::Page, Some(3));
    assert!(fetch.begin_page().is_ok());
    assert_eq!(fetch.finish_page(Some(page(&[1, 2]))).ok(), Some(PageFlow::More));
    assert!(fetch.begin_page().is_ok());
    assert_eq!(fetch.finish_page(Some(page(&[3, 4]))).ok(), Some(PageFlow::Done));
    assert_eq!(fetch.into_rows(), vec![1, 2, 3]);
}

#[test]
fn limit_of_zero_takes_one_page_and_no_row() {
    let (source, target, filters) = (source(), target(), Vec::new());
    let mut fetch = start(&source, &target, &filters, ValidatedPaginationMode::Page, Some(0));
    assert!(fetch.begin_page().is_ok());
    assert_eq!(fetch.finish_page(Some(page(&[1, 2]))).ok(), Some(PageFlow::Done));
    assert!(fetch.into_rows().is_empty());
}

#[test]
fn rows_of_all_pages_in_order_without_limit() {
    let (source, target, filters) = (source(), target(), Vec::new());
    let mode = ValidatedPaginationMode::Offset { start: 0 };
    let mut fetch = start(&source, &target, &filters, mode, None);
    for rows in [&[1u32, 2][..], &[], &[3]] {
        assert!(fetch.begin_page().is_ok());
        assert_eq!(fetch.finish_page(Some(page(rows))).ok(), Some(PageFlow::More));
    }
    assert!(fetch.begin_page().is_ok());
    let mut last = page(&[4]);
    last.exhausted = true;
    assert_eq!(fetch.finish_page(Some(last)).ok(), Some(PageFlow::Done));
    assert_eq!(fetch.state.offset, 30);
    assert_eq!(fetch.into_rows(), vec![1, 2, 3, 4]);
}

#[test]
fn search_stops_after_its_calls() {
    let (source, mut target, filters) = (source(), target(), Vec::new());
    target.search_limits =
        Some(SearchLimits { default_top_k: 10, max_top_k: 5, max_calls_per_query: 2 });
    let mut fetch = start(&source, &target, &filters, ValidatedPaginationMode::Page, None);
    assert!(fetch.begin_page().is_ok());
    assert_eq!(fetch.finish_page(Some(page(&[1]))).ok(), Some(PageFlow::More));
    assert!(fetch.begin_page().is_ok());
    assert_eq!(fetch.finish_page(Some(page(&[2]))).ok(), Some(PageFlow::Done));
    assert_eq!(fetch.into_rows(), vec![1, 2]);
}

#[test]
fn page_numbers_step() {
    let (source, target, filters) = (source(), target(), Vec::new());
    let mut fetch = start(&source, &target, &filters, ValidatedPaginationMode::Page, None);
    for expected in [3, 5, 7] {
        assert!(fetch.begin_page().is_ok());
        assert_eq!(fetch.finish_page(Some(page(&[1]))).ok(), Some(PageFlow::More));
        assert_eq!(fetch.state.page, expected);
    }
    let mut last = page(&[1]);
    last.exhausted = true;
    assert_eq!(fetch.finish_page(Some(last)).ok(), Some(PageFlow::Done));
    assert_eq!(fetch.state.page, 7);
}

#[test]
fn page_numbers_saturate() {
    let (source, mut target, filters) = (source(), target(), Vec::new());
    target.pagination.page_start = i64::MAX - 1;
    let mut fetch = start(&source, &target, &filters, ValidatedPaginationMode::Page, None);
    assert!(fetch.finish_page(Some(page(&[]))).is_ok());
    assert_eq!(fetch.state.page, i64::MAX);
    target.pagination.page_start = i64::MIN + 1;
    target.pagination.page_step = -5;
    let mut fetch = start(&source, &target, &filters, ValidatedPaginationMode::Page, None);
    assert!(fetch.finish_page(Some(page(&[]))).is_ok());
    assert_eq!(fetch.state.page, i64::MIN);
}

#[test]
fn offset_without_step_fails() {
    let (source, target, filters) = (source(), target(), Vec::new());
    let mode = ValidatedPaginationMode::Offset { start: 0 };
    let mut fetch = start(&source, &target, &filters, mode, None);
    let mut stepless = page(&[1]);
    stepless.offset_step = Err("no step".to_string());
    match fetch.finish_page(Some(stepless)) {
        Err(error) => assert_eq!(pagination_detail(error), "no step"),
        Ok(_) => panic!("went on"),
    }
    let mut exhausted = page(&[1]);
    exhausted.offset_step = Err("no step".to_string());
    exhausted.exhausted = true;
    assert_eq!(fetch.finish_page(Some(exhausted)).ok(), Some(PageFlow::Done));
}

#[test]
fn cursors_are_trimmed() {
    let (source, target, filters) = (source(), target(), Vec::new());
    for mode in [ValidatedPaginationMode::CursorQuery, ValidatedPaginationMode::CursorBody] {
        let mut fetch = start(&source, &target, &filters, mode, None);
        let mut first = page(&[1]);
        first.cursor = PathValue::Text("\u{3000} \t abc d\u{a0}\n".to_string());
        assert_eq!(fetch.finish_page(Some(first)).ok(), Some(PageFlow::More));
        assert_eq!(fetch.state.cursor, Some("abc d".to_string()));
        let mut last = page(&[2]);
        last.cursor = PathValue::Text(" \u{2003}\r\n".to_string());
        assert_eq!(fetch.finish_page(Some(last)).ok(), Some(PageFlow::Done));
        assert_eq!(fetch.into_rows(), vec![1, 2]);
    }
}

#[test]
fn white_space_is_trimmed_and_nothing_else() {
    let (source, target, filters) = (source(), target(), Vec::new());
    for code in 0u32..0x3100 {
        let c = match char::from_u32(code) {
            Some(c) => c,
            None => continue,
        };
        let mode = ValidatedPaginationMode::CursorQuery;
        let mut fetch = start(&source, &target, &filters, mode, None);
        let mut first = page(&[]);
        first.cursor = PathValue::Text(format!("{}x{}", c, c));
        assert_eq!(fetch.finish_page(Some(first)).ok(), Some(PageFlow::More));
        let white = matches!(
            code,
            0x09..=0x0d
                | 0x20
                | 0x85
                | 0xa0
                | 0x1680
                | 0x2000..=0x200a
                | 0x2028
                | 0x2029
                | 0x202f
                | 0x205f
                | 0x3000
        );
        let expected = if white { "x".to_string() } else { format!("{}x{}", c, c) };
        assert_eq!(fetch.state.cursor, Some(expected));
    }
}

#[test]
fn cursor_that_is_no_text_ends_the_fetch() {
    let (source, target, filters) = (source(), target(), Vec::new());
    for cursor in [PathValue::Missing, PathValue::Other, PathValue::Bool(true)] {
        let mode = ValidatedPaginationMode::CursorBody;
        let mut fetch = start(&source, &target, &filters, mode, None);
        let mut last = page(&[2]);
        last.cursor = cursor;
        assert_eq!(fetch.finish_page(Some(last)).ok(), Some(PageFlow::Done));
    }
}

#[test]
fn links_are_followed() {
    let (source, target, filters) = (source(), target(), Vec::new());
    for mode in [ValidatedPaginationMode::LinkHeader, ValidatedPaginationMode::Auto] {
        let mut fetch = start(&source, &target, &filters, mode, None);
        assert!(matches!(fetch.begin_page(), Ok(None)));
        let mut first = page(&[1]);
        first.next_url = Some("https://api.test/?page=2".to_string());
        assert_eq!(fetch.finish_page(Some(first)).ok(), Some(PageFlow::More));
        let request = fetch.begin_page().ok().unwrap().unwrap();
        assert_eq!(request.url, "https://api.test/?page=2");
        assert!(request.query_pairs.is_empty());
        assert!(request.body.is_none());
        assert_eq!(fetch.finish_page(Some(page(&[2]))).ok(), Some(PageFlow::Done));
        assert_eq!(fetch.into_rows(), vec![1, 2]);
    }
}

#[test]
fn links_count_only_where_pages_are_linked() {
    let (source, target, filters) = (source(), target(), Vec::new());
    let mut fetch = start(&source, &target, &filters, ValidatedPaginationMode::Page, None);
    let mut first = page(&[1]);
    first.next_url = Some("u".to_string());
    assert_eq!(fetch.finish_page(Some(first)).ok(), Some(PageFlow::More));
    assert!(fetch.state.next_url.is_none());
    fetch.state.next_url = Some("u".to_string());
    assert!(matches!(fetch.begin_page(), Ok(None)));
}

#[test]
fn reported_failure_fails_the_fetch() {
    let (source, mut target) = (source(), target());
    let filters = vec![("state".to_string(), "open".to_string())];
    target.response.ok_path = vec!["ok".to_string()];
    target.response.error_path = vec!["error".to_string()];
    for (ok, error, expected) in [
        (PathValue::Bool(false), PathValue::Text("bad token".to_string()), "bad token"),
        (PathValue::Missing, PathValue::Missing, "unknown source API error"),
        (PathValue::Other, PathValue::Other, "unknown source API error"),
        (PathValue::Text("true".to_string()), PathValue::Bool(true), "unknown source API error"),
    ] {
        let mut fetch =
            start(&source, &target, &filters, ValidatedPaginationMode::SinglePage, None);
        let mut failed = page(&[1]);
        failed.ok = ok;
        failed.error = error;
        match fetch.finish_page(Some(failed)) {
            Err(ProviderQueryError::ApiRequest {
                source_schema,
                table,
                status,
                method,
                url,
                filters: reported,
                detail,
            }) => {
                assert_eq!((source_schema.as_str(), table.as_str()), ("github", "issues"));
                assert_eq!((status, method, url), (None, None, None));
                assert_eq!(reported, filters);
                assert_eq!(detail, expected);
            }
            _ => panic!("expected an API error"),
        }
    }
}

#[test]
fn failure_without_error_path_is_unknown() {
    let (source, mut target, filters) = (source(), target(), Vec::new());
    target.response.ok_path = vec!["ok".to_string()];
    let mut fetch = start(&source, &target, &filters, ValidatedPaginationMode::SinglePage, None);
    let mut failed = page(&[1]);
    failed.error = PathValue::Text("unread".to_string());
    match fetch.finish_page(Some(failed)) {
        Err(ProviderQueryError::ApiRequest { detail, .. }) => {
            assert_eq!(detail, "unknown source API error")
        }
        _ => panic!("expected an API error"),
    }
}

#[test]
fn reported_success_goes_on() {
    let (source, mut target, filters) = (source(), target(), Vec::new());
    target.response.ok_path = vec!["ok".to_string()];
    let mut fetch = start(&source, &target, &filters, ValidatedPaginationMode::SinglePage, None);
    let mut good = page(&[1]);
    good.ok = PathValue::Bool(true);
    assert_eq!(fetch.finish_page(Some(good)).ok(), Some(PageFlow::Done));
    assert_eq!(fetch.into_rows(), vec![1]);
}

#[test]
fn decimal_numbers() {
    for n in [0usize, 7, 9, 10, 42, 100, 10_000, 1_234_567_890, usize::MAX] {
        assert_eq!(paged_fetch::text::decimal_text(n), n.to_string());
    }
}

#[test]
fn offsets_step_both_ways_and_saturate() {
    let (source, target, filters) = (source(), target(), Vec::new());
    let mode = ValidatedPaginationMode::Offset { start: i64::MAX - 5 };
    let mut fetch = start(&source, &target, &filters, mode, None);
    let steps = [
        (3, i64::MAX - 2),
        (10, i64::MAX),
        (-4, i64::MAX - 4),
        (i64::MIN, -5),
        (i64::MIN, i64::MIN),
        (7, i64::MIN + 7),
    ];
    for (step, expected) in steps {
        assert!(fetch.begin_page().is_ok());
        let mut next = page(&[1]);
        next.offset_step = Ok(step);
        assert_eq!(fetch.finish_page(Some(next)).ok(), Some(PageFlow::More));
        assert_eq!(fetch.state.offset, expected);
    }
}

#[test]
fn waiting_search_has_a_call_left() {
    let (source, mut target, filters) = (source(), target(), Vec::new());
    target.search_limits =
        Some(SearchLimits { default_top_k: 100, max_top_k: 50, max_calls_per_query: 3 });
    let mut fetch = start(&source, &target, &filters, ValidatedPaginationMode::Page, None);
    for _ in 0..2 {
        assert!(fetch.begin_page().is_ok());
        assert_eq!(fetch.finish_page(Some(page(&[1]))).ok(), Some(PageFlow::More));
        assert!(fetch.page_count < 3);
    }
    assert!(fetch.begin_page().is_ok());
    assert_eq!(fetch.finish_page(Some(page(&[1]))).ok(), Some(PageFlow::Done));
    assert_eq!(fetch.page_count, 3);

    target.search_limits =
        Some(SearchLimits { default_top_k: 100, max_top_k: 50, max_calls_per_query: 0 });
    let mut fetch = start(&source, &target, &filters, ValidatedPaginationMode::Page, None);
    assert!(fetch.begin_page().is_ok());
    assert_eq!(fetch.finish_page(Some(page(&[1]))).ok(), Some(PageFlow::Done));
    assert_eq!(fetch.page_count, 1);
    assert!(fetch.into_rows().is_empty());
}

#[test]
fn failing_search_is_within_its_calls() {
    let (source, mut target, filters) = (source(), target(), Vec::new());
    target.search_limits =
        Some(SearchLimits { default_top_k: 100, max_top_k: 50, max_calls_per_query: 2 });
    target.response.ok_path = vec!["ok".to_string()];
    let mut fetch = start(&source, &target, &filters, ValidatedPaginationMode::Page, None);
    let mut good = page(&[1]);
    good.ok = PathValue::Bool(true);
    assert!(fetch.begin_page().is_ok());
    assert_eq!(fetch.finish_page(Some(good)).ok(), Some(PageFlow::More));
    assert!(fetch.begin_page().is_ok());
    assert!(fetch.finish_page(Some(page(&[1]))).is_err());
    assert_eq!(fetch.page_count, 2);
}
