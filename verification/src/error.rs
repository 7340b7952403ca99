//! The errors that a fetch ends in.

use std::sync::Arc;
use vstd::prelude::*;

verus! {

/// An error that names the source and the table it came from.
#[derive(Debug)]
pub enum ProviderQueryError {
    /// The declared pagination is unusable, or the fetch ran out of pages.
    Pagination {
        source_schema: String,
        table: String,
        method: Option<String>,
        url: Option<String>,
        detail: String,
    },
    /// The source answered that the request failed.
    ApiRequest {
        source_schema: String,
        table: String,
        status: Option<u16>,
        method: Option<String>,
        url: Option<String>,
        filters: Vec<(String, String)>,
        detail: String,
    },
}

/// A `ProviderQueryError`, by the text that it holds.
pub enum ProviderQueryErrorView {
    Pagination {
        source_schema: Seq<char>,
        table: Seq<char>,
        method: Option<Seq<char>>,
        url: Option<Seq<char>>,
        detail: Seq<char>,
    },
    ApiRequest {
        source_schema: Seq<char>,
        table: Seq<char>,
        status: Option<u16>,
        method: Option<Seq<char>>,
        url: Option<Seq<char>>,
        filters: Seq<(Seq<char>, Seq<char>)>,
        detail: Seq<char>,
    },
}

impl View for ProviderQueryError {
    type V = ProviderQueryErrorView;

    open spec fn view(&self) -> ProviderQueryErrorView {
        match self {
            ProviderQueryError::Pagination { source_schema, table, method, url, detail } => {
                ProviderQueryErrorView::Pagination {
                    source_schema: source_schema@,
                    table: table@,
                    method: method.deep_view(),
                    url: url.deep_view(),
                    detail: detail@,
                }
            },
            ProviderQueryError::ApiRequest {
                source_schema,
                table,
                status,
                method,
                url,
                filters,
                detail,
            } => ProviderQueryErrorView::ApiRequest {
                source_schema: source_schema@,
                table: table@,
                status: *status,
                method: method.deep_view(),
                url: url.deep_view(),
                filters: filters.deep_view(),
                detail: detail@,
            },
        }
    }
}

/// The view of a pagination error that names no request.
pub open spec fn pagination_failure(
    source_schema: Seq<char>,
    table: Seq<char>,
    detail: Seq<char>,
) -> ProviderQueryErrorView {
    ProviderQueryErrorView::Pagination { source_schema, table, method: None, url: None, detail }
}

/// The view of a failed API request, of which only the filters and the source's
/// own words are known.
pub open spec fn api_failure(
    source_schema: Seq<char>,
    table: Seq<char>,
    filters: Seq<(Seq<char>, Seq<char>)>,
    detail: Seq<char>,
) -> ProviderQueryErrorView {
    ProviderQueryErrorView::ApiRequest {
        source_schema,
        table,
        status: None,
        method: None,
        url: None,
        filters,
        detail,
    }
}

pub(crate) fn new_pagination_failure(
    source_schema: &String,
    table: &String,
    detail: String,
) -> (error: ProviderQueryError)
    ensures
        error@ == pagination_failure(source_schema@, table@, detail@),
{
    ProviderQueryError::Pagination {
        source_schema: source_schema.clone(),
        table: table.clone(),
        method: None,
        url: None,
        detail,
    }
}

fn clone_pairs(pairs: &Vec<(String, String)>) -> (copy: Vec<(String, String)>)
    ensures
        copy.deep_view() == pairs.deep_view(),
{
    let mut copy: Vec<(String, String)> = Vec::new();
    for i in 0..pairs.len()
        invariant
            copy@.len() == i,
            forall|j: int| 0 <= j < i ==> copy@[j] == pairs@[j],
    {
        copy.push((pairs[i].0.clone(), pairs[i].1.clone()));
    }
    assert(copy@ == pairs@);
    copy
}

pub(crate) fn new_api_failure(
    source_schema: &String,
    table: &String,
    filters: &Vec<(String, String)>,
    detail: String,
) -> (error: ProviderQueryError)
    ensures
        error@ == api_failure(source_schema@, table@, filters.deep_view(), detail@),
{
    ProviderQueryError::ApiRequest {
        source_schema: source_schema.clone(),
        table: table.clone(),
        status: None,
        method: None,
        url: None,
        filters: clone_pairs(filters),
        detail,
    }
}

/// What a request failed with: an error of this provider, or anything else.
#[derive(Debug)]
pub enum SourceError<P, X> {
    Provider(P),
    Other(X),
}

/// A request's failure as it is handed on from a shared outcome.
#[derive(Debug)]
pub enum NetworkFailure<P, X> {
    /// The provider's own error, of which the holders each get a copy.
    Provider(P),
    /// Any other error, which stays shared.
    Shared(Arc<SourceError<P, X>>),
}

/// `failure` hands on `err`: a copy of a provider's error, and the very same
/// shared error otherwise.
pub open spec fn hands_on<P: Clone, X>(
    err: Arc<SourceError<P, X>>,
    failure: NetworkFailure<P, X>,
) -> bool {
    match *err {
        SourceError::Provider(provider_err) => {
            &&& failure is Provider
            &&& cloned::<P>(provider_err, failure->Provider_0)
        },
        SourceError::Other(_) => failure == NetworkFailure::<P, X>::Shared(err),
    }
}

/// Takes an error out of a shared outcome that others may still hold, so that a
/// provider's error keeps its variant and every other error stays reachable.
pub fn unwrap_network_error<P: Clone, X>(err: Arc<SourceError<P, X>>) -> (failure: NetworkFailure<
    P,
    X,
>)
    ensures
        hands_on(err, failure),
{
    if let SourceError::Provider(provider_err) = &*err {
        return NetworkFailure::Provider(provider_err.clone());
    }
    NetworkFailure::Shared(err)
}

/// A provider's error comes out as a copy of itself, and any other error as the very
/// one that is shared.
pub proof fn law_errors_keep_their_kind<P: Clone, X>(
    err: Arc<SourceError<P, X>>,
    failure: NetworkFailure<P, X>,
)
    requires
        call_ensures(unwrap_network_error::<P, X>, (err,), failure),
    ensures
        *err matches SourceError::Provider(original) ==> (failure matches NetworkFailure::Provider(
            copy,
        ) && cloned::<P>(original, copy)),
        *err is Other ==> (failure matches NetworkFailure::Shared(shared) && shared == err),
{
}

} // verus!
