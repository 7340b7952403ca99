//! The part of a cache key that tells requests apart by their headers.

use crate::hash::{
    cache_hash, hash_cache_bytes, law_named_hash_is_of_all_bytes, slice_writes,
};
use crate::headers::{
    check_header_value, has_header, header_bytes, header_entries, header_key, insert_header,
    invalid_name_text, invalid_value_text, is_header_name, is_header_value, name_error_text,
    new_header_map, parse_header_name, value_error_text,
};
use crate::request::RequestBody;
use reqwest::header::HeaderMap;
use std::collections::hash_map::DefaultHasher;
use vstd::prelude::*;
use vstd::std_specs::hash::DefaultHasherAdditionalSpecFns;
use vstd::string::*;
use vstd::utf8::encode_utf8;

verus! {

/// What a declared header's value source came to for the request at hand.
pub enum ResolvedValue {
    /// No value: the header is not sent.
    Absent,
    Text(String),
    /// The source could not be resolved.
    Unresolved,
}

/// A header declared for a request, with what its value came to.
pub struct ResolvedHeader {
    pub name: String,
    pub value: ResolvedValue,
}

/// Why no vary hashes could be made.
#[derive(Debug)]
pub enum VaryHeaderError {
    /// The value of a header could not be resolved. It is the first such header, of
    /// the source's and then the table's.
    Unresolved,
    /// A header's name or value is not valid.
    Execution { detail: String },
    /// The header map cannot hold so many headers.
    TooManyHeaders,
}

/// A `VaryHeaderError`, by the text that it holds.
pub enum VaryHeaderErrorView {
    Unresolved,
    Execution { detail: Seq<char> },
    TooManyHeaders,
}

impl View for VaryHeaderError {
    type V = VaryHeaderErrorView;

    open spec fn view(&self) -> VaryHeaderErrorView {
        match self {
            VaryHeaderError::Unresolved => VaryHeaderErrorView::Unresolved,
            VaryHeaderError::Execution { detail } => VaryHeaderErrorView::Execution {
                detail: detail@,
            },
            VaryHeaderError::TooManyHeaders => VaryHeaderErrorView::TooManyHeaders,
        }
    }
}

/// The value that `headers` send under a lower-case name: that of the last one
/// with this name that has a value.
pub open spec fn sent_value(headers: Seq<ResolvedHeader>, key: Seq<char>) -> Option<Seq<char>>
    decreases headers.len(),
{
    if headers.len() == 0 {
        None
    } else {
        match headers.last().value {
            ResolvedValue::Text(text) if header_key(headers.last().name@) == key => Some(text@),
            _ => sent_value(headers.drop_last(), key),
        }
    }
}

/// The value that a request sends under a lower-case name: a text body without a
/// declared content type is sent as plain text.
pub open spec fn request_value(
    headers: Seq<ResolvedHeader>,
    text_body: bool,
    key: Seq<char>,
) -> Option<Seq<char>> {
    match sent_value(headers, key) {
        Some(value) => Some(value),
        None => if text_body && key == "content-type"@ {
            Some("text/plain"@)
        } else {
            None
        },
    }
}

pub open spec fn value_hash(value: Option<Seq<char>>) -> Option<u64> {
    match value {
        Some(value) => Some(cache_hash(encode_utf8(value))),
        None => None,
    }
}

/// The entry for one vary header: its lower-case name, and the hash of the value
/// that is sent under it.
pub open spec fn vary_entry(
    headers: Seq<ResolvedHeader>,
    text_body: bool,
    name: Seq<char>,
) -> (Seq<char>, Option<u64>) {
    (header_key(name), value_hash(request_value(headers, text_body, header_key(name))))
}

/// The entries for all vary headers, in their order.
pub open spec fn vary_entries(
    headers: Seq<ResolvedHeader>,
    text_body: bool,
    vary: Seq<Seq<char>>,
) -> Seq<(Seq<char>, Option<u64>)> {
    vary.map_values(|name: Seq<char>| vary_entry(headers, text_body, name))
}

/// What is wrong with a header. A header without a value is not sent,
/// so nothing is wrong with it.
pub open spec fn header_error(header: ResolvedHeader) -> Option<VaryHeaderErrorView> {
    match header.value {
        ResolvedValue::Absent => None,
        ResolvedValue::Unresolved => Some(VaryHeaderErrorView::Unresolved),
        ResolvedValue::Text(text) => if !is_header_name(header.name@) {
            Some(
                VaryHeaderErrorView::Execution {
                    detail: "invalid request header name '"@ + header.name@ + "': "@
                        + invalid_name_text(),
                },
            )
        } else if !is_header_value(text@) {
            Some(
                VaryHeaderErrorView::Execution {
                    detail: "invalid request header value for '"@ + header.name@ + "': "@
                        + invalid_value_text(),
                },
            )
        } else {
            None
        },
    }
}

/// What is wrong with the first of `headers` with which something is wrong.
pub open spec fn headers_error(headers: Seq<ResolvedHeader>) -> Option<VaryHeaderErrorView>
    decreases headers.len(),
{
    if headers.len() == 0 {
        None
    } else {
        match headers_error(headers.drop_last()) {
            Some(error) => Some(error),
            None => header_error(headers.last()),
        }
    }
}

pub open spec fn vary_name_error(name: Seq<char>) -> VaryHeaderErrorView {
    VaryHeaderErrorView::Execution {
        detail: "invalid cache vary header name '"@ + name + "': "@ + invalid_name_text(),
    }
}

/// What is wrong with the first of the vary names that cannot name a header.
pub open spec fn vary_names_error(vary: Seq<Seq<char>>) -> Option<VaryHeaderErrorView>
    decreases vary.len(),
{
    if vary.len() == 0 {
        None
    } else {
        match vary_names_error(vary.drop_last()) {
            Some(error) => Some(error),
            None => if is_header_name(vary.last()) {
                None
            } else {
                Some(vary_name_error(vary.last()))
            },
        }
    }
}

/// What is wrong with the headers, or else with the vary names; where nothing is
/// to vary, no header is looked at.
pub open spec fn vary_error(
    headers: Seq<ResolvedHeader>,
    vary: Seq<Seq<char>>,
) -> Option<VaryHeaderErrorView> {
    if vary.len() == 0 {
        None
    } else {
        match headers_error(headers) {
            Some(error) => Some(error),
            None => vary_names_error(vary),
        }
    }
}

/// The lower-case names under which `headers` send a value.
pub open spec fn sent_names(headers: Seq<ResolvedHeader>) -> Set<Seq<char>>
    decreases headers.len(),
{
    if headers.len() == 0 {
        Set::empty()
    } else if headers.last().value is Text {
        sent_names(headers.drop_last()).insert(header_key(headers.last().name@))
    } else {
        sent_names(headers.drop_last())
    }
}

/// A header map with so many names may refuse another one, depending on how they
/// hash.
pub open spec fn may_refuse(names: Set<Seq<char>>) -> bool {
    names.len() * 5 >= 32768
}

/// A header map with so many names refuses every header.
pub open spec fn must_refuse(names: Set<Seq<char>>) -> bool {
    names.len() * 4 >= 32768 * 3
}

/// The header map may refuse the header at `n`, which is fit to be sent and comes
/// after nothing that is in error.
pub open spec fn may_refuse_at(headers: Seq<ResolvedHeader>, n: int) -> bool {
    &&& headers_error(headers.take(n)) is None
    &&& may_refuse(sent_names(headers.take(n)))
    &&& headers[n].value is Text
    &&& header_error(headers[n]) is None
}

/// The header map refuses the header at `n`, if it took all before.
pub open spec fn must_refuse_at(headers: Seq<ResolvedHeader>, n: int) -> bool {
    may_refuse_at(headers, n) && must_refuse(sent_names(headers.take(n)))
}

/// The header map may refuse a header of the request: one that is declared, or the
/// content type of a text body for which none is.
pub open spec fn may_refuse_some(headers: Seq<ResolvedHeader>, text_body: bool) -> bool {
    ||| exists|n: int| 0 <= n < headers.len() && #[trigger] may_refuse_at(headers, n)
    ||| {
        &&& headers_error(headers) is None
        &&& may_refuse(sent_names(headers))
        &&& text_body
        &&& !sent_names(headers).contains("content-type"@)
    }
}

/// The header map refuses a header of the request, for it holds too many names by
/// then, however they hash.
pub open spec fn must_refuse_some(headers: Seq<ResolvedHeader>, text_body: bool) -> bool {
    ||| exists|n: int| 0 <= n < headers.len() && #[trigger] must_refuse_at(headers, n)
    ||| {
        &&& headers_error(headers) is None
        &&& must_refuse(sent_names(headers))
        &&& text_body
        &&& !sent_names(headers).contains("content-type"@)
    }
}

/// `result` is the outcome for these headers: the entries where nothing is wrong,
/// else the first error. A refusal by the header map takes the place of what would
/// have come after it; it never comes with few names and always with very many.
pub open spec fn is_vary_outcome(
    result: Result<Vec<(String, Option<u64>)>, VaryHeaderError>,
    headers: Seq<ResolvedHeader>,
    text_body: bool,
    vary: Seq<Seq<char>>,
) -> bool {
    match result {
        Ok(entries) => {
            &&& vary_error(headers, vary) is None
            &&& vary.len() > 0 ==> !must_refuse_some(headers, text_body)
            &&& entries.deep_view() == vary_entries(headers, text_body, vary)
        },
        Err(VaryHeaderError::TooManyHeaders) => {
            &&& vary.len() > 0
            &&& may_refuse_some(headers, text_body)
        },
        Err(error) => {
            &&& vary_error(headers, vary) == Some(error@)
            &&& !must_refuse_some(headers, text_body)
        },
    }
}

/// `prefix`, then `name`, a closing quote and `reason`.
fn quoted_detail(prefix: &str, name: &str, reason: &str) -> (detail: String)
    ensures
        detail@ == prefix@ + name@ + "': "@ + reason@,
{
    let mut detail = prefix.to_owned();
    detail.append(name);
    detail.append("': ");
    detail.append(reason);
    detail
}

/// `entries` hold what `headers` send.
spec fn holds_sent(entries: Map<Seq<char>, Seq<u8>>, headers: Seq<ResolvedHeader>) -> bool {
    &&& entries.dom() == sent_names(headers)
    &&& forall|key: Seq<char>| #[trigger]
        entries.contains_key(key) <==> sent_value(headers, key) is Some
    &&& forall|key: Seq<char>| #[trigger]
        entries.contains_key(key) ==> entries[key] == encode_utf8(sent_value(headers, key)->0)
}

/// The header map need refuse none of the first `n` headers.
spec fn takes_first(headers: Seq<ResolvedHeader>, n: int) -> bool {
    forall|i: int| 0 <= i < n ==> !#[trigger] must_refuse_at(headers, i)
}

/// Puts one header into the map, where it has a value.
fn collect_header(headers: &mut HeaderMap, header: &ResolvedHeader) -> (collected:
    Result<(), VaryHeaderError>)
    ensures
        match collected {
            Ok(()) => {
                &&& header_error(*header) is None
                &&& header.value is Text ==> !must_refuse(header_entries(*old(headers)).dom())
                &&& header_entries(*final(headers)) == (match header.value {
                    ResolvedValue::Text(text) => header_entries(*old(headers)).insert(
                        header_key(header.name@),
                        encode_utf8(text@),
                    ),
                    _ => header_entries(*old(headers)),
                })
            },
            Err(VaryHeaderError::TooManyHeaders) => {
                &&& may_refuse(header_entries(*old(headers)).dom())
                &&& header.value is Text
                &&& header_error(*header) is None
            },
            Err(error) => header_error(*header) == Some(error@),
        },
{
    let text = match &header.value {
        ResolvedValue::Absent => return Ok(()),
        ResolvedValue::Unresolved => return Err(VaryHeaderError::Unresolved),
        ResolvedValue::Text(text) => text,
    };
    if let Err(error) = parse_header_name(header.name.as_str()) {
        let detail = quoted_detail(
            "invalid request header name '",
            header.name.as_str(),
            name_error_text(&error).as_str(),
        );
        return Err(VaryHeaderError::Execution { detail });
    }
    if let Err(error) = check_header_value(text.as_str()) {
        let detail = quoted_detail(
            "invalid request header value for '",
            header.name.as_str(),
            value_error_text(&error).as_str(),
        );
        return Err(VaryHeaderError::Execution { detail });
    }
    match insert_header(headers, header.name.as_str(), text.as_str()) {
        Ok(()) => Ok(()),
        Err(_) => Err(VaryHeaderError::TooManyHeaders),
    }
}

/// Puts the source's headers, then the table's, into one map.
fn collect_headers(request_headers: &[ResolvedHeader], table_headers: &[ResolvedHeader]) -> (
collected: Result<HeaderMap, VaryHeaderError>)
    ensures
        match collected {
            Ok(map) => {
                &&& headers_error(request_headers@ + table_headers@) is None
                &&& takes_first(
                    request_headers@ + table_headers@,
                    (request_headers@ + table_headers@).len() as int,
                )
                &&& holds_sent(header_entries(map), request_headers@ + table_headers@)
            },
            Err(VaryHeaderError::TooManyHeaders) => exists|n: int|
                0 <= n < (request_headers@ + table_headers@).len() && #[trigger] may_refuse_at(
                    request_headers@ + table_headers@,
                    n,
                ),
            Err(error) => {
                &&& headers_error(request_headers@ + table_headers@) == Some(error@)
                &&& takes_first(
                    request_headers@ + table_headers@,
                    (request_headers@ + table_headers@).len() as int,
                )
            },
        },
{
    let ghost headers = request_headers@ + table_headers@;
    let mut map = new_header_map();
    let mut index: usize = 0;
    proof {
        assert(headers.take(0).len() == 0);
    }
    let request_len: usize = request_headers.len();
    while index < request_len
        invariant
            index <= request_len == request_headers@.len(),
            headers == request_headers@ + table_headers@,
            headers_error(headers.take(index as int)) is None,
            takes_first(headers, index as int),
            holds_sent(header_entries(map), headers.take(index as int)),
        decreases request_len - index,
    {
        let ghost before = header_entries(map);
        assert(headers[index as int] == request_headers@[index as int]);
        if let Err(error) = collect_header(&mut map, &request_headers[index]) {
            proof {
                lemma_error_is_first(headers, index as int);
                lemma_takes_all_before_error(headers, index as int);
                assert(error is TooManyHeaders ==> may_refuse_at(headers, index as int));
            }
            return Err(error);
        }
        proof {
            lemma_holds_one_more(before, header_entries(map), headers, index as int);
        }
        index = index + 1;
    }
    let table_len: usize = table_headers.len();
    let mut table_index: usize = 0;
    while table_index < table_len
        invariant
            table_index <= table_len == table_headers@.len(),
            headers == request_headers@ + table_headers@,
            headers_error(headers.take(request_headers@.len() + table_index)) is None,
            takes_first(headers, request_headers@.len() + table_index),
            holds_sent(header_entries(map), headers.take(request_headers@.len() + table_index)),
        decreases table_len - table_index,
    {
        let ghost before = header_entries(map);
        let ghost position = request_headers@.len() + table_index;
        assert(headers[position] == table_headers@[table_index as int]);
        if let Err(error) = collect_header(&mut map, &table_headers[table_index]) {
            proof {
                lemma_error_is_first(headers, position);
                lemma_takes_all_before_error(headers, position);
                assert(error is TooManyHeaders ==> may_refuse_at(headers, position));
            }
            return Err(error);
        }
        proof {
            lemma_holds_one_more(before, header_entries(map), headers, position);
        }
        table_index = table_index + 1;
    }
    proof {
        assert(headers.take(request_headers@.len() + table_index) == headers);
    }
    Ok(map)
}

/// The error at a header before which nothing is wrong is the first of all.
proof fn lemma_error_is_first(headers: Seq<ResolvedHeader>, index: int)
    requires
        0 <= index < headers.len(),
        headers_error(headers.take(index)) is None,
    ensures
        headers_error(headers.take(index + 1)) == header_error(headers[index]),
        header_error(headers[index]) is Some ==> headers_error(headers) == header_error(headers[index]),
{
    assert(headers.take(index + 1).drop_last() == headers.take(index));
    if header_error(headers[index]) is Some {
        lemma_first_error_stays(headers, index + 1);
    }
}

/// Where a header is in error, none after it is put into the map.
proof fn lemma_takes_all_before_error(headers: Seq<ResolvedHeader>, index: int)
    requires
        0 <= index < headers.len(),
        headers_error(headers.take(index)) is None,
        takes_first(headers, index),
    ensures
        header_error(headers[index]) is Some ==> takes_first(headers, headers.len() as int),
{
    lemma_error_is_first(headers, index);
    if header_error(headers[index]) is Some {
        assert forall|i: int| 0 <= i < headers.len() implies !#[trigger] must_refuse_at(
            headers,
            i,
        ) by {
            if i > index {
                assert(headers.take(i).take(index + 1) == headers.take(index + 1));
                lemma_first_error_stays(headers.take(i), index + 1);
            }
        }
    }
}

/// An error among the first headers is the error of them all.
proof fn lemma_first_error_stays(headers: Seq<ResolvedHeader>, n: int)
    requires
        0 <= n <= headers.len(),
        headers_error(headers.take(n)) is Some,
    ensures
        headers_error(headers) == headers_error(headers.take(n)),
    decreases headers.len(),
{
    if n == headers.len() {
        assert(headers.take(n) == headers);
    } else {
        assert(headers.drop_last().take(n) == headers.take(n));
        lemma_first_error_stays(headers.drop_last(), n);
    }
}

/// A map that held what the first headers send holds what they and the next one
/// send, once the next one was put into it.
proof fn lemma_holds_one_more(
    before: Map<Seq<char>, Seq<u8>>,
    after: Map<Seq<char>, Seq<u8>>,
    headers: Seq<ResolvedHeader>,
    index: int,
)
    requires
        0 <= index < headers.len(),
        headers_error(headers.take(index)) is None,
        header_error(headers[index]) is None,
        holds_sent(before, headers.take(index)),
        after == (match headers[index].value {
            ResolvedValue::Text(text) => before.insert(
                header_key(headers[index].name@),
                encode_utf8(text@),
            ),
            _ => before,
        }),
    ensures
        headers_error(headers.take(index + 1)) is None,
        holds_sent(after, headers.take(index + 1)),
{
    lemma_error_is_first(headers, index);
    let more = headers.take(index + 1);
    assert(more.drop_last() == headers.take(index));
    assert(more.last() == headers[index]);
    assert(after.dom() == sent_names(more));
}

/// The entries that tell requests apart in a cache key: for each vary header its
/// lower-case name, and the hash of the value that the request sends under it.
pub fn cache_vary_header_hashes(
    request_headers: &[ResolvedHeader],
    table_headers: &[ResolvedHeader],
    body: Option<&RequestBody>,
    vary_headers: &[String],
) -> (result: Result<Vec<(String, Option<u64>)>, VaryHeaderError>)
    ensures
        is_vary_outcome(
            result,
            request_headers@ + table_headers@,
            body is Some && *body->0 is Text,
            vary_headers.deep_view(),
        ),
{
    let ghost headers = request_headers@ + table_headers@;
    let ghost text_body = body is Some && *body->0 is Text;
    let ghost vary = vary_headers.deep_view();
    let mut entries: Vec<(String, Option<u64>)> = Vec::new();
    if vary_headers.len() == 0 {
        assert(entries.deep_view() == vary_entries(headers, text_body, vary));
        return Ok(entries);
    }
    let mut map = match collect_headers(request_headers, table_headers) {
        Ok(map) => map,
        Err(error) => return Err(error),
    };
    let is_text = match body {
        Some(RequestBody::Text(_)) => true,
        _ => false,
    };
    proof {
        lemma_plain_text_header();
    }
    if is_text && !has_header(&map, "content-type") {
        if let Err(_) = insert_header(&mut map, "content-type", "text/plain") {
            return Err(VaryHeaderError::TooManyHeaders);
        }
    }
    let ghost sent = header_entries(map);
    assert(forall|key: Seq<char>| #[trigger]
        sent.contains_key(key) <==> request_value(headers, text_body, key) is Some);
    assert(forall|key: Seq<char>| #[trigger]
        sent.contains_key(key) ==> sent[key] == encode_utf8(
            request_value(headers, text_body, key)->0,
        ));
    let vary_len: usize = vary_headers.len();
    assert(vary_names_error(vary.take(0)) is None);
    for i in 0..vary_len
        invariant
            vary_len == vary_headers@.len(),
            headers == request_headers@ + table_headers@,
            vary == vary_headers.deep_view(),
            vary_len > 0,
            headers_error(headers) is None,
            text_body == (body is Some && *body->0 is Text),
            !must_refuse_some(headers, text_body),
            sent == header_entries(map),
            forall|key: Seq<char>| #[trigger]
                sent.contains_key(key) <==> request_value(headers, text_body, key) is Some,
            forall|key: Seq<char>| #[trigger]
                sent.contains_key(key) ==> sent[key] == encode_utf8(
                    request_value(headers, text_body, key)->0,
                ),
            vary_names_error(vary.take(i as int)) is None,
            entries@.len() == i,
            forall|j: int|
                0 <= j < i ==> (#[trigger] entries@[j]).deep_view() == vary_entry(
                    headers,
                    text_body,
                    vary[j],
                ),
    {
        assert(vary[i as int] == vary_headers@[i as int]@);
        assert(vary.take(i + 1).drop_last() == vary.take(i as int));
        let name = match parse_header_name(vary_headers[i].as_str()) {
            Ok(name) => name,
            Err(error) => {
                let detail = quoted_detail(
                    "invalid cache vary header name '",
                    vary_headers[i].as_str(),
                    name_error_text(&error).as_str(),
                );
                proof {
                    assert(vary.take(i + 1).last() == vary[i as int]);
                    lemma_first_name_error_stays(vary, i + 1);
                }
                return Err(VaryHeaderError::Execution { detail });
            },
        };
        let value_hash = match header_bytes(&map, vary_headers[i].as_str()) {
            Some(bytes) => Some(hash_cache_bytes(bytes)),
            None => None,
        };
        entries.push((name, value_hash));
    }
    assert(vary.take(vary_len as int) == vary);
    assert(entries.deep_view() == vary_entries(headers, text_body, vary));
    Ok(entries)
}

proof fn lemma_plain_text_header()
    ensures
        is_header_name("content-type"@),
        header_key("content-type"@) == "content-type"@,
        is_header_value("text/plain"@),
{
    reveal_strlit("content-type");
    reveal_strlit("text/plain");
}

/// An error among the first vary names is the error of them all.
proof fn lemma_first_name_error_stays(vary: Seq<Seq<char>>, n: int)
    requires
        0 <= n <= vary.len(),
        vary_names_error(vary.take(n)) is Some,
    ensures
        vary_names_error(vary) == vary_names_error(vary.take(n)),
    decreases vary.len(),
{
    if n == vary.len() {
        assert(vary.take(n) == vary);
    } else {
        assert(vary.drop_last().take(n) == vary.take(n));
        lemma_first_name_error_stays(vary.drop_last(), n);
    }
}

/// A header of the table takes precedence over one of the source with the same
/// name.
pub proof fn law_table_headers_take_precedence(
    request_headers: Seq<ResolvedHeader>,
    table_headers: Seq<ResolvedHeader>,
    key: Seq<char>,
)
    ensures
        sent_value(request_headers + table_headers, key) == (match sent_value(table_headers, key) {
            Some(value) => Some(value),
            None => sent_value(request_headers, key),
        }),
    decreases table_headers.len(),
{
    let headers = request_headers + table_headers;
    if table_headers.len() == 0 {
        assert(headers == request_headers);
    } else {
        assert(headers.drop_last() == request_headers + table_headers.drop_last());
        law_table_headers_take_precedence(request_headers, table_headers.drop_last(), key);
    }
}

/// A header that no vary header names has no part in the entries, wherever it
/// stands.
pub proof fn law_unlisted_header_has_no_part(
    before: Seq<ResolvedHeader>,
    header: ResolvedHeader,
    after: Seq<ResolvedHeader>,
    text_body: bool,
    vary: Seq<Seq<char>>,
)
    requires
        forall|i: int| 0 <= i < vary.len() ==> header_key(#[trigger] vary[i]) != header_key(
            header.name@,
        ),
    ensures
        vary_entries(before.push(header) + after, text_body, vary) == vary_entries(
            before + after,
            text_body,
            vary,
        ),
{
    let with = before.push(header) + after;
    let without = before + after;
    assert forall|i: int| 0 <= i < vary.len() implies vary_entry(with, text_body, #[trigger] vary[i])
        == vary_entry(without, text_body, vary[i]) by {
        let key = header_key(vary[i]);
        assert(before.push(header).drop_last() == before);
        law_table_headers_take_precedence(before.push(header), after, key);
        law_table_headers_take_precedence(before, after, key);
    }
    assert(vary_entries(with, text_body, vary) == vary_entries(without, text_body, vary));
}

/// A header without a value is as good as not declared: neither the entries nor
/// the errors depend on it.
pub proof fn law_absent_header_is_not_sent(
    before: Seq<ResolvedHeader>,
    header: ResolvedHeader,
    after: Seq<ResolvedHeader>,
    text_body: bool,
    vary: Seq<Seq<char>>,
)
    requires
        header.value is Absent,
    ensures
        vary_entries(before.push(header) + after, text_body, vary) == vary_entries(
            before + after,
            text_body,
            vary,
        ),
        vary_error(before.push(header) + after, vary) == vary_error(before + after, vary),
{
    let with = before.push(header) + after;
    let without = before + after;
    assert(before.push(header).drop_last() == before);
    assert forall|i: int| 0 <= i < vary.len() implies vary_entry(with, text_body, #[trigger] vary[i])
        == vary_entry(without, text_body, vary[i]) by {
        let key = header_key(vary[i]);
        law_table_headers_take_precedence(before.push(header), after, key);
        law_table_headers_take_precedence(before, after, key);
    }
    assert(vary_entries(with, text_body, vary) == vary_entries(without, text_body, vary));
    lemma_error_of_both(before.push(header), after);
    lemma_error_of_both(before, after);
}

/// The first error of two runs of headers is that of the first run, if it has one.
proof fn lemma_error_of_both(a: Seq<ResolvedHeader>, b: Seq<ResolvedHeader>)
    ensures
        headers_error(a + b) == (match headers_error(a) {
            Some(error) => Some(error),
            None => headers_error(b),
        }),
    decreases b.len(),
{
    if b.len() == 0 {
        assert(a + b == a);
    } else {
        assert((a + b).drop_last() == a + b.drop_last());
        lemma_error_of_both(a, b.drop_last());
    }
}

/// The text of a value that is sent.
pub open spec fn text_of(value: ResolvedValue) -> Option<Seq<char>> {
    match value {
        ResolvedValue::Text(text) => Some(text@),
        _ => None,
    }
}

/// The headers send the same but for the case of the letters in their names.
pub open spec fn same_but_for_case(a: Seq<ResolvedHeader>, b: Seq<ResolvedHeader>) -> bool {
    &&& a.len() == b.len()
    &&& forall|i: int|
        0 <= i < a.len() ==> header_key((#[trigger] a[i]).name@) == header_key(b[i].name@)
            && text_of(a[i].value) == text_of(b[i].value)
}

/// The case of the letters in header names, declared or listed, is of no
/// consequence to the entries.
pub proof fn law_names_are_compared_without_case(
    a: Seq<ResolvedHeader>,
    b: Seq<ResolvedHeader>,
    text_body: bool,
    vary_a: Seq<Seq<char>>,
    vary_b: Seq<Seq<char>>,
)
    requires
        same_but_for_case(a, b),
        vary_a.map_values(|name: Seq<char>| header_key(name)) == vary_b.map_values(
            |name: Seq<char>| header_key(name),
        ),
    ensures
        vary_entries(a, text_body, vary_a) == vary_entries(b, text_body, vary_b),
{
    let keys_a = vary_a.map_values(|name: Seq<char>| header_key(name));
    let keys_b = vary_b.map_values(|name: Seq<char>| header_key(name));
    assert(vary_a.len() == keys_a.len() && vary_b.len() == keys_b.len());
    assert forall|i: int| 0 <= i < vary_a.len() implies vary_entry(a, text_body, #[trigger] vary_a[i])
        == vary_entry(b, text_body, vary_b[i]) by {
        assert(keys_a[i] == header_key(vary_a[i]));
        assert(keys_b[i] == header_key(vary_b[i]));
        lemma_sent_without_case(a, b, header_key(vary_a[i]));
    }
    assert(vary_entries(a, text_body, vary_a) == vary_entries(b, text_body, vary_b));
}

proof fn lemma_sent_without_case(a: Seq<ResolvedHeader>, b: Seq<ResolvedHeader>, key: Seq<char>)
    requires
        same_but_for_case(a, b),
    ensures
        sent_value(a, key) == sent_value(b, key),
    decreases a.len(),
{
    if a.len() > 0 {
        assert(header_key(a.last().name@) == header_key(b.last().name@) && text_of(a.last().value)
            == text_of(b.last().value));
        assert forall|i: int| 0 <= i < a.len() - 1 implies header_key(
            (#[trigger] a.drop_last()[i]).name@,
        ) == header_key(b.drop_last()[i].name@) && text_of(a.drop_last()[i].value) == text_of(
            b.drop_last()[i].value,
        ) by {
            assert(header_key(a[i].name@) == header_key(b[i].name@));
        }
        lemma_sent_without_case(a.drop_last(), b.drop_last(), key);
    }
}

/// The header map refused a header.
pub open spec fn is_refusal(result: Result<Vec<(String, Option<u64>)>, VaryHeaderError>) -> bool {
    result matches Err(VaryHeaderError::TooManyHeaders)
}

/// The two results hold the same entries or the same error.
pub open spec fn same_result(
    a: Result<Vec<(String, Option<u64>)>, VaryHeaderError>,
    b: Result<Vec<(String, Option<u64>)>, VaryHeaderError>,
) -> bool {
    match (a, b) {
        (Ok(a), Ok(b)) => a.deep_view() == b.deep_view(),
        (Err(a), Err(b)) => a@ == b@,
        _ => false,
    }
}

/// No header is refused where the headers send values under few names, however
/// many headers there are.
pub proof fn law_few_names_are_never_refused(
    result: Result<Vec<(String, Option<u64>)>, VaryHeaderError>,
    headers: Seq<ResolvedHeader>,
    text_body: bool,
    vary: Seq<Seq<char>>,
)
    requires
        is_vary_outcome(result, headers, text_body, vary),
        !may_refuse(sent_names(headers)),
    ensures
        !is_refusal(result),
{
    if is_refusal(result) {
        let n = choose|n: int| 0 <= n < headers.len() && #[trigger] may_refuse_at(headers, n);
        lemma_names_grow(headers, n);
    }
}

/// More headers send values under no fewer names.
proof fn lemma_names_grow(headers: Seq<ResolvedHeader>, n: int)
    requires
        0 <= n <= headers.len(),
    ensures
        sent_names(headers).finite(),
        sent_names(headers.take(n)).finite(),
        sent_names(headers.take(n)).len() <= sent_names(headers).len(),
    decreases headers.len(),
{
    if n == headers.len() {
        assert(headers.take(n) == headers);
        if headers.len() > 0 {
            lemma_names_grow(headers.drop_last(), 0);
        }
    } else {
        assert(headers.drop_last().take(n) == headers.take(n));
        lemma_names_grow(headers.drop_last(), n);
    }
}

/// A header is always refused where the headers, with nothing in error among them,
/// send values under very many names before the last of them.
pub proof fn law_very_many_names_are_always_refused(
    result: Result<Vec<(String, Option<u64>)>, VaryHeaderError>,
    headers: Seq<ResolvedHeader>,
    text_body: bool,
    vary: Seq<Seq<char>>,
)
    requires
        is_vary_outcome(result, headers, text_body, vary),
        vary.len() > 0,
        headers.len() > 0,
        headers_error(headers) is None,
        headers.last().value is Text,
        must_refuse(sent_names(headers.drop_last())),
    ensures
        is_refusal(result),
{
    let n = headers.len() - 1;
    assert(headers.take(n) == headers.drop_last());
    assert(must_refuse_at(headers, n));
}

/// Unless the header map refuses a header, an error comes if and only if something
/// is wrong: a header that cannot be resolved, a header to be sent with a name or
/// value that is not valid, or a vary name that cannot name a header.
pub proof fn law_error_comes_iff_something_is_wrong(
    result: Result<Vec<(String, Option<u64>)>, VaryHeaderError>,
    headers: Seq<ResolvedHeader>,
    text_body: bool,
    vary: Seq<Seq<char>>,
)
    requires
        is_vary_outcome(result, headers, text_body, vary),
        vary.len() > 0,
        !is_refusal(result),
    ensures
        result is Err <==> {
            ||| exists|i: int| 0 <= i < headers.len() && header_error(#[trigger] headers[i]) is Some
            ||| exists|i: int| 0 <= i < vary.len() && !is_header_name(#[trigger] vary[i])
        },
{
    lemma_some_header_in_error(headers);
    lemma_some_name_in_error(vary);
}

proof fn lemma_some_header_in_error(headers: Seq<ResolvedHeader>)
    ensures
        headers_error(headers) is Some <==> exists|i: int|
            0 <= i < headers.len() && header_error(#[trigger] headers[i]) is Some,
    decreases headers.len(),
{
    if headers.len() > 0 {
        let first = headers.drop_last();
        lemma_some_header_in_error(first);
        assert(forall|i: int| 0 <= i < first.len() ==> first[i] == #[trigger] headers[i]);
        if headers_error(first) is Some {
            let i = choose|i: int|
                0 <= i < first.len() && header_error(#[trigger] first[i]) is Some;
            assert(header_error(headers[i]) is Some);
        } else if header_error(headers.last()) is Some {
            assert(header_error(headers[headers.len() - 1]) is Some);
        }
    }
}

proof fn lemma_some_name_in_error(vary: Seq<Seq<char>>)
    ensures
        vary_names_error(vary) is Some <==> exists|i: int|
            0 <= i < vary.len() && !is_header_name(#[trigger] vary[i]),
    decreases vary.len(),
{
    if vary.len() > 0 {
        let first = vary.drop_last();
        lemma_some_name_in_error(first);
        assert(forall|i: int| 0 <= i < first.len() ==> first[i] == #[trigger] vary[i]);
        if vary_names_error(first) is Some {
            let i = choose|i: int| 0 <= i < first.len() && !is_header_name(#[trigger] first[i]);
            assert(!is_header_name(vary[i]));
        } else if !is_header_name(vary.last()) {
            assert(!is_header_name(vary[vary.len() - 1]));
        }
    }
}

/// The first header in error decides, whatever is wrong with later headers or with
/// vary names. Only a refusal by the header map can come before it, and then of one
/// of the headers before it.
pub proof fn law_first_header_in_error_decides(
    result: Result<Vec<(String, Option<u64>)>, VaryHeaderError>,
    headers: Seq<ResolvedHeader>,
    text_body: bool,
    vary: Seq<Seq<char>>,
    first: int,
)
    requires
        is_vary_outcome(result, headers, text_body, vary),
        vary.len() > 0,
        0 <= first < headers.len(),
        header_error(headers[first]) is Some,
        forall|i: int| 0 <= i < first ==> header_error(#[trigger] headers[i]) is None,
    ensures
        result is Err,
        !is_refusal(result) ==> Some(result->Err_0@) == header_error(headers[first]),
        is_refusal(result) ==> exists|n: int| 0 <= n < first && #[trigger] may_refuse_at(headers, n),
{
    let before = headers.take(first);
    lemma_some_header_in_error(before);
    assert(forall|i: int| 0 <= i < before.len() ==> #[trigger] before[i] == headers[i]);
    assert(headers_error(before) is None);
    lemma_error_is_first(headers, first);
    if is_refusal(result) {
        let n = choose|n: int| 0 <= n < headers.len() && #[trigger] may_refuse_at(headers, n);
        if n > first {
            lemma_some_header_in_error(headers.take(n));
            assert(header_error(headers.take(n)[first]) is Some);
        }
        assert(n < first);
    }
}

/// The entries for two vary lists in a row are those for the one and then those for
/// the other, and so is what is wrong with their names: no vary header's entry
/// depends on another vary header.
pub proof fn law_vary_lists_in_a_row(
    headers: Seq<ResolvedHeader>,
    text_body: bool,
    first: Seq<Seq<char>>,
    second: Seq<Seq<char>>,
)
    ensures
        vary_entries(headers, text_body, first + second) == vary_entries(headers, text_body, first)
            + vary_entries(headers, text_body, second),
        vary_names_error(first + second) == (match vary_names_error(first) {
            Some(error) => Some(error),
            None => vary_names_error(second),
        }),
    decreases second.len(),
{
    assert(vary_entries(headers, text_body, first + second) == vary_entries(
        headers,
        text_body,
        first,
    ) + vary_entries(headers, text_body, second));
    if second.len() == 0 {
        assert(first + second == first);
    } else {
        assert((first + second).drop_last() == first + second.drop_last());
        law_vary_lists_in_a_row(headers, text_body, first, second.drop_last());
    }
}

/// Where two vary lists each have entries, their results in a row are the result for
/// the two lists in a row, unless the header map then refuses a header.
pub proof fn law_vary_results_in_a_row(
    headers: Seq<ResolvedHeader>,
    text_body: bool,
    first: Seq<Seq<char>>,
    second: Seq<Seq<char>>,
    first_result: Result<Vec<(String, Option<u64>)>, VaryHeaderError>,
    second_result: Result<Vec<(String, Option<u64>)>, VaryHeaderError>,
    result: Result<Vec<(String, Option<u64>)>, VaryHeaderError>,
)
    requires
        is_vary_outcome(first_result, headers, text_body, first),
        is_vary_outcome(second_result, headers, text_body, second),
        is_vary_outcome(result, headers, text_body, first + second),
        first_result is Ok,
        second_result is Ok,
        !is_refusal(result),
    ensures
        result is Ok,
        result->Ok_0.deep_view() == first_result->Ok_0.deep_view()
            + second_result->Ok_0.deep_view(),
{
    law_vary_lists_in_a_row(headers, text_body, first, second);
}

/// Two calls with the same headers, kind of body and vary names agree, in their
/// entries and in their errors, unless the header map refuses a header in one.
pub proof fn law_same_headers_same_result(
    a: Result<Vec<(String, Option<u64>)>, VaryHeaderError>,
    b: Result<Vec<(String, Option<u64>)>, VaryHeaderError>,
    headers: Seq<ResolvedHeader>,
    text_body: bool,
    vary: Seq<Seq<char>>,
)
    requires
        is_vary_outcome(a, headers, text_body, vary),
        is_vary_outcome(b, headers, text_body, vary),
        !is_refusal(a),
        !is_refusal(b),
    ensures
        same_result(a, b),
{
}

/// Only the source's headers and the table's in a row count: where the one list ends
/// and the other begins is of no consequence to the entries or the errors.
pub proof fn law_only_headers_in_a_row_count(
    split: Result<Vec<(String, Option<u64>)>, VaryHeaderError>,
    all_source: Result<Vec<(String, Option<u64>)>, VaryHeaderError>,
    all_table: Result<Vec<(String, Option<u64>)>, VaryHeaderError>,
    a: Seq<ResolvedHeader>,
    b: Seq<ResolvedHeader>,
    text_body: bool,
    vary: Seq<Seq<char>>,
)
    requires
        is_vary_outcome(split, a + b, text_body, vary),
        is_vary_outcome(all_source, (a + b) + Seq::empty(), text_body, vary),
        is_vary_outcome(all_table, Seq::empty() + (a + b), text_body, vary),
        !is_refusal(split),
        !is_refusal(all_source),
        !is_refusal(all_table),
    ensures
        same_result(split, all_source),
        same_result(split, all_table),
{
    assert((a + b) + Seq::empty() == a + b);
    assert(Seq::empty() + (a + b) == a + b);
}

/// Where nothing is to vary, there are no entries, whatever the headers.
pub proof fn law_nothing_to_vary_has_no_entries(
    request_headers: &[ResolvedHeader],
    table_headers: &[ResolvedHeader],
    body: Option<&RequestBody>,
    vary_headers: &[String],
    result: Result<Vec<(String, Option<u64>)>, VaryHeaderError>,
)
    requires
        call_ensures(
            cache_vary_header_hashes,
            (request_headers, table_headers, body, vary_headers),
            result,
        ),
        vary_headers@.len() == 0,
    ensures
        result is Ok,
        result->Ok_0@.len() == 0,
{
    assert(vary_headers.deep_view().len() == 0);
    assert(result->Ok_0.deep_view().len() == result->Ok_0@.len());
}

/// There is one entry for each vary header, in their order, under its name in lower
/// case.
pub proof fn law_each_vary_header_has_its_entry(
    request_headers: &[ResolvedHeader],
    table_headers: &[ResolvedHeader],
    body: Option<&RequestBody>,
    vary_headers: &[String],
    result: Result<Vec<(String, Option<u64>)>, VaryHeaderError>,
)
    requires
        call_ensures(
            cache_vary_header_hashes,
            (request_headers, table_headers, body, vary_headers),
            result,
        ),
        result is Ok,
    ensures
        result->Ok_0@.len() == vary_headers@.len(),
        forall|i: int|
            0 <= i < vary_headers@.len() ==> (#[trigger] result->Ok_0@[i]).0@ == header_key(
                vary_headers@[i]@,
            ),
{
    let entries = result->Ok_0;
    let vary = vary_headers.deep_view();
    assert(vary.len() == vary_headers@.len() && entries.deep_view().len() == entries@.len());
    assert forall|i: int| 0 <= i < vary_headers@.len() implies (#[trigger] entries@[i]).0@
        == header_key(vary_headers@[i]@) by {
        assert(entries.deep_view()[i] == entries@[i].deep_view());
        assert(vary[i] == vary_headers@[i]@);
    }
}

/// The entry of a vary header tells the hash of all bytes of the value that is sent
/// under its name: that of the last declared header with this name and a value, of
/// the source's headers and then the table's.
pub proof fn law_entry_tells_the_value_that_is_sent(
    request_headers: &[ResolvedHeader],
    table_headers: &[ResolvedHeader],
    body: Option<&RequestBody>,
    vary_headers: &[String],
    result: Result<Vec<(String, Option<u64>)>, VaryHeaderError>,
    i: int,
    at: int,
)
    requires
        call_ensures(
            cache_vary_header_hashes,
            (request_headers, table_headers, body, vary_headers),
            result,
        ),
        result is Ok,
        0 <= i < vary_headers@.len(),
        0 <= at < request_headers@.len() + table_headers@.len(),
        (request_headers@ + table_headers@)[at].value is Text,
        header_key((request_headers@ + table_headers@)[at].name@) == header_key(
            vary_headers@[i]@,
        ),
        forall|j: int|
            at < j < request_headers@.len() + table_headers@.len() ==> !((
            #[trigger] (request_headers@ + table_headers@)[j]).value is Text && header_key(
                (request_headers@ + table_headers@)[j].name@,
            ) == header_key(vary_headers@[i]@)),
    ensures
        result->Ok_0@[i].1 == Some(
            DefaultHasher::spec_finish(
                slice_writes(encode_utf8((request_headers@ + table_headers@)[at].value->Text_0@)),
            ),
        ),
{
    let headers = request_headers@ + table_headers@;
    let entries = result->Ok_0;
    let vary = vary_headers.deep_view();
    lemma_last_value_is_sent(headers, header_key(vary_headers@[i]@), at);
    law_each_vary_header_has_its_entry(
        request_headers,
        table_headers,
        body,
        vary_headers,
        result,
    );
    assert(entries.deep_view()[i] == entries@[i].deep_view());
    assert(vary[i] == vary_headers@[i]@);
    law_named_hash_is_of_all_bytes(encode_utf8(headers[at].value->Text_0@));
}

/// Where no declared header sends a value under a vary header's name, its entry has
/// none, unless it is the content type of a text body: that is plain text.
pub proof fn law_entry_of_a_header_that_is_not_sent(
    request_headers: &[ResolvedHeader],
    table_headers: &[ResolvedHeader],
    body: Option<&RequestBody>,
    vary_headers: &[String],
    result: Result<Vec<(String, Option<u64>)>, VaryHeaderError>,
    i: int,
)
    requires
        call_ensures(
            cache_vary_header_hashes,
            (request_headers, table_headers, body, vary_headers),
            result,
        ),
        result is Ok,
        0 <= i < vary_headers@.len(),
        forall|j: int|
            0 <= j < request_headers@.len() + table_headers@.len() ==> !((
            #[trigger] (request_headers@ + table_headers@)[j]).value is Text && header_key(
                (request_headers@ + table_headers@)[j].name@,
            ) == header_key(vary_headers@[i]@)),
    ensures
        (body matches Some(RequestBody::Text(_))) && header_key(vary_headers@[i]@)
            == "content-type"@ ==> result->Ok_0@[i].1 == Some(
            DefaultHasher::spec_finish(slice_writes(encode_utf8("text/plain"@))),
        ),
        !((body matches Some(RequestBody::Text(_))) && header_key(vary_headers@[i]@)
            == "content-type"@) ==> result->Ok_0@[i].1 is None,
{
    let headers = request_headers@ + table_headers@;
    let entries = result->Ok_0;
    let vary = vary_headers.deep_view();
    lemma_nothing_is_sent(headers, header_key(vary_headers@[i]@));
    law_each_vary_header_has_its_entry(
        request_headers,
        table_headers,
        body,
        vary_headers,
        result,
    );
    assert(entries.deep_view()[i] == entries@[i].deep_view());
    assert(vary[i] == vary_headers@[i]@);
    law_named_hash_is_of_all_bytes(encode_utf8("text/plain"@));
}

proof fn lemma_last_value_is_sent(headers: Seq<ResolvedHeader>, key: Seq<char>, at: int)
    requires
        0 <= at < headers.len(),
        headers[at].value is Text,
        header_key(headers[at].name@) == key,
        forall|j: int|
            at < j < headers.len() ==> !((#[trigger] headers[j]).value is Text && header_key(
                headers[j].name@,
            ) == key),
    ensures
        sent_value(headers, key) == Some(headers[at].value->Text_0@),
    decreases headers.len(),
{
    if at < headers.len() - 1 {
        let first = headers.drop_last();
        assert(!(headers[headers.len() - 1].value is Text && header_key(
            headers[headers.len() - 1].name@,
        ) == key));
        assert forall|j: int| at < j < first.len() implies !((#[trigger] first[j]).value is Text
            && header_key(first[j].name@) == key) by {
            assert(first[j] == headers[j]);
        }
        lemma_last_value_is_sent(first, key, at);
    }
}

proof fn lemma_nothing_is_sent(headers: Seq<ResolvedHeader>, key: Seq<char>)
    requires
        forall|j: int|
            0 <= j < headers.len() ==> !((#[trigger] headers[j]).value is Text && header_key(
                headers[j].name@,
            ) == key),
    ensures
        sent_value(headers, key) is None,
    decreases headers.len(),
{
    if headers.len() > 0 {
        let first = headers.drop_last();
        assert(!(headers[headers.len() - 1].value is Text && header_key(
            headers[headers.len() - 1].name@,
        ) == key));
        assert forall|j: int| 0 <= j < first.len() implies !((#[trigger] first[j]).value is Text
            && header_key(first[j].name@) == key) by {
            assert(first[j] == headers[j]);
        }
        lemma_nothing_is_sent(first, key);
    }
}

/// Requests that send different values under a vary header are told apart as far as
/// hashes of all their bytes tell values apart: where the entries of two requests are
/// equal, so are the hashes of the values that are sent.
pub proof fn law_equal_entries_mean_equal_hashes(
    request_headers_a: &[ResolvedHeader],
    table_headers_a: &[ResolvedHeader],
    body_a: Option<&RequestBody>,
    result_a: Result<Vec<(String, Option<u64>)>, VaryHeaderError>,
    at_a: int,
    request_headers_b: &[ResolvedHeader],
    table_headers_b: &[ResolvedHeader],
    body_b: Option<&RequestBody>,
    result_b: Result<Vec<(String, Option<u64>)>, VaryHeaderError>,
    at_b: int,
    vary_headers: &[String],
    i: int,
)
    requires
        call_ensures(
            cache_vary_header_hashes,
            (request_headers_a, table_headers_a, body_a, vary_headers),
            result_a,
        ),
        call_ensures(
            cache_vary_header_hashes,
            (request_headers_b, table_headers_b, body_b, vary_headers),
            result_b,
        ),
        result_a is Ok,
        result_b is Ok,
        result_a->Ok_0.deep_view() == result_b->Ok_0.deep_view(),
        0 <= i < vary_headers@.len(),
        is_last_sent(request_headers_a@ + table_headers_a@, vary_headers@[i]@, at_a),
        is_last_sent(request_headers_b@ + table_headers_b@, vary_headers@[i]@, at_b),
    ensures
        DefaultHasher::spec_finish(
            slice_writes(encode_utf8((request_headers_a@ + table_headers_a@)[at_a].value->Text_0@)),
        ) == DefaultHasher::spec_finish(
            slice_writes(encode_utf8((request_headers_b@ + table_headers_b@)[at_b].value->Text_0@)),
        ),
{
    law_entry_tells_the_value_that_is_sent(
        request_headers_a,
        table_headers_a,
        body_a,
        vary_headers,
        result_a,
        i,
        at_a,
    );
    law_entry_tells_the_value_that_is_sent(
        request_headers_b,
        table_headers_b,
        body_b,
        vary_headers,
        result_b,
        i,
        at_b,
    );
    law_each_vary_header_has_its_entry(
        request_headers_a,
        table_headers_a,
        body_a,
        vary_headers,
        result_a,
    );
    law_each_vary_header_has_its_entry(
        request_headers_b,
        table_headers_b,
        body_b,
        vary_headers,
        result_b,
    );
    assert(result_a->Ok_0.deep_view()[i] == result_a->Ok_0@[i].deep_view());
    assert(result_b->Ok_0.deep_view()[i] == result_b->Ok_0@[i].deep_view());
}

/// The header at `at` has this name and a value, and none after it has.
pub open spec fn is_last_sent(headers: Seq<ResolvedHeader>, name: Seq<char>, at: int) -> bool {
    &&& 0 <= at < headers.len()
    &&& headers[at].value is Text
    &&& header_key(headers[at].name@) == header_key(name)
    &&& forall|j: int|
        at < j < headers.len() ==> !((#[trigger] headers[j]).value is Text && header_key(
            headers[j].name@,
        ) == header_key(name))
}

/// A request that sends a value under a vary header is told from one that declares
/// none under it and has no text body.
pub proof fn law_sent_and_not_sent_are_told_apart(
    request_headers_a: &[ResolvedHeader],
    table_headers_a: &[ResolvedHeader],
    body_a: Option<&RequestBody>,
    result_a: Result<Vec<(String, Option<u64>)>, VaryHeaderError>,
    at_a: int,
    request_headers_b: &[ResolvedHeader],
    table_headers_b: &[ResolvedHeader],
    body_b: Option<&RequestBody>,
    result_b: Result<Vec<(String, Option<u64>)>, VaryHeaderError>,
    vary_headers: &[String],
    i: int,
)
    requires
        call_ensures(
            cache_vary_header_hashes,
            (request_headers_a, table_headers_a, body_a, vary_headers),
            result_a,
        ),
        call_ensures(
            cache_vary_header_hashes,
            (request_headers_b, table_headers_b, body_b, vary_headers),
            result_b,
        ),
        result_a is Ok,
        result_b is Ok,
        0 <= i < vary_headers@.len(),
        is_last_sent(request_headers_a@ + table_headers_a@, vary_headers@[i]@, at_a),
        !(body_b matches Some(RequestBody::Text(_))),
        forall|j: int|
            0 <= j < request_headers_b@.len() + table_headers_b@.len() ==> !((
            #[trigger] (request_headers_b@ + table_headers_b@)[j]).value is Text && header_key(
                (request_headers_b@ + table_headers_b@)[j].name@,
            ) == header_key(vary_headers@[i]@)),
    ensures
        result_a->Ok_0@[i] != result_b->Ok_0@[i],
{
    law_entry_tells_the_value_that_is_sent(
        request_headers_a,
        table_headers_a,
        body_a,
        vary_headers,
        result_a,
        i,
        at_a,
    );
    law_entry_of_a_header_that_is_not_sent(
        request_headers_b,
        table_headers_b,
        body_b,
        vary_headers,
        result_b,
        i,
    );
}

/// The first header with which something is wrong is reported, before any later
/// header and any vary name: one that cannot be resolved, or one to be sent whose name
/// or else whose value is not valid. With fewer than 6554 headers before it, no
/// refusal by the header map can come first.
pub proof fn law_first_wrong_header_is_reported(
    request_headers: &[ResolvedHeader],
    table_headers: &[ResolvedHeader],
    body: Option<&RequestBody>,
    vary_headers: &[String],
    result: Result<Vec<(String, Option<u64>)>, VaryHeaderError>,
    first: int,
)
    requires
        call_ensures(
            cache_vary_header_hashes,
            (request_headers, table_headers, body, vary_headers),
            result,
        ),
        vary_headers@.len() > 0,
        0 <= first < request_headers@.len() + table_headers@.len(),
        forall|j: int|
            0 <= j < first ==> match (#[trigger] (request_headers@ + table_headers@)[j]).value {
                ResolvedValue::Absent => true,
                ResolvedValue::Unresolved => false,
                ResolvedValue::Text(text) => is_header_name(
                    (request_headers@ + table_headers@)[j].name@,
                ) && is_header_value(text@),
            },
        match (request_headers@ + table_headers@)[first].value {
            ResolvedValue::Absent => false,
            ResolvedValue::Unresolved => true,
            ResolvedValue::Text(text) => !is_header_name(
                (request_headers@ + table_headers@)[first].name@,
            ) || !is_header_value(text@),
        },
    ensures
        result is Err,
        first < 6554 ==> !(result matches Err(VaryHeaderError::TooManyHeaders)),
        result matches Err(VaryHeaderError::TooManyHeaders) || match (request_headers@
            + table_headers@)[first].value {
            ResolvedValue::Absent => false,
            ResolvedValue::Unresolved => result matches Err(VaryHeaderError::Unresolved),
            ResolvedValue::Text(text) => result matches Err(VaryHeaderError::Execution { detail })
                && detail@ == (if !is_header_name((request_headers@ + table_headers@)[first].name@) {
                "invalid request header name '"@ + (request_headers@ + table_headers@)[first].name@
                    + "': "@ + "invalid HTTP header name"@
            } else {
                "invalid request header value for '"@ + (request_headers@
                    + table_headers@)[first].name@ + "': "@ + "failed to parse header value"@
            }),
        },
{
    let headers = request_headers@ + table_headers@;
    assert(forall|j: int| 0 <= j < first ==> header_error(#[trigger] headers[j]) is None);
    law_first_header_in_error_decides(
        result,
        headers,
        body is Some && *body->0 is Text,
        vary_headers.deep_view(),
        first,
    );
    if result matches Err(VaryHeaderError::TooManyHeaders) {
        let n = choose|n: int| 0 <= n < first && #[trigger] may_refuse_at(headers, n);
        lemma_names_are_no_more_than_headers(headers.take(n));
    }
}

proof fn lemma_names_are_no_more_than_headers(headers: Seq<ResolvedHeader>)
    ensures
        sent_names(headers).finite(),
        sent_names(headers).len() <= headers.len(),
    decreases headers.len(),
{
    if headers.len() > 0 {
        lemma_names_are_no_more_than_headers(headers.drop_last());
    }
}

/// Where nothing is wrong with the headers, the first vary name that cannot name a
/// header is reported, and if there is none, there are entries. Otherwise the header
/// map refused a header.
pub proof fn law_first_wrong_vary_name_is_reported(
    request_headers: &[ResolvedHeader],
    table_headers: &[ResolvedHeader],
    body: Option<&RequestBody>,
    vary_headers: &[String],
    result: Result<Vec<(String, Option<u64>)>, VaryHeaderError>,
)
    requires
        call_ensures(
            cache_vary_header_hashes,
            (request_headers, table_headers, body, vary_headers),
            result,
        ),
        forall|j: int|
            0 <= j < request_headers@.len() + table_headers@.len() ==> match (
            #[trigger] (request_headers@ + table_headers@)[j]).value {
                ResolvedValue::Absent => true,
                ResolvedValue::Unresolved => false,
                ResolvedValue::Text(text) => is_header_name(
                    (request_headers@ + table_headers@)[j].name@,
                ) && is_header_value(text@),
            },
        !(result matches Err(VaryHeaderError::TooManyHeaders)),
    ensures
        result is Ok <==> forall|k: int|
            0 <= k < vary_headers@.len() ==> is_header_name((#[trigger] vary_headers@[k])@),
        forall|k: int|
            #![trigger vary_headers@[k]]
            0 <= k < vary_headers@.len() && !is_header_name(vary_headers@[k]@) && (forall|m: int|
                0 <= m < k ==> is_header_name((#[trigger] vary_headers@[m])@)) ==> (
            result matches Err(VaryHeaderError::Execution { detail }) && detail@
                == "invalid cache vary header name '"@ + vary_headers@[k]@ + "': "@
                + "invalid HTTP header name"@),
{
    let headers = request_headers@ + table_headers@;
    let vary = vary_headers.deep_view();
    assert(vary.len() == vary_headers@.len());
    assert(forall|k: int| 0 <= k < vary.len() ==> #[trigger] vary[k] == vary_headers@[k]@);
    assert(forall|j: int| 0 <= j < headers.len() ==> header_error(#[trigger] headers[j]) is None);
    lemma_some_header_in_error(headers);
    lemma_some_name_in_error(vary);
    if forall|k: int|
        0 <= k < vary_headers@.len() ==> is_header_name((#[trigger] vary_headers@[k])@) {
        assert(forall|k: int| 0 <= k < vary.len() ==> is_header_name(#[trigger] vary[k]));
    } else {
        let k = choose|k: int|
            0 <= k < vary_headers@.len() && !is_header_name((#[trigger] vary_headers@[k])@);
        assert(!is_header_name(vary[k]));
    }
    assert forall|k: int|
        #![trigger vary_headers@[k]]
        0 <= k < vary_headers@.len() && !is_header_name(vary_headers@[k]@) && (forall|m: int|
            0 <= m < k ==> is_header_name((#[trigger] vary_headers@[m])@)) implies (
    result matches Err(VaryHeaderError::Execution { detail }) && detail@
        == "invalid cache vary header name '"@ + vary_headers@[k]@ + "': "@
        + "invalid HTTP header name"@) by {
        let before = vary.take(k);
        assert forall|m: int| 0 <= m < before.len() implies is_header_name(#[trigger] before[m]) by {
            assert(before[m] == vary_headers@[m]@);
        }
        lemma_some_name_in_error(before);
        assert(vary.take(k + 1).drop_last() == before);
        assert(vary.take(k + 1).last() == vary_headers@[k]@);
        lemma_first_name_error_stays(vary, k + 1);
        assert(vary_names_error(vary) == Some(vary_name_error(vary_headers@[k]@)));
    }
}

/// The header map refuses nothing where all names under which values are sent are
/// among fewer than 6554, however often each is declared.
pub proof fn law_nothing_is_refused_with_few_names(
    request_headers: &[ResolvedHeader],
    table_headers: &[ResolvedHeader],
    body: Option<&RequestBody>,
    vary_headers: &[String],
    result: Result<Vec<(String, Option<u64>)>, VaryHeaderError>,
    names: Set<Seq<char>>,
)
    requires
        call_ensures(
            cache_vary_header_hashes,
            (request_headers, table_headers, body, vary_headers),
            result,
        ),
        names.finite(),
        names.len() < 6554,
        forall|j: int|
            0 <= j < request_headers@.len() + table_headers@.len() && (
            #[trigger] (request_headers@ + table_headers@)[j]).value is Text ==> names.contains(
                header_key((request_headers@ + table_headers@)[j].name@),
            ),
    ensures
        !(result matches Err(VaryHeaderError::TooManyHeaders)),
{
    lemma_few_names_are_never_refused(
        result,
        request_headers@ + table_headers@,
        body is Some && *body->0 is Text,
        vary_headers.deep_view(),
        names,
    );
}

/// No outcome is a refusal where all names under which values are sent are among few.
pub(crate) proof fn lemma_few_names_are_never_refused(
    result: Result<Vec<(String, Option<u64>)>, VaryHeaderError>,
    headers: Seq<ResolvedHeader>,
    text_body: bool,
    vary: Seq<Seq<char>>,
    names: Set<Seq<char>>,
)
    requires
        is_vary_outcome(result, headers, text_body, vary),
        names.finite(),
        names.len() < 6554,
        forall|j: int|
            0 <= j < headers.len() && (#[trigger] headers[j]).value is Text ==> names.contains(
                header_key(headers[j].name@),
            ),
    ensures
        !(result matches Err(VaryHeaderError::TooManyHeaders)),
{
    lemma_names_are_those_sent(headers);
    lemma_names_are_no_more_than_headers(headers);
    assert(sent_names(headers).subset_of(names));
    vstd::set_lib::lemma_len_subset(sent_names(headers), names);
    law_few_names_are_never_refused(result, headers, text_body, vary);
}

proof fn lemma_names_are_those_sent(headers: Seq<ResolvedHeader>)
    ensures
        forall|name: Seq<char>| #[trigger]
            sent_names(headers).contains(name) <==> exists|j: int|
                0 <= j < headers.len() && (#[trigger] headers[j]).value is Text && header_key(
                    headers[j].name@,
                ) == name,
    decreases headers.len(),
{
    if headers.len() > 0 {
        let first = headers.drop_last();
        lemma_names_are_those_sent(first);
        assert forall|name: Seq<char>| #[trigger]
            sent_names(headers).contains(name) <==> exists|j: int|
                0 <= j < headers.len() && (#[trigger] headers[j]).value is Text && header_key(
                    headers[j].name@,
                ) == name by {
            if sent_names(first).contains(name) {
                let j = choose|j: int|
                    0 <= j < first.len() && (#[trigger] first[j]).value is Text && header_key(
                        first[j].name@,
                    ) == name;
                assert(headers[j] == first[j]);
            }
            if exists|j: int|
                0 <= j < headers.len() && (#[trigger] headers[j]).value is Text && header_key(
                    headers[j].name@,
                ) == name {
                let j = choose|j: int|
                    0 <= j < headers.len() && (#[trigger] headers[j]).value is Text && header_key(
                        headers[j].name@,
                    ) == name;
                if j < first.len() {
                    assert(first[j] == headers[j]);
                }
            } else {
                assert(!(headers[headers.len() - 1].value is Text && header_key(
                    headers[headers.len() - 1].name@,
                ) == name));
            }
        }
    }
}

/// The header map refuses a header that comes after headers with nothing wrong among
/// them that send values under 24576 names or more.
pub proof fn law_header_after_very_many_names_is_refused(
    request_headers: &[ResolvedHeader],
    table_headers: &[ResolvedHeader],
    body: Option<&RequestBody>,
    vary_headers: &[String],
    result: Result<Vec<(String, Option<u64>)>, VaryHeaderError>,
    names: Set<Seq<char>>,
    at: int,
)
    requires
        call_ensures(
            cache_vary_header_hashes,
            (request_headers, table_headers, body, vary_headers),
            result,
        ),
        vary_headers@.len() > 0,
        names.finite(),
        names.len() >= 24576,
        0 <= at < request_headers@.len() + table_headers@.len(),
        (request_headers@ + table_headers@)[at].value is Text,
        forall|j: int|
            0 <= j <= at ==> match (#[trigger] (request_headers@ + table_headers@)[j]).value {
                ResolvedValue::Absent => true,
                ResolvedValue::Unresolved => false,
                ResolvedValue::Text(text) => is_header_name(
                    (request_headers@ + table_headers@)[j].name@,
                ) && is_header_value(text@),
            },
        forall|name: Seq<char>| #[trigger]
            names.contains(name) ==> exists|j: int|
                0 <= j < at && (#[trigger] (request_headers@ + table_headers@)[j]).value is Text
                    && header_key((request_headers@ + table_headers@)[j].name@) == name,
    ensures
        result matches Err(VaryHeaderError::TooManyHeaders),
{
    let headers = request_headers@ + table_headers@;
    let before = headers.take(at);
    lemma_names_are_those_sent(before);
    lemma_names_are_no_more_than_headers(before);
    assert forall|name: Seq<char>| #[trigger] names.contains(name) implies sent_names(
        before,
    ).contains(name) by {
        let j = choose|j: int|
            0 <= j < at && (#[trigger] headers[j]).value is Text && header_key(headers[j].name@)
                == name;
        assert(before[j] == headers[j]);
    }
    assert(names.subset_of(sent_names(before)));
    vstd::set_lib::lemma_len_subset(names, sent_names(before));
    assert forall|j: int| 0 <= j < before.len() implies header_error(#[trigger] before[j])
        is None by {
        assert(before[j] == headers[j]);
    }
    lemma_some_header_in_error(before);
    assert(must_refuse_at(headers, at));
}

} // verus!
