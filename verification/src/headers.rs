//! HTTP header names and values, and the map that a request's headers are
//! collected in.

use reqwest::header::{
    HeaderMap, HeaderName, HeaderValue, InvalidHeaderName, InvalidHeaderValue, MaxSizeReached,
};
use vstd::prelude::*;
use vstd::utf8::encode_utf8;

verus! {

/// The characters that a header name may hold.
pub open spec fn is_name_char(c: char) -> bool {
    ||| 'a' <= c <= 'z'
    ||| 'A' <= c <= 'Z'
    ||| '0' <= c <= '9'
    ||| c == '!' || c == '#' || c == '$' || c == '%' || c == '&' || c == '\''
    ||| c == '*' || c == '+' || c == '-' || c == '.'
    ||| c == '^' || c == '_' || c == '`' || c == '|' || c == '~'
}

/// `name` can name a header.
pub open spec fn is_header_name(name: Seq<char>) -> bool {
    &&& 1 <= name.len() <= 65535
    &&& forall|i: int| 0 <= i < name.len() ==> is_name_char(#[trigger] name[i])
}

pub open spec fn lower(c: char) -> char {
    if 'A' <= c <= 'Z' {
        ((c as u32) + 32) as char
    } else {
        c
    }
}

/// A header name with its ASCII letters in lower case: what header names are
/// compared by.
pub open spec fn header_key(name: Seq<char>) -> Seq<char> {
    name.map_values(|c: char| lower(c))
}

/// `value` can be a header's value: it holds no ASCII control character but
/// the tab.
pub open spec fn is_header_value(value: Seq<char>) -> bool {
    forall|i: int|
        0 <= i < value.len() ==> {
            let code = #[trigger] value[i] as u32;
            (code >= 32 && code != 127) || code == 9
        }
}

/// The text of the error for a string that cannot name a header.
pub open spec fn invalid_name_text() -> Seq<char> {
    "invalid HTTP header name"@
}

/// The text of the error for a string that cannot be a header's value.
pub open spec fn invalid_value_text() -> Seq<char> {
    "failed to parse header value"@
}

/// `InvalidHeaderName`, of which only the text is read.
#[verifier::external_type_specification]
#[verifier::external_body]
pub struct ExInvalidHeaderName(InvalidHeaderName);

/// `InvalidHeaderValue`, of which only the text is read.
#[verifier::external_type_specification]
#[verifier::external_body]
pub struct ExInvalidHeaderValue(InvalidHeaderValue);

/// `MaxSizeReached`, of which nothing is read.
#[verifier::external_type_specification]
#[verifier::external_body]
pub struct ExMaxSizeReached(MaxSizeReached);

/// `HeaderValue`, which stands only in the type of a header map.
#[verifier::external_type_specification]
#[verifier::external_body]
pub struct ExHeaderValue(HeaderValue);

/// `HeaderMap`. What it holds is told by `header_entries`.
#[verifier::external_type_specification]
#[verifier::external_body]
#[verifier::reject_recursive_types(T)]
pub struct ExHeaderMap<T>(HeaderMap<T>);

/// What a header map holds: under each lower-case name, the bytes of the first
/// value.
pub uninterp spec fn header_entries(headers: HeaderMap) -> Map<Seq<char>, Seq<u8>>;

/// Calls `HeaderName::try_from` and hands out the name as text. The contract claims
/// that it accepts names of 1 to 65535 token characters and no other string, and
/// puts their letters in lower case.
#[verifier::external_body]
pub(crate) fn parse_header_name(name: &str) -> (parsed: Result<String, InvalidHeaderName>)
    ensures
        parsed is Ok <==> is_header_name(name@),
        parsed is Ok ==> parsed->Ok_0@ == header_key(name@),
{
    HeaderName::try_from(name).map(|name| name.as_str().to_string())
}

/// Calls `HeaderValue::try_from` to see whether it accepts a text. The contract
/// claims that it refuses ASCII control characters other than the tab and nothing
/// else.
#[verifier::external_body]
pub(crate) fn check_header_value(value: &str) -> (checked: Result<(), InvalidHeaderValue>)
    ensures
        checked is Ok <==> is_header_value(value@),
{
    HeaderValue::try_from(value).map(|_| ())
}

/// Calls `to_string` of an `InvalidHeaderName`. The contract claims that its text
/// is always the same.
#[verifier::external_body]
pub(crate) fn name_error_text(error: &InvalidHeaderName) -> (text: String)
    ensures
        text@ == invalid_name_text(),
{
    error.to_string()
}

/// Calls `to_string` of an `InvalidHeaderValue`. The contract claims that its text
/// is always the same.
#[verifier::external_body]
pub(crate) fn value_error_text(error: &InvalidHeaderValue) -> (text: String)
    ensures
        text@ == invalid_value_text(),
{
    error.to_string()
}

/// Calls `HeaderMap::new`. The contract claims that the map is empty.
#[verifier::external_body]
pub(crate) fn new_header_map() -> (headers: HeaderMap)
    ensures
        header_entries(headers) == (Map::<Seq<char>, Seq<u8>>::empty()),
{
    HeaderMap::new()
}

/// Calls `HeaderMap::try_insert`. The contract claims that it makes the value the
/// only one under the name and leaves other names alone, or, where it fails,
/// changes nothing; that it does not fail while the map holds less than a fifth of
/// 32768 names; and that it always fails once the map holds three quarters of 32768
/// names. Between the two, whether it fails depends on how the names hash, and is
/// not stated.
#[verifier::external_body]
pub(crate) fn insert_header(headers: &mut HeaderMap, name: &str, value: &str) -> (inserted: Result<
    (),
    MaxSizeReached,
>)
    requires
        is_header_name(name@),
        is_header_value(value@),
    ensures
        inserted is Ok ==> header_entries(*final(headers)) == header_entries(*old(headers)).insert(
            header_key(name@),
            encode_utf8(value@),
        ),
        inserted is Err ==> header_entries(*final(headers)) == header_entries(*old(headers)),
        header_entries(*old(headers)).len() * 5 < 32768 ==> inserted is Ok,
        header_entries(*old(headers)).len() * 4 >= 32768 * 3 ==> inserted is Err,
{
    let name = HeaderName::try_from(name).unwrap();
    let value = HeaderValue::try_from(value).unwrap();
    headers.try_insert(name, value).map(|_| ())
}

/// Calls `HeaderMap::contains_key`. The contract claims that it finds a name
/// whatever the case of its letters.
#[verifier::external_body]
pub(crate) fn has_header(headers: &HeaderMap, name: &str) -> (found: bool)
    requires
        is_header_name(name@),
    ensures
        found == header_entries(*headers).contains_key(header_key(name@)),
{
    headers.contains_key(name)
}

/// Calls `HeaderMap::get`. The contract claims that it returns the first value
/// under the name, whatever the case of its letters.
#[verifier::external_body]
pub(crate) fn header_bytes<'a>(headers: &'a HeaderMap, name: &str) -> (value: Option<&'a [u8]>)
    requires
        is_header_name(name@),
    ensures
        value is Some <==> header_entries(*headers).contains_key(header_key(name@)),
        value is Some ==> value->0@ == header_entries(*headers)[header_key(name@)],
{
    headers.get(name).map(|value| value.as_bytes())
}

/// Header names are compared by their characters, one by one, with `A` to `Z` taken
/// for `a` to `z`.
pub proof fn law_names_are_compared_by_all_characters(a: Seq<char>, b: Seq<char>)
    ensures
        header_key(a).len() == a.len(),
        forall|i: int|
            0 <= i < a.len() && !('A' <= a[i] <= 'Z') ==> #[trigger] header_key(a)[i] == a[i],
        forall|i: int|
            0 <= i < a.len() && 'A' <= a[i] <= 'Z' ==> #[trigger] header_key(a)[i] as u32 == a[i]
                as u32 + 32,
        header_key(a) == header_key(b) ==> a.len() == b.len(),
        header_key(a) == header_key(b) ==> forall|i: int|
            0 <= i < a.len() && !('A' <= #[trigger] a[i] <= 'Z') && !('A' <= b[i] <= 'Z') ==> a[i]
                == b[i],
{
    assert(header_key(a).len() == a.len() && header_key(b).len() == b.len());
    if header_key(a) == header_key(b) {
        assert forall|i: int|
            0 <= i < a.len() && !('A' <= #[trigger] a[i] <= 'Z') && !('A' <= b[i]
                <= 'Z') implies a[i] == b[i] by {
            assert(header_key(a)[i] == header_key(b)[i]);
        }
    }
}

} // verus!
