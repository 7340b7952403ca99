use paged_fetch::hash::hash_cache_bytes;
use paged_fetch::request::RequestBody;
use paged_fetch::vary::{
    cache_vary_header_hashes, ResolvedHeader, ResolvedValue, VaryHeaderError,
};

fn header(name: &str, value: &str) -> ResolvedHeader {
    ResolvedHeader { name: name.to_string(), value: ResolvedValue::Text(value.to_string()) }
}

fn absent(name: &str) -> ResolvedHeader {
    ResolvedHeader { name: name.to_string(), value: ResolvedValue::Absent }
}

fn unresolved(name: &str) -> ResolvedHeader {
    ResolvedHeader { name: name.to_string(), value: ResolvedValue::Unresolved }
}

fn names(vary: &[&str]) -> Vec<String> {
    vary.iter().map(|name| name.to_string()).collect()
}

fn entry(name: &str, value: Option<&str>) -> (String, Option<u64>) {
    (name.to_string(), value.map(|value| hash_cache_bytes(value.as_bytes())))
}

fn detail(result: Result<Vec<(String, Option<u64>)>, VaryHeaderError>) -> String {
    match result {
        Err(VaryHeaderError::Execution { detail }) => detail,
        _ => panic!("expected an execution error"),
    }
}

#[test]
fn nothing_to_vary_looks_at_no_header() {
    let headers = [unresolved("x"), header("bad name", "v")];
    let entries = cache_vary_header_hashes(&headers, &headers, None, &[]).unwrap();
    assert!(entries.is_empty());
}

#[test]
fn entries_keep_order_and_lower_the_names() {
    let source = [header("X-Tenant", "acme"), header("Accept", "application/json")];
    let entries =
        cache_vary_header_hashes(&source, &[], None, &names(&["ACCEPT", "x-Tenant", "X-None"]))
            .unwrap();
    assert_eq!(
        entries,
        vec![
            entry("accept", Some("application/json")),
            entry("x-tenant", Some("acme")),
            entry("x-none", None),
        ]
    );
}

#[test]
fn known_value_hash() {
    let entries =
        cache_vary_header_hashes(&[header("a", "abc")], &[], None, &names(&["A"])).unwrap();
    if usize::BITS == 64 && 1u16.to_ne_bytes() == 1u16.to_le_bytes() {
        assert_eq!(entries, vec![("a".to_string(), Some(0x4aa3e4b34416e6c9u64))]);
    }
}

#[test]
fn table_headers_take_precedence() {
    let source = [header("X-Mode", "source")];
    let table = [header("x-mode", "table")];
    let entries = cache_vary_header_hashes(&source, &table, None, &names(&["X-Mode"])).unwrap();
    assert_eq!(entries, vec![entry("x-mode", Some("table"))]);
}

#[test]
fn absent_table_header_leaves_the_source_header() {
    let source = [header("X-Mode", "source")];
    let table = [absent("x-mode"), absent("not a name")];
    let entries = cache_vary_header_hashes(&source, &table, None, &names(&["X-Mode"])).unwrap();
    assert_eq!(entries, vec![entry("x-mode", Some("source"))]);
}

#[test]
fn unlisted_headers_have_no_part() {
    let vary = names(&["a"]);
    let with = [header("a", "1"), header("b", "2")];
    let without = [header("a", "1")];
    assert_eq!(
        cache_vary_header_hashes(&with, &[], None, &vary).unwrap(),
        cache_vary_header_hashes(&without, &[], None, &vary).unwrap()
    );
}

#[test]
fn text_body_is_plain_text_by_default() {
    let body = RequestBody::Text("q".to_string());
    let entries =
        cache_vary_header_hashes(&[], &[], Some(&body), &names(&["Content-Type"])).unwrap();
    assert_eq!(entries, vec![entry("content-type", Some("text/plain"))]);
}

#[test]
fn declared_content_type_is_kept() {
    let body = RequestBody::Text("q".to_string());
    let table = [header("CONTENT-TYPE", "text/csv")];
    let entries =
        cache_vary_header_hashes(&[], &table, Some(&body), &names(&["content-type"])).unwrap();
    assert_eq!(entries, vec![entry("content-type", Some("text/csv"))]);
}

#[test]
fn json_body_and_no_body_have_no_default_content_type() {
    let json = RequestBody::Json(serde_json::Value::Null);
    let vary = names(&["content-type"]);
    let expected = vec![entry("content-type", None)];
    assert_eq!(cache_vary_header_hashes(&[], &[], Some(&json), &vary).unwrap(), expected);
    assert_eq!(cache_vary_header_hashes(&[], &[], None, &vary).unwrap(), expected);
}

#[test]
fn invalid_header_name() {
    for name in ["bad name", "", "gr\u{f6}\u{df}e", "a:b", "\"quoted\""] {
        let result = cache_vary_header_hashes(&[header(name, "v")], &[], None, &names(&["a"]));
        assert_eq!(
            detail(result),
            format!("invalid request header name '{}': invalid HTTP header name", name)
        );
    }
}

#[test]
fn header_name_length_bound() {
    let longest = "N".repeat(65535);
    let entries =
        cache_vary_header_hashes(&[header(&longest, "v")], &[], None, &names(&[&longest])).unwrap();
    assert_eq!(entries, vec![entry(&"n".repeat(65535), Some("v"))]);
    let too_long = "n".repeat(65536);
    let result = cache_vary_header_hashes(&[header(&too_long, "v")], &[], None, &names(&["a"]));
    assert!(detail(result).ends_with("invalid HTTP header name"));
}

#[test]
fn all_name_characters() {
    let name = "!#$%&'*+-.^_`|~09azAZ";
    let entries =
        cache_vary_header_hashes(&[header(name, "v")], &[], None, &names(&[name])).unwrap();
    assert_eq!(entries, vec![entry("!#$%&'*+-.^_`|~09azaz", Some("v"))]);
}

#[test]
fn every_other_ascii_character_is_no_name() {
    let allowed = "!#$%&'*+-.^_`|~";
    for code in 0u8..128 {
        let c = char::from(code);
        let name = c.to_string();
        let result = cache_vary_header_hashes(&[], &[], None, &names(&[&name]));
        assert_eq!(result.is_ok(), c.is_ascii_alphanumeric() || allowed.contains(c));
    }
}

#[test]
fn invalid_header_value() {
    for value in ["a\nb", "\u{7f}", "\u{0}", "\r"] {
        let result = cache_vary_header_hashes(&[header("X-A", value)], &[], None, &names(&["a"]));
        assert_eq!(
            detail(result),
            "invalid request header value for 'X-A': failed to parse header value"
        );
    }
}

#[test]
fn valid_header_values() {
    for value in ["", "a\tb", " ~", "gr\u{f6}\u{df}e", "\u{80}"] {
        let entries =
            cache_vary_header_hashes(&[header("a", value)], &[], None, &names(&["a"])).unwrap();
        assert_eq!(entries, vec![entry("a", Some(value))]);
    }
}

#[test]
fn invalid_vary_name() {
    let result = cache_vary_header_hashes(&[header("a", "1")], &[], None, &names(&["a", "b c"]));
    assert_eq!(detail(result), "invalid cache vary header name 'b c': invalid HTTP header name");
}

#[test]
fn first_error_counts() {
    let vary = names(&["b c"]);
    let source = [header("a", "1"), unresolved("u")];
    let table = [header("bad name", "v")];
    assert!(matches!(
        cache_vary_header_hashes(&source, &table, None, &vary),
        Err(VaryHeaderError::Unresolved)
    ));
    let result = cache_vary_header_hashes(&table, &source, None, &vary);
    assert!(detail(result).starts_with("invalid request header name 'bad name'"));
}

#[test]
fn too_many_headers() {
    let headers: Vec<ResolvedHeader> =
        (0..25000).map(|i| header(&format!("h{}", i), "v")).collect();
    assert!(matches!(
        cache_vary_header_hashes(&headers, &[], None, &names(&["h1"])),
        Err(VaryHeaderError::TooManyHeaders)
    ));
    let entries =
        cache_vary_header_hashes(&headers[..6000], &[], None, &names(&["H5999"])).unwrap();
    assert_eq!(entries, vec![entry("h5999", Some("v"))]);
}

#[test]
fn few_names_are_never_too_many() {
    let headers: Vec<ResolvedHeader> =
        (0..40000).map(|i| header(&format!("H{}", i % 100), &format!("{}", i))).collect();
    let entries =
        cache_vary_header_hashes(&headers, &headers, None, &names(&["h99", "h7"])).unwrap();
    assert_eq!(entries, vec![entry("h99", Some("39999")), entry("h7", Some("39907"))]);
}

#[test]
fn early_error_comes_before_too_many_headers() {
    let vary = names(&["h1"]);
    let mut headers: Vec<ResolvedHeader> =
        (0..25000).map(|i| header(&format!("h{}", i), "v")).collect();
    headers[3] = header("bad name", "v");
    let result = cache_vary_header_hashes(&headers, &[], None, &vary);
    assert!(detail(result).starts_with("invalid request header name 'bad name'"));
    headers[2] = unresolved("h2");
    assert!(matches!(
        cache_vary_header_hashes(&headers, &[], None, &vary),
        Err(VaryHeaderError::Unresolved)
    ));
}

#[test]
fn lists_in_a_row_give_entries_in_a_row() {
    let source = [header("a", "1"), header("b", "2")];
    let body = RequestBody::Text("text".to_string());
    let body = Some(&body);
    let (first, second) = (["B", "c", "b"], ["content-type", "A"]);
    let all: Vec<&str> = first.iter().chain(second.iter()).copied().collect();
    let mut entries = cache_vary_header_hashes(&source, &[], body, &names(&first)).unwrap();
    entries.extend(cache_vary_header_hashes(&source, &[], body, &names(&second)).unwrap());
    assert_eq!(entries, cache_vary_header_hashes(&source, &[], body, &names(&all)).unwrap());
    assert_eq!(entries[0], entry("b", Some("2")));
    assert_eq!(entries[4], entry("a", Some("1")));

    let result = cache_vary_header_hashes(&source, &[], body, &names(&["a", "b c", "d e"]));
    assert_eq!(detail(result), "invalid cache vary header name 'b c': invalid HTTP header name");
}

#[test]
fn headers_count_in_a_row() {
    let vary = names(&["a", "b", "none"]);
    let all = || vec![header("a", "1"), header("B", "2"), header("A", "3"), absent("b")];
    let expected = vec![entry("a", Some("3")), entry("b", Some("2")), entry("none", None)];
    for split in 0..5 {
        let mut source = all();
        let table = source.split_off(split);
        assert_eq!(cache_vary_header_hashes(&source, &table, None, &vary).unwrap(), expected);
    }
    let failing = || vec![header("a", "1"), header("b c", "2"), unresolved("d")];
    for split in 0..4 {
        let mut source = failing();
        let table = source.split_off(split);
        let result = cache_vary_header_hashes(&source, &table, None, &vary);
        assert!(detail(result).starts_with("invalid request header name 'b c'"));
    }
}
