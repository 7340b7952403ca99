use paged_fetch::hash::{hash_cache_bytes, hash_request_body};
use paged_fetch::request::RequestBody;
use std::collections::hash_map::DefaultHasher;
use std::hash::{Hash, Hasher};

fn std_hash(value: &[u8]) -> u64 {
    let mut hasher = DefaultHasher::new();
    value.hash(&mut hasher);
    hasher.finish()
}

#[test]
fn bytes_hash_as_a_slice_in_a_fresh_hasher() {
    for value in [&b""[..], b"a", b"abc", b"a longer value than one word"] {
        assert_eq!(hash_cache_bytes(value), std_hash(value));
    }
    assert_ne!(hash_cache_bytes(b"abc"), hash_cache_bytes(b"abd"));
}

#[test]
fn bytes_hash_to_known_values() {
    if usize::BITS == 64 && 1u16.to_ne_bytes() == 1u16.to_le_bytes() {
        assert_eq!(hash_cache_bytes(b""), 0xbd60acb658c79e45);
        assert_eq!(hash_cache_bytes(b"abc"), 0x4aa3e4b34416e6c9);
    }
}

#[test]
fn json_body_hashes_as_its_compact_text() {
    let value: serde_json::Value =
        serde_json::from_str(" { \"b\" : [ true , null ] , \"a\" : 1 } ").unwrap();
    let text = serde_json::to_string(&value).unwrap();
    let hash = hash_request_body(&RequestBody::Json(value));
    assert_eq!(hash, std_hash(text.as_bytes()));
    assert_eq!(hash, hash_request_body(&RequestBody::Text(text)));
    assert_ne!(hash, std_hash(b""));
}

#[test]
fn json_string_hashes_with_its_quotes() {
    let body = RequestBody::Json(serde_json::Value::String("abc".to_string()));
    assert_eq!(hash_request_body(&body), std_hash(b"\"abc\""));
}

#[test]
fn text_body_hashes_as_its_bytes() {
    let body = RequestBody::Text("größe".to_string());
    assert_eq!(hash_request_body(&body), std_hash("größe".as_bytes()));
}
