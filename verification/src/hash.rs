//! Hashes that stand for request bodies and header values in a cache key.

use crate::json::{json_text, json_to_string};
use crate::request::RequestBody;
use std::collections::hash_map::DefaultHasher;
use std::hash::{Hash, Hasher};
use vstd::prelude::*;
use vstd::std_specs::hash::DefaultHasherAdditionalSpecFns;
use vstd::utf8::encode_utf8;

verus! {

/// The writes that hashing a byte slice makes to a hasher.
pub uninterp spec fn slice_writes(value: Seq<u8>) -> Seq<Seq<u8>>;

/// Calls `Hash::hash` of a byte slice. The contract claims that equal slices make
/// equal writes, after those that the hasher already got. What the writes are is
/// left open: they depend on the word size and the byte order that the program was
/// built for.
#[verifier::external_body]
fn write_slice(value: &[u8], hasher: &mut DefaultHasher)
    ensures
        final(hasher)@ == old(hasher)@ + slice_writes(value@),
{
    value.hash(hasher)
}

/// The hash of `value` by a hasher that got nothing before it.
pub open spec fn cache_hash(value: Seq<u8>) -> u64 {
    DefaultHasher::spec_finish(slice_writes(value))
}

/// Hashes bytes for a cache key.
pub fn hash_cache_bytes(value: &[u8]) -> (hash: u64)
    ensures
        hash == cache_hash(value@),
{
    let mut hasher = DefaultHasher::new();
    write_slice(value, &mut hasher);
    proof {
        assert(hasher@ == slice_writes(value@));
    }
    hasher.finish()
}

/// The text that a body is sent as.
pub open spec fn body_text(body: RequestBody) -> Seq<char> {
    match body {
        RequestBody::Json(value) => json_text(value),
        RequestBody::Text(text) => text@,
    }
}

/// Hashes the text that a body is sent as.
pub fn hash_request_body(body: &RequestBody) -> (hash: u64)
    ensures
        hash == cache_hash(encode_utf8(body_text(*body))),
{
    match body {
        RequestBody::Json(value) => {
            let text = match json_to_string(value) {
                Ok(text) => text,
                Err(_) => String::new(),
            };
            hash_cache_bytes(text.as_str().as_bytes())
        },
        RequestBody::Text(text) => hash_cache_bytes(text.as_str().as_bytes()),
    }
}

/// The hash of bytes is what a fresh hasher makes of all of them.
pub proof fn law_hash_is_of_all_bytes(value: &[u8], hash: u64)
    requires
        call_ensures(hash_cache_bytes, (value,), hash),
    ensures
        hash == DefaultHasher::spec_finish(slice_writes(value@)),
        hash == cache_hash(value@),
{
}

/// What cache keys name a hash is what a fresh hasher makes of all bytes.
pub proof fn law_named_hash_is_of_all_bytes(value: Seq<u8>)
    ensures
        cache_hash(value) == DefaultHasher::spec_finish(slice_writes(value)),
{
}

/// The hash of a body is that of all bytes of its own text: the compact JSON text of
/// a JSON body, and a text body as it is.
pub proof fn law_body_hash_is_of_its_text(body: RequestBody, hash: u64)
    requires
        call_ensures(hash_request_body, (&body,), hash),
    ensures
        body matches RequestBody::Json(value) ==> hash == DefaultHasher::spec_finish(
            slice_writes(encode_utf8(json_text(value))),
        ),
        body matches RequestBody::Text(text) ==> hash == DefaultHasher::spec_finish(
            slice_writes(encode_utf8(text@)),
        ),
{
}

/// A JSON body and a text body hash alike where the text is the JSON text.
pub proof fn law_bodies_with_one_text_hash_alike(
    value: serde_json::Value,
    text: String,
    json_hash: u64,
    text_hash: u64,
)
    requires
        call_ensures(hash_request_body, (&RequestBody::Json(value),), json_hash),
        call_ensures(hash_request_body, (&RequestBody::Text(text),), text_hash),
        text@ == json_text(value),
    ensures
        json_hash == text_hash,
{
}

} // verus!
