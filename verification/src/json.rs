//! JSON values, and what is read of them.

use vstd::prelude::*;

verus! {

/// `serde_json::Value`. What it holds is told by `json_text`.
#[verifier::external_type_specification]
#[verifier::external_body]
pub struct ExValue(serde_json::Value);

/// `serde_json::Error`, of which nothing is read.
#[verifier::external_type_specification]
#[verifier::external_body]
pub struct ExJsonError(serde_json::Error);

/// The compact JSON text of everything that a JSON value holds.
pub uninterp spec fn json_text(value: serde_json::Value) -> Seq<char>;

/// Calls `serde_json::to_string`. The contract claims that a `Value` always has a
/// JSON text (its maps have string keys and its numbers are finite), and names it.
#[verifier::external_body]
pub(crate) fn json_to_string(value: &serde_json::Value) -> (text: Result<String, serde_json::Error>)
    ensures
        text is Ok,
        text->Ok_0@ == json_text(*value),
{
    serde_json::to_string(value)
}

/// The text of a JSON boolean.
pub open spec fn bool_text(value: bool) -> Seq<char> {
    if value {
        "true"@
    } else {
        "false"@
    }
}

/// The boolean whose JSON text is `text`, if there is one.
pub open spec fn bool_of(text: Seq<char>) -> Option<bool> {
    if text == bool_text(true) {
        Some(true)
    } else if text == bool_text(false) {
        Some(false)
    } else {
        None
    }
}

/// The hexadecimal digit of `d`.
pub open spec fn hex_digit(d: u32) -> char {
    if d < 10 {
        (('0' as u32) + d) as char
    } else {
        (('a' as u32) + (d - 10)) as char
    }
}

/// A character as it stands in a JSON string.
pub open spec fn escaped(c: char) -> Seq<char> {
    let code = c as u32;
    if c == '"' || c == '\\' {
        seq!['\\', c]
    } else if code >= 0x20 {
        seq![c]
    } else if code == 0x08 {
        seq!['\\', 'b']
    } else if code == 0x09 {
        seq!['\\', 't']
    } else if code == 0x0a {
        seq!['\\', 'n']
    } else if code == 0x0c {
        seq!['\\', 'f']
    } else if code == 0x0d {
        seq!['\\', 'r']
    } else {
        seq!['\\', 'u', '0', '0', hex_digit(code / 16), hex_digit(code % 16)]
    }
}

/// Characters as they stand in a JSON string.
pub open spec fn all_escaped(s: Seq<char>) -> Seq<char>
    decreases s.len(),
{
    if s.len() == 0 {
        Seq::empty()
    } else {
        escaped(s.first()) + all_escaped(s.drop_first())
    }
}

/// The text of a JSON string that holds `s`.
pub open spec fn quoted(s: Seq<char>) -> Seq<char> {
    seq!['"'] + all_escaped(s) + seq!['"']
}

/// `text` is that of a JSON string.
pub open spec fn is_quoted(text: Seq<char>) -> bool {
    text.len() > 0 && text[0] == '"'
}

/// Calls `Value::as_bool`. The contract claims that it gives the boolean of a value
/// whose JSON text is that of a boolean, and nothing for any other value.
#[verifier::external_body]
fn json_as_bool(value: &serde_json::Value) -> (flag: Option<bool>)
    ensures
        flag == bool_of(json_text(*value)),
{
    value.as_bool()
}

/// Calls `Value::as_str`. The contract claims that it gives what a JSON string
/// holds, for a value whose JSON text is in quotes, and nothing for any other value.
#[verifier::external_body]
fn json_as_str(value: &serde_json::Value) -> (text: Option<&str>)
    ensures
        text is Some <==> is_quoted(json_text(*value)),
        text is Some ==> json_text(*value) == quoted(text->0@),
{
    value.as_str()
}

/// What a response holds at some path.
#[derive(Debug)]
pub enum PathValue {
    /// The path leads nowhere.
    Missing,
    Bool(bool),
    Text(String),
    /// A value that is neither a boolean nor a string.
    Other,
}

impl PathValue {
    /// Whether the value is the boolean `true`.
    pub fn is_true(&self) -> (yes: bool)
        ensures
            yes == self.holds_true(),
    {
        match self {
            PathValue::Bool(value) => *value,
            _ => false,
        }
    }

    pub open spec fn holds_true(self) -> bool {
        self matches PathValue::Bool(value) && value
    }

    pub open spec fn text(self) -> Option<Seq<char>> {
        match self {
            PathValue::Text(text) => Some(text@),
            _ => None,
        }
    }
}

/// `read` is what is read of a value with this JSON text.
pub open spec fn is_reading_of(read: PathValue, text: Seq<char>) -> bool {
    match read {
        PathValue::Missing => false,
        PathValue::Bool(value) => text == bool_text(value),
        PathValue::Text(value) => text == quoted(value@),
        PathValue::Other => {
            &&& bool_of(text) is None
            &&& !is_quoted(text)
        },
    }
}

/// Reads what a response holds at a path, if it holds anything there.
pub fn path_value(value: Option<&serde_json::Value>) -> (read: PathValue)
    ensures
        match value {
            Some(value) => is_reading_of(read, json_text(*value)),
            None => read is Missing,
        },
{
    let value = match value {
        Some(value) => value,
        None => return PathValue::Missing,
    };
    if let Some(flag) = json_as_bool(value) {
        return PathValue::Bool(flag);
    }
    match json_as_str(value) {
        Some(text) => PathValue::Text(text.to_owned()),
        None => PathValue::Other,
    }
}

/// What is read of a value is settled by its JSON text: there is one reading, up to
/// how the text in it is held.
pub proof fn law_reading_is_settled(a: PathValue, b: PathValue, text: Seq<char>)
    requires
        is_reading_of(a, text),
        is_reading_of(b, text),
    ensures
        a.holds_true() == b.holds_true(),
        a.text() == b.text(),
        a is Other == b is Other,
{
    reveal_strlit("true");
    reveal_strlit("false");
    assert(bool_text(true)[0] == 't' && bool_text(false)[0] == 'f');
    if let PathValue::Text(s) = a {
        assert(quoted(s@)[0] == '"');
    }
    if let PathValue::Text(t) = b {
        assert(quoted(t@)[0] == '"');
    }
    if let (PathValue::Text(s), PathValue::Text(t)) = (a, b) {
        assert(quoted(s@).drop_first() == all_escaped(s@) + seq!['"']);
        assert(quoted(t@).drop_first() == all_escaped(t@) + seq!['"']);
        lemma_escaped_is_settled(s@, t@);
    }
}

/// Different strings stand differently in a JSON text.
proof fn lemma_escaped_is_settled(s: Seq<char>, t: Seq<char>)
    requires
        all_escaped(s) + seq!['"'] == all_escaped(t) + seq!['"'],
    ensures
        s == t,
    decreases s.len(),
{
    let text = all_escaped(s) + seq!['"'];
    assert(s.len() == 0 ==> text[0] == '"');
    assert(t.len() == 0 ==> text[0] == '"');
    if s.len() > 0 {
        let c = s.first();
        let rest = all_escaped(s.drop_first()) + seq!['"'];
        assert(text == escaped(c) + rest);
        assert(text[0] == escaped(c)[0]);
        assert(text[0] != '"');
    }
    if t.len() > 0 {
        let d = t.first();
        let rest = all_escaped(t.drop_first()) + seq!['"'];
        assert(text == escaped(d) + rest);
        assert(text[0] == escaped(d)[0]);
        assert(text[0] != '"');
    }
    if s.len() > 0 && t.len() > 0 {
        let c = s.first();
        let d = t.first();
        let s_rest = all_escaped(s.drop_first()) + seq!['"'];
        let t_rest = all_escaped(t.drop_first()) + seq!['"'];
        lemma_first_escaped_is_settled(c, s_rest, d, t_rest);
        assert(s_rest == text.skip(escaped(c).len() as int));
        assert(t_rest == text.skip(escaped(d).len() as int));
        lemma_escaped_is_settled(s.drop_first(), t.drop_first());
        assert(s == seq![c] + s.drop_first());
        assert(t == seq![d] + t.drop_first());
    } else {
        assert(s == t);
    }
}

/// The first character of a string can be told from its JSON text.
proof fn lemma_first_escaped_is_settled(c: char, c_rest: Seq<char>, d: char, d_rest: Seq<char>)
    requires
        escaped(c) + c_rest == escaped(d) + d_rest,
    ensures
        c == d,
{
    let text = escaped(c) + c_rest;
    assert(forall|i: int| 0 <= i < escaped(c).len() ==> text[i] == escaped(c)[i]);
    assert(forall|i: int| 0 <= i < escaped(d).len() ==> text[i] == escaped(d)[i]);
    assert(text[0] == escaped(c)[0] && text[0] == escaped(d)[0]);
    if text[0] == '\\' {
        assert(text[1] == escaped(c)[1] && text[1] == escaped(d)[1]);
        if text[1] == 'u' {
            assert(text[4] == escaped(c)[4] && text[4] == escaped(d)[4]);
            assert(text[5] == escaped(c)[5] && text[5] == escaped(d)[5]);
        }
    }
}

/// A value counts as true if and only if it is the boolean `true`.
pub proof fn law_only_true_is_true(value: PathValue, yes: bool)
    requires
        call_ensures(PathValue::is_true, (&value,), yes),
    ensures
        yes <==> value == PathValue::Bool(true),
{
}

/// Of a value, a boolean is read if and only if its JSON text is that of the boolean,
/// a string if and only if its JSON text is in quotes, and then the string's own
/// characters; something is always read.
pub proof fn law_booleans_and_strings_are_read(
    value: &serde_json::Value,
    text: Seq<char>,
    read: PathValue,
)
    requires
        call_ensures(path_value, (Some(value),), read),
        text == json_text(*value),
    ensures
        !(read is Missing),
        read == PathValue::Bool(true) <==> text == "true"@,
        read == PathValue::Bool(false) <==> text == "false"@,
        read is Text <==> text.len() > 0 && text[0] == '"',
        read matches PathValue::Text(held) ==> {
            &&& text == quoted(held@)
            &&& text.len() >= held@.len() + 2
            &&& text.last() == '"'
            &&& (forall|i: int| 0 <= i < held@.len() ==> is_plain(#[trigger] held@[i]))
                ==> text.subrange(1, text.len() - 1) == held@
        },
{
    reveal_strlit("true");
    reveal_strlit("false");
    assert(bool_text(true)[0] == 't' && bool_text(false)[0] == 'f');
    if let PathValue::Text(held) = read {
        assert(quoted(held@)[0] == '"');
        lemma_plain_characters_stand_for_themselves(held@);
        assert(text.subrange(1, text.len() - 1) == all_escaped(held@));
    }
}

/// A character that stands for itself in a JSON string.
pub open spec fn is_plain(c: char) -> bool {
    c != '"' && c != '\\' && c as u32 >= 0x20
}

proof fn lemma_plain_characters_stand_for_themselves(s: Seq<char>)
    ensures
        all_escaped(s).len() >= s.len(),
        (forall|i: int| 0 <= i < s.len() ==> is_plain(#[trigger] s[i])) ==> all_escaped(s) == s,
    decreases s.len(),
{
    if s.len() > 0 {
        let rest = s.drop_first();
        lemma_plain_characters_stand_for_themselves(rest);
        assert(escaped(s.first()).len() >= 1);
        if forall|i: int| 0 <= i < s.len() ==> is_plain(#[trigger] s[i]) {
            assert forall|i: int| 0 <= i < rest.len() implies is_plain(#[trigger] rest[i]) by {
                assert(rest[i] == s[i + 1]);
            }
            assert(is_plain(s[0]));
            assert(all_escaped(s) == seq![s.first()] + rest);
            assert(all_escaped(s) == s);
        }
    }
}

/// Nothing is read where a response holds nothing.
pub proof fn law_nothing_is_read_of_nothing(read: PathValue)
    requires
        call_ensures(path_value, (None,), read),
    ensures
        read is Missing,
{
}

} // verus!
