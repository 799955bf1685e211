//! JSON text framing used by event payloads and relay envelopes.
use vstd::prelude::*;

verus! {

#[verifier::external_type_specification]
#[verifier::external_body]
pub struct ExJsonError(serde_json::Error);

/// The lower-case hexadecimal digit of `n`, for `0 <= n < 16`.
pub open spec fn hex_digit(n: int) -> char {
    if n < 10 {
        (48 + n) as char
    } else {
        (87 + n) as char
    }
}

/// How JSON text writes one character of a string: `"` and `\` behind a
/// backslash, backspace, tab, line feed, form feed and carriage return as
/// `\b \t \n \f \r`, every other character below U+0020 as `\u00xx` in
/// lower-case hex, and everything else as itself.
pub open spec fn json_escape_char(c: char) -> Seq<char> {
    let v = c as int;
    if c == '"' {
        seq!['\\', '"']
    } else if c == '\\' {
        seq!['\\', '\\']
    } else if v == 8 {
        seq!['\\', 'b']
    } else if v == 9 {
        seq!['\\', 't']
    } else if v == 10 {
        seq!['\\', 'n']
    } else if v == 12 {
        seq!['\\', 'f']
    } else if v == 13 {
        seq!['\\', 'r']
    } else if v < 32 {
        seq!['\\', 'u', '0', '0', hex_digit(v / 16), hex_digit(v % 16)]
    } else {
        seq![c]
    }
}

/// The characters of a string, each written as [`json_escape_char`] writes it.
pub open spec fn json_escape(s: Seq<char>) -> Seq<char>
    decreases s.len(),
{
    if s.len() == 0 {
        Seq::empty()
    } else {
        json_escape_char(s[0]) + json_escape(s.drop_first())
    }
}

/// The JSON text of a string value: the escaped characters between double
/// quotes.
pub open spec fn json_string_literal(s: Seq<char>) -> Seq<char> {
    seq!['"'] + json_escape(s) + seq!['"']
}

/// The value of a hexadecimal digit, upper or lower case.
pub open spec fn hex_value(c: char) -> int {
    let v = c as int;
    if 48 <= v && v <= 57 {
        v - 48
    } else if 65 <= v && v <= 70 {
        v - 55
    } else {
        v - 87
    }
}

/// The character an escape denotes, given the text right after its
/// backslash, with the number of characters the escape takes there. It
/// reads the escapes `\" \\ \/ \b \t \n \f \r`, and `\u` only in the form
/// `\u00xx` (hex digits of either case), so only for U+0000 to U+00FF; other
/// `\u` escapes, which JSON allows, are not read.
pub open spec fn json_unescape_at(t: Seq<char>) -> Option<(char, int)> {
    if t.len() == 0 {
        None
    } else if t[0] == '"' {
        Some(('"', 1))
    } else if t[0] == '\\' {
        Some(('\\', 1))
    } else if t[0] == '/' {
        Some(('/', 1))
    } else if t[0] == 'b' {
        Some((8int as char, 1))
    } else if t[0] == 't' {
        Some((9int as char, 1))
    } else if t[0] == 'n' {
        Some((10int as char, 1))
    } else if t[0] == 'f' {
        Some((12int as char, 1))
    } else if t[0] == 'r' {
        Some((13int as char, 1))
    } else if t[0] == 'u' && t.len() >= 5 && t[1] == '0' && t[2] == '0' {
        Some(((16 * hex_value(t[3]) + hex_value(t[4])) as char, 5))
    } else {
        None
    }
}

/// Reads the inside of a JSON string up to its closing quote: the
/// characters it denotes, and how many characters of text come before that
/// quote. Escapes are read as [`json_unescape_at`] reads them, which covers
/// every escape that [`json_string_literal`] writes; characters below
/// U+0020, which JSON forbids unescaped, are not refused.
pub open spec fn json_read_body(t: Seq<char>) -> Option<(Seq<char>, int)>
    decreases t.len(),
{
    if t.len() == 0 {
        None
    } else if t[0] == '"' {
        Some((Seq::empty(), 0))
    } else if t[0] == '\\' {
        match json_unescape_at(t.drop_first()) {
            Some((c, k)) => if 1 <= k && 1 + k <= t.len() {
                match json_read_body(t.skip(1 + k)) {
                    Some((d, i)) => Some((seq![c] + d, i + 1 + k)),
                    None => None,
                }
            } else {
                None
            },
            None => None,
        }
    } else {
        match json_read_body(t.drop_first()) {
            Some((d, i)) => Some((seq![t[0]] + d, i + 1)),
            None => None,
        }
    }
}

/// Reads a JSON string at the start of `t`: the string and the text after
/// it. It reads back everything [`json_string_literal`] writes, and is not
/// a full JSON string parser (see [`json_read_body`]).
pub open spec fn json_read_string(t: Seq<char>) -> Option<(Seq<char>, Seq<char>)> {
    if t.len() > 0 && t[0] == '"' {
        match json_read_body(t.drop_first()) {
            Some((d, i)) => Some((d, t.skip(i + 2))),
            None => None,
        }
    } else {
        None
    }
}

/// The text after `p`, if `t` starts with `p`.
pub open spec fn strip_prefix(t: Seq<char>, p: Seq<char>) -> Option<Seq<char>> {
    if p.len() <= t.len() && t.take(p.len() as int) == p {
        Some(t.skip(p.len() as int))
    } else {
        None
    }
}

/// Reads `null` or a JSON string at the start of `t`.
pub open spec fn json_read_optional_string(t: Seq<char>) -> Option<(Option<Seq<char>>, Seq<char>)> {
    if t.len() > 0 && t[0] == '"' {
        match json_read_string(t) {
            Some((v, rest)) => Some((Some(v), rest)),
            None => None,
        }
    } else {
        match strip_prefix(t, "null"@) {
            Some(rest) => Some((None, rest)),
            None => None,
        }
    }
}

/// Text that starts with `p` gives back what follows it.
pub proof fn lemma_strip_prefix(p: Seq<char>, rest: Seq<char>)
    ensures
        strip_prefix(p + rest, p) == Some(rest),
{
    assert((p + rest).take(p.len() as int) =~= p);
    assert((p + rest).skip(p.len() as int) =~= rest);
}

proof fn lemma_hex_round_trip(n: int)
    requires
        0 <= n < 16,
    ensures
        hex_value(hex_digit(n)) == n,
{
}

proof fn lemma_read_escaped_char(c: char, tail: Seq<char>)
    requires
        json_escape_char(c).len() > 1,
    ensures
        json_unescape_at((json_escape_char(c) + tail).drop_first())
            == Some((c, json_escape_char(c).len() - 1)),
        (json_escape_char(c) + tail)[0] == '\\',
        (json_escape_char(c) + tail).skip(json_escape_char(c).len() as int) == tail,
{
    let e = json_escape_char(c);
    let t = (e + tail).drop_first();
    let v = c as int;
    assert((e + tail).skip(e.len() as int) =~= tail);
    if c == '"' || c == '\\' {
    } else if v == 8 || v == 9 || v == 10 || v == 12 || v == 13 {
        assert(t[0] == e[1]);
    } else {
        assert(v < 32);
        lemma_hex_round_trip(v / 16);
        lemma_hex_round_trip(v % 16);
        assert(t[0] == 'u' && t[1] == '0' && t[2] == '0');
        assert(t[3] == hex_digit(v / 16) && t[4] == hex_digit(v % 16));
        assert(16 * (v / 16) + v % 16 == v);
    }
}

proof fn lemma_read_body_escaped(s: Seq<char>, rest: Seq<char>)
    ensures
        json_read_body(json_escape(s) + seq!['"'] + rest) == Some((s, json_escape(s).len() as int)),
    decreases s.len(),
{
    let t = json_escape(s) + seq!['"'] + rest;
    if s.len() == 0 {
        assert(t =~= seq!['"'] + rest);
    } else {
        let c = s[0];
        let e = json_escape_char(c);
        let tail = json_escape(s.drop_first()) + seq!['"'] + rest;
        lemma_read_body_escaped(s.drop_first(), rest);
        assert(t =~= e + tail);
        assert(seq![c] + s.drop_first() =~= s);
        if e.len() > 1 {
            lemma_read_escaped_char(c, tail);
        } else {
            assert(e =~= seq![c]);
            assert(t.drop_first() =~= tail);
        }
    }
}

/// Reading the JSON text of a string gives the string back, and leaves the
/// text after it untouched.
pub proof fn lemma_json_string_round_trip(s: Seq<char>, rest: Seq<char>)
    ensures
        json_read_string(json_string_literal(s) + rest) == Some((s, rest)),
{
    let t = json_string_literal(s) + rest;
    lemma_read_body_escaped(s, rest);
    assert(t.drop_first() =~= json_escape(s) + seq!['"'] + rest);
    assert(t.skip(json_escape(s).len() as int + 2) =~= rest);
}

/// Reading `null` or the JSON text of a string gives the optional string
/// back, and leaves the text after it untouched.
pub proof fn lemma_json_optional_string_round_trip(o: Option<Seq<char>>, rest: Seq<char>)
    ensures
        json_read_optional_string(json_optional_string(o) + rest) == Some((o, rest)),
{
    match o {
        Some(s) => {
            lemma_json_string_round_trip(s, rest);
            assert((json_string_literal(s) + rest)[0] == '"');
        },
        None => {
            reveal_strlit("null");
            lemma_strip_prefix("null"@, rest);
        },
    }
}

/// Calls `serde_json::to_string` on a `&str`. Trusted to succeed and to
/// return [`json_string_literal`] of the string's characters: serde_json
/// writes a `str` through `format_escaped_str`, which puts the text between
/// quotes and escapes bytes by its `ESCAPE` table as `json_escape_char`
/// states, writing `\u00xx` with lower-case hex digits.
/// Success: serde_json documents failure only for a `Serialize` impl that
/// fails or a map with non-string keys; a `str` serializes through
/// `serialize_str`, whose only error is an I/O error of the writer, and the
/// writer is the `Vec<u8>` that `to_vec` fills, whose `io::Write` appends.
#[verifier::external_body]
fn serde_string_literal(s: &str) -> (r: Result<String, serde_json::Error>)
    ensures
        r is Ok,
        r matches Ok(t) ==> t@ == json_string_literal(s@),
{
    serde_json::to_string(s)
}

/// Failure to encode a value as JSON text.
#[derive(Debug, PartialEq, Eq)]
pub enum EncodeError {
    /// The JSON serializer refused the value.
    Serializer,
}

/// JSON text of a string value.
pub fn string_literal(s: &str) -> (r: Result<String, EncodeError>)
    ensures
        r matches Ok(t) && t@ == json_string_literal(s@),
{
    match serde_string_literal(s) {
        Ok(t) => Ok(t),
        Err(_) => Err(EncodeError::Serializer),
    }
}

/// JSON text of an optional string value: `null` when absent.
pub open spec fn json_optional_string(o: Option<Seq<char>>) -> Seq<char> {
    match o {
        Some(s) => json_string_literal(s),
        None => "null"@,
    }
}

/// JSON text of an optional string value: `null` when absent.
pub fn optional_string_literal(o: Option<&str>) -> (r: Result<String, EncodeError>)
    ensures
        r matches Ok(t) && t@ == json_optional_string(o.deep_view()),
{
    match o {
        Some(s) => string_literal(s),
        None => Ok("null".to_owned()),
    }
}

/// Whether the bytes parse as one JSON document.
pub uninterp spec fn json_document(bytes: Seq<u8>) -> bool;

/// The string that the member `key` of the JSON document in `bytes` holds,
/// if the document is an object with such a member and it is a string.
pub uninterp spec fn json_str_member(bytes: Seq<u8>, key: Seq<char>) -> Option<Seq<char>>;

/// Calls `serde_json::from_slice` to parse the bytes as a
/// `serde_json::Value`, then `Value::get` with `key` and `Value::as_str` on
/// the member. Trusted to succeed exactly when the bytes
/// are the document named `json_document`, and then to return the member
/// named `json_str_member`.
#[verifier::external_body]
fn serde_str_member(payload: &[u8], key: &str) -> (r: Result<Option<String>, serde_json::Error>)
    ensures
        r is Ok == json_document(payload@),
        r matches Ok(m) ==> m.deep_view() == json_str_member(payload@, key@),
{
    match serde_json::from_slice::<serde_json::Value>(payload) {
        Ok(v) => Ok(match v.get(key) {
            Some(member) => member.as_str().map(String::from),
            None => None,
        }),
        Err(e) => Err(e),
    }
}

/// The string member `key` of the JSON document in `payload`: `None` when
/// the bytes are no JSON document, `Some(None)` when the member is absent or
/// no string.
pub fn string_member(payload: &[u8], key: &str) -> (r: Option<Option<String>>)
    ensures
        r is Some == json_document(payload@),
        r matches Some(m) ==> m.deep_view() == json_str_member(payload@, key@),
{
    match serde_str_member(payload, key) {
        Ok(m) => Some(m),
        Err(_) => None,
    }
}

} // verus!
