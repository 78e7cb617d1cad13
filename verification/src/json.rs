//! A plain model of JSON values, a trusted bridge to the `serde_json`
//! parser, and a verified serializer for JSON strings.
//!
//! Response bodies are parsed once into [`Json`] and all typed decoding is
//! then ordinary verified code over that model. Request bodies are built as
//! text by verified code, so what is sent is pinned down exactly.

use vstd::prelude::*;

verus! {

/// A JSON value. Numbers keep their decimal text: no operation of this
/// library reads a numeric field, so nothing is lost by not interpreting it.
pub enum Json {
    Null,
    Bool(bool),
    Num(String),
    Str(String),
    Arr(Vec<Json>),
    Obj(Vec<(String, Json)>),
}

/// What `serde_json` parses a given text into, translated to [`Json`]:
/// `None` where the text is not valid JSON. The result is a function of the
/// text alone.
pub uninterp spec fn json_of(s: Seq<char>) -> Option<Json>;

#[verifier::external_type_specification]
#[verifier::external_body]
pub struct ExSerdeValue(serde_json::Value);

/// Translates a parsed `serde_json::Value` into the [`Json`] model, variant
/// by variant. Only `parse_json` below calls this; its contract is stated
/// there, on the composition with the parser.
#[verifier::external_body]
fn json_from_value(v: &serde_json::Value) -> Json {
    match v {
        serde_json::Value::Null => Json::Null,
        serde_json::Value::Bool(b) => Json::Bool(*b),
        serde_json::Value::Number(n) => Json::Num(n.to_string()),
        serde_json::Value::String(s) => Json::Str(s.clone()),
        serde_json::Value::Array(a) => Json::Arr(a.iter().map(json_from_value).collect()),
        serde_json::Value::Object(o) => {
            Json::Obj(o.iter().map(|(k, val)| (k.clone(), json_from_value(val))).collect())
        },
    }
}

/// Relies on `serde_json::from_str`: parses text by the JSON grammar into a
/// structured value, deterministically in the text.
#[verifier::external_body]
pub(crate) fn parse_json(s: &str) -> (r: Option<Json>)
    ensures
        r == json_of(s@),
{
    match serde_json::from_str::<serde_json::Value>(s) {
        Ok(v) => Some(json_from_value(&v)),
        Err(_) => None,
    }
}

/// Relies on std `String::push`: appends the one character to the end.
#[verifier::external_body]
pub(crate) fn push_char(s: &mut String, c: char)
    ensures
        final(s)@ == old(s)@ + seq![c],
{
    s.push(c);
}

/// String equality by content.
pub(crate) fn str_eq(a: &str, b: &str) -> (r: bool)
    ensures
        r == (a@ == b@),
{
    let sa = a.to_owned();
    let sb = b.to_owned();
    sa == sb
}

/// The value of the first field named `key`, if any. JSON objects out of
/// `serde_json` carry each key once, so the first match is the only one.
pub open spec fn obj_get(fs: Seq<(String, Json)>, key: Seq<char>) -> Option<Json>
    decreases fs.len(),
{
    if fs.len() == 0 {
        None
    } else if fs[0].0@ == key {
        Some(fs[0].1)
    } else {
        obj_get(fs.drop_first(), key)
    }
}

/// Looks a field up by name among the fields of a JSON object.
pub fn obj_find<'a>(fs: &'a Vec<(String, Json)>, key: &str) -> (r: Option<&'a Json>)
    ensures
        r matches Some(j) ==> obj_get(fs@, key@) == Some(*j),
        r is None ==> obj_get(fs@, key@) is None,
{
    let n = fs.len();
    let mut i: usize = 0;
    proof {
        assert(fs@.skip(0) =~= fs@);
    }
    while i < n
        invariant
            i <= n,
            n == fs@.len(),
            obj_get(fs@, key@) == obj_get(fs@.skip(i as int), key@),
        decreases n - i,
    {
        proof {
            assert(fs@.skip(i as int)[0] == fs@[i as int]);
            assert(fs@.skip(i as int).drop_first() =~= fs@.skip(i + 1));
        }
        let pair = &fs[i];
        if str_eq(pair.0.as_str(), key) {
            return Some(&pair.1);
        }
        i += 1;
    }
    proof {
        assert(fs@.skip(n as int).len() == 0);
    }
    None
}

/// A string field's content: `None` where the field is absent or not a string.
pub open spec fn sfield(fs: Seq<(String, Json)>, key: Seq<char>) -> Option<Seq<char>> {
    match obj_get(fs, key) {
        Some(Json::Str(s)) => Some(s@),
        _ => None,
    }
}

/// A string field that the wire format may omit: the empty string then.
pub open spec fn sfield_or_empty(fs: Seq<(String, Json)>, key: Seq<char>) -> Option<Seq<char>> {
    match obj_get(fs, key) {
        Some(Json::Str(s)) => Some(s@),
        Some(_) => None,
        None => Some(Seq::empty()),
    }
}

/// A boolean field's value: `None` where absent or not a boolean.
pub open spec fn bfield(fs: Seq<(String, Json)>, key: Seq<char>) -> Option<bool> {
    match obj_get(fs, key) {
        Some(Json::Bool(b)) => Some(b),
        _ => None,
    }
}

pub open spec fn all_strs(items: Seq<Json>) -> bool {
    forall|i: int| 0 <= i < items.len() ==> items[i] is Str
}

pub open spec fn str_views(items: Seq<Json>) -> Seq<Seq<char>> {
    Seq::new(items.len(), |i: int| items[i]->Str_0@)
}

/// The contents of a string vector, as sequences of characters.
pub open spec fn seq_views(v: Seq<String>) -> Seq<Seq<char>> {
    Seq::new(v.len(), |i: int| v[i]@)
}

/// An array-of-strings field that the wire format may omit: empty then,
/// `None` where present but not an array of strings.
pub open spec fn sarr_field_or_empty(fs: Seq<(String, Json)>, key: Seq<char>) -> Option<
    Seq<Seq<char>>,
> {
    match obj_get(fs, key) {
        Some(Json::Arr(items)) => if all_strs(items@) {
            Some(str_views(items@))
        } else {
            None
        },
        Some(_) => None,
        None => Some(Seq::empty()),
    }
}

/// An array-of-strings field that must be present.
pub open spec fn sarr_field(fs: Seq<(String, Json)>, key: Seq<char>) -> Option<Seq<Seq<char>>> {
    match obj_get(fs, key) {
        Some(Json::Arr(items)) => if all_strs(items@) {
            Some(str_views(items@))
        } else {
            None
        },
        _ => None,
    }
}

pub fn get_str(fs: &Vec<(String, Json)>, key: &str) -> (r: Option<String>)
    ensures
        r matches Some(s) ==> sfield(fs@, key@) == Some(s@),
        r is None ==> sfield(fs@, key@) is None,
{
    match obj_find(fs, key) {
        Some(j) => match j {
            Json::Str(s) => Some(s.clone()),
            _ => None,
        },
        None => None,
    }
}

pub fn get_str_or_empty(fs: &Vec<(String, Json)>, key: &str) -> (r: Option<String>)
    ensures
        r matches Some(s) ==> sfield_or_empty(fs@, key@) == Some(s@),
        r is None ==> sfield_or_empty(fs@, key@) is None,
{
    match obj_find(fs, key) {
        Some(j) => match j {
            Json::Str(s) => Some(s.clone()),
            _ => None,
        },
        None => Some(String::new()),
    }
}

pub fn get_bool(fs: &Vec<(String, Json)>, key: &str) -> (r: Option<bool>)
    ensures
        r == bfield(fs@, key@),
{
    match obj_find(fs, key) {
        Some(j) => match j {
            Json::Bool(b) => Some(*b),
            _ => None,
        },
        None => None,
    }
}

/// Collects an array of JSON strings into owned strings; `None` where some
/// element is not a string.
pub fn collect_strs(items: &Vec<Json>) -> (r: Option<Vec<String>>)
    ensures
        r matches Some(v) ==> all_strs(items@) && seq_views(v@) == str_views(items@),
        r is None ==> !all_strs(items@),
{
    let n = items.len();
    let mut out: Vec<String> = Vec::new();
    let mut i: usize = 0;
    while i < n
        invariant
            i <= n,
            n == items@.len(),
            out@.len() == i,
            forall|k: int| 0 <= k < i ==> items@[k] is Str,
            forall|k: int| 0 <= k < i ==> out@[k]@ == items@[k]->Str_0@,
        decreases n - i,
    {
        match &items[i] {
            Json::Str(s) => {
                out.push(s.clone());
            },
            _ => {
                return None;
            },
        }
        i += 1;
    }
    proof {
        assert(seq_views(out@) =~= str_views(items@));
    }
    Some(out)
}

pub fn get_str_array_or_empty(fs: &Vec<(String, Json)>, key: &str) -> (r: Option<Vec<String>>)
    ensures
        r matches Some(v) ==> sarr_field_or_empty(fs@, key@) == Some(seq_views(v@)),
        r is None ==> sarr_field_or_empty(fs@, key@) is None,
{
    match obj_find(fs, key) {
        Some(j) => match j {
            Json::Arr(items) => collect_strs(items),
            _ => None,
        },
        None => {
            let out: Vec<String> = Vec::new();
            proof {
                assert(seq_views(out@) =~= Seq::<Seq<char>>::empty());
            }
            Some(out)
        },
    }
}

pub fn get_str_array(fs: &Vec<(String, Json)>, key: &str) -> (r: Option<Vec<String>>)
    ensures
        r matches Some(v) ==> sarr_field(fs@, key@) == Some(seq_views(v@)),
        r is None ==> sarr_field(fs@, key@) is None,
{
    match obj_find(fs, key) {
        Some(j) => match j {
            Json::Arr(items) => collect_strs(items),
            _ => None,
        },
        None => None,
    }
}

/// How one character reads inside a JSON string literal: the same escapes
/// that `serde_json` writes.
pub open spec fn esc_char(c: char) -> Seq<char> {
    if c == '"' {
        seq!['\\', '"']
    } else if c == '\\' {
        seq!['\\', '\\']
    } else if c == '\u{8}' {
        seq!['\\', 'b']
    } else if c == '\t' {
        seq!['\\', 't']
    } else if c == '\n' {
        seq!['\\', 'n']
    } else if c == '\u{c}' {
        seq!['\\', 'f']
    } else if c == '\r' {
        seq!['\\', 'r']
    } else if (c as u32) < 32 {
        seq!['\\', 'u', '0', '0', hex_digit((c as u32 / 16) as nat), hex_digit((c as u32 % 16) as nat)]
    } else {
        seq![c]
    }
}

pub open spec fn hex_digit(n: nat) -> char {
    if n == 0 { '0' }
    else if n == 1 { '1' }
    else if n == 2 { '2' }
    else if n == 3 { '3' }
    else if n == 4 { '4' }
    else if n == 5 { '5' }
    else if n == 6 { '6' }
    else if n == 7 { '7' }
    else if n == 8 { '8' }
    else if n == 9 { '9' }
    else if n == 10 { 'a' }
    else if n == 11 { 'b' }
    else if n == 12 { 'c' }
    else if n == 13 { 'd' }
    else if n == 14 { 'e' }
    else { 'f' }
}

/// A string's content as it reads inside a JSON string literal.
pub open spec fn json_escape(s: Seq<char>) -> Seq<char>
    decreases s.len(),
{
    if s.len() == 0 {
        Seq::empty()
    } else {
        esc_char(s[0]) + json_escape(s.drop_first())
    }
}

proof fn lemma_escape_push(a: Seq<char>, x: char)
    ensures
        json_escape(a.push(x)) == json_escape(a) + esc_char(x),
    decreases a.len(),
{
    if a.len() == 0 {
        reveal_with_fuel(json_escape, 2);
        assert(a.push(x)[0] == x);
        assert(a.push(x).drop_first() =~= Seq::<char>::empty());
        assert(json_escape(a.push(x)) =~= json_escape(a) + esc_char(x));
    } else {
        assert(a.push(x)[0] == a[0]);
        assert(a.push(x).drop_first() =~= a.drop_first().push(x));
        lemma_escape_push(a.drop_first(), x);
        assert(json_escape(a.push(x)) == esc_char(a[0]) + (json_escape(a.drop_first())
            + esc_char(x)));
        assert(esc_char(a[0]) + (json_escape(a.drop_first()) + esc_char(x)) =~= (esc_char(a[0])
            + json_escape(a.drop_first())) + esc_char(x));
    }
}

fn hex_char(n: u32) -> (r: char)
    requires
        n < 16,
    ensures
        r == hex_digit(n as nat),
{
    if n == 0 { '0' }
    else if n == 1 { '1' }
    else if n == 2 { '2' }
    else if n == 3 { '3' }
    else if n == 4 { '4' }
    else if n == 5 { '5' }
    else if n == 6 { '6' }
    else if n == 7 { '7' }
    else if n == 8 { '8' }
    else if n == 9 { '9' }
    else if n == 10 { 'a' }
    else if n == 11 { 'b' }
    else if n == 12 { 'c' }
    else if n == 13 { 'd' }
    else if n == 14 { 'e' }
    else { 'f' }
}

/// Appends `s`, escaped as a JSON string literal's content, to `out`.
pub fn append_escaped(out: &mut String, s: &str)
    ensures
        final(out)@ == old(out)@ + json_escape(s@),
{
    let n = s.unicode_len();
    let mut i: usize = 0;
    while i < n
        invariant
            i <= n,
            n == s@.len(),
            out@ == old(out)@ + json_escape(s@.take(i as int)),
        decreases n - i,
    {
        let c = s.get_char(i);
        if c == '"' {
            push_char(out, '\\');
            push_char(out, '"');
        } else if c == '\\' {
            push_char(out, '\\');
            push_char(out, '\\');
        } else if c == '\u{8}' {
            push_char(out, '\\');
            push_char(out, 'b');
        } else if c == '\t' {
            push_char(out, '\\');
            push_char(out, 't');
        } else if c == '\n' {
            push_char(out, '\\');
            push_char(out, 'n');
        } else if c == '\u{c}' {
            push_char(out, '\\');
            push_char(out, 'f');
        } else if c == '\r' {
            push_char(out, '\\');
            push_char(out, 'r');
        } else if (c as u32) < 32 {
            push_char(out, '\\');
            push_char(out, 'u');
            push_char(out, '0');
            push_char(out, '0');
            push_char(out, hex_char(c as u32 / 16));
            push_char(out, hex_char(c as u32 % 16));
        } else {
            push_char(out, c);
        }
        proof {
            assert(out@ =~= old(out)@ + (json_escape(s@.take(i as int)) + esc_char(s@[i as int])));
            assert(s@.take(i as int).push(s@[i as int]) =~= s@.take(i + 1));
            lemma_escape_push(s@.take(i as int), s@[i as int]);
            assert(out@ =~= old(out)@ + json_escape(s@.take(i + 1)));
        }
        i += 1;
    }
    proof {
        assert(s@.take(n as int) =~= s@);
    }
}

} // verus!
