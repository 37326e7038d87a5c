//! Helpers for building request parameters: optional-value constructors,
//! canonical renderings of query scalars, the indexed-bracket expansion of
//! list-valued parameters, and URL-safe base64 wrappers.

use vstd::prelude::*;
use base64::Engine;
use crate::render::bool_chars;
use crate::render::bool_to_string;
use crate::render::dec_digits;
use crate::render::dec_int;
use crate::render::i64_to_string;
use crate::render::u64_to_string;
use crate::timestamp::Timestamp;

verus! {

/// Turn a string into an optional one: `None` for the empty string.
pub fn optional_string(s: String) -> (r: Option<String>)
    ensures
        r == (if s@.len() == 0 {
            None::<String>
        } else {
            Some(s)
        }),
{
    if s.as_str().is_empty() {
        None
    } else {
        Some(s)
    }
}

/// Turn an integer into an optional one: `None` for zero.
pub fn optional_i32(i: i32) -> (r: Option<i32>)
    ensures
        r == (if i == 0 {
            None::<i32>
        } else {
            Some(i)
        }),
{
    if i == 0 {
        None
    } else {
        Some(i)
    }
}

/// Turn a size into an optional one: `None` for zero.
pub fn optional_usize(i: usize) -> (r: Option<usize>)
    ensures
        r == (if i == 0 {
            None::<usize>
        } else {
            Some(i)
        }),
{
    if i == 0 {
        None
    } else {
        Some(i)
    }
}

/// Turn a boolean into an optional one: `None` for `false`.
pub fn optional_bool(b: bool) -> (r: Option<bool>)
    ensures
        r == (if b {
            Some(true)
        } else {
            None::<bool>
        }),
{
    if b {
        Some(b)
    } else {
        None
    }
}

/// The parts joined with the separator between consecutive parts.
pub open spec fn spec_joined(parts: Seq<Seq<char>>, sep: Seq<char>) -> Seq<char>
    decreases parts.len(),
{
    if parts.len() == 0 {
        Seq::empty()
    } else if parts.len() == 1 {
        parts[0]
    } else {
        parts[0] + sep + spec_joined(parts.drop_first(), sep)
    }
}

proof fn lemma_joined_snoc(parts: Seq<Seq<char>>, sep: Seq<char>, x: Seq<char>)
    requires
        parts.len() >= 1,
    ensures
        spec_joined(parts.push(x), sep) == spec_joined(parts, sep) + sep + x,
    decreases parts.len(),
{
    if parts.len() == 1 {
        assert(parts.push(x).drop_first() =~= seq![x]);
        assert(spec_joined(seq![x], sep) == x);
        assert(spec_joined(parts.push(x), sep) =~= parts[0] + sep + x);
    } else {
        assert(parts.push(x).drop_first() =~= parts.drop_first().push(x));
        lemma_joined_snoc(parts.drop_first(), sep, x);
        assert(spec_joined(parts.push(x), sep) =~= spec_joined(parts, sep) + sep + x);
    }
}

/// Join strings with a separator: `None` for an empty list, otherwise the
/// parts with the separator between consecutive parts.
pub fn join_optional_strings(parts: &[String], separator: &str) -> (r: Option<String>)
    ensures
        parts@.len() == 0 ==> r is None,
        parts@.len() > 0 ==> (r matches Some(s) && s@ == spec_joined(parts.deep_view(), separator@)),
{
    if parts.len() == 0 {
        return None;
    }
    let mut r = String::new();
    let mut i: usize = 0;
    while i < parts.len()
        invariant
            i <= parts@.len(),
            parts@.len() > 0,
            i == 0 ==> r@ == Seq::<char>::empty(),
            i > 0 ==> r@ == spec_joined(parts.deep_view().take(i as int), separator@),
        decreases parts@.len() - i,
    {
        let ghost prefix = parts.deep_view().take(i as int);
        if i > 0 {
            r.append(separator);
        }
        let part: &String = &parts[i];
        r.append(part.as_str());
        proof {
            if i > 0 {
                lemma_joined_snoc(prefix, separator@, parts.deep_view()[i as int]);
                assert(parts.deep_view().take(i + 1) =~= prefix.push(parts.deep_view()[i as int]));
            } else {
                assert(parts.deep_view().take(1) =~= seq![parts.deep_view()[0]]);
                assert(spec_joined(parts.deep_view().take(1), separator@) == parts.deep_view()[0]);
            }
        }
        i = i + 1;
    }
    proof {
        assert(parts.deep_view().take(parts@.len() as int) =~= parts.deep_view());
    }
    Some(r)
}

/// A scalar value of a query parameter: a string, a base-10 integer, a
/// boolean, or a timestamp in the fixed RFC 3339 UTC representation.
#[derive(Debug, Clone)]
pub enum QueryValue {
    Str(String),
    Int(i64),
    Bool(bool),
    Time(Timestamp),
}

/// The canonical rendering of a query scalar.
pub open spec fn spec_query_value_chars(v: QueryValue) -> Seq<char> {
    match v {
        QueryValue::Str(s) => s@,
        QueryValue::Int(i) => dec_int(i as int),
        QueryValue::Bool(b) => bool_chars(b),
        QueryValue::Time(t) => t.spec_rfc3339(),
    }
}

/// Render a query scalar in its canonical string form.
pub fn query_param_to_string(value: &QueryValue) -> (r: String)
    ensures
        r@ == spec_query_value_chars(*value),
{
    match value {
        QueryValue::Str(s) => s.clone(),
        QueryValue::Int(i) => i64_to_string(*i),
        QueryValue::Bool(b) => bool_to_string(*b),
        QueryValue::Time(t) => t.to_rfc3339(),
    }
}

/// Render an optional query scalar: absent values stay absent.
pub fn optional_query_param(value: Option<QueryValue>) -> (r: Option<String>)
    ensures
        value is None ==> r is None,
        value matches Some(v) ==> (r matches Some(s) && s@ == spec_query_value_chars(v)),
{
    match value {
        Some(v) => Some(query_param_to_string(&v)),
        None => None,
    }
}

/// The indexed-bracket expansion of a list-valued parameter: one pair per
/// element, keyed `name[i]` with `i` the zero-based position.
pub open spec fn spec_indexed_params(key: Seq<char>, values: Seq<Seq<char>>) -> Seq<
    (Seq<char>, Seq<char>),
> {
    Seq::new(values.len(), |i: int| (key + "["@ + dec_digits(i as nat) + "]"@, values[i]))
}

/// Expand a list of values into indexed query pairs: `key[0]`, `key[1]`,
/// and so on, in list order; an empty list yields no pairs.
pub fn slice_to_indexed_params(key: &str, values: &[String]) -> (r: Vec<(String, String)>)
    ensures
        r.deep_view() == spec_indexed_params(key@, values.deep_view()),
{
    let mut r: Vec<(String, String)> = Vec::new();
    let mut i: usize = 0;
    while i < values.len()
        invariant
            i <= values@.len(),
            r.deep_view() == spec_indexed_params(key@, values.deep_view()).take(i as int),
        decreases values@.len() - i,
    {
        let mut k = String::from_str(key);
        k.append("[");
        k.append(u64_to_string(i as u64).as_str());
        k.append("]");
        proof {
            assert(k@ == key@ + "["@ + dec_digits(i as nat) + "]"@);
        }
        let v = values[i].clone();
        let ghost kk = k@;
        let ghost vv = v@;
        proof {
            assert(vv == values.deep_view()[i as int]);
            assert(r.deep_view().len() == i);
            assert(r@.len() == i);
        }
        r.push((k, v));
        proof {
            let ghost all = spec_indexed_params(key@, values.deep_view());
            assert(r@.len() == i + 1);
            assert(r@[i as int].0@ == kk);
            assert(r@[i as int].1@ == vv);
            assert(all[i as int] == (kk, vv));
            assert(r.deep_view()[i as int] == all[i as int]);
            assert(r.deep_view() =~~= all.take(i + 1));
        }
        i = i + 1;
    }
    proof {
        assert(spec_indexed_params(key@, values.deep_view()).take(values@.len() as int)
            =~~= spec_indexed_params(key@, values.deep_view()));
    }
    r
}

/// Whether `char::is_alphanumeric` holds of the character.
pub uninterp spec fn alphanumeric_char(c: char) -> bool;

/// Relies on `char::is_alphanumeric`: whether the character is a Unicode
/// letter or digit.
#[verifier::external_body]
fn char_is_alphanumeric(c: char) -> (r: bool)
    ensures
        r == alphanumeric_char(c),
{
    c.is_alphanumeric()
}

/// Relies on `String::push`: appends one character.
#[verifier::external_body]
fn push_char(s: &mut String, c: char)
    ensures
        final(s)@ == old(s)@.push(c),
{
    s.push(c);
}

/// What a character of a file name is replaced with: itself when it is
/// alphanumeric or one of `_`, `-`, `.`; an underscore otherwise.
pub open spec fn spec_sanitized_char(c: char) -> char {
    if alphanumeric_char(c) || c == '_' || c == '-' || c == '.' {
        c
    } else {
        '_'
    }
}

/// Replace every character that is not alphanumeric and not `_`, `-` or `.`
/// with an underscore, so the result is safe as a file name.
pub fn sanitize_filename(name: &str) -> (r: String)
    ensures
        r@ == name@.map_values(|c: char| spec_sanitized_char(c)),
{
    let n = name.unicode_len();
    let mut r = String::new();
    let mut i: usize = 0;
    while i < n
        invariant
            i <= n,
            n == name@.len(),
            r@ == name@.take(i as int).map_values(|c: char| spec_sanitized_char(c)),
        decreases n - i,
    {
        let c = name.get_char(i);
        let kept = if char_is_alphanumeric(c) || c == '_' || c == '-' || c == '.' {
            c
        } else {
            '_'
        };
        push_char(&mut r, kept);
        i = i + 1;
        proof {
            assert(r@ =~= name@.take(i as int).map_values(|c: char| spec_sanitized_char(c)));
        }
    }
    proof {
        assert(name@.take(n as int) =~= name@);
    }
    r
}

/// The URL-safe, unpadded base64 rendering of a byte string.
pub uninterp spec fn base64_url_of(data: Seq<u8>) -> Seq<char>;

/// The byte string a URL-safe, unpadded base64 text decodes to, or `None`
/// where the text is not valid base64.
pub uninterp spec fn base64_url_decoded(s: Seq<char>) -> Option<Seq<u8>>;

/// Relies on the `base64` crate's `URL_SAFE_NO_PAD` engine: encodes the
/// bytes with the URL-safe alphabet and no padding.
#[verifier::external_body]
pub fn base64_encode(data: &[u8]) -> (r: String)
    ensures
        r@ == base64_url_of(data@),
{
    base64::engine::general_purpose::URL_SAFE_NO_PAD.encode(data)
}

/// The `base64` crate's decode error, carried through opaquely.
#[verifier::external_type_specification]
#[verifier::external_body]
pub struct ExDecodeError(base64::DecodeError);

/// Relies on the `base64` crate's `URL_SAFE_NO_PAD` engine: decodes text in
/// the URL-safe alphabet without padding, failing on any other input.
#[verifier::external_body]
pub fn base64_decode(data: &str) -> (r: Result<Vec<u8>, base64::DecodeError>)
    ensures
        r is Ok <==> base64_url_decoded(data@) is Some,
        r matches Ok(v) ==> Some(v@) == base64_url_decoded(data@),
{
    base64::engine::general_purpose::URL_SAFE_NO_PAD.decode(data)
}

} // verus!
