//! URL handling: parsing and resolution are delegated to the `url` crate
//! behind trusted wrappers whose results are named, and the full request URL
//! (joined base and path, plus an encoded query string) is assembled by
//! verified code on top of them.

use vstd::prelude::*;

verus! {

/// Whether `url::Url::parse` accepts `s` as an absolute URL.
pub uninterp spec fn absolute_url(s: Seq<char>) -> bool;

/// The serialization of `rel` resolved against the absolute URL `base`
/// (RFC 3986 reference resolution), or `None` where `base` does not parse
/// or the resolution fails.
pub uninterp spec fn resolved_url(base: Seq<char>, rel: Seq<char>) -> Option<Seq<char>>;

/// The `application/x-www-form-urlencoded` serialization of a sequence of
/// key/value pairs: keys and values percent-encoded (spaces as `+`), joined
/// as `k=v` pairs separated by `&`.
pub uninterp spec fn form_urlencoded_of(pairs: Seq<(Seq<char>, Seq<char>)>) -> Seq<char>;

/// Relies on `url::Url::parse`: returns `None` when `s` parses as an
/// absolute URL, and the parse error's text otherwise.
#[verifier::external_body]
pub fn url_check(s: &str) -> (r: Option<String>)
    ensures
        r is None <==> absolute_url(s@),
{
    match url::Url::parse(s) {
        Ok(_) => None,
        Err(e) => Some(format!("{}", e)),
    }
}

/// Relies on `url::Url::parse` and `url::Url::join`: parses `base` and
/// resolves `rel` against it, returning the resolved URL's serialization,
/// or the parse error's text where either step fails.
#[verifier::external_body]
pub fn url_join(base: &str, rel: &str) -> (r: Result<String, String>)
    ensures
        r is Ok <==> resolved_url(base@, rel@) is Some,
        r matches Ok(u) ==> Some(u@) == resolved_url(base@, rel@),
{
    let parsed = match url::Url::parse(base) {
        Ok(u) => u,
        Err(e) => return Err(format!("{}", e)),
    };
    match parsed.join(rel) {
        Ok(u) => Ok(String::from(u)),
        Err(e) => Err(format!("{}", e)),
    }
}

/// Relies on `url::form_urlencoded::Serializer`: percent-encodes every key
/// and value and joins them into one query string.
#[verifier::external_body]
pub fn encode_query_pairs(pairs: &Vec<(String, String)>) -> (r: String)
    ensures
        r@ == form_urlencoded_of(pairs.deep_view()),
{
    let mut serializer = url::form_urlencoded::Serializer::new(String::new());
    for (k, v) in pairs.iter() {
        serializer.append_pair(k, v);
    }
    serializer.finish()
}

/// The full request URL: the resolved base and path, with `?` and the
/// encoded query pairs appended when any pairs are present.
pub open spec fn spec_full_url(
    base: Seq<char>,
    rel: Seq<char>,
    pairs: Seq<(Seq<char>, Seq<char>)>,
) -> Option<Seq<char>> {
    match resolved_url(base, rel) {
        Some(u) => Some(
            if pairs.len() == 0 {
                u
            } else {
                u + seq!['?'] + form_urlencoded_of(pairs)
            },
        ),
        None => None,
    }
}

/// Assemble the full URL for a request: resolve `rel` against `base` and
/// append the encoded query string when `pairs` is non-empty. Returns the
/// URL resolution error's text where resolution fails.
pub fn build_url(base: &str, rel: &str, pairs: &Vec<(String, String)>) -> (r: Result<
    String,
    String,
>)
    ensures
        r is Ok <==> spec_full_url(base@, rel@, pairs.deep_view()) is Some,
        r matches Ok(u) ==> Some(u@) == spec_full_url(base@, rel@, pairs.deep_view()),
{
    match url_join(base, rel) {
        Ok(mut u) => {
            if pairs.len() > 0 {
                u.append("?");
                u.append(encode_query_pairs(pairs).as_str());
                proof {
                    reveal_strlit("?");
                    assert(u@ =~= resolved_url(base@, rel@)->0 + seq!['?'] + form_urlencoded_of(
                        pairs.deep_view(),
                    ));
                }
            }
            Ok(u)
        },
        Err(e) => Err(e),
    }
}

} // verus!
