//! What the proxy takes on trust from the `http` crate.
//!
//! Every item in this module is believed, not proved: the types are opaque to
//! the verifier, and each function's contract restates what the `http` crate
//! documents or what its source shows. The verified modules reason from these
//! contracts alone.

use http::header::HeaderMap;
use http::header::HeaderValue;
use http::Uri;
use vstd::prelude::*;

verus! {

/// `http::Uri`, carried through the library without being looked into.
#[verifier::external_type_specification]
#[verifier::external_body]
pub struct ExUri(http::Uri);

/// `http::Error`, the failure of one of the crate's builders.
#[verifier::external_type_specification]
#[verifier::external_body]
pub struct ExHttpError(http::Error);

/// `http::HeaderValue`, the bytes of one header value.
#[verifier::external_type_specification]
#[verifier::external_body]
pub struct ExHeaderValue(http::header::HeaderValue);

/// `http::HeaderMap`, the multimap of a message's header lines.
#[verifier::external_type_specification]
#[verifier::external_body]
#[verifier::reject_recursive_types(T)]
pub struct ExHeaderMap<T>(http::header::HeaderMap<T>);

/// Whether `http` accepts a text as the authority component of a URI, that is
/// whether `Authority::from_str` returns `Ok` on it.
pub uninterp spec fn authority_ok(text: Seq<char>) -> bool;

/// Whether `http`'s URI builder yields a URI from a scheme, an authority and
/// an optional path-and-query, each given as text.
pub uninterp spec fn uri_assembles(
    scheme: Seq<char>,
    authority: Seq<char>,
    path_and_query: Option<Seq<char>>,
) -> bool;

/// What a header map holds: for each header name, written in lower case, the
/// bytes of the values stored under it, first to last. A name that is present
/// has at least one value.
pub uninterp spec fn header_values(map: HeaderMap<HeaderValue>) -> Map<Seq<char>, Seq<Seq<u8>>>;

/// The bytes that a header value holds, first to last.
pub uninterp spec fn value_bytes(value: HeaderValue) -> Seq<u8>;

/// The bytes that `HeaderValue::to_str` lets through: printable ASCII and the
/// horizontal tab.
pub open spec fn is_visible_ascii(byte: u8) -> bool {
    (32 <= byte && byte < 127) || byte == 9
}

/// A header value that reads as text: every byte is visible ASCII.
pub open spec fn is_header_text(bytes: Seq<u8>) -> bool {
    forall|i: int| 0 <= i < bytes.len() ==> is_visible_ascii(#[trigger] bytes[i])
}

/// The characters that a header value of visible ASCII spells.
pub open spec fn text_of(bytes: Seq<u8>) -> Seq<char> {
    Seq::new(bytes.len(), |i: int| bytes[i] as char)
}

/// The bytes of a text of ASCII characters.
pub open spec fn bytes_of(text: Seq<char>) -> Seq<u8> {
    Seq::new(text.len(), |i: int| text[i] as u8)
}

/// A header name that `http` stores exactly as written: one to sixty-four
/// characters, each a lower-case ASCII letter or a hyphen.
pub open spec fn is_plain_name(name: Seq<char>) -> bool {
    &&& 1 <= name.len() <= 64
    &&& forall|i: int|
        0 <= i < name.len() ==> (('a' <= #[trigger] name[i] && name[i] <= 'z') || name[i] == '-')
}

/// A text of printable ASCII characters, which `http` accepts as a header
/// value.
pub open spec fn is_plain_text(text: Seq<char>) -> bool {
    forall|i: int| 0 <= i < text.len() ==> (' ' <= #[trigger] text[i] && text[i] <= '~')
}

/// A header map that is sure to take one more name: it holds no more than
/// 1024 names. `HeaderMap::try_insert` refuses a value in two places only:
/// where the map already holds 32768 names, and where its index table of more
/// than 16384 slots would have to double, which is asked for only once names
/// fill a fifth of the table or more. A map of 1024 names is far from both.
pub open spec fn has_room(headers: Map<Seq<char>, Seq<Seq<u8>>>) -> bool {
    headers.dom().finite() && headers.dom().len() <= 1024
}

/// `Authority::from_str`, reduced to whether it succeeds. The contract gives
/// that answer the name [`authority_ok`]; it claims nothing else.
#[verifier::external_body]
pub(crate) fn is_authority(text: &str) -> (ok: bool)
    ensures
        ok == authority_ok(text@),
{
    text.parse::<http::uri::Authority>().is_ok()
}

/// `http::uri::Builder::build` after `scheme`, `authority` and, where there is
/// one, `path_and_query`. The contract names the outcome [`uri_assembles`] and
/// adds one fact that `Uri::from_parts` shows: with a scheme set, a URI
/// without a path-and-query is refused.
#[verifier::external_body]
pub(crate) fn build_uri(scheme: &str, authority: &str, path_and_query: Option<&str>) -> (built:
    Result<Uri, http::Error>)
    ensures
        built is Ok <==> uri_assembles(
            scheme@,
            authority@,
            match path_and_query {
                Some(p) => Some(p@),
                None => None,
            },
        ),
        path_and_query is None ==> built is Err,
{
    let builder = Uri::builder().scheme(scheme).authority(authority);
    match path_and_query {
        Some(p) => builder.path_and_query(p).build(),
        None => builder.build(),
    }
}

/// The `Display` text of an `http::Error`. Nothing is claimed of the text.
#[verifier::external_body]
pub(crate) fn error_text(error: &http::Error) -> (text: String) {
    error.to_string()
}

/// `HeaderMap::get` with a name given as text: the first value stored under
/// `name`, or `None` where the map has no such name. `http` folds the name to
/// lower case before it looks; `requires` keeps to names that it stores as
/// they are written.
#[verifier::external_body]
pub(crate) fn first_value<'a>(map: &'a HeaderMap<HeaderValue>, name: &str) -> (found: Option<
    &'a HeaderValue,
>)
    requires
        is_plain_name(name@),
    ensures
        found is Some <==> header_values(*map).contains_key(name@),
        found matches Some(value) ==> value_bytes(*value) == header_values(*map)[name@][0],
{
    map.get(name)
}

/// `HeaderValue::to_str`: the value as text where all its bytes are visible
/// ASCII, and `None` where one is not.
#[verifier::external_body]
pub(crate) fn value_text(value: &HeaderValue) -> (text: Option<String>)
    ensures
        text is Some <==> is_header_text(value_bytes(*value)),
        text matches Some(s) ==> s@ == text_of(value_bytes(*value)),
{
    value.to_str().ok().map(String::from)
}

/// `HeaderValue::from_static`: the header value that holds the bytes of a
/// text. The function panics on a byte that is not visible ASCII; `requires`
/// keeps to printable ASCII.
#[verifier::external_body]
pub(crate) fn static_value(text: &'static str) -> (value: HeaderValue)
    requires
        is_plain_text(text@),
    ensures
        value_bytes(value) == bytes_of(text@),
{
    HeaderValue::from_static(text)
}

/// `HeaderMap::try_insert` with a name given as text: on success `name`
/// carries `value` alone and every other name keeps what it had; when the map
/// has reached its size limit nothing changes. A map that [`has_room`] takes
/// the value; of a fuller one the contract leaves open which of the two
/// happens, since that depends on what the map has allocated. The function
/// panics on a text that is no header name; `requires` keeps to names of
/// lower-case letters and hyphens.
#[verifier::external_body]
pub(crate) fn replace_header(
    map: &mut HeaderMap<HeaderValue>,
    name: &'static str,
    value: HeaderValue,
) -> (done: bool)
    requires
        is_plain_name(name@),
    ensures
        done ==> header_values(*final(map)) == header_values(*old(map)).insert(
            name@,
            seq![value_bytes(value)],
        ),
        !done ==> header_values(*final(map)) == header_values(*old(map)),
        has_room(header_values(*old(map))) ==> done,
{
    map.try_insert(name, value).is_ok()
}

} // verus!
