//! The HTTP headers of meetup.com's GraphQL API, and image URLs.
use vstd::prelude::*;

use url::Url;

verus! {

/// The headers that meetup.com's GraphQL endpoint expects, as (name, value).
pub open spec fn gql_header_pairs() -> Seq<(Seq<char>, Seq<char>)> {
    seq![
        ("Content-Type"@, "application/json"@),
        ("apollographql-client-name"@, "nextjs-web"@),
        ("X-Meetup-View-Id"@, "06d05ba6-629d-4763-87a0-6879ac4620c4"@),
        ("Origin"@, "https://www.meetup.com"@),
    ]
}

/// The headers of every request to meetup.com's GraphQL endpoint, in order.
pub fn get_gql_headers() -> (headers: Vec<(String, String)>)
    ensures
        headers@.len() == gql_header_pairs().len(),
        forall|i: int|
            0 <= i < headers@.len() ==> (#[trigger] headers@[i]).0@ == gql_header_pairs()[i].0
                && headers@[i].1@ == gql_header_pairs()[i].1,
{
    let mut headers: Vec<(String, String)> = Vec::new();
    headers.push(("Content-Type".to_owned(), "application/json".to_owned()));
    headers.push(("apollographql-client-name".to_owned(), "nextjs-web".to_owned()));
    // Should probably get this afresh on every hit
    headers.push(
        ("X-Meetup-View-Id".to_owned(), "06d05ba6-629d-4763-87a0-6879ac4620c4".to_owned()),
    );
    headers.push(("Origin".to_owned(), "https://www.meetup.com".to_owned()));
    headers
}

/// `url::Url`: a parsed URL.
#[verifier::external_type_specification]
#[verifier::external_body]
pub struct ExUrl(Url);

/// The serialization of a URL, as `Url::as_str` returns it.
pub uninterp spec fn url_text(u: Url) -> Seq<char>;

/// The serialization of the URL `url` once `Url::set_path(path)` has run on it.
pub uninterp spec fn url_with_path(url: Seq<char>, path: Seq<char>) -> Seq<char>;

/// The serialization of the URL `url` once
/// `Url::query_pairs_mut().append_pair(name, value)` has run on it.
pub uninterp spec fn url_with_query_pair(url: Seq<char>, name: Seq<char>, value: Seq<char>) -> Seq<
    char,
>;

/// `Url::as_str`: the URL's serialization.
#[verifier::external_body]
pub(crate) fn url_as_str(u: &Url) -> (s: &str)
    ensures
        s@ == url_text(*u),
{
    u.as_str()
}

/// `Url::clone`: a copy of the URL.
#[verifier::external_body]
fn url_clone(u: &Url) -> (c: Url)
    ensures
        url_text(c) == url_text(*u),
{
    u.clone()
}

/// `Url::set_path`: replaces the URL's path with `path`, percent-encoded
/// where it is not already. The URL keeps its query and fragment. Each
/// character of `path` turns into at most 12 characters of the serialization
/// (4 UTF-8 bytes, each percent-encoded), and a leading `/` may be added; the
/// serialization must stay under 4 GiB, where `url` panics.
#[verifier::external_body]
fn url_set_path(u: &mut Url, path: &str)
    requires
        url_text(*old(u)).len() + 12 * path@.len() + 1 < 0x1_0000_0000,
    ensures
        url_text(*final(u)) == url_with_path(url_text(*old(u)), path@),
        url_text(*final(u)).len() <= url_text(*old(u)).len() + 12 * path@.len() + 1,
{
    u.set_path(path);
}

/// `Url::query_pairs_mut().append_pair`: appends `name=value` to the URL's
/// query, both form-urlencoded, after a `?` or `&`. Each character of `name`
/// or `value` turns into at most 12 characters of the serialization; the
/// serialization must stay under 4 GiB, where `url` panics.
#[verifier::external_body]
fn url_append_query_pair(u: &mut Url, name: &str, value: &str)
    requires
        url_text(*old(u)).len() + 12 * (name@.len() + value@.len()) + 3 < 0x1_0000_0000,
    ensures
        url_text(*final(u)) == url_with_query_pair(url_text(*old(u)), name@, value@),
        url_text(*final(u)).len() <= url_text(*old(u)).len() + 12 * (name@.len() + value@.len())
            + 3,
{
    u.query_pairs_mut().append_pair(name, value);
}

/// Bytes that percent-encoding leaves as they are: ASCII letters and digits,
/// `-`, `.`, `_` and `~`.
pub open spec fn is_unreserved_byte(b: u8) -> bool {
    ||| 0x30 <= b <= 0x39
    ||| 0x41 <= b <= 0x5A
    ||| 0x61 <= b <= 0x7A
    ||| b == 0x2D
    ||| b == 0x2E
    ||| b == 0x5F
    ||| b == 0x7E
}

/// An upper-case hexadecimal digit.
pub open spec fn hex_digit(d: u8) -> char {
    if d < 10 {
        (0x30 + d) as char
    } else {
        (0x41 + d - 10) as char
    }
}

/// Percent-encoding of bytes: each byte that is not unreserved becomes `%`
/// and its two upper-case hexadecimal digits.
pub open spec fn percent_encode_bytes(bytes: Seq<u8>) -> Seq<char>
    decreases bytes.len(),
{
    if bytes.len() == 0 {
        Seq::empty()
    } else {
        let b = bytes[0];
        (if is_unreserved_byte(b) {
            seq![b as char]
        } else {
            seq!['%', hex_digit(b / 16), hex_digit(b % 16)]
        }) + percent_encode_bytes(bytes.drop_first())
    }
}

/// `urlencoding::encode`: the UTF-8 bytes of `data`, percent-encoded.
#[verifier::external_body]
pub(crate) fn percent_encode(data: &str) -> (s: String)
    ensures
        s@ == percent_encode_bytes(vstd::utf8::encode_utf8(data@)),
{
    urlencoding::encode(data).into_owned()
}

/// What building an image URL asks of the `url` crate: the base URL `base`,
/// the id `id` and the percent-encoded base URL `encoded` are short enough
/// that every step of the build keeps the URL under 4 GiB, where `url`
/// panics.
pub open spec fn image_url_fits(base: Seq<char>, id: Seq<char>, encoded: Seq<char>) -> bool {
    base.len() + 12 * id.len() + 12 * encoded.len() + 154 < 0x1_0000_0000
}

/// The URL of an image on meetup.com's image server: `base_url` with the
/// image id as its path, asking for the image 1920 pixels wide at full
/// quality.
pub open spec fn meetup_image_url_text(base_url: Seq<char>, base_url_encoded: Seq<char>, id: Seq<
    char,
>) -> Seq<char> {
    url_with_query_pair(
        url_with_query_pair(
            url_with_query_pair(url_with_path(base_url, id), "url"@, base_url_encoded),
            "w"@,
            "1920"@,
        ),
        "q"@,
        "100"@,
    )
}

/// For some entities, meetup.com sends an image ID and a base url instead of
/// the image url itself. This builds a consistent, downloadable image URL from
/// them: the id becomes the path, and the query carries the base URL
/// (percent-encoded), the width 1920 and the quality 100.
pub fn make_meetup_image_url(base_url: &Url, id: &str) -> (url: Url)
    requires
        image_url_fits(
            url_text(*base_url),
            id@,
            percent_encode_bytes(vstd::utf8::encode_utf8(url_text(*base_url))),
        ),
    ensures
        url_text(url) == meetup_image_url_text(
            url_text(*base_url),
            percent_encode_bytes(vstd::utf8::encode_utf8(url_text(*base_url))),
            id@,
        ),
{
    let mut url = url_clone(base_url);
    url_set_path(&mut url, id);
    let base = url_as_str(base_url);
    let encoded = percent_encode(base);
    proof {
        reveal_strlit("url");
        reveal_strlit("w");
        reveal_strlit("1920");
        reveal_strlit("q");
        reveal_strlit("100");
    }
    url_append_query_pair(&mut url, "url", encoded.as_str());
    url_append_query_pair(&mut url, "w", "1920");
    url_append_query_pair(&mut url, "q", "100");
    url
}

/// The image URL is the base URL with the id as its path and three query
/// pairs appended in order: `url` (the percent-encoded base URL), `w=1920`
/// and `q=100`.
pub proof fn law_image_url_path_and_query(base_url: Seq<char>, encoded: Seq<char>, id: Seq<char>)
    ensures
        meetup_image_url_text(base_url, encoded, id) == url_with_query_pair(
            url_with_query_pair(
                url_with_query_pair(url_with_path(base_url, id), "url"@, encoded),
                "w"@,
                "1920"@,
            ),
            "q"@,
            "100"@,
        ),
{
}

} // verus!
