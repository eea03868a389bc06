//! Resolution of a category to the address of its endpoint.
//!
//! The address is formed by the `url` crate: the fixed base is parsed and the
//! segments of the category are appended to its path.

use vstd::prelude::*;
use crate::error::{malformed_address, missing_item_id, HackerNewsApiError};
use crate::story_type::StoryType;
use crate::text::{decimal, ends_with, lemma_decimal_len, lemma_digit_count_u64, to_decimal};

verus! {

/// The address under which the service publishes every endpoint.
pub const BASE_URL: &'static str = "https://hacker-news.firebaseio.com/v0";

/// The text of [`BASE_URL`].
pub open spec fn base_url() -> Seq<char> {
    "https://hacker-news.firebaseio.com/v0"@
}

/// The extension that every endpoint carries.
pub open spec fn json_suffix() -> Seq<char> {
    ".json"@
}

/// The serialisation of the address that results when `base` is parsed and
/// `segments` are appended to its path, or `None` where `base` does not parse
/// or its path cannot take segments.
pub uninterp spec fn url_with_segments(base: Seq<char>, segments: Seq<Seq<char>>) -> Option<Seq<char>>;

/// The texts of a list of strings.
pub open spec fn texts(strings: Seq<String>) -> Seq<Seq<char>> {
    Seq::new(strings.len(), |i: int| strings[i]@)
}

/// A character that an address carries in a path segment as it is.
pub open spec fn is_plain_char(c: char) -> bool {
    ('a' <= c && c <= 'z') || ('A' <= c && c <= 'Z') || ('0' <= c && c <= '9') || c == '.'
}

/// A segment that is appended to a path as it is: not empty, made of letters,
/// digits and dots, and neither of the two dot segments.
pub open spec fn is_plain_segment(segment: Seq<char>) -> bool {
    &&& segment.len() > 0
    &&& forall|i: int| 0 <= i < segment.len() ==> is_plain_char(#[trigger] segment[i])
    &&& segment != seq!['.']
    &&& segment != seq!['.', '.']
}

/// Whether `text` is free of the two characters that end the path of an
/// address.
pub open spec fn has_no_query_or_fragment(text: Seq<char>) -> bool {
    forall|i: int| 0 <= i < text.len() ==> #[trigger] text[i] != '?' && text[i] != '#'
}

/// The segments, each behind a slash.
pub open spec fn joined_path(segments: Seq<Seq<char>>) -> Seq<char>
    decreases segments.len(),
{
    if segments.len() == 0 {
        Seq::empty()
    } else {
        joined_path(segments.drop_last()) + seq!['/'] + segments.last()
    }
}

/// Calls `url::Url::parse` on `base`, appends `segments` to the path of the
/// parsed address with `Url::path_segments_mut` and `PathSegmentsMut::extend`,
/// and returns the serialisation that `Url::to_string` gives.
///
/// Trusted: the result is `None` where the base does not parse or cannot be a
/// base, and otherwise the text named by [`url_with_segments`]. Of that text
/// one fact is claimed: where the base holds neither `?` nor `#`, so that
/// nothing follows the path, and every segment is plain, so that none is
/// skipped or percent-encoded, the text ends with the segments, each behind a
/// slash.
#[verifier::external_body]
fn extend_path(base: &str, segments: &Vec<String>) -> (out: Option<String>)
    requires
        base@.len() <= 1024,
        segments@.len() <= 16,
        forall|i: int| 0 <= i < segments@.len() ==> (#[trigger] segments@[i])@.len() <= 256,
    ensures
        out.is_some() == url_with_segments(base@, texts(segments@)).is_some(),
        out matches Some(s) ==> Some(s@) == url_with_segments(base@, texts(segments@)),
        out matches Some(s) ==> (has_no_query_or_fragment(base@) && (forall|i: int|
            0 <= i < segments@.len() ==> is_plain_segment((#[trigger] segments@[i])@)) ==> ends_with(
            s@,
            joined_path(texts(segments@)),
        )),
{
    let mut url = url::Url::parse(base).ok()?;
    url.path_segments_mut().ok()?.extend(segments);
    Some(url.to_string())
}

/// The path segments of the endpoint of `category`: the category's name with
/// the extension for a feed; for an item, its segment and then the id with
/// the extension. An item without an id has no endpoint.
pub open spec fn request_segments(category: StoryType, id: Option<u64>) -> Option<Seq<Seq<char>>> {
    match category {
        StoryType::Item => match id {
            Some(n) => Some(seq![category.segment(), decimal(n as nat) + json_suffix()]),
            None => None,
        },
        _ => Some(seq![category.segment() + json_suffix()]),
    }
}

/// What [`resolve`] returns, given what the `url` crate makes of each base and
/// segments.
pub open spec fn resolved(category: StoryType, id: Option<u64>) -> Result<Seq<char>, Seq<char>> {
    match request_segments(category, id) {
        None => Err(missing_item_id()),
        Some(segments) => match url_with_segments(base_url(), segments) {
            Some(address) => Ok(address),
            None => Err(malformed_address()),
        },
    }
}

/// Whether `out` is the address or the refusal that `expected` describes.
pub open spec fn is_resolution(
    out: Result<String, HackerNewsApiError>,
    expected: Result<Seq<char>, Seq<char>>,
) -> bool {
    match expected {
        Ok(address) => out matches Ok(s) && s@ == address,
        Err(reason) => out matches Err(HackerNewsApiError::BadRequest(r)) && r@ == reason,
    }
}

/// The end of the address of `category`: a slash, the feed's name and the
/// extension; for an item, `/item/`, the id and the extension.
pub open spec fn endpoint_suffix(category: StoryType, id: Option<u64>) -> Seq<char> {
    match request_segments(category, id) {
        Some(segments) => joined_path(segments),
        None => Seq::empty(),
    }
}

/// The base address holds no `?` and no `#`.
proof fn lemma_base_has_no_query()
    ensures
        has_no_query_or_fragment(base_url()),
        base_url().len() == 37,
{
    reveal_strlit("https://hacker-news.firebaseio.com/v0");
}

/// Every numeral is made of digits.
proof fn lemma_decimal_plain(n: nat)
    ensures
        decimal(n).len() > 0,
        forall|i: int| 0 <= i < decimal(n).len() ==> is_plain_char(#[trigger] decimal(n)[i]),
        forall|i: int| 0 <= i < decimal(n).len() ==> #[trigger] decimal(n)[i] != '.',
    decreases n,
{
    if n >= 10 {
        lemma_decimal_plain(n / 10);
    }
}

/// The name of every category is made of lower-case letters and is at most
/// eleven characters long.
proof fn lemma_segment_plain(category: StoryType)
    ensures
        0 < category.segment().len() <= 11,
        forall|i: int|
            0 <= i < category.segment().len() ==> 'a' <= (#[trigger] category.segment()[i]) <= 'z',
{
    reveal_strlit("topstories");
    reveal_strlit("newstories");
    reveal_strlit("beststories");
    reveal_strlit("askstories");
    reveal_strlit("showstories");
    reveal_strlit("jobstories");
    reveal_strlit("item");
}

/// A name that is not empty and holds no dot, followed by the extension, is a
/// plain segment.
proof fn lemma_with_suffix_plain(name: Seq<char>)
    requires
        name.len() > 0,
        forall|i: int| 0 <= i < name.len() ==> is_plain_char(#[trigger] name[i]),
        forall|i: int| 0 <= i < name.len() ==> #[trigger] name[i] != '.',
    ensures
        is_plain_segment(name + json_suffix()),
        (name + json_suffix()).len() == name.len() + 5,
{
    reveal_strlit(".json");
    let whole = name + json_suffix();
    assert(whole[0] == name[0]);
    assert forall|i: int| 0 <= i < whole.len() implies is_plain_char(#[trigger] whole[i]) by {
        if i < name.len() {
            assert(whole[i] == name[i]);
        } else {
            assert(whole[i] == json_suffix()[i - name.len()]);
        }
    }
}

/// The end of the address of a feed is a slash, the feed's name and the
/// extension, with nothing behind it; the end of the address of an item is
/// `/item/`, the id as a decimal numeral and the extension.
pub proof fn lemma_endpoint_suffix(category: StoryType, id: Option<u64>)
    ensures
        category.is_list() ==> endpoint_suffix(category, id) == seq!['/'] + category.segment()
            + json_suffix(),
        category == StoryType::Item && id.is_some() ==> endpoint_suffix(category, id) == seq!['/']
            + StoryType::Item.segment() + seq!['/'] + decimal(id.unwrap() as nat) + json_suffix(),
        category == StoryType::Item && id.is_none() ==> request_segments(category, id).is_none(),
{
    reveal_with_fuel(joined_path, 3);
    if request_segments(category, id).is_some() {
        let segments = request_segments(category, id).unwrap();
        if category == StoryType::Item {
            assert(segments.drop_last() =~= seq![category.segment()]);
            assert(segments.drop_last().drop_last() =~= Seq::<Seq<char>>::empty());
            assert(joined_path(segments) =~= seq!['/'] + StoryType::Item.segment() + seq!['/']
                + decimal(id.unwrap() as nat) + json_suffix());
        } else {
            assert(segments.drop_last() =~= Seq::<Seq<char>>::empty());
            assert(joined_path(segments) =~= seq!['/'] + category.segment() + json_suffix());
        }
    }
}

/// The path segments of the endpoint of `category`, as [`request_segments`]
/// gives them: `None` for an item without an id. A feed ignores an id that is
/// given. Every segment is plain and short.
pub fn endpoint_segments(category: StoryType, id: Option<u64>) -> (out: Option<Vec<String>>)
    ensures
        out.is_some() == request_segments(category, id).is_some(),
        out matches Some(segments) ==> Some(texts(segments@)) == request_segments(category, id),
        out matches Some(segments) ==> segments@.len() <= 2 && forall|i: int|
            0 <= i < segments@.len() ==> is_plain_segment((#[trigger] segments@[i])@)
                && segments@[i]@.len() <= 32,
{
    let mut segments: Vec<String> = Vec::new();
    proof {
        lemma_segment_plain(category);
    }
    match category {
        StoryType::Item => match id {
            Some(n) => {
                segments.push(category.to_string());
                let mut name = to_decimal(n);
                name.append(".json");
                segments.push(name);
                proof {
                    lemma_decimal_plain(n as nat);
                    lemma_decimal_len(n as nat);
                    lemma_digit_count_u64(n);
                    lemma_with_suffix_plain(decimal(n as nat));
                    assert(category.segment()[0] != '.');
                    assert(is_plain_segment(category.segment()));
                }
            },
            None => {
                return None;
            },
        },
        _ => {
            let mut name = category.to_string();
            name.append(".json");
            segments.push(name);
            proof {
                lemma_with_suffix_plain(category.segment());
            }
        },
    }
    assert(texts(segments@) =~= request_segments(category, id).unwrap());
    Some(segments)
}

/// The outcome of a resolution once the address was formed, or was not: the
/// address as it is, or the refusal that says that none could be formed.
pub fn address_or_refusal(formed: Option<String>) -> (out: Result<String, HackerNewsApiError>)
    ensures
        match formed {
            Some(address) => out == Ok::<String, HackerNewsApiError>(address),
            None => out matches Err(HackerNewsApiError::BadRequest(r)) && r@
                == malformed_address(),
        },
{
    match formed {
        Some(address) => Ok(address),
        None => Err(
            HackerNewsApiError::BadRequest("The address of the service could not be formed"),
        ),
    }
}

/// The address of the endpoint of `category`.
///
/// A feed needs no id and ignores one that is given. An item needs its id:
/// without one the request is refused. The address itself is formed by the
/// `url` crate from [`BASE_URL`] and [`request_segments`]; should it fail to
/// form one, the request is refused too. An address that is returned ends
/// with [`endpoint_suffix`]: for a feed with a slash, its name and `.json`,
/// and nothing behind it.
pub fn resolve(category: StoryType, id: Option<u64>) -> (out: Result<String, HackerNewsApiError>)
    ensures
        is_resolution(out, resolved(category, id)),
        category == StoryType::Item && id.is_none() ==> out.is_err(),
        out matches Ok(s) ==> ends_with(s@, endpoint_suffix(category, id)),
        category.is_list() ==> (out matches Ok(s) ==> ends_with(
            s@,
            seq!['/'] + category.segment() + json_suffix(),
        )),
        category == StoryType::Item && id.is_some() ==> (out matches Ok(s) ==> ends_with(
            s@,
            seq!['/'] + StoryType::Item.segment() + seq!['/'] + decimal(id.unwrap() as nat)
                + json_suffix(),
        )),
{
    proof {
        lemma_endpoint_suffix(category, id);
    }
    match endpoint_segments(category, id) {
        Some(segments) => {
            proof {
                lemma_base_has_no_query();
            }
            address_or_refusal(extend_path(BASE_URL, &segments))
        },
        None => Err(HackerNewsApiError::BadRequest("An item lookup needs the id of the item")),
    }
}

} // verus!
