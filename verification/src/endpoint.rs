//! RPC endpoint URLs, parsed and extended by the `url` crate.

use vstd::prelude::*;

verus! {

#[verifier::external_type_specification]
#[verifier::external_body]
pub struct ExUrl(::url::Url);

/// What `url::Url::parse` makes of a text: on success the URL's
/// serialization, its scheme and whether it cannot be a base; on failure the
/// text of the parse error.
pub uninterp spec fn url_parse(input: Seq<char>) -> Result<(Seq<char>, Seq<char>, bool), Seq<char>>;

/// The URL that `url` makes of the URL serialized as `base` by removing one
/// trailing empty path segment, if any (`PathSegmentsMut::pop_if_empty`):
/// its serialization, scheme and whether it cannot be a base.
pub uninterp spec fn url_pop_if_empty(base: Seq<char>) -> (Seq<char>, Seq<char>, bool);

/// The URL that `url` makes of the URL serialized as `base` by appending
/// `segment`, percent-encoded, as a path segment (`PathSegmentsMut::push`):
/// its serialization, scheme and whether it cannot be a base.
pub uninterp spec fn url_push_segment(base: Seq<char>, segment: Seq<char>) -> (
    Seq<char>,
    Seq<char>,
    bool,
);

/// An absolute URL, with the parts of it that the library reads. Values are
/// made only by the `url` calls below, so `href`, `scheme` and
/// `cannot_be_a_base` are always what `url` reports of `url`.
pub struct RpcUrl {
    url: ::url::Url,
    href: String,
    scheme: String,
    cannot_be_a_base: bool,
}

impl View for RpcUrl {
    /// The serialization, the scheme and whether the URL cannot be a base.
    type V = (Seq<char>, Seq<char>, bool);

    closed spec fn view(&self) -> Self::V {
        (self.href@, self.scheme@, self.cannot_be_a_base)
    }
}

/// Calls `url::Url::parse`. The contract names the outcome `url_parse` of the
/// input text; the serialization, scheme and base flag come from `as_str`,
/// `scheme` and `cannot_be_a_base` of the parsed URL, and the error text
/// from the `Display` of the parse error.
#[verifier::external_body]
fn url_parse_text(input: &str) -> (r: Result<RpcUrl, String>)
    ensures
        match r {
            Ok(u) => url_parse(input@) == Ok::<(Seq<char>, Seq<char>, bool), Seq<char>>(u@),
            Err(e) => url_parse(input@) == Err::<(Seq<char>, Seq<char>, bool), Seq<char>>(e@),
        },
{
    match ::url::Url::parse(input) {
        Ok(url) => Ok(
            RpcUrl {
                href: url.as_str().to_owned(),
                scheme: url.scheme().to_owned(),
                cannot_be_a_base: url.cannot_be_a_base(),
                url,
            },
        ),
        Err(error) => Err(error.to_string()),
    }
}

/// Calls `url::Url::path_segments_mut` on a copy of `base`, then
/// `pop_if_empty`. As the `url` source shows, `path_segments_mut` fails
/// exactly when the URL cannot be a base, and `pop_if_empty` never removes
/// the path's first `/`, so the result can still be a base. The contract
/// names the result `url_pop_if_empty` of the base's serialization (a
/// `url::Url` compares and behaves as its serialization).
#[verifier::external_body]
pub(crate) fn url_segments_pop_if_empty(base: &RpcUrl) -> (r: Option<RpcUrl>)
    ensures
        r is None <==> base@.2,
        r matches Some(u) ==> u@ == url_pop_if_empty(base@.0) && !u@.2,
{
    let mut url = base.url.clone();
    match url.path_segments_mut() {
        Ok(mut segments) => {
            segments.pop_if_empty();
        },
        Err(()) => return None,
    }
    let (href, scheme, cannot_be_a_base) = (url.as_str().to_owned(), url.scheme().to_owned(), url.cannot_be_a_base());
    Some(RpcUrl { url, href, scheme, cannot_be_a_base })
}

/// Calls `url::Url::path_segments_mut` on a copy of `base`, then
/// `push(segment)`. As the `url` source shows, `path_segments_mut` fails
/// exactly when the URL cannot be a base, and `push` only appends to the
/// path, so the result can still be a base. The contract names the result
/// `url_push_segment` of the base's serialization and the segment.
#[verifier::external_body]
pub(crate) fn url_segments_push(base: &RpcUrl, segment: &str) -> (r: Option<RpcUrl>)
    ensures
        r is None <==> base@.2,
        r matches Some(u) ==> u@ == url_push_segment(base@.0, segment@) && !u@.2,
{
    let mut url = base.url.clone();
    match url.path_segments_mut() {
        Ok(mut segments) => {
            segments.push(segment);
        },
        Err(()) => return None,
    }
    let (href, scheme, cannot_be_a_base) = (url.as_str().to_owned(), url.scheme().to_owned(), url.cannot_be_a_base());
    Some(RpcUrl { url, href, scheme, cannot_be_a_base })
}

/// Calls `url::Url::clone`, which is derived: the copy equals the original.
#[verifier::external_body]
fn url_clone(url: &::url::Url) -> (r: ::url::Url)
    ensures
        r == *url,
{
    url.clone()
}

impl RpcUrl {
    /// Parses an absolute URL.
    pub fn parse(input: &str) -> (r: Result<RpcUrl, String>)
        ensures
            match r {
                Ok(u) => url_parse(input@) == Ok::<(Seq<char>, Seq<char>, bool), Seq<char>>(u@),
                Err(e) => url_parse(input@) == Err::<(Seq<char>, Seq<char>, bool), Seq<char>>(e@),
            },
    {
        url_parse_text(input)
    }

    /// The URL's serialization.
    pub fn as_str(&self) -> (r: &str)
        ensures
            r@ == self@.0,
    {
        self.href.as_str()
    }

    /// The URL's scheme, lower case, without the `:`.
    pub fn scheme(&self) -> (r: &str)
        ensures
            r@ == self@.1,
    {
        self.scheme.as_str()
    }

    /// Whether the URL cannot be a base (has no path made of segments).
    pub fn cannot_be_a_base(&self) -> (r: bool)
        ensures
            r == self@.2,
    {
        self.cannot_be_a_base
    }

    /// The parsed `url::Url` that this value holds, whose serialization,
    /// scheme and base flag are `self@`.
    pub closed spec fn parsed_url(&self) -> ::url::Url {
        self.url
    }

    /// The parsed URL itself, for the HTTP layer.
    pub fn url(&self) -> (r: &::url::Url)
        ensures
            *r == self.parsed_url(),
    {
        &self.url
    }

    /// A copy of the URL.
    pub fn duplicate(&self) -> (r: RpcUrl)
        ensures
            r@ == self@,
            r.parsed_url() == self.parsed_url(),
    {
        RpcUrl {
            url: url_clone(&self.url),
            href: self.href.clone(),
            scheme: self.scheme.clone(),
            cannot_be_a_base: self.cannot_be_a_base,
        }
    }
}

} // verus!
