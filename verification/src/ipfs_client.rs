//! URL validation and the coordinator that fetches an object on a cache miss.

use vstd::prelude::*;
use crate::error::{Error, ErrorView};
use crate::fetch::{Fetch, FetchStateView, FetchView};
use crate::text::{chars_of, find_char, has_prefix, index_of, slice_of, starts_with, string_of};

verus! {

/// The scheme that every accepted URL begins with: `ipfs://`.
pub open spec fn scheme() -> Seq<char> {
    seq!['i', 'p', 'f', 's', ':', '/', '/']
}

/// The URL without its scheme.
pub open spec fn base_uri_of(url: Seq<char>) -> Seq<char> {
    url.skip(scheme().len() as int)
}

/// The first `/`-delimited segment of a base URI: where the content
/// identifier stands.
pub open spec fn cid_segment(base_uri: Seq<char>) -> Seq<char> {
    base_uri.take(index_of(base_uri, '/'))
}

/// Whether `cid::Cid::try_from` accepts `text` as a content identifier.
pub uninterp spec fn cid_parses(text: Seq<char>) -> bool;

/// A URL is valid when it starts with the scheme and the first segment of
/// what follows is not empty and is a content identifier.
pub open spec fn valid_ipfs_url(url: Seq<char>) -> bool {
    &&& starts_with(url, scheme())
    &&& cid_segment(base_uri_of(url)).len() > 0
    &&& cid_parses(cid_segment(base_uri_of(url)))
}

/// Calls `cid::Cid::try_from` on a `String` and reports whether it returned
/// `Ok`. The outcome depends on the text alone: the crate decodes the
/// multibase (or base58 for version 0) text and reads version, codec and
/// multihash from the bytes.
#[verifier::external_body]
fn parses_as_cid(text: &str) -> (ok: bool)
    ensures
        ok == cid_parses(text@),
{
    cid::Cid::try_from(text.to_string()).is_ok()
}

/// The URL without the leading `ipfs://`, or `None` when it has another
/// beginning.
pub fn strip_scheme(ipfs_url: &str) -> (base_uri: Option<String>)
    ensures
        base_uri is Some <==> starts_with(ipfs_url@, scheme()),
        base_uri matches Some(b) ==> b@ == base_uri_of(ipfs_url@),
{
    let url = chars_of(ipfs_url);
    let prefix = chars_of("ipfs://");
    proof {
        reveal_strlit("ipfs://");
        assert(prefix@ =~= scheme());
    }
    if has_prefix(&url, &prefix) {
        let rest = slice_of(&url, prefix.len(), url.len());
        Some(string_of(&rest))
    } else {
        None
    }
}

/// The first `/`-delimited segment of `base_uri`.
pub fn first_segment(base_uri: &str) -> (segment: String)
    ensures
        segment@ == cid_segment(base_uri@),
{
    let base = chars_of(base_uri);
    let end = find_char(&base, '/');
    proof {
        crate::text::lemma_index_of_bounds(base@, '/');
    }
    let first = slice_of(&base, 0, end);
    string_of(&first)
}

/// Judges a URL that has the scheme, given whether its first segment was
/// found to be a content identifier: the base URI for a URL whose first
/// segment is one and is not empty, else the refusal of the URL.
pub fn validated(ipfs_url: &str, base_uri: String, segment_is_cid: bool) -> (result: Result<
    String,
    Error,
>)
    ensures
        result is Ok <==> segment_is_cid && cid_segment(base_uri@).len() > 0,
        result matches Ok(accepted) ==> accepted@ == base_uri@,
        result matches Err(e) ==> e@ == (ErrorView::InvalidCid { url: ipfs_url@ }),
{
    let first = first_segment(base_uri.as_str());
    if segment_is_cid && first.as_str().unicode_len() > 0 {
        Ok(base_uri)
    } else {
        Err(Error::InvalidCid { url: ipfs_url.to_owned() })
    }
}

/// Checks that `ipfs_url` has the form `ipfs://<CID>[/path]` and returns its
/// base URI, the URL without the scheme.
pub fn check_ipfs_url(ipfs_url: &str) -> (result: Result<String, Error>)
    ensures
        result is Ok <==> valid_ipfs_url(ipfs_url@),
        result matches Ok(base_uri) ==> base_uri@ == base_uri_of(ipfs_url@),
        result matches Err(e) ==> e@ == rejection(ipfs_url@),
{
    match strip_scheme(ipfs_url) {
        None => Err(Error::NotIpfsUrl { url: ipfs_url.to_owned() }),
        Some(base_uri) => {
            let first = first_segment(base_uri.as_str());
            let segment_is_cid = parses_as_cid(first.as_str());
            validated(ipfs_url, base_uri, segment_is_cid)
        },
    }
}

/// The error that an invalid URL is rejected with.
pub open spec fn rejection(url: Seq<char>) -> ErrorView {
    if starts_with(url, scheme()) {
        ErrorView::InvalidCid { url }
    } else {
        ErrorView::NotIpfsUrl { url }
    }
}

/// Begins the fetch of `ipfs_url`. An invalid URL fails at once, before any
/// I/O; for a valid one the caller drives the returned [`Fetch`] step by
/// step, starting with `FetchEvent::Started`.
pub fn fetch_ipfs_data(ipfs_url: &str) -> (result: Result<Fetch, Error>)
    ensures
        result is Ok <==> valid_ipfs_url(ipfs_url@),
        result matches Ok(fetch) ==> fetch@ == (FetchView {
            ipfs_url: ipfs_url@,
            base_uri: base_uri_of(ipfs_url@),
            state: FetchStateView::Idle,
        }),
        result matches Err(e) ==> e@ == rejection(ipfs_url@),
{
    match check_ipfs_url(ipfs_url) {
        Err(e) => Err(e),
        Ok(base_uri) => Ok(Fetch::new(ipfs_url.to_owned(), base_uri)),
    }
}

} // verus!
