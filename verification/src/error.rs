//! The failures that the gateway reports to its callers.

use vstd::prelude::*;
use crate::number::{decimal, push_decimal};
use crate::text::{chars_of, extend_chars, string_of, string_views};

verus! {

/// Why a request could not be served.
#[derive(Debug, PartialEq, Eq)]
pub enum Error {
    /// The URL does not start with `ipfs://`.
    NotIpfsUrl { url: String },
    /// The first path segment of the URL is not a content identifier.
    InvalidCid { url: String },
    /// A gateway announced a body larger than the configured maximum.
    /// Nothing was downloaded.
    DeclaredTooLarge { size: u64, limit: u64 },
    /// The stored body turned out larger than the configured maximum.
    /// The cache entry was removed again.
    StoredTooLarge { size: u64, limit: u64 },
    /// No gateway answered with a success; `urls` lists what was tried.
    AllGatewaysFailed { urls: Vec<String> },
    /// The requested output dimensions are not on the whitelist.
    DimensionNotAllowed,
    /// Writing the cache entry failed.
    CacheIo { detail: String },
    /// Recording the entry in the object store failed.
    ObjectStore { detail: String },
    /// A global trace subscriber had been installed before.
    SubscriberAlreadySet,
    /// A step of the fetch could not be carried out.
    Interrupted { detail: String },
    /// The derived image or video could not be made.
    Transcode { detail: String },
    /// The driver reported something that the fetch was not waiting for.
    UnexpectedEvent,
}

/// What an [`Error`] holds, with every string taken by its view.
pub enum ErrorView {
    NotIpfsUrl { url: Seq<char> },
    InvalidCid { url: Seq<char> },
    DeclaredTooLarge { size: u64, limit: u64 },
    StoredTooLarge { size: u64, limit: u64 },
    AllGatewaysFailed { urls: Seq<Seq<char>> },
    DimensionNotAllowed,
    CacheIo { detail: Seq<char> },
    ObjectStore { detail: Seq<char> },
    SubscriberAlreadySet,
    Interrupted { detail: Seq<char> },
    Transcode { detail: Seq<char> },
    UnexpectedEvent,
}

impl View for Error {
    type V = ErrorView;

    open spec fn view(&self) -> ErrorView {
        match *self {
            Error::NotIpfsUrl { url } => ErrorView::NotIpfsUrl { url: url@ },
            Error::InvalidCid { url } => ErrorView::InvalidCid { url: url@ },
            Error::DeclaredTooLarge { size, limit } => ErrorView::DeclaredTooLarge { size, limit },
            Error::StoredTooLarge { size, limit } => ErrorView::StoredTooLarge { size, limit },
            Error::AllGatewaysFailed { urls } => ErrorView::AllGatewaysFailed {
                urls: crate::text::string_views(urls@),
            },
            Error::DimensionNotAllowed => ErrorView::DimensionNotAllowed,
            Error::CacheIo { detail } => ErrorView::CacheIo { detail: detail@ },
            Error::ObjectStore { detail } => ErrorView::ObjectStore { detail: detail@ },
            Error::SubscriberAlreadySet => ErrorView::SubscriberAlreadySet,
            Error::Interrupted { detail } => ErrorView::Interrupted { detail: detail@ },
            Error::Transcode { detail } => ErrorView::Transcode { detail: detail@ },
            Error::UnexpectedEvent => ErrorView::UnexpectedEvent,
        }
    }
}

/// What `{:?}` prints for a list of strings: the items in square brackets,
/// separated by `, `, each in double quotes with the characters escaped that
/// `str`'s `Debug` escapes.
pub uninterp spec fn debug_listing(items: Seq<Seq<char>>) -> Seq<char>;

/// Formats a list of strings with `{:?}`.
#[verifier::external_body]
fn debug_list(items: &Vec<String>) -> (text: String)
    ensures
        text@ == debug_listing(string_views(items@)),
{
    format!("{:?}", items)
}

/// The text that tells a caller what went wrong.
pub open spec fn message_of(e: ErrorView) -> Seq<char> {
    match e {
        ErrorView::NotIpfsUrl { url } => "Not an IPFS URL: "@ + url,
        ErrorView::InvalidCid { url } => "CID is invalid for "@ + url,
        ErrorView::DeclaredTooLarge { size, limit } => "File is "@ + decimal(size as nat)
            + " bytes, maximum allowed is "@ + decimal(limit as nat),
        ErrorView::StoredTooLarge { size, limit } => "File is "@ + decimal(size as nat)
            + " bytes, maximum allowed is "@ + decimal(limit as nat)
            + ". Fetched and deleting cached file."@,
        ErrorView::AllGatewaysFailed { urls } => "Couldn't fetch any url: "@ + debug_listing(urls),
        ErrorView::DimensionNotAllowed => "Requested dimensions are not allowed"@,
        ErrorView::CacheIo { detail } => detail,
        ErrorView::ObjectStore { detail } => detail,
        ErrorView::SubscriberAlreadySet => "Failed to set subscriber"@,
        ErrorView::Interrupted { detail } => detail,
        ErrorView::Transcode { detail } => detail,
        ErrorView::UnexpectedEvent => "Unexpected event"@,
    }
}

/// `"File is <size> bytes, maximum allowed is <limit>"`, as characters.
fn size_message(size: u64, limit: u64) -> (out: Vec<char>)
    ensures
        out@ == "File is "@ + decimal(size as nat) + " bytes, maximum allowed is "@ + decimal(
            limit as nat,
        ),
{
    let mut out = chars_of("File is ");
    push_decimal(&mut out, size);
    extend_chars(&mut out, &chars_of(" bytes, maximum allowed is "));
    push_decimal(&mut out, limit);
    out
}

impl Error {
    /// The text that tells a caller what went wrong.
    pub fn message(&self) -> (text: String)
        ensures
            text@ == message_of(self@),
    {
        match self {
            Error::NotIpfsUrl { url } => {
                let mut out = chars_of("Not an IPFS URL: ");
                extend_chars(&mut out, &chars_of(url.as_str()));
                string_of(&out)
            },
            Error::InvalidCid { url } => {
                let mut out = chars_of("CID is invalid for ");
                extend_chars(&mut out, &chars_of(url.as_str()));
                string_of(&out)
            },
            Error::DeclaredTooLarge { size, limit } => string_of(&size_message(*size, *limit)),
            Error::StoredTooLarge { size, limit } => {
                let mut out = size_message(*size, *limit);
                extend_chars(&mut out, &chars_of(". Fetched and deleting cached file."));
                string_of(&out)
            },
            Error::AllGatewaysFailed { urls } => {
                let mut out = chars_of("Couldn't fetch any url: ");
                let listing = debug_list(urls);
                extend_chars(&mut out, &chars_of(listing.as_str()));
                string_of(&out)
            },
            Error::DimensionNotAllowed => "Requested dimensions are not allowed".to_owned(),
            Error::CacheIo { detail } => detail.clone(),
            Error::ObjectStore { detail } => detail.clone(),
            Error::SubscriberAlreadySet => "Failed to set subscriber".to_owned(),
            Error::Interrupted { detail } => detail.clone(),
            Error::Transcode { detail } => detail.clone(),
            Error::UnexpectedEvent => "Unexpected event".to_owned(),
        }
    }
}

} // verus!
