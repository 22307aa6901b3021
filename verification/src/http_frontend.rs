//! What the HTTP front end answers: which file, under which media type and
//! with which headers, or which refusal.

use vstd::prelude::*;
use crate::caching::{Data, DataView};
use crate::config::Settings;
use crate::error::{message_of, Error, ErrorView};
use crate::ipfs_client::scheme;
use crate::number::{decimal, push_decimal};
use crate::text::{chars_of, extend_chars, string_of};
use crate::transcoder::{
    image_answer, resize_image, served, transcoded, ImageInfo, ImageInfoView, Outcome,
    OutcomeView, Transcode, TranscodeView,
};

verus! {

/// The answer to a request for `/ipfs/<path>`, as far as the fetch decides
/// it.
#[derive(Debug, PartialEq, Eq)]
pub enum Reply {
    /// Status 400 with `body` as the explanation.
    BadRequest { body: String },
    /// The file that `transcode` names, once it is there: see [`deliver`].
    File { transcode: Transcode },
}

/// The answer to a request once the derived file, if one was asked for, has
/// been seen to.
#[derive(Debug, PartialEq, Eq)]
pub enum Delivery {
    /// Status 400 with `body` as the explanation.
    BadRequest { body: String },
    /// Status 200 with the file `filename`.
    Send { filename: String, content_type: String },
}

/// A [`Delivery`] with its strings taken by their views.
pub enum DeliveryView {
    BadRequest { body: Seq<char> },
    Send { filename: Seq<char>, content_type: Seq<char> },
}

impl View for Delivery {
    type V = DeliveryView;

    open spec fn view(&self) -> DeliveryView {
        match *self {
            Delivery::BadRequest { body } => DeliveryView::BadRequest { body: body@ },
            Delivery::Send { filename, content_type } => DeliveryView::Send {
                filename: filename@,
                content_type: content_type@,
            },
        }
    }
}

/// A [`Reply`] with its strings taken by their views.
pub enum ReplyView {
    BadRequest { body: Seq<char> },
    File { transcode: TranscodeView },
}

impl View for Reply {
    type V = ReplyView;

    open spec fn view(&self) -> ReplyView {
        match *self {
            Reply::BadRequest { body } => ReplyView::BadRequest { body: body@ },
            Reply::File { transcode } => ReplyView::File { transcode: transcode@ },
        }
    }
}

/// The URL that the path of a request stands for.
pub fn requested_url(path: &str) -> (url: String)
    ensures
        url@ == scheme() + path@,
{
    let mut url = chars_of("ipfs://");
    proof {
        reveal_strlit("ipfs://");
        assert(url@ =~= scheme());
    }
    extend_chars(&mut url, &chars_of(path));
    string_of(&url)
}

/// The body of a refusal that reports `e`.
pub open spec fn refusal(e: ErrorView) -> ReplyView {
    ReplyView::BadRequest { body: "Error: "@ + message_of(e) }
}

/// The answer to a request, given what the fetch of its URL came to.
pub open spec fn answer(
    permitted: Seq<crate::config::Dimension>,
    info: ImageInfoView,
    fetched: Result<DataView, ErrorView>,
) -> ReplyView {
    match fetched {
        Err(e) => refusal(e),
        Ok(data) => match data.content_type {
            None => ReplyView::BadRequest {
                body: "Can't find file format for the remote IPFS file"@,
            },
            Some(content_type) => match data.filename {
                None => ReplyView::BadRequest { body: "Error, no data."@ },
                Some(filename) => match image_answer(permitted, info, filename, content_type) {
                    Ok(transcode) => ReplyView::File { transcode },
                    Err(e) => refusal(e),
                },
            },
        },
    }
}

/// The answer to a plan, given what came of its work: the file, or status
/// 400 where the derived file could not be made.
pub open spec fn delivery(transcode: TranscodeView, outcome: OutcomeView) -> DeliveryView {
    match served(transcode, outcome) {
        Ok(s) => DeliveryView::Send { filename: s.filename, content_type: s.content_type },
        Err(e) => DeliveryView::BadRequest { body: "Error: "@ + message_of(e) },
    }
}

/// Decides the answer to a request whose plan is `transcode`, given what
/// came of the making of the derived file.
pub fn deliver(transcode: Transcode, outcome: Outcome) -> (answer: Delivery)
    ensures
        answer@ == delivery(transcode@, outcome@),
{
    match transcoded(transcode, outcome) {
        Ok(s) => Delivery::Send { filename: s.filename, content_type: s.content_type },
        Err(e) => Delivery::BadRequest { body: refusal_body(&e) },
    }
}

/// The explanation that reports `e`.
fn refusal_body(e: &Error) -> (body: String)
    ensures
        body@ == "Error: "@ + message_of(e@),
{
    let mut body = chars_of("Error: ");
    let message = e.message();
    extend_chars(&mut body, &chars_of(message.as_str()));
    string_of(&body)
}

/// The refusal that reports `e`.
fn refuse(e: &Error) -> (reply: Reply)
    ensures
        reply@ == refusal(e@),
{
    Reply::BadRequest { body: refusal_body(e) }
}

/// Decides the answer to a request, given what the fetch of its URL came to
/// and the query parameters of the request.
pub fn ipfs_file(settings: &Settings, info: &ImageInfo, fetched: Result<Data, Error>) -> (reply: Reply)
    ensures
        reply@ == answer(
            settings.permitted_resize_dimensions@,
            info@,
            match fetched {
                Ok(data) => Ok(data@),
                Err(e) => Err(e@),
            },
        ),
{
    match fetched {
        Err(e) => refuse(&e),
        Ok(data) => {
            let Data { content_type, filename } = data;
            match content_type {
                None => Reply::BadRequest {
                    body: "Can't find file format for the remote IPFS file".to_owned(),
                },
                Some(content_type) => match filename {
                    None => Reply::BadRequest { body: "Error, no data.".to_owned() },
                    Some(filename) => match resize_image(settings, info, filename, content_type) {
                        Ok(transcode) => Reply::File { transcode },
                        Err(e) => refuse(&e),
                    },
                },
            }
        },
    }
}

/// The media type that `str::parse::<mime::Mime>` reads from a text, as the
/// parsed type prints itself; `None` where the text is no media type.
pub uninterp spec fn media_type_text(text: Seq<char>) -> Option<Seq<char>>;

/// Parses a text as a `mime::Mime` and prints what was parsed. The crate
/// checks type, subtype and parameters character by character.
#[verifier::external_body]
fn parse_media_type(text: &str) -> (parsed: Option<String>)
    ensures
        crate::caching::view_of(parsed) == media_type_text(text@),
{
    text.parse::<mime::Mime>().ok().map(|m| m.to_string())
}

/// The media type under which a file is sent, given the outcome of parsing
/// its recorded type: the parsed type, else `application/octet-stream`.
pub fn content_type_header(parsed: Option<String>) -> (value: String)
    ensures
        value@ == (match parsed {
            Some(t) => t@,
            None => "application/octet-stream"@,
        }),
{
    match parsed {
        Some(t) => t,
        None => "application/octet-stream".to_owned(),
    }
}

/// The views of a list of headers.
pub open spec fn header_views(headers: Seq<(String, String)>) -> Seq<(Seq<char>, Seq<char>)> {
    Seq::new(headers.len(), |i: int| (headers[i].0@, headers[i].1@))
}

/// The headers that tell the size of an image.
pub open spec fn size_headers(width: nat, height: nat) -> Seq<(Seq<char>, Seq<char>)> {
    seq![
        ("x-image-width"@, decimal(width)),
        ("x-image-height"@, decimal(height)),
        ("x-image-size"@, decimal(width) + seq![','] + decimal(height)),
    ]
}

/// How a file is sent.
#[derive(Debug, PartialEq, Eq)]
pub struct Sending {
    /// The value of `Content-Type`.
    pub content_type: String,
    /// Further headers, by name and value.
    pub headers: Vec<(String, String)>,
    /// Whether a `Content-Disposition` is sent; without one a browser shows
    /// the file inline.
    pub content_disposition: bool,
}

/// Decides how a file of the recorded media type `content_type` is sent.
/// `size` is width and height of the image, where the file is an image whose
/// size could be read.
pub fn send_filename(content_type: &str, size: Option<(usize, usize)>) -> (sending: Sending)
    ensures
        sending.content_type@ == (match media_type_text(content_type@) {
            Some(t) => t,
            None => "application/octet-stream"@,
        }),
        !sending.content_disposition,
        header_views(sending.headers@) == (match size {
            Some((width, height)) => size_headers(width as nat, height as nat),
            None => Seq::empty(),
        }),
{
    let parsed = parse_media_type(content_type);
    let mut headers: Vec<(String, String)> = Vec::new();
    match size {
        None => {
            proof {
                assert(header_views(headers@) =~= Seq::empty());
            }
        },
        Some((width, height)) => {
            let mut w: Vec<char> = Vec::new();
            push_decimal(&mut w, width as u64);
            let mut h: Vec<char> = Vec::new();
            push_decimal(&mut h, height as u64);
            let mut both: Vec<char> = Vec::new();
            push_decimal(&mut both, width as u64);
            both.push(',');
            push_decimal(&mut both, height as u64);
            headers.push(("x-image-width".to_owned(), string_of(&w)));
            headers.push(("x-image-height".to_owned(), string_of(&h)));
            headers.push(("x-image-size".to_owned(), string_of(&both)));
            proof {
                assert(w@ =~= decimal(width as nat));
                assert(h@ =~= decimal(height as nat));
                assert(both@ =~= decimal(width as nat) + seq![','] + decimal(height as nat));
                assert(header_views(headers@) =~= size_headers(width as nat, height as nat));
            }
        },
    }
    Sending { content_type: content_type_header(parsed), headers, content_disposition: false }
}

} // verus!
