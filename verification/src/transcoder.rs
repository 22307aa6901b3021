//! Which derived file a request for a resized image or a transcoded video
//! is answered with.

use vstd::prelude::*;
use crate::caching::view_of;
use crate::config::{Dimension, Settings};
use crate::error::{Error, ErrorView};
use crate::number::{decimal, parse_u32, parsed_u32, push_decimal};
use crate::text::{chars_of, extend_chars, string_of};

verus! {

/// The query parameters that ask for a derived file.
#[derive(Debug, Clone, PartialEq, Eq)]
pub struct ImageInfo {
    /// `img-width`
    pub img_width: Option<String>,
    /// `img-height`
    pub img_height: Option<String>,
    /// `img-format`
    pub img_format: Option<String>,
    /// `video-format`
    pub video_format: Option<String>,
}

/// An [`ImageInfo`] with its strings taken by their views.
pub struct ImageInfoView {
    pub img_width: Option<Seq<char>>,
    pub img_height: Option<Seq<char>>,
    pub img_format: Option<Seq<char>>,
    pub video_format: Option<Seq<char>>,
}

impl View for ImageInfo {
    type V = ImageInfoView;

    open spec fn view(&self) -> ImageInfoView {
        ImageInfoView {
            img_width: view_of(self.img_width),
            img_height: view_of(self.img_height),
            img_format: view_of(self.img_format),
            video_format: view_of(self.video_format),
        }
    }
}

/// How an image is resampled.
#[derive(Debug, Clone, Copy, PartialEq, Eq, Structural)]
pub enum Filter {
    /// A Lanczos filter with a window of three.
    Lanczos3,
}

/// What a cached file is answered with.
#[derive(Debug, PartialEq, Eq)]
pub enum Transcode {
    /// The cached file as it is.
    Unchanged { filename: String, content_type: String },
    /// The file `target`: if it does not exist yet, it is made from `source`
    /// by an image library, resampled with `filter` to fit within `size`.
    Image { source: String, target: String, content_type: String, size: Dimension, filter: Filter },
    /// The file `target`: if it does not exist yet, it is made from `source`
    /// by a media library, fitted within `size` where one is given.
    Video { source: String, target: String, content_type: String, size: Option<Dimension> },
}

/// A [`Transcode`] with its strings taken by their views.
pub enum TranscodeView {
    Unchanged { filename: Seq<char>, content_type: Seq<char> },
    Image {
        source: Seq<char>,
        target: Seq<char>,
        content_type: Seq<char>,
        size: Dimension,
        filter: Filter,
    },
    Video { source: Seq<char>, target: Seq<char>, content_type: Seq<char>, size: Option<Dimension> },
}

impl View for Transcode {
    type V = TranscodeView;

    open spec fn view(&self) -> TranscodeView {
        match *self {
            Transcode::Unchanged { filename, content_type } => TranscodeView::Unchanged {
                filename: filename@,
                content_type: content_type@,
            },
            Transcode::Image { source, target, content_type, size, filter } => TranscodeView::Image {
                source: source@,
                target: target@,
                content_type: content_type@,
                size,
                filter,
            },
            Transcode::Video { source, target, content_type, size } => TranscodeView::Video {
                source: source@,
                target: target@,
                content_type: content_type@,
                size,
            },
        }
    }
}

/// The dimensions that a request names: both width and height must be given
/// and be numbers.
pub open spec fn requested_size(info: ImageInfoView) -> Option<Dimension> {
    match (info.img_width, info.img_height) {
        (Some(w), Some(h)) => match (parsed_u32(w), parsed_u32(h)) {
            (Some(width), Some(height)) => Some(Dimension { width, height }),
            _ => None,
        },
        _ => None,
    }
}

/// The file name extension of an image format: `jpeg` and `mp4` stand for
/// themselves, anything else, or nothing, for `png`.
pub open spec fn image_extension(format: Option<Seq<char>>) -> Seq<char> {
    if format == Some("jpeg"@) {
        "jpeg"@
    } else if format == Some("mp4"@) {
        "mp4"@
    } else {
        "png"@
    }
}

/// The media type of an image format.
pub open spec fn image_content_type(format: Option<Seq<char>>) -> Seq<char> {
    if format == Some("jpeg"@) {
        "image/jpeg"@
    } else if format == Some("mp4"@) {
        "video/mp4"@
    } else {
        "image/png"@
    }
}

/// The file name extension of a video format: `webm` stands for itself,
/// anything else for `mp4`.
pub open spec fn video_extension(format: Option<Seq<char>>) -> Seq<char> {
    if format == Some("webm"@) {
        "webm"@
    } else {
        "mp4"@
    }
}

/// The media type of a video format.
pub open spec fn video_content_type(format: Option<Seq<char>>) -> Seq<char> {
    if format == Some("webm"@) {
        "video/webm"@
    } else {
        "video/mp4"@
    }
}

/// The name of a derived file beside `filename`:
/// `<filename>-<width>x<height>.<extension>`, or `<filename>.<extension>`
/// where no size is asked for.
pub open spec fn sibling(filename: Seq<char>, size: Option<Dimension>, extension: Seq<char>) -> Seq<
    char,
> {
    match size {
        Some(d) => filename + seq!['-'] + decimal(d.width as nat) + seq!['x'] + decimal(
            d.height as nat,
        ) + seq!['.'] + extension,
        None => filename + seq!['.'] + extension,
    }
}

/// What a request for a video is answered with.
pub open spec fn video_answer(
    permitted: Seq<Dimension>,
    info: ImageInfoView,
    filename: Seq<char>,
) -> Result<TranscodeView, ErrorView> {
    let size = requested_size(info);
    if size is Some && !permitted.contains(size->0) {
        Err(ErrorView::DimensionNotAllowed)
    } else {
        Ok(
            TranscodeView::Video {
                source: filename,
                target: sibling(filename, size, video_extension(info.video_format)),
                content_type: video_content_type(info.video_format),
                size,
            },
        )
    }
}

/// What a request is answered with: a video where a video format is asked
/// for; the file itself where no size is asked for; else the image of that
/// size, provided that the size is permitted.
pub open spec fn image_answer(
    permitted: Seq<Dimension>,
    info: ImageInfoView,
    filename: Seq<char>,
    content_type: Seq<char>,
) -> Result<TranscodeView, ErrorView> {
    if info.video_format is Some {
        video_answer(permitted, info, filename)
    } else {
        match requested_size(info) {
            None => Ok(TranscodeView::Unchanged { filename, content_type }),
            Some(size) => if !permitted.contains(size) {
                Err(ErrorView::DimensionNotAllowed)
            } else {
                Ok(
                    TranscodeView::Image {
                        source: filename,
                        target: sibling(filename, Some(size), image_extension(info.img_format)),
                        content_type: image_content_type(info.img_format),
                        size,
                        filter: Filter::Lanczos3,
                    },
                )
            },
        }
    }
}

/// Whether an optional text is the word `word`.
fn is_word(text: &Option<String>, word: &str) -> (same: bool)
    ensures
        same == (view_of(*text) == Some(word@)),
{
    match text {
        None => false,
        Some(t) => {
            let w = word.to_owned();
            *t == w
        },
    }
}

/// Reads an optional text as a number.
fn number_in(text: &Option<String>) -> (value: Option<u32>)
    ensures
        value == (match view_of(*text) {
            Some(t) => parsed_u32(t),
            None => None,
        }),
{
    match text {
        None => None,
        Some(t) => parse_u32(&chars_of(t.as_str())),
    }
}

/// The dimensions that a request names.
pub fn size_in(info: &ImageInfo) -> (size: Option<Dimension>)
    ensures
        size == requested_size(info@),
{
    match (number_in(&info.img_width), number_in(&info.img_height)) {
        (Some(width), Some(height)) => Some(Dimension { width, height }),
        _ => None,
    }
}

/// The name of a derived file beside `filename`.
pub fn sibling_name(filename: &str, size: Option<Dimension>, extension: &str) -> (name: String)
    ensures
        name@ == sibling(filename@, size, extension@),
{
    let mut name = chars_of(filename);
    match size {
        Some(d) => {
            name.push('-');
            push_decimal(&mut name, d.width as u64);
            name.push('x');
            push_decimal(&mut name, d.height as u64);
        },
        None => {},
    }
    name.push('.');
    extend_chars(&mut name, &chars_of(extension));
    proof {
        assert(name@ =~= sibling(filename@, size, extension@));
    }
    string_of(&name)
}

/// Decides what a request for a transcoded video is answered with. A size
/// that is asked for must be on the whitelist.
pub fn resize_video(settings: &Settings, info: &ImageInfo, filename: String) -> (result: Result<
    Transcode,
    Error,
>)
    ensures
        (match result {
            Ok(t) => Ok(t@),
            Err(e) => Err(e@),
        }) == video_answer(settings.permitted_resize_dimensions@, info@, filename@),
{
    let size = size_in(info);
    match size {
        Some(d) => {
            if !settings.permits(d) {
                return Err(Error::DimensionNotAllowed);
            }
        },
        None => {},
    }
    let webm = is_word(&info.video_format, "webm");
    let (extension, content_type) = if webm {
        ("webm", "video/webm")
    } else {
        ("mp4", "video/mp4")
    };
    let target = sibling_name(filename.as_str(), size, extension);
    Ok(Transcode::Video { source: filename, target, content_type: content_type.to_owned(), size })
}

/// Decides what a request for a cached file is answered with, given the
/// query parameters that came with it.
pub fn resize_image(
    settings: &Settings,
    info: &ImageInfo,
    filename: String,
    content_type: String,
) -> (result: Result<Transcode, Error>)
    ensures
        (match result {
            Ok(t) => Ok(t@),
            Err(e) => Err(e@),
        }) == image_answer(
            settings.permitted_resize_dimensions@,
            info@,
            filename@,
            content_type@,
        ),
{
    if info.video_format.is_some() {
        return resize_video(settings, info, filename);
    }
    match size_in(info) {
        None => Ok(Transcode::Unchanged { filename, content_type }),
        Some(size) => {
            if !settings.permits(size) {
                return Err(Error::DimensionNotAllowed);
            }
            let jpeg = is_word(&info.img_format, "jpeg");
            let mp4 = is_word(&info.img_format, "mp4");
            let (extension, media_type) = if jpeg {
                ("jpeg", "image/jpeg")
            } else if mp4 {
                ("mp4", "video/mp4")
            } else {
                ("png", "image/png")
            };
            let target = sibling_name(filename.as_str(), Some(size), extension);
            Ok(
                Transcode::Image {
                    source: filename,
                    target,
                    content_type: media_type.to_owned(),
                    size,
                    filter: Filter::Lanczos3,
                },
            )
        },
    }
}

/// What is to be done before a plan can be answered.
#[derive(Debug, Clone, Copy, PartialEq, Eq, Structural)]
pub enum Work {
    /// Nothing: the file to send is there.
    Nothing,
    /// The image `target` is to be made from `source`.
    MakeImage,
    /// The video `target` is to be made from `source`.
    MakeVideo,
}

/// What came of it.
#[derive(Debug, PartialEq, Eq)]
pub enum Outcome {
    /// The file was there already and was left as it is.
    Existed,
    /// The file has been made.
    Made,
    /// The file could not be made.
    Failed { detail: String },
}

/// An [`Outcome`] with its strings taken by their views.
pub enum OutcomeView {
    Existed,
    Made,
    Failed { detail: Seq<char> },
}

impl View for Outcome {
    type V = OutcomeView;

    open spec fn view(&self) -> OutcomeView {
        match *self {
            Outcome::Existed => OutcomeView::Existed,
            Outcome::Made => OutcomeView::Made,
            Outcome::Failed { detail } => OutcomeView::Failed { detail: detail@ },
        }
    }
}

/// The file that is sent, with its media type.
#[derive(Debug, PartialEq, Eq)]
pub struct Served {
    pub filename: String,
    pub content_type: String,
}

/// A [`Served`] with its strings taken by their views.
pub struct ServedView {
    pub filename: Seq<char>,
    pub content_type: Seq<char>,
}

impl View for Served {
    type V = ServedView;

    open spec fn view(&self) -> ServedView {
        ServedView { filename: self.filename@, content_type: self.content_type@ }
    }
}

/// The derived file that a plan names, if it names one.
pub open spec fn target_of(transcode: TranscodeView) -> Option<Seq<char>> {
    match transcode {
        TranscodeView::Unchanged { .. } => None,
        TranscodeView::Image { target, .. } => Some(target),
        TranscodeView::Video { target, .. } => Some(target),
    }
}

/// The work that a plan asks for: none where it names no derived file or
/// the derived file exists; else the making of that file.
pub open spec fn work_of(transcode: TranscodeView, target_exists: bool) -> Work {
    match transcode {
        TranscodeView::Unchanged { .. } => Work::Nothing,
        TranscodeView::Image { .. } => if target_exists {
            Work::Nothing
        } else {
            Work::MakeImage
        },
        TranscodeView::Video { .. } => if target_exists {
            Work::Nothing
        } else {
            Work::MakeVideo
        },
    }
}

/// The answer to a plan, given what came of its work: the cached file for a
/// plan that names no derived file; else the derived file, unless it could
/// not be made.
pub open spec fn served(transcode: TranscodeView, outcome: OutcomeView) -> Result<
    ServedView,
    ErrorView,
> {
    match transcode {
        TranscodeView::Unchanged { filename, content_type } => Ok(
            ServedView { filename, content_type },
        ),
        TranscodeView::Image { target, content_type, .. } => match outcome {
            OutcomeView::Failed { detail } => Err(ErrorView::Transcode { detail }),
            _ => Ok(ServedView { filename: target, content_type }),
        },
        TranscodeView::Video { target, content_type, .. } => match outcome {
            OutcomeView::Failed { detail } => Err(ErrorView::Transcode { detail }),
            _ => Ok(ServedView { filename: target, content_type }),
        },
    }
}

impl Transcode {
    /// The derived file that the plan names, if it names one.
    pub fn target(&self) -> (target: Option<String>)
        ensures
            view_of(target) == target_of(self@),
    {
        match self {
            Transcode::Unchanged { .. } => None,
            Transcode::Image { target, .. } => Some(target.clone()),
            Transcode::Video { target, .. } => Some(target.clone()),
        }
    }
}

/// Decides what is to be done for a plan, given whether the derived file
/// that it names exists. A file that exists is not made again.
pub fn work_for(transcode: &Transcode, target_exists: bool) -> (work: Work)
    ensures
        work == work_of(transcode@, target_exists),
        target_exists ==> work == Work::Nothing,
{
    match transcode {
        Transcode::Unchanged { .. } => Work::Nothing,
        Transcode::Image { .. } => if target_exists {
            Work::Nothing
        } else {
            Work::MakeImage
        },
        Transcode::Video { .. } => if target_exists {
            Work::Nothing
        } else {
            Work::MakeVideo
        },
    }
}

/// Decides what a plan is answered with, given what came of its work: a
/// derived file that could not be made is an error.
pub fn transcoded(transcode: Transcode, outcome: Outcome) -> (result: Result<Served, Error>)
    ensures
        (match result {
            Ok(s) => Ok(s@),
            Err(e) => Err(e@),
        }) == served(transcode@, outcome@),
{
    match transcode {
        Transcode::Unchanged { filename, content_type } => Ok(Served { filename, content_type }),
        Transcode::Image { source, target, content_type, size, filter } => match outcome {
            Outcome::Failed { detail } => Err(Error::Transcode { detail }),
            _ => Ok(Served { filename: target, content_type }),
        },
        Transcode::Video { source, target, content_type, size } => match outcome {
            Outcome::Failed { detail } => Err(Error::Transcode { detail }),
            _ => Ok(Served { filename: target, content_type }),
        },
    }
}

/// A request that is repeated once its derived file exists is answered with
/// that file as it is: nothing is made, and the answer is the one that the
/// request got when the file was made.
pub proof fn lemma_existing_file_is_reused(
    permitted: Seq<Dimension>,
    info: ImageInfoView,
    filename: Seq<char>,
    content_type: Seq<char>,
)
    requires
        image_answer(permitted, info, filename, content_type) is Ok,
    ensures
        ({
            let plan = image_answer(permitted, info, filename, content_type)->Ok_0;
            &&& work_of(plan, true) == Work::Nothing
            &&& served(plan, OutcomeView::Existed) == served(plan, OutcomeView::Made)
            &&& served(plan, OutcomeView::Existed) is Ok
            &&& target_of(plan) matches Some(target) ==> served(plan, OutcomeView::Existed)->Ok_0.filename
                == target
        }),
{
}

} // verus!
