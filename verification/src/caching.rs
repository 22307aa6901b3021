//! Where a cached object lives on disk, and the plans by which the cache is
//! read, written and pruned.

use vstd::prelude::*;
use crate::error::Error;
use crate::ipfs_client::{
    base_uri_of, check_ipfs_url, cid_segment, rejection, scheme, valid_ipfs_url,
};
use crate::stream_write::{StreamWrite, StreamWriteView, WriteState};
use crate::text::{
    chars_of, ends_with, ends_with_char, extend_chars, index_of, join_with, last_index_of,
    lemma_index_of_bounds, lemma_index_of_is, lemma_join_of_all_but_last, lemma_join_undoes_split,
    lemma_join_with_head, lemma_last_index_of_is, lemma_split_is_never_empty, rfind_char, slice_of,
    split_on, starts_with, string_of, string_views,
};

verus! {

/// A cached object: where its bytes are and what media type they have.
#[derive(Clone, Debug, PartialEq, Eq)]
pub struct Data {
    pub content_type: Option<String>,
    pub filename: Option<String>,
}

/// A [`Data`] with its strings taken by their views.
pub struct DataView {
    pub content_type: Option<Seq<char>>,
    pub filename: Option<Seq<char>>,
}

/// The view of an optional string.
pub open spec fn view_of(text: Option<String>) -> Option<Seq<char>> {
    match text {
        Some(t) => Some(t@),
        None => None,
    }
}

impl View for Data {
    type V = DataView;

    open spec fn view(&self) -> DataView {
        DataView {
            content_type: view_of(self.content_type),
            filename: view_of(self.filename),
        }
    }
}

/// A copy of an optional string.
pub fn clone_text(text: &Option<String>) -> (copy: Option<String>)
    ensures
        view_of(copy) == view_of(*text),
{
    match text {
        Some(t) => Some(t.clone()),
        None => None,
    }
}

/// The file of a cache entry and the directory that holds it.
#[derive(Debug, PartialEq, Eq)]
pub struct CachePath {
    /// The file that holds, or will hold, the object's bytes.
    pub filename: String,
    /// The directory of `filename`; it must exist before the file is written.
    pub cache_dir: String,
}

/// The media type that marks a directory listing: `text/html`.
pub open spec fn html() -> Seq<char> {
    seq!['t', 'e', 'x', 't', '/', 'h', 't', 'm', 'l']
}

/// The name of the file that stands for a directory: `index.html`.
pub open spec fn index_file() -> Seq<char> {
    seq!['i', 'n', 'd', 'e', 'x', '.', 'h', 't', 'm', 'l']
}

/// The last `/`-delimited segment of a base URI; empty when it ends in `/`.
pub open spec fn last_segment(base_uri: Seq<char>) -> Seq<char> {
    base_uri.skip(last_index_of(base_uri, '/') + 1)
}

/// Whether `mime_guess::from_path` returns an empty guess for `path`: the
/// path has no extension, or none that the crate's table knows.
pub uninterp spec fn guess_is_empty(path: Seq<char>) -> bool;

/// Whether a base URI names a directory: it ends in `/`, or the content is
/// said to be HTML and the last segment has no extension that a media type
/// is known for.
pub open spec fn is_directory(base_uri: Seq<char>, hint: Option<Seq<char>>) -> bool {
    ends_with_char(base_uri, '/') || (hint == Some(html()) && guess_is_empty(
        last_segment(base_uri),
    ))
}

/// The directory that holds the cache file of `base_uri`.
pub open spec fn cache_dir_of(directory: Seq<char>, base_uri: Seq<char>, as_directory: bool) -> Seq<
    char,
> {
    if as_directory {
        directory + seq!['/'] + base_uri
    } else if last_index_of(base_uri, '/') < 0 {
        directory
    } else {
        directory + seq!['/'] + base_uri.take(last_index_of(base_uri, '/'))
    }
}

/// The cache file of `base_uri`: beneath the cache root, at the path that the
/// base URI spells, with `/index.html` added for a directory.
pub open spec fn filename_of(directory: Seq<char>, base_uri: Seq<char>, as_directory: bool) -> Seq<
    char,
> {
    if as_directory {
        directory + seq!['/'] + base_uri + seq!['/'] + index_file()
    } else {
        directory + seq!['/'] + base_uri
    }
}

/// Calls `mime_guess::from_path` and reports whether the guess is empty. The
/// crate takes the extension of the path as `std::path::Path::extension`
/// gives it and looks it up, ignoring case, in a table compiled into it.
#[verifier::external_body]
fn extension_unknown(name: &str) -> (empty: bool)
    ensures
        empty == guess_is_empty(name@),
{
    mime_guess::from_path(name).is_empty()
}

/// The last `/`-delimited segment of `base_uri`.
pub fn last_segment_of(base_uri: &str) -> (segment: String)
    ensures
        segment@ == last_segment(base_uri@),
{
    let base = chars_of(base_uri);
    let start: usize = match rfind_char(&base, '/') {
        Some(i) => i + 1,
        None => 0,
    };
    let tail = slice_of(&base, start, base.len());
    string_of(&tail)
}

/// Decides whether `base_uri` names a directory, given the media type that
/// its content is said to have.
pub fn names_directory(base_uri: &str, content_type: &Option<String>) -> (as_directory: bool)
    ensures
        as_directory == is_directory(base_uri@, view_of(*content_type)),
{
    let base = chars_of(base_uri);
    if base.len() > 0 && base[base.len() - 1] == '/' {
        return true;
    }
    match content_type {
        None => false,
        Some(hint) => {
            let html_type = "text/html".to_owned();
            proof {
                reveal_strlit("text/html");
                assert(html_type@ =~= html());
            }
            if *hint == html_type {
                let name = last_segment_of(base_uri);
                extension_unknown(name.as_str())
            } else {
                false
            }
        },
    }
}

/// Lays out the cache entry of `base_uri` beneath `directory`.
pub fn cache_path(directory: &str, base_uri: &str, as_directory: bool) -> (path: CachePath)
    ensures
        path.filename@ == filename_of(directory@, base_uri@, as_directory),
        path.cache_dir@ == cache_dir_of(directory@, base_uri@, as_directory),
{
    let base = chars_of(base_uri);
    let mut whole = chars_of(directory);
    whole.push('/');
    extend_chars(&mut whole, &base);
    if as_directory {
        let cache_dir = string_of(&whole);
        whole.push('/');
        let index = chars_of("index.html");
        proof {
            reveal_strlit("index.html");
            assert(index@ =~= index_file());
        }
        extend_chars(&mut whole, &index);
        CachePath { filename: string_of(&whole), cache_dir }
    } else {
        let filename = string_of(&whole);
        let cache_dir = match rfind_char(&base, '/') {
            None => directory.to_owned(),
            Some(i) => {
                let mut parent = chars_of(directory);
                parent.push('/');
                let head = slice_of(&base, 0, i);
                extend_chars(&mut parent, &head);
                string_of(&parent)
            },
        };
        CachePath { filename, cache_dir }
    }
}

/// Maps an `ipfs://` URL and the media type of its content to the file that
/// caches it beneath `directory`. Performs no I/O: the caller creates
/// `cache_dir` before it writes the file.
pub fn caching_filename(ipfs_url: &str, directory: &str, content_type: Option<String>) -> (result:
    Result<CachePath, Error>)
    ensures
        result is Ok <==> valid_ipfs_url(ipfs_url@),
        result matches Ok(path) ==> {
            let base_uri = base_uri_of(ipfs_url@);
            let as_directory = is_directory(base_uri, view_of(content_type));
            &&& path.filename@ == filename_of(directory@, base_uri, as_directory)
            &&& path.cache_dir@ == cache_dir_of(directory@, base_uri, as_directory)
        },
        result matches Err(e) ==> e@ == rejection(ipfs_url@),
{
    match check_ipfs_url(ipfs_url) {
        Err(e) => Err(e),
        Ok(base_uri) => {
            let as_directory = names_directory(base_uri.as_str(), &content_type);
            Ok(cache_path(directory, base_uri.as_str(), as_directory))
        },
    }
}

/// The file that caches `url` beneath `directory` when its content is said to
/// have the media type `hint`.
pub open spec fn resolved(url: Seq<char>, hint: Option<Seq<char>>, directory: Seq<char>) -> Seq<
    char,
> {
    filename_of(directory, base_uri_of(url), is_directory(base_uri_of(url), hint))
}

/// The resolved file depends on the URL, the hint and the cache root alone:
/// two resolutions of the same three agree.
pub proof fn lemma_resolution_is_stable(
    url: Seq<char>,
    hint: Option<Seq<char>>,
    directory: Seq<char>,
    first: CachePath,
    second: CachePath,
)
    requires
        first.filename@ == resolved(url, hint, directory),
        second.filename@ == resolved(url, hint, directory),
    ensures
        first.filename@ == second.filename@,
{
}

/// The suffix that marks the file of a directory: `/index.html`.
pub open spec fn index_suffix() -> Seq<char> {
    seq!['/'] + index_file()
}

/// A URL that names a directory resolves to a file that ends in
/// `/index.html`; any other URL resolves to a file that does not, unless its
/// own last segment is `index.html`.
pub proof fn lemma_directory_disambiguation(
    directory: Seq<char>,
    base_uri: Seq<char>,
    hint: Option<Seq<char>>,
)
    requires
        last_segment(base_uri) != index_file(),
    ensures
        ends_with(
            filename_of(directory, base_uri, is_directory(base_uri, hint)),
            index_suffix(),
        ) <==> is_directory(base_uri, hint),
{
    let as_directory = is_directory(base_uri, hint);
    let name = filename_of(directory, base_uri, as_directory);
    let suffix = index_suffix();
    assert(suffix.len() == 11);
    if as_directory {
        assert(name.skip(name.len() - suffix.len()) =~= suffix);
    } else if ends_with(name, suffix) {
        let n = name.len() as int;
        let b = base_uri.len() as int;
        let d = directory.len() as int;
        assert(n == d + 1 + b);
        let cut = name.skip(n - 11);
        assert(cut == suffix);
        assert forall|k: int| 0 <= k < 11 implies name[n - 11 + k] == suffix[k] by {
            assert(cut[k] == name[n - 11 + k]);
        }
        assert forall|k: int| 1 <= k < 11 implies suffix[k] != '/' by {}
        assert(suffix[0] == '/');
        assert(name[d] == '/');
        if b < 10 {
            // the separator would stand inside `index.html`
            assert(name[n - 11 + (10 - b)] == suffix[10 - b]);
            assert(false);
        } else if b == 10 {
            assert forall|k: int| 0 <= k < 10 implies base_uri[k] == index_file()[k] by {
                assert(name[d + 1 + k] == base_uri[k]);
                assert(name[n - 11 + (k + 1)] == suffix[k + 1]);
            }
            assert(base_uri =~= index_file());
            lemma_last_index_of_is(base_uri, '/', -1);
            assert(base_uri.skip(0) =~= base_uri);
            assert(false);
        } else {
            assert forall|k: int| 0 <= k < 11 implies base_uri[b - 11 + k] == suffix[k] by {
                assert(name[d + 1 + (b - 11 + k)] == base_uri[b - 11 + k]);
                assert(name[n - 11 + k] == suffix[k]);
            }
            assert forall|j: int| b - 11 < j < b implies base_uri[j] != '/' by {
                assert(base_uri[b - 11 + (j - (b - 11))] == suffix[j - (b - 11)]);
            }
            lemma_last_index_of_is(base_uri, '/', b - 11);
            assert(base_uri.skip(b - 10) =~= index_file()) by {
                assert forall|k: int| 0 <= k < 10 implies base_uri.skip(b - 10)[k]
                    == index_file()[k] by {
                    assert(base_uri[b - 11 + (k + 1)] == suffix[k + 1]);
                }
            }
            assert(false);
        }
    }
}

/// A URL and the same URL with a `/` added have the same content identifier,
/// so one is valid when the other is.
pub proof fn lemma_slash_keeps_validity(url: Seq<char>)
    requires
        starts_with(url, scheme()),
    ensures
        cid_segment(base_uri_of(url.push('/'))) == cid_segment(base_uri_of(url)),
        valid_ipfs_url(url.push('/')) == valid_ipfs_url(url),
        base_uri_of(url.push('/')) == base_uri_of(url).push('/'),
{
    let base = base_uri_of(url);
    let longer = base_uri_of(url.push('/'));
    assert(longer =~= base.push('/'));
    assert(url.push('/').take(scheme().len() as int) =~= url.take(scheme().len() as int));
    lemma_index_of_bounds(base, '/');
    let i = index_of(base, '/');
    assert forall|j: int| 0 <= j < i implies longer[j] != '/' by {
        assert(longer[j] == base[j]);
    }
    lemma_index_of_is(longer, '/', i);
    assert(longer.take(i) =~= base.take(i));
}

/// One place to look for a cached object: the file, and the URL under which
/// the object store has recorded it, which is the URL as it was asked for.
#[derive(Debug, PartialEq, Eq)]
pub struct Probe {
    pub ipfs_url: String,
    pub filename: String,
}

/// A [`Probe`] with its strings taken by their views.
pub struct ProbeView {
    pub ipfs_url: Seq<char>,
    pub filename: Seq<char>,
}

impl View for Probe {
    type V = ProbeView;

    open spec fn view(&self) -> ProbeView {
        ProbeView { ipfs_url: self.ipfs_url@, filename: self.filename@ }
    }
}

/// The views of a list of probes.
pub open spec fn probe_views(probes: Seq<Probe>) -> Seq<ProbeView> {
    Seq::new(probes.len(), |i: int| probes[i]@)
}

/// Where a cached object is looked for, in order: at the file of the URL as
/// it stands and then, unless the URL ends in `/`, at the file of the URL
/// with a `/` added, which is where a directory listing lives. Both places
/// belong to the URL as asked: only the file differs.
pub open spec fn lookups(url: Seq<char>, directory: Seq<char>) -> Seq<ProbeView> {
    let direct = ProbeView { ipfs_url: url, filename: resolved(url, None, directory) };
    if ends_with_char(url, '/') {
        seq![direct]
    } else {
        seq![
            direct,
            ProbeView { ipfs_url: url, filename: resolved(url.push('/'), None, directory) },
        ]
    }
}

/// Plans the lookup of `ipfs_url` in the cache beneath `directory`. The
/// caller tries the probes in order and stops at the first whose file is a
/// regular file; if none is, the cache does not hold the object.
pub fn get_caching(ipfs_url: &str, directory: &str) -> (result: Result<Vec<Probe>, Error>)
    ensures
        result is Ok <==> valid_ipfs_url(ipfs_url@),
        result matches Ok(probes) ==> probe_views(probes@) == lookups(ipfs_url@, directory@),
        result matches Err(e) ==> e@ == rejection(ipfs_url@),
{
    let direct = match caching_filename(ipfs_url, directory, None) {
        Err(e) => {
            return Err(e);
        },
        Ok(path) => path,
    };
    let mut probes: Vec<Probe> = Vec::new();
    probes.push(Probe { ipfs_url: ipfs_url.to_owned(), filename: direct.filename });
    let mut longer = chars_of(ipfs_url);
    if longer.len() > 0 && longer[longer.len() - 1] == '/' {
        proof {
            assert(probe_views(probes@) =~= lookups(ipfs_url@, directory@));
        }
        return Ok(probes);
    }
    longer.push('/');
    let with_slash = string_of(&longer);
    proof {
        lemma_slash_keeps_validity(ipfs_url@);
    }
    match caching_filename(with_slash.as_str(), directory, None) {
        Err(e) => Err(e),
        Ok(path) => {
            probes.push(Probe { ipfs_url: ipfs_url.to_owned(), filename: path.filename });
            proof {
                assert(probe_views(probes@) =~= lookups(ipfs_url@, directory@));
            }
            Ok(probes)
        },
    }
}

/// How many of the first bytes of a file are looked at to tell its media
/// type.
pub const INFERENCE_WINDOW: usize = 8192;

/// The first bytes of a file: what its media type is told from.
pub open spec fn head_of(bytes: Seq<u8>) -> Seq<u8> {
    if bytes.len() <= INFERENCE_WINDOW {
        bytes
    } else {
        bytes.take(INFERENCE_WINDOW as int)
    }
}

/// The media type that `infer::get` finds in the first bytes of a file, if
/// it knows their signature.
pub uninterp spec fn inferred_type(bytes: Seq<u8>) -> Option<Seq<char>>;

/// Calls `infer::get` and takes the media type of the kind it found. The
/// crate tries its matchers, each a test on the leading bytes, in a fixed
/// order and returns the first that matches. One matcher calls itself once
/// for every frame that it skips, so the buffer is kept as short as the
/// crate's own reader of files keeps it.
#[verifier::external_body]
fn infer_type(bytes: &[u8]) -> (found: Option<String>)
    requires
        bytes@.len() <= INFERENCE_WINDOW,
    ensures
        view_of(found) == inferred_type(bytes@),
{
    infer::get(bytes).map(|kind| kind.mime_type().to_string())
}

/// The media type of a cached object: what the object store recorded, else
/// what the bytes themselves show.
pub fn content_type_of(recorded: Option<String>, inferred: Option<String>) -> (content_type:
    Option<String>)
    ensures
        view_of(content_type) == (match recorded {
            Some(t) => Some(t@),
            None => view_of(inferred),
        }),
{
    match recorded {
        Some(t) => Some(t),
        None => inferred,
    }
}

/// Describes the object found at `probe`: `recorded` is the media type that
/// the object store holds for the probe's URL, `bytes` what the file holds,
/// or begins with. Without a recorded type, the type is told from the first
/// bytes.
pub fn cached_data(probe: &Probe, recorded: Option<String>, bytes: &[u8]) -> (data: Data)
    ensures
        data@ == (DataView {
            content_type: match recorded {
                Some(t) => Some(t@),
                None => inferred_type(head_of(bytes@)),
            },
            filename: Some(probe.filename@),
        }),
{
    let inferred = match recorded {
        Some(_) => None,
        None => {
            if bytes.len() <= INFERENCE_WINDOW {
                infer_type(bytes)
            } else {
                infer_type(vstd::slice::slice_subrange(bytes, 0, INFERENCE_WINDOW))
            }
        },
    };
    Data {
        content_type: content_type_of(recorded, inferred),
        filename: Some(probe.filename.clone()),
    }
}

/// A write of a body for `url` with the media type `hint`, before its first
/// step: the final file and its directory as the URL and the type resolve
/// them, and temporary files in the cache root itself.
pub open spec fn write_of(url: Seq<char>, hint: Option<Seq<char>>, directory: Seq<char>) -> StreamWriteView {
    StreamWriteView {
        filename: resolved(url, hint, directory),
        cache_dir: cache_dir_of(
            directory,
            base_uri_of(url),
            is_directory(base_uri_of(url), hint),
        ),
        content_type: hint,
        temp_prefix: directory.push('/'),
        state: WriteState::Open,
    }
}

/// Begins the write of a streamed body for `ipfs_url`, whose media type is
/// `content_type`. The caller makes `path.cache_dir`, opens a temporary file
/// whose name begins with `temp_prefix`, and drives the returned write with
/// what the stream yields.
pub fn set_stream_caching(ipfs_url: &str, directory: &str, content_type: Option<String>) -> (result:
    Result<StreamWrite, Error>)
    ensures
        result is Ok <==> valid_ipfs_url(ipfs_url@),
        result matches Ok(write) ==> write@ == write_of(
            ipfs_url@,
            view_of(content_type),
            directory@,
        ),
        result matches Err(e) ==> e@ == rejection(ipfs_url@),
{
    let hint = clone_text(&content_type);
    match caching_filename(ipfs_url, directory, hint) {
        Err(e) => Err(e),
        Ok(path) => {
            let mut prefix = chars_of(directory);
            prefix.push('/');
            Ok(
                StreamWrite {
                    path,
                    content_type,
                    temp_prefix: string_of(&prefix),
                    state: WriteState::Open,
                },
            )
        },
    }
}

/// What the removal of a cache entry touches.
#[derive(Debug, PartialEq, Eq)]
pub struct Removal {
    /// The file to unlink; that it is missing is no error.
    pub filename: String,
    /// The directories above the file and beneath the cache root, the
    /// nearest first. Each is removed if it is empty; at the first that is
    /// not, or cannot be read, the removal ends.
    pub directories: Vec<String>,
}

/// A [`Removal`] with its strings taken by their views.
pub struct RemovalView {
    pub filename: Seq<char>,
    pub directories: Seq<Seq<char>>,
}

impl View for Removal {
    type V = RemovalView;

    open spec fn view(&self) -> RemovalView {
        RemovalView { filename: self.filename@, directories: string_views(self.directories@) }
    }
}

/// The path of a cache file relative to the cache root.
pub open spec fn relative_path(base_uri: Seq<char>, as_directory: bool) -> Seq<char> {
    if as_directory {
        base_uri + seq!['/'] + index_file()
    } else {
        base_uri
    }
}

/// Whether a directory of the relative path `rest` ends just before
/// position `i`: a `/` stands there, after a character that is none.
pub open spec fn directory_ends_at(rest: Seq<char>, i: int) -> bool {
    0 < i < rest.len() && rest[i] == '/' && rest[i - 1] != '/'
}

/// The directories, beneath `directory`, of the relative path `rest` that
/// end at or before position `i`; the longest first.
pub open spec fn ancestors_upto(directory: Seq<char>, rest: Seq<char>, i: int) -> Seq<Seq<char>>
    decreases i,
{
    if i <= 0 {
        Seq::empty()
    } else if directory_ends_at(rest, i) {
        seq![directory + seq!['/'] + rest.take(i)] + ancestors_upto(directory, rest, i - 1)
    } else {
        ancestors_upto(directory, rest, i - 1)
    }
}

/// What the removal of the cache entry of `url` touches, where the entry was
/// written with the media type `hint`: the file that the write resolved to,
/// and the directories above it.
pub open spec fn removal_of(url: Seq<char>, hint: Option<Seq<char>>, directory: Seq<char>) -> RemovalView {
    let base_uri = base_uri_of(url);
    let rest = relative_path(base_uri, is_directory(base_uri, hint));
    RemovalView {
        filename: resolved(url, hint, directory),
        directories: ancestors_upto(directory, rest, rest.len() - 1),
    }
}

/// Plans the removal of the cache entry of `ipfs_url`, which was written
/// with the media type `content_type`, with the directories that it may
/// leave empty. The cache root itself is never removed.
pub fn delete_caching(ipfs_url: &str, directory: &str, content_type: Option<String>) -> (result:
    Result<Removal, Error>)
    ensures
        result is Ok <==> valid_ipfs_url(ipfs_url@),
        result matches Ok(removal) ==> removal@ == removal_of(
            ipfs_url@,
            view_of(content_type),
            directory@,
        ),
        result matches Err(e) ==> e@ == rejection(ipfs_url@),
{
    let base_uri = match check_ipfs_url(ipfs_url) {
        Err(e) => {
            return Err(e);
        },
        Ok(base_uri) => base_uri,
    };
    let as_directory = names_directory(base_uri.as_str(), &content_type);
    let path = cache_path(directory, base_uri.as_str(), as_directory);
    let mut rest = chars_of(base_uri.as_str());
    if as_directory {
        rest.push('/');
        let index = chars_of("index.html");
        proof {
            reveal_strlit("index.html");
            assert(index@ =~= index_file());
        }
        extend_chars(&mut rest, &index);
    }
    proof {
        assert(rest@ =~= relative_path(base_uri@, as_directory));
    }
    let root = chars_of(directory);
    let mut directories: Vec<String> = Vec::new();
    let mut i: usize = if rest.len() == 0 {
        0
    } else {
        rest.len() - 1
    };
    while i > 0
        invariant
            i < rest.len() || rest.len() == 0 && i == 0,
            root@ == directory@,
            string_views(directories@) + ancestors_upto(directory@, rest@, i as int)
                == ancestors_upto(directory@, rest@, rest@.len() - 1),
        decreases i,
    {
        if rest[i] == '/' && rest[i - 1] != '/' {
            let mut ancestor = chars_of(directory);
            ancestor.push('/');
            let head = slice_of(&rest, 0, i);
            extend_chars(&mut ancestor, &head);
            let ghost before = string_views(directories@);
            directories.push(string_of(&ancestor));
            proof {
                let added = directory@ + seq!['/'] + rest@.take(i as int);
                assert(ancestor@ =~= added);
                assert(string_views(directories@) =~= before.push(added));
                assert(before.push(added) + ancestors_upto(directory@, rest@, i - 1) =~= before + (
                seq![added] + ancestors_upto(directory@, rest@, i - 1)));
            }
        }
        i -= 1;
    }
    proof {
        assert(string_views(directories@) + Seq::<Seq<char>>::empty() =~= string_views(
            directories@,
        ));
    }
    Ok(Removal { filename: path.filename, directories })
}

/// A removal names the very file that a write of the same URL, with the same
/// media type, beneath the same cache root gives its final name to.
pub proof fn lemma_removal_names_the_written_file(
    url: Seq<char>,
    hint: Option<Seq<char>>,
    directory: Seq<char>,
    write: StreamWriteView,
)
    requires
        write.filename == resolved(url, hint, directory),
    ensures
        removal_of(url, hint, directory).filename == write.filename,
        crate::stream_write::next_action(
            StreamWriteView { state: WriteState::Open, ..write },
            crate::stream_write::WriteEventView::End,
        ) == (crate::stream_write::WriteActionView::Promote {
            filename: removal_of(url, hint, directory).filename,
        }),
{
}

/// What the driver of a removal found at a directory.
#[derive(Clone, Copy, Debug, PartialEq, Eq, Structural)]
pub enum Found {
    /// The directory holds nothing.
    Empty,
    /// The directory holds something.
    Occupied,
    /// The directory is missing or cannot be read.
    Unreadable,
}

/// Decides how a removal goes on at a directory above the removed file: an
/// empty directory is removed and the walk goes on to the next; at any other
/// the walk ends and the directory stays.
pub fn after_directory(found: Found) -> (go_on: bool)
    ensures
        go_on == (found == Found::Empty),
{
    match found {
        Found::Empty => true,
        _ => false,
    }
}

/// Every directory that a removal may take away lies beneath the cache root
/// and above the removed file, and none of them ends in `/`: the cache root
/// and the directories of other entries' files alone are never named.
pub proof fn lemma_removal_stays_above_the_file(
    directory: Seq<char>,
    rest: Seq<char>,
    i: int,
    k: int,
)
    requires
        i < rest.len(),
        0 <= k < ancestors_upto(directory, rest, i).len(),
    ensures
        ({
            let ancestor = ancestors_upto(directory, rest, i)[k];
            let file = directory + seq!['/'] + rest;
            &&& directory.len() + 1 < ancestor.len() < file.len()
            &&& ancestor == file.take(ancestor.len() as int)
            &&& file[ancestor.len() as int] == '/'
            &&& ancestor.last() != '/'
            &&& ancestor.len() <= directory.len() + 1 + i
        }),
    decreases i,
{
    if i > 0 {
        let file = directory + seq!['/'] + rest;
        if directory_ends_at(rest, i) {
            if k == 0 {
                let ancestor = directory + seq!['/'] + rest.take(i);
                assert(ancestor =~= file.take(ancestor.len() as int));
                assert(ancestor.last() == rest[i - 1]);
            } else {
                lemma_removal_stays_above_the_file(directory, rest, i - 1, k - 1);
            }
        } else {
            lemma_removal_stays_above_the_file(directory, rest, i - 1, k);
        }
    }
}

/// The directories of a removal come nearest first: each is shorter than the
/// one before it.
pub proof fn lemma_removal_goes_upwards(directory: Seq<char>, rest: Seq<char>, i: int, k: int)
    requires
        i < rest.len(),
        0 <= k,
        k + 1 < ancestors_upto(directory, rest, i).len(),
    ensures
        ancestors_upto(directory, rest, i)[k + 1].len() < ancestors_upto(directory, rest, i)[k].len(),
    decreases i,
{
    if i > 0 {
        if directory_ends_at(rest, i) {
            if k == 0 {
                lemma_removal_stays_above_the_file(directory, rest, i - 1, 0);
            } else {
                lemma_removal_goes_upwards(directory, rest, i - 1, k - 1);
            }
        } else {
            lemma_removal_goes_upwards(directory, rest, i - 1, k);
        }
    }
}

/// The segments of a cache path: the cache root, then the pieces of the base
/// URI between its `/`.
pub open spec fn path_segments(directory: Seq<char>, base_uri: Seq<char>) -> Seq<Seq<char>> {
    seq![directory] + split_on(base_uri, '/')
}

/// The cache file is what the segments spell when joined by `/`, with
/// `/index.html` added for a directory. For a file, the segments but the
/// last spell its directory.
pub proof fn lemma_path_is_joined_segments(directory: Seq<char>, base_uri: Seq<char>)
    ensures
        filename_of(directory, base_uri, false) == join_with(
            path_segments(directory, base_uri),
            seq!['/'],
        ),
        filename_of(directory, base_uri, true) == join_with(
            path_segments(directory, base_uri),
            seq!['/'],
        ) + index_suffix(),
        cache_dir_of(directory, base_uri, true) == join_with(
            path_segments(directory, base_uri),
            seq!['/'],
        ),
        cache_dir_of(directory, base_uri, false) == join_with(
            path_segments(directory, base_uri).drop_last(),
            seq!['/'],
        ),
{
    let parts = split_on(base_uri, '/');
    let slash = seq!['/'];
    lemma_split_is_never_empty(base_uri, '/');
    lemma_join_undoes_split(base_uri, '/');
    lemma_join_with_head(directory, parts, slash);
    assert(filename_of(directory, base_uri, true) =~= directory + slash + base_uri
        + index_suffix());
    lemma_join_of_all_but_last(base_uri, '/');
    let all = path_segments(directory, base_uri);
    assert(all.drop_last() =~= seq![directory] + parts.drop_last());
    if last_index_of(base_uri, '/') < 0 {
        assert(all.drop_last() =~= seq![directory]);
    } else {
        lemma_join_with_head(directory, parts.drop_last(), slash);
    }
}

/// Wherever a lookup finds the file, the object store is asked under the URL
/// as it was asked for, which is the URL that a fetch records: the media
/// type of a listing is found like that of any other object.
pub proof fn lemma_lookups_ask_under_the_url(url: Seq<char>, directory: Seq<char>, k: int)
    requires
        0 <= k < lookups(url, directory).len(),
    ensures
        lookups(url, directory)[k].ipfs_url == url,
{
}

/// A path with every run of `/` reduced to a single `/`: the same file, as
/// file systems read paths.
pub open spec fn squeezed(path: Seq<char>) -> Seq<char>
    decreases path.len(),
{
    if path.len() == 0 {
        path
    } else if path.len() >= 2 && path.last() == '/' && path[path.len() - 2] == '/' {
        squeezed(path.drop_last())
    } else {
        squeezed(path.drop_last()).push(path.last())
    }
}

/// What follows a path without holding a `/` itself is left as it is.
proof fn lemma_squeeze_keeps_a_name(path: Seq<char>, name: Seq<char>)
    requires
        forall|i: int| 0 <= i < name.len() ==> name[i] != '/',
    ensures
        squeezed(path + name) == squeezed(path) + name,
    decreases name.len(),
{
    if name.len() == 0 {
        assert(path + name =~= path);
        assert(squeezed(path) + name =~= squeezed(path));
    } else {
        let whole = path + name;
        assert(whole.drop_last() =~= path + name.drop_last());
        assert(whole.last() == name.last());
        lemma_squeeze_keeps_a_name(path, name.drop_last());
        assert(squeezed(whole) =~= squeezed(path) + name);
    }
}

/// What a fetch wrote for a URL, whatever media type it was given, a lookup
/// of the same URL finds: one of the files that the lookup tries is the file
/// that was written.
pub proof fn lemma_written_entry_is_found(
    url: Seq<char>,
    hint: Option<Seq<char>>,
    directory: Seq<char>,
)
    requires
        valid_ipfs_url(url),
    ensures
        exists|k: int|
            0 <= k < lookups(url, directory).len() && squeezed(
                (#[trigger] lookups(url, directory)[k]).filename,
            ) == squeezed(resolved(url, hint, directory)) && lookups(url, directory)[k].ipfs_url
                == url,
{
    let base = base_uri_of(url);
    lemma_index_of_bounds(base, '/');
    assert(base.len() > 0);
    assert(base.last() == url.last());
    let probes = lookups(url, directory);
    if ends_with_char(url, '/') || !is_directory(base, hint) {
        assert(probes[0].filename == resolved(url, hint, directory));
    } else {
        lemma_slash_keeps_validity(url);
        let longer = base.push('/');
        assert(probes[1].filename == filename_of(directory, longer, true));
        let stem = directory + seq!['/'] + base;
        let written = resolved(url, hint, directory);
        assert(written =~= stem.push('/') + index_file());
        assert(probes[1].filename =~= stem.push('/').push('/') + index_file());
        lemma_squeeze_keeps_a_name(stem.push('/'), index_file());
        lemma_squeeze_keeps_a_name(stem.push('/').push('/'), index_file());
        let doubled = stem.push('/').push('/');
        assert(doubled.drop_last() =~= stem.push('/'));
        assert(doubled[doubled.len() - 2] == '/');
    }
}

} // verus!
