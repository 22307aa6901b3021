//! The fetch coordinator: what to do next, given what has happened so far.
//!
//! The coordinator performs no I/O. Its driver probes the cache, runs the
//! local binary, sends the requests and stores the bodies; after each such
//! action it reports the outcome as a [`FetchEvent`] and is told the next
//! [`FetchAction`].

use vstd::prelude::*;
use crate::caching::{
    clone_text, delete_caching, html, removal_of, set_stream_caching, view_of, write_of, Data,
    DataView, Removal, RemovalView,
};
use crate::ipfs_client::{rejection, valid_ipfs_url};
use crate::stream_write::{StreamWrite, StreamWriteView};
use crate::clock::now_millis;
use crate::config::Settings;
use crate::error::{Error, ErrorView};
use crate::gateway_pool::{blocked_after, candidates, GatewayPool};
use crate::ipfs_object::{access_record, recorded_size, size_for_record, update_entry, Upsert, UpsertView};
use crate::listing::{listed_files, listing_page, parse_listing, render_listing};
use crate::text::{clone_strings, string_views};

verus! {

/// Where a fetch stands.
#[derive(Debug, PartialEq, Eq)]
pub enum FetchState {
    /// Nothing has been done yet.
    Idle,
    /// The cache is being probed.
    Probing,
    /// The local binary is listing the directory.
    Listing,
    /// The rendered listing is being stored.
    StoringListing,
    /// Requests are under way; `pending` of them have not been reported yet.
    Racing { urls: Vec<String>, pending: usize },
    /// The body of the first success, of the media type `content_type`, is
    /// being stored.
    Storing { content_type: Option<String> },
    /// A stored body of `size` bytes was too large and is being removed.
    Removing { size: u64 },
    /// The stored object is being recorded.
    Recording { data: Data },
    /// The fetch has ended.
    Finished,
}

/// A [`FetchState`] with its strings taken by their views.
pub enum FetchStateView {
    Idle,
    Probing,
    Listing,
    StoringListing,
    Racing { urls: Seq<Seq<char>>, pending: nat },
    Storing { content_type: Option<Seq<char>> },
    Removing { size: u64 },
    Recording { data: DataView },
    Finished,
}

impl View for FetchState {
    type V = FetchStateView;

    open spec fn view(&self) -> FetchStateView {
        match *self {
            FetchState::Idle => FetchStateView::Idle,
            FetchState::Probing => FetchStateView::Probing,
            FetchState::Listing => FetchStateView::Listing,
            FetchState::StoringListing => FetchStateView::StoringListing,
            FetchState::Racing { urls, pending } => FetchStateView::Racing {
                urls: string_views(urls@),
                pending: pending as nat,
            },
            FetchState::Storing { content_type } => FetchStateView::Storing {
                content_type: view_of(content_type),
            },
            FetchState::Removing { size } => FetchStateView::Removing { size },
            FetchState::Recording { data } => FetchStateView::Recording { data: data@ },
            FetchState::Finished => FetchStateView::Finished,
        }
    }
}

/// What the driver reports.
#[derive(Debug, PartialEq, Eq)]
pub enum FetchEvent {
    /// The fetch begins.
    Started,
    /// The cache holds the object, in a file of `size` bytes.
    CacheHit { data: Data, size: u64 },
    /// The cache does not hold the object, or could not be read.
    CacheMiss,
    /// The local binary ran and printed `output`.
    Listed { output: String },
    /// There is no listing: the binary could not be run or reported a
    /// failure.
    NotListed,
    /// The rendered listing is stored.
    ListingStored { data: Data },
    /// A gateway answered.
    Response {
        host: Option<String>,
        status: u16,
        content_length: Option<u64>,
        content_type: Option<String>,
    },
    /// A request ended without an answer.
    NoResponse,
    /// The body is stored, in a file of `size` bytes.
    Stored { data: Data, size: u64 },
    /// The cache entry is removed.
    Removed,
    /// The object is recorded.
    Recorded,
    /// The last action failed.
    Failed { detail: String },
}

/// A [`FetchEvent`] with its strings taken by their views.
pub enum FetchEventView {
    Started,
    CacheHit { data: DataView, size: u64 },
    CacheMiss,
    Listed { output: Seq<char> },
    NotListed,
    ListingStored { data: DataView },
    Response {
        host: Option<Seq<char>>,
        status: u16,
        content_length: Option<u64>,
        content_type: Option<Seq<char>>,
    },
    NoResponse,
    Stored { data: DataView, size: u64 },
    Removed,
    Recorded,
    Failed { detail: Seq<char> },
}

impl View for FetchEvent {
    type V = FetchEventView;

    open spec fn view(&self) -> FetchEventView {
        match *self {
            FetchEvent::Started => FetchEventView::Started,
            FetchEvent::CacheHit { data, size } => FetchEventView::CacheHit { data: data@, size },
            FetchEvent::CacheMiss => FetchEventView::CacheMiss,
            FetchEvent::Listed { output } => FetchEventView::Listed { output: output@ },
            FetchEvent::NotListed => FetchEventView::NotListed,
            FetchEvent::ListingStored { data } => FetchEventView::ListingStored { data: data@ },
            FetchEvent::Response { host, status, content_length, content_type } => {
                FetchEventView::Response {
                    host: view_of(host),
                    status,
                    content_length,
                    content_type: view_of(content_type),
                }
            },
            FetchEvent::NoResponse => FetchEventView::NoResponse,
            FetchEvent::Stored { data, size } => FetchEventView::Stored { data: data@, size },
            FetchEvent::Removed => FetchEventView::Removed,
            FetchEvent::Recorded => FetchEventView::Recorded,
            FetchEvent::Failed { detail } => FetchEventView::Failed { detail: detail@ },
        }
    }
}

/// What the driver is to do next.
#[derive(Debug, PartialEq, Eq)]
pub enum FetchAction {
    /// Look the URL up in the cache; report `CacheHit` or `CacheMiss`.
    ProbeCache,
    /// Hand `data` to the caller at once and record the access in the
    /// background. The fetch has ended.
    Serve { data: Data, touch: Upsert },
    /// Run the local binary with `arguments`; report `Listed` with what it
    /// printed, `NotListed`, or `Failed` where the output is no text.
    ListDirectory { binary_path: String, arguments: Vec<String> },
    /// Store `page`, the listing of the directory, through `write`, which is
    /// the write of the URL with the media type `text/html`; report
    /// `ListingStored` with what the write finished with, or `Failed`.
    StoreListing { page: String, write: StreamWrite },
    /// Send one request to each of `urls`, all at once, each through a
    /// client of its own that names itself `user_agent` and allows
    /// `timeout_millis` for connecting and as much for the whole request;
    /// report the first outcome.
    Dispatch { urls: Vec<String>, user_agent: String, timeout_millis: u64 },
    /// Report the next outcome.
    Await,
    /// Stream the body of the response just reported through `write`, which
    /// is the write of the URL with the media type of the response; report
    /// `Stored` with what the write finished with, or `Failed`.
    StoreBody { write: StreamWrite },
    /// Carry out `removal`, which names the file that the body was stored
    /// in; report `Removed`.
    RemoveEntry { removal: Removal },
    /// Execute the statement; report `Recorded` or `Failed`.
    Record { upsert: Upsert },
    /// The fetch has ended with `result`; requests that are still under way
    /// are to be cancelled.
    Finish { result: Result<Data, Error> },
}

/// A [`FetchAction`] with its strings taken by their views.
pub enum FetchActionView {
    ProbeCache,
    Serve { data: DataView, touch: UpsertView },
    ListDirectory { binary_path: Seq<char>, arguments: Seq<Seq<char>> },
    StoreListing { page: Seq<char>, write: StreamWriteView },
    Dispatch { urls: Seq<Seq<char>>, user_agent: Seq<char>, timeout_millis: u64 },
    Await,
    StoreBody { write: StreamWriteView },
    RemoveEntry { removal: RemovalView },
    Record { upsert: UpsertView },
    Finish { result: Result<DataView, ErrorView> },
}

impl View for FetchAction {
    type V = FetchActionView;

    open spec fn view(&self) -> FetchActionView {
        match *self {
            FetchAction::ProbeCache => FetchActionView::ProbeCache,
            FetchAction::Serve { data, touch } => FetchActionView::Serve {
                data: data@,
                touch: touch@,
            },
            FetchAction::ListDirectory { binary_path, arguments } => FetchActionView::ListDirectory {
                binary_path: binary_path@,
                arguments: string_views(arguments@),
            },
            FetchAction::StoreListing { page, write } => FetchActionView::StoreListing {
                page: page@,
                write: write@,
            },
            FetchAction::Dispatch { urls, user_agent, timeout_millis } => FetchActionView::Dispatch {
                urls: string_views(urls@),
                user_agent: user_agent@,
                timeout_millis,
            },
            FetchAction::Await => FetchActionView::Await,
            FetchAction::StoreBody { write } => FetchActionView::StoreBody { write: write@ },
            FetchAction::RemoveEntry { removal } => FetchActionView::RemoveEntry {
                removal: removal@,
            },
            FetchAction::Record { upsert } => FetchActionView::Record { upsert: upsert@ },
            FetchAction::Finish { result } => FetchActionView::Finish {
                result: match result {
                    Ok(data) => Ok(data@),
                    Err(e) => Err(e@),
                },
            },
        }
    }
}

/// One fetch of one URL.
#[derive(Debug, PartialEq, Eq)]
pub struct Fetch {
    pub ipfs_url: String,
    pub base_uri: String,
    pub state: FetchState,
}

/// A [`Fetch`] with its strings taken by their views.
pub struct FetchView {
    pub ipfs_url: Seq<char>,
    pub base_uri: Seq<char>,
    pub state: FetchStateView,
}

impl View for Fetch {
    type V = FetchView;

    open spec fn view(&self) -> FetchView {
        FetchView { ipfs_url: self.ipfs_url@, base_uri: self.base_uri@, state: self.state@ }
    }
}

/// What a step of a fetch depends on besides the fetch and the event.
pub struct FetchEnv {
    /// Whether a local binary lists directories.
    pub listing_enabled: bool,
    pub binary_path: Seq<char>,
    /// The cache root.
    pub cache_directory: Seq<char>,
    pub user_agent: Seq<char>,
    pub connect_timeout: u64,
    pub max_content_length: u64,
    pub pause_gateway_seconds: i64,
    pub gateways: Seq<Seq<char>>,
    pub blocked: Map<Seq<char>, i64>,
    /// The instant of the step, in milliseconds since the Unix epoch.
    pub now: i64,
}

/// What a step of a fetch yields.
pub struct FetchStep {
    pub state: FetchStateView,
    pub action: FetchActionView,
    pub blocked: Map<Seq<char>, i64>,
}

/// The text of an optional string; nothing counts as the empty text.
pub open spec fn text_or_empty(text: Option<Seq<char>>) -> Seq<char> {
    match text {
        Some(t) => t,
        None => Seq::empty(),
    }
}

/// The arguments with which the local binary lists `base_uri`.
pub open spec fn listing_arguments(base_uri: Seq<char>) -> Seq<Seq<char>> {
    seq!["ls"@, "-s"@, "--size=false"@, "--resolve-type=false"@, base_uri]
}

/// The step that ends a fetch with `result`.
pub open spec fn ends_with_result(
    result: Result<DataView, ErrorView>,
    blocked: Map<Seq<char>, i64>,
) -> FetchStep {
    FetchStep {
        state: FetchStateView::Finished,
        action: FetchActionView::Finish { result },
        blocked,
    }
}

/// The step that turns to the gateways: a request to every gateway that is
/// not paused, or the end of the fetch where every gateway is.
pub open spec fn enters_race(base_uri: Seq<char>, env: FetchEnv) -> FetchStep {
    let urls = candidates(
        env.gateways,
        env.blocked,
        base_uri,
        env.now,
        env.pause_gateway_seconds,
    );
    if urls.len() == 0 {
        ends_with_result(Err(ErrorView::AllGatewaysFailed { urls }), env.blocked)
    } else {
        FetchStep {
            state: FetchStateView::Racing { urls, pending: urls.len() },
            action: FetchActionView::Dispatch {
                urls,
                user_agent: env.user_agent,
                timeout_millis: env.connect_timeout,
            },
            blocked: env.blocked,
        }
    }
}

/// The step after a request that brought no success: wait for the next
/// outcome, or end the fetch where none is left.
pub open spec fn carries_on(
    urls: Seq<Seq<char>>,
    pending: nat,
    blocked: Map<Seq<char>, i64>,
) -> FetchStep {
    if pending <= 1 {
        ends_with_result(Err(ErrorView::AllGatewaysFailed { urls }), blocked)
    } else {
        FetchStep {
            state: FetchStateView::Racing { urls, pending: (pending - 1) as nat },
            action: FetchActionView::Await,
            blocked,
        }
    }
}

/// The step that stores a body of the media type `content_type` for `url`.
pub open spec fn stores(url: Seq<char>, content_type: Option<Seq<char>>, env: FetchEnv) -> FetchStep {
    if valid_ipfs_url(url) {
        FetchStep {
            state: FetchStateView::Storing { content_type },
            action: FetchActionView::StoreBody {
                write: write_of(url, content_type, env.cache_directory),
            },
            blocked: env.blocked,
        }
    } else {
        ends_with_result(Err(rejection(url)), env.blocked)
    }
}

/// The step that stores the listing that the local binary printed.
pub open spec fn stores_listing(fetch: FetchView, output: Seq<char>, env: FetchEnv) -> FetchStep {
    if valid_ipfs_url(fetch.ipfs_url) {
        FetchStep {
            state: FetchStateView::StoringListing,
            action: FetchActionView::StoreListing {
                page: listing_page(fetch.base_uri, listed_files(output)),
                write: write_of(fetch.ipfs_url, Some(html()), env.cache_directory),
            },
            blocked: env.blocked,
        }
    } else {
        ends_with_result(Err(rejection(fetch.ipfs_url)), env.blocked)
    }
}

/// The step that a gateway's answer leads to.
pub open spec fn answers(
    url: Seq<char>,
    urls: Seq<Seq<char>>,
    pending: nat,
    host: Option<Seq<char>>,
    status: u16,
    content_length: Option<u64>,
    content_type: Option<Seq<char>>,
    env: FetchEnv,
) -> FetchStep {
    if status == 200 {
        if content_length is Some && content_length->0 > env.max_content_length {
            ends_with_result(
                Err(
                    ErrorView::DeclaredTooLarge {
                        size: content_length->0,
                        limit: env.max_content_length,
                    },
                ),
                env.blocked,
            )
        } else {
            stores(url, content_type, env)
        }
    } else if status == 429 {
        carries_on(
            urls,
            pending,
            match host {
                Some(h) => blocked_after(env.gateways, env.blocked, h, env.now),
                None => env.blocked,
            },
        )
    } else {
        carries_on(urls, pending, env.blocked)
    }
}

/// The step that a stored body leads to: where it is larger than allowed,
/// the removal of the file that it was stored in, which is the file of the
/// URL under the media type `content_type`; else its recording.
pub open spec fn stored(
    ipfs_url: Seq<char>,
    content_type: Option<Seq<char>>,
    data: DataView,
    size: u64,
    env: FetchEnv,
) -> FetchStep {
    if size > env.max_content_length {
        if valid_ipfs_url(ipfs_url) {
            FetchStep {
                state: FetchStateView::Removing { size },
                action: FetchActionView::RemoveEntry {
                    removal: removal_of(ipfs_url, content_type, env.cache_directory),
                },
                blocked: env.blocked,
            }
        } else {
            ends_with_result(Err(rejection(ipfs_url)), env.blocked)
        }
    } else {
        FetchStep {
            state: FetchStateView::Recording { data },
            action: FetchActionView::Record {
                upsert: access_record(
                    ipfs_url,
                    text_or_empty(data.content_type),
                    recorded_size(size),
                    env.now,
                ),
            },
            blocked: env.blocked,
        }
    }
}

/// The step that follows `event` in `fetch`.
pub open spec fn next(fetch: FetchView, event: FetchEventView, env: FetchEnv) -> FetchStep {
    match (fetch.state, event) {
        (FetchStateView::Idle, FetchEventView::Started) => FetchStep {
            state: FetchStateView::Probing,
            action: FetchActionView::ProbeCache,
            blocked: env.blocked,
        },
        (FetchStateView::Probing, FetchEventView::CacheHit { data, size }) => FetchStep {
            state: FetchStateView::Finished,
            action: FetchActionView::Serve {
                data,
                touch: access_record(
                    fetch.ipfs_url,
                    text_or_empty(data.content_type),
                    recorded_size(size),
                    env.now,
                ),
            },
            blocked: env.blocked,
        },
        (FetchStateView::Probing, FetchEventView::CacheMiss) => if env.listing_enabled {
            FetchStep {
                state: FetchStateView::Listing,
                action: FetchActionView::ListDirectory {
                    binary_path: env.binary_path,
                    arguments: listing_arguments(fetch.base_uri),
                },
                blocked: env.blocked,
            }
        } else {
            enters_race(fetch.base_uri, env)
        },
        (FetchStateView::Listing, FetchEventView::Listed { output }) => if listed_files(
            output,
        ).len() > 0 {
            stores_listing(fetch, output, env)
        } else {
            enters_race(fetch.base_uri, env)
        },
        (FetchStateView::Listing, FetchEventView::NotListed) => enters_race(fetch.base_uri, env),
        (FetchStateView::Listing, FetchEventView::Failed { detail }) => ends_with_result(
            Err(ErrorView::Interrupted { detail }),
            env.blocked,
        ),
        (FetchStateView::StoringListing, FetchEventView::ListingStored { data }) => ends_with_result(
            Ok(data),
            env.blocked,
        ),
        (FetchStateView::StoringListing, FetchEventView::Failed { detail }) => ends_with_result(
            Err(ErrorView::CacheIo { detail }),
            env.blocked,
        ),
        (
            FetchStateView::Racing { urls, pending },
            FetchEventView::Response { host, status, content_length, content_type },
        ) => answers(fetch.ipfs_url, urls, pending, host, status, content_length, content_type, env),
        (FetchStateView::Racing { urls, pending }, FetchEventView::NoResponse) => carries_on(
            urls,
            pending,
            env.blocked,
        ),
        (FetchStateView::Racing { urls, pending }, FetchEventView::Failed { detail }) => {
            ends_with_result(Err(ErrorView::Interrupted { detail }), env.blocked)
        },
        (FetchStateView::Storing { content_type }, FetchEventView::Stored { data, size }) => stored(
            fetch.ipfs_url,
            content_type,
            data,
            size,
            env,
        ),
        (FetchStateView::Storing { content_type }, FetchEventView::Failed { detail }) => ends_with_result(
            Err(ErrorView::CacheIo { detail }),
            env.blocked,
        ),
        (FetchStateView::Removing { size }, FetchEventView::Removed) => ends_with_result(
            Err(ErrorView::StoredTooLarge { size, limit: env.max_content_length }),
            env.blocked,
        ),
        (FetchStateView::Removing { size }, FetchEventView::Failed { detail }) => ends_with_result(
            Err(ErrorView::CacheIo { detail }),
            env.blocked,
        ),
        (FetchStateView::Recording { data }, FetchEventView::Recorded) => ends_with_result(
            Ok(data),
            env.blocked,
        ),
        (FetchStateView::Recording { data }, FetchEventView::Failed { detail }) => {
            ends_with_result(Err(ErrorView::ObjectStore { detail }), env.blocked)
        },
        _ => ends_with_result(Err(ErrorView::UnexpectedEvent), env.blocked),
    }
}

/// What a step depends on, as the settings, the pool and the clock give it.
pub open spec fn env_of(settings: Settings, pool: GatewayPool, now: i64) -> FetchEnv {
    FetchEnv {
        listing_enabled: settings.ipfs.enabled,
        binary_path: settings.ipfs.binary_path@,
        cache_directory: settings.ipfs_cache_directory@,
        user_agent: settings.user_agent@,
        connect_timeout: settings.connect_timeout,
        max_content_length: settings.max_content_length,
        pause_gateway_seconds: settings.pause_gateway_seconds,
        gateways: pool.gateways(),
        blocked: pool.blocked(),
        now,
    }
}

/// The text of an optional string; nothing counts as the empty text.
fn text_of(text: &Option<String>) -> (t: String)
    ensures
        t@ == text_or_empty(view_of(*text)),
{
    match text {
        Some(t) => t.clone(),
        None => String::new(),
    }
}

/// The arguments with which the local binary lists `base_uri`.
fn arguments_for(base_uri: &str) -> (arguments: Vec<String>)
    ensures
        string_views(arguments@) == listing_arguments(base_uri@),
{
    let mut arguments: Vec<String> = Vec::new();
    arguments.push("ls".to_owned());
    arguments.push("-s".to_owned());
    arguments.push("--size=false".to_owned());
    arguments.push("--resolve-type=false".to_owned());
    arguments.push(base_uri.to_owned());
    proof {
        assert(string_views(arguments@) =~= listing_arguments(base_uri@));
    }
    arguments
}

impl Fetch {
    /// A fetch of `ipfs_url`, whose base URI is `base_uri`, before its first
    /// step.
    pub fn new(ipfs_url: String, base_uri: String) -> (fetch: Fetch)
        ensures
            fetch@ == (FetchView {
                ipfs_url: ipfs_url@,
                base_uri: base_uri@,
                state: FetchStateView::Idle,
            }),
    {
        Fetch { ipfs_url, base_uri, state: FetchState::Idle }
    }

    /// Whether the fetch has ended.
    pub fn is_finished(&self) -> (finished: bool)
        ensures
            finished == (self@.state is Finished),
    {
        match self.state {
            FetchState::Finished => true,
            _ => false,
        }
    }

    /// Ends the fetch with `result`.
    fn ended(ipfs_url: String, base_uri: String, result: Result<Data, Error>) -> (r: (
        Fetch,
        FetchAction,
    ))
        ensures
            r.0@ == (FetchView {
                ipfs_url: ipfs_url@,
                base_uri: base_uri@,
                state: FetchStateView::Finished,
            }),
            r.1@ == (FetchActionView::Finish {
                result: match result {
                    Ok(data) => Ok(data@),
                    Err(e) => Err(e@),
                },
            }),
    {
        (Fetch { ipfs_url, base_uri, state: FetchState::Finished }, FetchAction::Finish { result })
    }

    /// Turns to the gateways that are not paused.
    fn race(ipfs_url: String, base_uri: String, settings: &Settings, pool: &GatewayPool, now: i64) -> (r:
        (Fetch, FetchAction))
        ensures
            ({
                let n = enters_race(base_uri@, env_of(*settings, *pool, now));
                &&& r.0@ == (FetchView { ipfs_url: ipfs_url@, base_uri: base_uri@, state: n.state })
                &&& r.1@ == n.action
            }),
    {
        let urls = pool.candidate_urls(base_uri.as_str(), now, settings.pause_gateway_seconds);
        if urls.len() == 0 {
            Self::ended(ipfs_url, base_uri, Err(Error::AllGatewaysFailed { urls }))
        } else {
            let pending = urls.len();
            let copy = clone_strings(&urls);
            (
                Fetch { ipfs_url, base_uri, state: FetchState::Racing { urls, pending } },
                FetchAction::Dispatch {
                    urls: copy,
                    user_agent: settings.user_agent.clone(),
                    timeout_millis: settings.connect_timeout,
                },
            )
        }
    }

    /// Waits for the next outcome of the race, if one is left.
    fn carry_on(ipfs_url: String, base_uri: String, urls: Vec<String>, pending: usize) -> (r: (
        Fetch,
        FetchAction,
    ))
        ensures
            ({
                let n = carries_on(string_views(urls@), pending as nat, Map::empty());
                &&& r.0@ == (FetchView { ipfs_url: ipfs_url@, base_uri: base_uri@, state: n.state })
                &&& r.1@ == n.action
            }),
    {
        if pending <= 1 {
            Self::ended(ipfs_url, base_uri, Err(Error::AllGatewaysFailed { urls }))
        } else {
            (
                Fetch {
                    ipfs_url,
                    base_uri,
                    state: FetchState::Racing { urls, pending: pending - 1 },
                },
                FetchAction::Await,
            )
        }
    }

    /// Takes the fetch one step on at the instant that the clock shows.
    pub fn advance(self, event: FetchEvent, settings: &Settings, pool: &mut GatewayPool) -> (r: (
        Fetch,
        FetchAction,
    ))
        ensures
            exists|now: i64|
                {
                    let n = next(self@, event@, #[trigger] env_of(*settings, *old(pool), now));
                    &&& r.0@ == (FetchView {
                        ipfs_url: self.ipfs_url@,
                        base_uri: self.base_uri@,
                        state: n.state,
                    })
                    &&& r.1@ == n.action
                    &&& final(pool).blocked() == n.blocked
                },
            final(pool).gateways() == old(pool).gateways(),
    {
        let now = now_millis();
        let r = self.step(event, settings, pool, now);
        proof {
            let n = next(self@, event@, env_of(*settings, *old(pool), now));
            assert(r.1@ == n.action);
        }
        r
    }

    /// Takes the fetch one step on: given what the driver reports, says what
    /// it is to do next. A 429 is recorded in `pool`.
    pub fn step(self, event: FetchEvent, settings: &Settings, pool: &mut GatewayPool, now: i64) -> (r:
        (Fetch, FetchAction))
        ensures
            ({
                let n = next(self@, event@, env_of(*settings, *old(pool), now));
                &&& r.0@ == (FetchView {
                    ipfs_url: self.ipfs_url@,
                    base_uri: self.base_uri@,
                    state: n.state,
                })
                &&& r.1@ == n.action
                &&& final(pool).blocked() == n.blocked
                &&& final(pool).gateways() == old(pool).gateways()
            }),
    {
        let Fetch { ipfs_url, base_uri, state } = self;
        match state {
            FetchState::Idle => match event {
                FetchEvent::Started => (
                    Fetch { ipfs_url, base_uri, state: FetchState::Probing },
                    FetchAction::ProbeCache,
                ),
                _ => Self::ended(ipfs_url, base_uri, Err(Error::UnexpectedEvent)),
            },
            FetchState::Probing => match event {
                FetchEvent::CacheHit { data, size } => {
                    let content_type = text_of(&data.content_type);
                    let touch = update_entry(
                        ipfs_url.as_str(),
                        content_type.as_str(),
                        size_for_record(size),
                        now,
                    );
                    (
                        Fetch { ipfs_url, base_uri, state: FetchState::Finished },
                        FetchAction::Serve { data, touch },
                    )
                },
                FetchEvent::CacheMiss => {
                    if settings.ipfs.enabled {
                        let arguments = arguments_for(base_uri.as_str());
                        (
                            Fetch { ipfs_url, base_uri, state: FetchState::Listing },
                            FetchAction::ListDirectory {
                                binary_path: settings.ipfs.binary_path.clone(),
                                arguments,
                            },
                        )
                    } else {
                        Self::race(ipfs_url, base_uri, settings, pool, now)
                    }
                },
                _ => Self::ended(ipfs_url, base_uri, Err(Error::UnexpectedEvent)),
            },
            FetchState::Listing => match event {
                FetchEvent::Listed { output } => {
                    let files = parse_listing(output.as_str());
                    if files.len() > 0 {
                        let page = render_listing(base_uri.as_str(), &files);
                        let html_type = "text/html".to_owned();
                        proof {
                            reveal_strlit("text/html");
                            assert(html_type@ =~= html());
                        }
                        match set_stream_caching(
                            ipfs_url.as_str(),
                            settings.ipfs_cache_directory.as_str(),
                            Some(html_type),
                        ) {
                            Err(e) => Self::ended(ipfs_url, base_uri, Err(e)),
                            Ok(write) => (
                                Fetch { ipfs_url, base_uri, state: FetchState::StoringListing },
                                FetchAction::StoreListing { page, write },
                            ),
                        }
                    } else {
                        Self::race(ipfs_url, base_uri, settings, pool, now)
                    }
                },
                FetchEvent::NotListed => Self::race(ipfs_url, base_uri, settings, pool, now),
                FetchEvent::Failed { detail } => Self::ended(
                    ipfs_url,
                    base_uri,
                    Err(Error::Interrupted { detail }),
                ),
                _ => Self::ended(ipfs_url, base_uri, Err(Error::UnexpectedEvent)),
            },
            FetchState::StoringListing => match event {
                FetchEvent::ListingStored { data } => Self::ended(ipfs_url, base_uri, Ok(data)),
                FetchEvent::Failed { detail } => Self::ended(
                    ipfs_url,
                    base_uri,
                    Err(Error::CacheIo { detail }),
                ),
                _ => Self::ended(ipfs_url, base_uri, Err(Error::UnexpectedEvent)),
            },
            FetchState::Racing { urls, pending } => match event {
                FetchEvent::Response { host, status, content_length, content_type } => {
                    if status == 200 {
                        let declared: u64 = match content_length {
                            Some(n) => n,
                            None => 0,
                        };
                        if declared > settings.max_content_length {
                            Self::ended(
                                ipfs_url,
                                base_uri,
                                Err(
                                    Error::DeclaredTooLarge {
                                        size: declared,
                                        limit: settings.max_content_length,
                                    },
                                ),
                            )
                        } else {
                            match set_stream_caching(
                                ipfs_url.as_str(),
                                settings.ipfs_cache_directory.as_str(),
                                clone_text(&content_type),
                            ) {
                                Err(e) => Self::ended(ipfs_url, base_uri, Err(e)),
                                Ok(write) => (
                                    Fetch {
                                        ipfs_url,
                                        base_uri,
                                        state: FetchState::Storing { content_type },
                                    },
                                    FetchAction::StoreBody { write },
                                ),
                            }
                        }
                    } else {
                        if status == 429 {
                            match host {
                                Some(h) => {
                                    pool.record_rate_limit(h.as_str(), now);
                                },
                                None => {},
                            }
                        }
                        Self::carry_on(ipfs_url, base_uri, urls, pending)
                    }
                },
                FetchEvent::NoResponse => Self::carry_on(ipfs_url, base_uri, urls, pending),
                FetchEvent::Failed { detail } => Self::ended(
                    ipfs_url,
                    base_uri,
                    Err(Error::Interrupted { detail }),
                ),
                _ => Self::ended(ipfs_url, base_uri, Err(Error::UnexpectedEvent)),
            },
            FetchState::Storing { content_type } => match event {
                FetchEvent::Stored { data, size } => {
                    if size > settings.max_content_length {
                        match delete_caching(
                            ipfs_url.as_str(),
                            settings.ipfs_cache_directory.as_str(),
                            content_type,
                        ) {
                            Err(e) => Self::ended(ipfs_url, base_uri, Err(e)),
                            Ok(removal) => (
                                Fetch { ipfs_url, base_uri, state: FetchState::Removing { size } },
                                FetchAction::RemoveEntry { removal },
                            ),
                        }
                    } else {
                        let content_type = text_of(&data.content_type);
                        let upsert = update_entry(
                            ipfs_url.as_str(),
                            content_type.as_str(),
                            size_for_record(size),
                            now,
                        );
                        (
                            Fetch { ipfs_url, base_uri, state: FetchState::Recording { data } },
                            FetchAction::Record { upsert },
                        )
                    }
                },
                FetchEvent::Failed { detail } => Self::ended(
                    ipfs_url,
                    base_uri,
                    Err(Error::CacheIo { detail }),
                ),
                _ => Self::ended(ipfs_url, base_uri, Err(Error::UnexpectedEvent)),
            },
            FetchState::Removing { size } => match event {
                FetchEvent::Removed => Self::ended(
                    ipfs_url,
                    base_uri,
                    Err(Error::StoredTooLarge { size, limit: settings.max_content_length }),
                ),
                FetchEvent::Failed { detail } => Self::ended(
                    ipfs_url,
                    base_uri,
                    Err(Error::CacheIo { detail }),
                ),
                _ => Self::ended(ipfs_url, base_uri, Err(Error::UnexpectedEvent)),
            },
            FetchState::Recording { data } => match event {
                FetchEvent::Recorded => Self::ended(ipfs_url, base_uri, Ok(data)),
                FetchEvent::Failed { detail } => Self::ended(
                    ipfs_url,
                    base_uri,
                    Err(Error::ObjectStore { detail }),
                ),
                _ => Self::ended(ipfs_url, base_uri, Err(Error::UnexpectedEvent)),
            },
            FetchState::Finished => Self::ended(ipfs_url, base_uri, Err(Error::UnexpectedEvent)),
        }
    }
}

/// A body is streamed into the cache only for an answer with status 200
/// whose announced length, if it announces one, is within the limit. So for
/// an answer that announces more, no cache file is made.
pub proof fn lemma_declared_size_is_enforced(fetch: FetchView, event: FetchEventView, env: FetchEnv)
    requires
        next(fetch, event, env).action is StoreBody,
    ensures
        fetch.state is Racing,
        event matches FetchEventView::Response { status, content_length, .. } && status == 200 && (
        content_length matches Some(n) ==> n <= env.max_content_length),
{
}

/// An answer that announces more than the limit ends the fetch with the
/// announced size and the limit.
pub proof fn lemma_declared_too_large_fails(
    fetch: FetchView,
    host: Option<Seq<char>>,
    size: u64,
    content_type: Option<Seq<char>>,
    env: FetchEnv,
)
    requires
        fetch.state is Racing,
        size > env.max_content_length,
    ensures
        next(
            fetch,
            FetchEventView::Response { host, status: 200, content_length: Some(size), content_type },
            env,
        ).action == (FetchActionView::Finish {
            result: Err(ErrorView::DeclaredTooLarge { size, limit: env.max_content_length }),
        }),
{
}

/// A stored body that is larger than the limit is never recorded nor handed
/// out: the one thing that follows is the removal of the file that the body
/// was stored in.
pub proof fn lemma_stored_size_is_enforced(
    fetch: FetchView,
    content_type: Option<Seq<char>>,
    data: DataView,
    size: u64,
    env: FetchEnv,
)
    requires
        valid_ipfs_url(fetch.ipfs_url),
        fetch.state == (FetchStateView::Storing { content_type }),
        size > env.max_content_length,
    ensures
        next(fetch, FetchEventView::Stored { data, size }, env).action == (
        FetchActionView::RemoveEntry {
            removal: removal_of(fetch.ipfs_url, content_type, env.cache_directory),
        }),
        next(fetch, FetchEventView::Stored { data, size }, env).state == (FetchStateView::Removing {
            size,
        }),
{
}

/// The removal that follows an oversized body names the file that the body
/// was written to: the write that the fetch handed out for the answer and
/// the removal that it asks for afterwards resolve to the same file.
pub proof fn lemma_oversized_body_is_removed(
    fetch: FetchView,
    host: Option<Seq<char>>,
    content_length: Option<u64>,
    content_type: Option<Seq<char>>,
    data: DataView,
    size: u64,
    env: FetchEnv,
)
    requires
        valid_ipfs_url(fetch.ipfs_url),
        fetch.state is Racing,
        content_length matches Some(n) ==> n <= env.max_content_length,
        size > env.max_content_length,
    ensures
        ({
            let answer = FetchEventView::Response { host, status: 200, content_length, content_type };
            let first = next(fetch, answer, env);
            let second = next(
                FetchView { state: first.state, ..fetch },
                FetchEventView::Stored { data, size },
                env,
            );
            &&& first.action matches FetchActionView::StoreBody { write }
            &&& second.action matches FetchActionView::RemoveEntry { removal }
            &&& removal.filename == write.filename
            &&& second.state == (FetchStateView::Removing { size })
        }),
{
}

/// While an entry is being removed the fetch cannot succeed, and the caller
/// hears that the body was too large only once the removal is reported.
pub proof fn lemma_too_large_is_reported_after_removal(
    fetch: FetchView,
    event: FetchEventView,
    env: FetchEnv,
)
    ensures
        fetch.state is Removing ==> !(next(fetch, event, env).action matches FetchActionView::Finish {
            result: Ok(_),
        }),
        fetch.state is Removing ==> next(fetch, event, env).state is Finished,
        next(fetch, event, env).action matches FetchActionView::Finish {
            result: Err(ErrorView::StoredTooLarge { .. }),
        } ==> fetch.state is Removing && event is Removed,
        next(fetch, event, env).state is Removing ==> next(fetch, event, env).action is RemoveEntry,
        next(fetch, event, env).action is RemoveEntry ==> fetch.state is Storing && event is Stored,
{
}

/// An object is handed out only from the cache, after its listing has been
/// stored, or after its body has been stored and recorded.
pub proof fn lemma_success_follows_storage(fetch: FetchView, event: FetchEventView, env: FetchEnv)
    ensures
        next(fetch, event, env).action is Serve ==> fetch.state is Probing && event is CacheHit,
        next(fetch, event, env).action matches FetchActionView::Finish { result: Ok(_) } ==> (
        fetch.state is Recording && event is Recorded) || (fetch.state is StoringListing
            && event is ListingStored),
        next(fetch, event, env).state is Recording ==> fetch.state is Storing && event is Stored,
{
}

/// The block list changes only when a gateway answers 429 during the race.
pub proof fn lemma_block_list_changes_on_429(fetch: FetchView, event: FetchEventView, env: FetchEnv)
    requires
        next(fetch, event, env).blocked != env.blocked,
    ensures
        fetch.state is Racing,
        event matches FetchEventView::Response { status, host, .. } && status == 429 && host is Some,
{
}

/// A fetch that has ended takes no further step.
pub proof fn lemma_finished_is_final(fetch: FetchView, event: FetchEventView, env: FetchEnv)
    requires
        fetch.state is Finished,
    ensures
        next(fetch, event, env) == ends_with_result(Err(ErrorView::UnexpectedEvent), env.blocked),
{
}

} // verus!
