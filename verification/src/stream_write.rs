//! Writing a streamed body into the cache: into a temporary file first,
//! which takes the final name only once the stream has ended.

use vstd::prelude::*;
use crate::caching::{view_of, CachePath, Data, DataView};
use crate::error::{Error, ErrorView};

verus! {

/// Where a write stands.
#[derive(Clone, Copy, Debug, PartialEq, Eq, Structural)]
pub enum WriteState {
    /// The temporary file takes chunks.
    Open,
    /// The stream has ended; the temporary file is being renamed.
    Promoting,
    /// The file stands under its final name.
    Done,
    /// The write was given up; the temporary file is dropped.
    Aborted,
}

/// What the driver reports.
#[derive(Debug, PartialEq, Eq)]
pub enum WriteEvent {
    /// The stream yielded a chunk.
    Chunk,
    /// The stream has ended.
    End,
    /// The temporary file has taken the final name.
    Promoted,
    /// The stream, or the last action, failed.
    Failed { detail: String },
}

/// A [`WriteEvent`] with its strings taken by their views.
pub enum WriteEventView {
    Chunk,
    End,
    Promoted,
    Failed { detail: Seq<char> },
}

impl View for WriteEvent {
    type V = WriteEventView;

    open spec fn view(&self) -> WriteEventView {
        match *self {
            WriteEvent::Chunk => WriteEventView::Chunk,
            WriteEvent::End => WriteEventView::End,
            WriteEvent::Promoted => WriteEventView::Promoted,
            WriteEvent::Failed { detail } => WriteEventView::Failed { detail: detail@ },
        }
    }
}

/// What the driver is to do next.
#[derive(Debug, PartialEq, Eq)]
pub enum WriteAction {
    /// Append the chunk to the temporary file; report the next of the stream.
    Append,
    /// Rename the temporary file to `filename`, in one step; report
    /// `Promoted` or `Failed`.
    Promote { filename: String },
    /// The write has ended: the object is cached.
    Finish { data: Data },
    /// The write has ended: drop the temporary file, which unlinks it.
    Abandon { error: Error },
}

/// A [`WriteAction`] with its strings taken by their views.
pub enum WriteActionView {
    Append,
    Promote { filename: Seq<char> },
    Finish { data: DataView },
    Abandon { error: ErrorView },
}

impl View for WriteAction {
    type V = WriteActionView;

    open spec fn view(&self) -> WriteActionView {
        match *self {
            WriteAction::Append => WriteActionView::Append,
            WriteAction::Promote { filename } => WriteActionView::Promote { filename: filename@ },
            WriteAction::Finish { data } => WriteActionView::Finish { data: data@ },
            WriteAction::Abandon { error } => WriteActionView::Abandon { error: error@ },
        }
    }
}

/// One write of one streamed body.
#[derive(Debug, PartialEq, Eq)]
pub struct StreamWrite {
    /// The final file, and its directory, which is made before the write.
    pub path: CachePath,
    pub content_type: Option<String>,
    /// What the name of the temporary file begins with: the cache root and a
    /// `/`, so that it lies on the file system of the final file.
    pub temp_prefix: String,
    pub state: WriteState,
}

/// A [`StreamWrite`] with its strings taken by their views.
pub struct StreamWriteView {
    pub filename: Seq<char>,
    pub cache_dir: Seq<char>,
    pub content_type: Option<Seq<char>>,
    pub temp_prefix: Seq<char>,
    pub state: WriteState,
}

impl View for StreamWrite {
    type V = StreamWriteView;

    open spec fn view(&self) -> StreamWriteView {
        StreamWriteView {
            filename: self.path.filename@,
            cache_dir: self.path.cache_dir@,
            content_type: view_of(self.content_type),
            temp_prefix: self.temp_prefix@,
            state: self.state,
        }
    }
}

/// The state that follows `event` in `state`.
pub open spec fn next_state(state: WriteState, event: WriteEventView) -> WriteState {
    match (state, event) {
        (WriteState::Open, WriteEventView::Chunk) => WriteState::Open,
        (WriteState::Open, WriteEventView::End) => WriteState::Promoting,
        (WriteState::Promoting, WriteEventView::Promoted) => WriteState::Done,
        (WriteState::Done, _) => WriteState::Done,
        _ => WriteState::Aborted,
    }
}

/// What the driver is told when `event` arrives in a write.
pub open spec fn next_action(write: StreamWriteView, event: WriteEventView) -> WriteActionView {
    match (write.state, event) {
        (WriteState::Open, WriteEventView::Chunk) => WriteActionView::Append,
        (WriteState::Open, WriteEventView::End) => WriteActionView::Promote {
            filename: write.filename,
        },
        (WriteState::Promoting, WriteEventView::Promoted) => WriteActionView::Finish {
            data: DataView { content_type: write.content_type, filename: Some(write.filename) },
        },
        (WriteState::Open, WriteEventView::Failed { detail }) => WriteActionView::Abandon {
            error: ErrorView::CacheIo { detail },
        },
        (WriteState::Promoting, WriteEventView::Failed { detail }) => WriteActionView::Abandon {
            error: ErrorView::CacheIo { detail },
        },
        _ => WriteActionView::Abandon { error: ErrorView::UnexpectedEvent },
    }
}

/// The state of a write after a run of events, from `Open`.
pub open spec fn state_after(events: Seq<WriteEventView>) -> WriteState
    decreases events.len(),
{
    if events.len() == 0 {
        WriteState::Open
    } else {
        next_state(state_after(events.drop_last()), events.last())
    }
}

impl StreamWrite {
    /// Takes the write one step on.
    pub fn step(self, event: WriteEvent) -> (r: (StreamWrite, WriteAction))
        ensures
            r.0@ == (StreamWriteView { state: next_state(self.state, event@), ..self@ }),
            r.1@ == next_action(self@, event@),
    {
        let StreamWrite { path, content_type, temp_prefix, state } = self;
        match state {
            WriteState::Open => match event {
                WriteEvent::Chunk => (
                    StreamWrite { path, content_type, temp_prefix, state: WriteState::Open },
                    WriteAction::Append,
                ),
                WriteEvent::End => {
                    let filename = path.filename.clone();
                    (
                        StreamWrite { path, content_type, temp_prefix, state: WriteState::Promoting },
                        WriteAction::Promote { filename },
                    )
                },
                WriteEvent::Failed { detail } => (
                    StreamWrite { path, content_type, temp_prefix, state: WriteState::Aborted },
                    WriteAction::Abandon { error: Error::CacheIo { detail } },
                ),
                WriteEvent::Promoted => (
                    StreamWrite { path, content_type, temp_prefix, state: WriteState::Aborted },
                    WriteAction::Abandon { error: Error::UnexpectedEvent },
                ),
            },
            WriteState::Promoting => match event {
                WriteEvent::Promoted => {
                    let data = Data {
                        content_type: crate::caching::clone_text(&content_type),
                        filename: Some(path.filename.clone()),
                    };
                    (
                        StreamWrite { path, content_type, temp_prefix, state: WriteState::Done },
                        WriteAction::Finish { data },
                    )
                },
                WriteEvent::Failed { detail } => (
                    StreamWrite { path, content_type, temp_prefix, state: WriteState::Aborted },
                    WriteAction::Abandon { error: Error::CacheIo { detail } },
                ),
                _ => (
                    StreamWrite { path, content_type, temp_prefix, state: WriteState::Aborted },
                    WriteAction::Abandon { error: Error::UnexpectedEvent },
                ),
            },
            WriteState::Done => (
                StreamWrite { path, content_type, temp_prefix, state: WriteState::Done },
                WriteAction::Abandon { error: Error::UnexpectedEvent },
            ),
            WriteState::Aborted => (
                StreamWrite { path, content_type, temp_prefix, state: WriteState::Aborted },
                WriteAction::Abandon { error: Error::UnexpectedEvent },
            ),
        }
    }
}

/// A write is open exactly as long as nothing but chunks has arrived.
pub proof fn lemma_open_means_chunks_only(events: Seq<WriteEventView>)
    ensures
        state_after(events) is Open <==> forall|j: int|
            0 <= j < events.len() ==> #[trigger] events[j] is Chunk,
    decreases events.len(),
{
    if events.len() > 0 {
        let before = events.drop_last();
        lemma_open_means_chunks_only(before);
        if state_after(events) is Open {
            assert forall|j: int| 0 <= j < events.len() implies #[trigger] events[j] is Chunk by {
                if j < before.len() {
                    assert(before[j] == events[j]);
                }
            }
        } else if forall|j: int| 0 <= j < events.len() ==> #[trigger] events[j] is Chunk {
            assert forall|j: int| 0 <= j < before.len() implies #[trigger] before[j] is Chunk by {
                assert(before[j] == events[j]);
            }
            assert(events.last() == events[events.len() - 1]);
        }
    }
}

/// At whatever point a write is interrupted, the final name has been given
/// to the temporary file only if the stream had ended before, after nothing
/// but chunks: the file under the final name holds the whole stream or does
/// not exist through this write.
pub proof fn lemma_promotion_follows_the_whole_stream(
    write: StreamWriteView,
    events: Seq<WriteEventView>,
    k: int,
)
    requires
        0 <= k < events.len(),
        next_action(
            StreamWriteView { state: state_after(events.take(k)), ..write },
            events[k],
        ) is Promote,
    ensures
        events[k] is End,
        forall|j: int| 0 <= j < k ==> #[trigger] events[j] is Chunk,
        forall|j: int|
            k < j < events.len() ==> !(next_action(
                StreamWriteView { state: state_after(events.take(j)), ..write },
                #[trigger] events[j],
            ) is Promote),
{
    lemma_open_means_chunks_only(events.take(k));
    assert forall|j: int| 0 <= j < k implies #[trigger] events[j] is Chunk by {
        assert(events.take(k)[j] == events[j]);
    }
    assert forall|j: int| k < j < events.len() implies !(next_action(
        StreamWriteView { state: state_after(events.take(j)), ..write },
        #[trigger] events[j],
    ) is Promote) by {
        lemma_open_means_chunks_only(events.take(j));
        assert(events.take(j)[k] == events[k]);
    }
}

/// The write reports success only for a file that has been given its final
/// name.
pub proof fn lemma_success_follows_promotion(write: StreamWriteView, event: WriteEventView)
    requires
        next_action(write, event) is Finish,
    ensures
        write.state is Promoting,
        event is Promoted,
        next_action(write, event) == (WriteActionView::Finish {
            data: DataView { content_type: write.content_type, filename: Some(write.filename) },
        }),
{
}

} // verus!
