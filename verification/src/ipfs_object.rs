//! The records of the object store: one per cached URL.

use vstd::prelude::*;

verus! {

/// One row of the table `ipfs_object`. Instants are in milliseconds since the
/// Unix epoch.
#[derive(Clone, Debug, PartialEq, Eq)]
pub struct Model {
    pub id: i32,
    /// The `ipfs://` URL; no two rows share one.
    pub remote_url: String,
    /// When the object was first cached.
    pub cached_at: i64,
    /// When the object was last asked for.
    pub last_accessed_at: i64,
    pub content_type: String,
    /// Size of the cached body in bytes.
    pub content_size: i64,
}

/// A [`Model`] with its strings taken by their views.
pub struct ModelView {
    pub id: i32,
    pub remote_url: Seq<char>,
    pub cached_at: i64,
    pub last_accessed_at: i64,
    pub content_type: Seq<char>,
    pub content_size: i64,
}

impl View for Model {
    type V = ModelView;

    open spec fn view(&self) -> ModelView {
        ModelView {
            id: self.id,
            remote_url: self.remote_url@,
            cached_at: self.cached_at,
            last_accessed_at: self.last_accessed_at,
            content_type: self.content_type@,
            content_size: self.content_size,
        }
    }
}

/// The columns of the table.
#[derive(Clone, Copy, Debug, PartialEq, Eq, Structural)]
pub enum Column {
    Id,
    RemoteUrl,
    CachedAt,
    LastAccessedAt,
    ContentType,
    ContentSize,
}

/// An insert that turns into an update where the URL is already recorded.
#[derive(Debug, PartialEq, Eq)]
pub struct Upsert {
    pub remote_url: String,
    pub cached_at: i64,
    pub last_accessed_at: i64,
    pub content_type: String,
    pub content_size: i64,
    /// The column whose uniqueness decides between insert and update.
    pub conflict: Column,
    /// The one column that an update rewrites.
    pub update: Column,
}

/// An [`Upsert`] with its strings taken by their views.
pub struct UpsertView {
    pub remote_url: Seq<char>,
    pub cached_at: i64,
    pub last_accessed_at: i64,
    pub content_type: Seq<char>,
    pub content_size: i64,
    pub conflict: Column,
    pub update: Column,
}

impl View for Upsert {
    type V = UpsertView;

    open spec fn view(&self) -> UpsertView {
        UpsertView {
            remote_url: self.remote_url@,
            cached_at: self.cached_at,
            last_accessed_at: self.last_accessed_at,
            content_type: self.content_type@,
            content_size: self.content_size,
            conflict: self.conflict,
            update: self.update,
        }
    }
}

/// The statement that records an access to `url` at `now`: a new row with
/// both instants at `now`, or, where the URL is recorded already, a refresh
/// of its last access alone.
pub open spec fn access_record(
    url: Seq<char>,
    content_type: Seq<char>,
    content_size: i64,
    now: i64,
) -> UpsertView {
    UpsertView {
        remote_url: url,
        cached_at: now,
        last_accessed_at: now,
        content_type,
        content_size,
        conflict: Column::RemoteUrl,
        update: Column::LastAccessedAt,
    }
}

/// Builds the statement that records an access to `ipfs_url` at `now`.
pub fn update_entry(ipfs_url: &str, content_type: &str, content_size: i64, now: i64) -> (upsert:
    Upsert)
    ensures
        upsert@ == access_record(ipfs_url@, content_type@, content_size, now),
{
    Upsert {
        remote_url: ipfs_url.to_owned(),
        cached_at: now,
        last_accessed_at: now,
        content_type: content_type.to_owned(),
        content_size,
        conflict: Column::RemoteUrl,
        update: Column::LastAccessedAt,
    }
}

/// A size in bytes as the table holds it; a size beyond the column's range
/// is recorded as the largest value of the column.
pub open spec fn recorded_size(size: u64) -> i64 {
    if size > i64::MAX as u64 {
        i64::MAX
    } else {
        size as i64
    }
}

/// A size in bytes as the table holds it.
pub fn size_for_record(size: u64) -> (recorded: i64)
    ensures
        recorded == recorded_size(size),
{
    if size > 0x7fff_ffff_ffff_ffff {
        0x7fff_ffff_ffff_ffff
    } else {
        size as i64
    }
}

/// Some row of the table records `url`.
pub open spec fn records_url(table: Seq<ModelView>, url: Seq<char>) -> bool {
    exists|i: int| 0 <= i < table.len() && (#[trigger] table[i]).remote_url == url
}

/// No two rows of the table record the same URL.
pub open spec fn urls_are_unique(table: Seq<ModelView>) -> bool {
    forall|i: int, j: int|
        0 <= i < table.len() && 0 <= j < table.len() && i != j ==> (#[trigger] table[i]).remote_url
            != (#[trigger] table[j]).remote_url
}

/// The table after an access was recorded: where the URL is recorded
/// already, its row has a new last access and is otherwise as before; else a
/// row with the key `id` is added.
pub open spec fn recorded(table: Seq<ModelView>, upsert: UpsertView, id: i32) -> Seq<ModelView> {
    if records_url(table, upsert.remote_url) {
        Seq::new(
            table.len(),
            |i: int|
                if table[i].remote_url == upsert.remote_url {
                    ModelView { last_accessed_at: upsert.last_accessed_at, ..table[i] }
                } else {
                    table[i]
                },
        )
    } else {
        table.push(
            ModelView {
                id,
                remote_url: upsert.remote_url,
                cached_at: upsert.cached_at,
                last_accessed_at: upsert.last_accessed_at,
                content_type: upsert.content_type,
                content_size: upsert.content_size,
            },
        )
    }
}

/// Recording an access keeps the URLs unique, and leaves the URL recorded
/// with the instant of the access as its last.
pub proof fn lemma_recording_keeps_urls_unique(table: Seq<ModelView>, upsert: UpsertView, id: i32)
    requires
        urls_are_unique(table),
    ensures
        urls_are_unique(recorded(table, upsert, id)),
        forall|i: int|
            0 <= i < recorded(table, upsert, id).len() && (#[trigger] recorded(
                table,
                upsert,
                id,
            )[i]).remote_url == upsert.remote_url ==> recorded(table, upsert, id)[i].last_accessed_at
                == upsert.last_accessed_at,
        records_url(recorded(table, upsert, id), upsert.remote_url),
{
    let after = recorded(table, upsert, id);
    if records_url(table, upsert.remote_url) {
        let k = choose|k: int| 0 <= k < table.len() && (#[trigger] table[k]).remote_url
            == upsert.remote_url;
        assert(after[k].remote_url == upsert.remote_url);
        assert forall|i: int, j: int|
            0 <= i < after.len() && 0 <= j < after.len() && i != j implies (#[trigger] after[i]).remote_url
            != (#[trigger] after[j]).remote_url by {
            assert(after[i].remote_url == table[i].remote_url);
            assert(after[j].remote_url == table[j].remote_url);
        }
    } else {
        assert(after[table.len() as int].remote_url == upsert.remote_url);
        assert forall|i: int, j: int|
            0 <= i < after.len() && 0 <= j < after.len() && i != j implies (#[trigger] after[i]).remote_url
            != (#[trigger] after[j]).remote_url by {
            if i < table.len() {
                assert(after[i] == table[i]);
            }
            if j < table.len() {
                assert(after[j] == table[j]);
            }
        }
    }
}

/// Recording an access changes nothing of what was recorded before but the
/// last access of the URL itself: the instant of the first caching, the
/// media type and the size of every row stay as they were at its insert.
pub proof fn lemma_recording_keeps_what_was_inserted(
    table: Seq<ModelView>,
    upsert: UpsertView,
    id: i32,
    i: int,
)
    requires
        0 <= i < table.len(),
    ensures
        i < recorded(table, upsert, id).len(),
        recorded(table, upsert, id)[i].id == table[i].id,
        recorded(table, upsert, id)[i].remote_url == table[i].remote_url,
        recorded(table, upsert, id)[i].cached_at == table[i].cached_at,
        recorded(table, upsert, id)[i].content_type == table[i].content_type,
        recorded(table, upsert, id)[i].content_size == table[i].content_size,
        table[i].remote_url != upsert.remote_url ==> recorded(table, upsert, id)[i] == table[i],
        upsert.last_accessed_at >= table[i].last_accessed_at ==> recorded(
            table,
            upsert,
            id,
        )[i].last_accessed_at >= table[i].last_accessed_at,
{
}

} // verus!
