//! The eviction sweep: which records have gone stale, and what is removed
//! with each.

use vstd::prelude::*;
use crate::caching::{delete_caching, removal_of, Removal, RemovalView};
use crate::ipfs_client::valid_ipfs_url;
use crate::ipfs_object::{Model, ModelView};

verus! {

/// Milliseconds in a day.
pub const MILLIS_PER_DAY: i64 = 86_400_000;

/// The instant `days` days before `now`, in milliseconds since the Unix
/// epoch; where that lies beyond the range of instants, the nearest instant
/// that there is.
pub open spec fn threshold_of(now: i64, days: i64) -> i64 {
    let exact = now - days * MILLIS_PER_DAY;
    if exact < i64::MIN {
        i64::MIN
    } else if exact > i64::MAX {
        i64::MAX
    } else {
        exact as i64
    }
}

/// The instant before which a last access makes a record stale.
pub fn sweep_threshold(now: i64, delete_after_days: i64) -> (threshold: i64)
    ensures
        threshold == threshold_of(now, delete_after_days),
{
    let exact: i128 = now as i128 - delete_after_days as i128 * 86_400_000;
    if exact < -0x8000_0000_0000_0000 {
        -0x8000_0000_0000_0000
    } else if exact > 0x7fff_ffff_ffff_ffff {
        0x7fff_ffff_ffff_ffff
    } else {
        exact as i64
    }
}

/// The instant before which a last access makes a record stale, counted
/// back from what the clock shows.
pub fn sweep_threshold_now(delete_after_days: i64) -> (threshold: i64)
    ensures
        exists|now: i64| threshold == #[trigger] threshold_of(now, delete_after_days),
{
    let now = crate::clock::now_millis();
    sweep_threshold(now, delete_after_days)
}

/// A record is stale when its last access lies before the threshold.
pub open spec fn is_stale(record: ModelView, threshold: i64) -> bool {
    record.last_accessed_at < threshold
}

/// One stale record and what leaves the cache with it.
#[derive(Debug, PartialEq, Eq)]
pub struct Eviction {
    /// The primary key of the record to delete.
    pub id: i32,
    pub remote_url: String,
    /// The cache entry to remove, resolved with the recorded media type;
    /// `None` where the recorded URL is not a valid one, in which case the
    /// record alone is deleted.
    pub removal: Option<Removal>,
}

/// An [`Eviction`] with its strings taken by their views.
pub struct EvictionView {
    pub id: i32,
    pub remote_url: Seq<char>,
    pub removal: Option<RemovalView>,
}

impl View for Eviction {
    type V = EvictionView;

    open spec fn view(&self) -> EvictionView {
        EvictionView {
            id: self.id,
            remote_url: self.remote_url@,
            removal: match self.removal {
                Some(r) => Some(r@),
                None => None,
            },
        }
    }
}

/// The views of a list of records.
pub open spec fn record_views(records: Seq<Model>) -> Seq<ModelView> {
    Seq::new(records.len(), |i: int| records[i]@)
}

/// The views of a list of evictions.
pub open spec fn eviction_views(evictions: Seq<Eviction>) -> Seq<EvictionView> {
    Seq::new(evictions.len(), |i: int| evictions[i]@)
}

/// What leaves with one stale record: the record, and the cache entry that
/// was written for its URL with the media type that the record holds.
pub open spec fn eviction_of(record: ModelView, directory: Seq<char>) -> EvictionView {
    EvictionView {
        id: record.id,
        remote_url: record.remote_url,
        removal: if valid_ipfs_url(record.remote_url) {
            Some(removal_of(record.remote_url, Some(record.content_type), directory))
        } else {
            None
        },
    }
}

/// The evictions of a sweep: one for each stale record, in the order of the
/// records.
pub open spec fn evictions_of(records: Seq<ModelView>, directory: Seq<char>, threshold: i64) -> Seq<
    EvictionView,
>
    decreases records.len(),
{
    if records.len() == 0 {
        Seq::empty()
    } else {
        let before = evictions_of(records.drop_last(), directory, threshold);
        if is_stale(records.last(), threshold) {
            before.push(eviction_of(records.last(), directory))
        } else {
            before
        }
    }
}

/// Plans a sweep over `records`: every record whose last access lies before
/// `threshold` is deleted, together with its cache entry beneath
/// `directory`. Records that are not stale are left out, whatever the caller
/// passed in.
pub fn sweep(records: &Vec<Model>, directory: &str, threshold: i64) -> (evictions: Vec<Eviction>)
    ensures
        eviction_views(evictions@) == evictions_of(record_views(records@), directory@, threshold),
{
    let mut evictions: Vec<Eviction> = Vec::new();
    let mut i: usize = 0;
    while i < records.len()
        invariant
            i <= records.len(),
            eviction_views(evictions@) == evictions_of(
                record_views(records@).take(i as int),
                directory@,
                threshold,
            ),
        decreases records.len() - i,
    {
        let record = &records[i];
        proof {
            let all = record_views(records@);
            assert(all.take(i + 1).drop_last() =~= all.take(i as int));
            assert(all.take(i + 1).last() == record@);
        }
        if record.last_accessed_at < threshold {
            let removal = match delete_caching(
                record.remote_url.as_str(),
                directory,
                Some(record.content_type.clone()),
            ) {
                Ok(removal) => Some(removal),
                Err(_) => None,
            };
            let eviction = Eviction { id: record.id, remote_url: record.remote_url.clone(), removal };
            let ghost before = eviction_views(evictions@);
            evictions.push(eviction);
            proof {
                assert(eviction_views(evictions@) =~= before.push(eviction_of(record@, directory@)));
            }
        }
        i += 1;
    }
    proof {
        assert(record_views(records@).take(records.len() as int) =~= record_views(records@));
    }
    evictions
}

/// Every stale record is evicted, with the cache entry of its own URL.
pub proof fn lemma_stale_records_are_evicted(
    records: Seq<ModelView>,
    directory: Seq<char>,
    threshold: i64,
    i: int,
)
    requires
        0 <= i < records.len(),
        is_stale(records[i], threshold),
    ensures
        evictions_of(records, directory, threshold).contains(eviction_of(records[i], directory)),
    decreases records.len(),
{
    let before = evictions_of(records.drop_last(), directory, threshold);
    if i == records.len() - 1 {
        let all = before.push(eviction_of(records.last(), directory));
        assert(all[before.len() as int] == eviction_of(records[i], directory));
    } else {
        lemma_stale_records_are_evicted(records.drop_last(), directory, threshold, i);
        let e = eviction_of(records[i], directory);
        let k = choose|k: int| 0 <= k < before.len() && before[k] == e;
        if is_stale(records.last(), threshold) {
            assert(before.push(eviction_of(records.last(), directory))[k] == e);
        }
    }
}

/// Nothing but stale records is evicted: each eviction is that of a record
/// whose last access lies before the threshold.
pub proof fn lemma_only_stale_records_are_evicted(
    records: Seq<ModelView>,
    directory: Seq<char>,
    threshold: i64,
    k: int,
)
    requires
        0 <= k < evictions_of(records, directory, threshold).len(),
    ensures
        exists|i: int|
            0 <= i < records.len() && is_stale(#[trigger] records[i], threshold) && evictions_of(
                records,
                directory,
                threshold,
            )[k] == eviction_of(records[i], directory),
    decreases records.len(),
{
    if records.len() > 0 {
        let before = evictions_of(records.drop_last(), directory, threshold);
        if k < before.len() {
            lemma_only_stale_records_are_evicted(records.drop_last(), directory, threshold, k);
            let i = choose|i: int|
                0 <= i < records.drop_last().len() && is_stale(
                    #[trigger] records.drop_last()[i],
                    threshold,
                ) && before[k] == eviction_of(records.drop_last()[i], directory);
            assert(records[i] == records.drop_last()[i]);
        } else {
            assert(is_stale(records[records.len() - 1], threshold));
        }
    }
}

} // verus!
