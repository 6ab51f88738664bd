//! The holder of the latest snapshot. It is a plain value: whoever shares
//! it between one writer and many readers guards it as a whole, so that a
//! publish replaces the snapshot in one step.

use vstd::prelude::*;
use crate::status::{clone_status, status_view, PlayerStatus, StatusView};

verus! {

/// The cache as a mathematical value.
pub struct CacheView {
    /// The snapshot published last, if any.
    pub latest: Option<StatusView>,
    /// How many times anything was published, modulo 2^64.
    pub generation: u64,
}

/// The cache before anything was published.
pub open spec fn empty_cache() -> CacheView {
    CacheView { latest: None, generation: 0 }
}

/// The cache after one more publish.
pub open spec fn published(cache: CacheView, status: Option<StatusView>) -> CacheView {
    CacheView {
        latest: status,
        generation: if cache.generation == u64::MAX {
            0
        } else {
            (cache.generation + 1) as u64
        },
    }
}

/// The cache after the given publishes, in order, starting from empty.
pub open spec fn replayed(history: Seq<Option<StatusView>>) -> CacheView
    decreases history.len(),
{
    if history.len() == 0 {
        empty_cache()
    } else {
        published(replayed(history.drop_last()), history.last())
    }
}

/// Holds at most one snapshot: the latest.
#[derive(Debug)]
pub struct StatusCache {
    latest: Option<PlayerStatus>,
    generation: u64,
}

impl View for StatusCache {
    type V = CacheView;

    closed spec fn view(&self) -> CacheView {
        CacheView { latest: status_view(self.latest), generation: self.generation }
    }
}

impl StatusCache {
    /// A cache that holds nothing yet.
    pub fn new() -> (r: StatusCache)
        ensures
            r@ == empty_cache(),
    {
        StatusCache { latest: None, generation: 0 }
    }

    /// Replaces whatever is held by `status`, which may be absent.
    pub fn publish(&mut self, status: Option<PlayerStatus>)
        ensures
            final(self)@ == published(old(self)@, status_view(status)),
    {
        self.latest = status;
        self.generation = if self.generation == u64::MAX {
            0
        } else {
            self.generation + 1
        };
    }

    /// A copy of the snapshot published last, if any.
    pub fn latest(&self) -> (r: Option<PlayerStatus>)
        ensures
            status_view(r) == self@.latest,
    {
        clone_status(&self.latest)
    }

    /// The count of publishes so far, for readers that wait for a change.
    pub fn generation(&self) -> (r: u64)
        ensures
            r == self@.generation,
    {
        self.generation
    }
}

/// Nothing is held before the first publish; afterwards what is held is
/// what was published last, whatever came before.
pub proof fn lemma_latest_is_last_published(history: Seq<Option<StatusView>>)
    ensures
        history.len() == 0 ==> replayed(history).latest is None,
        history.len() > 0 ==> replayed(history).latest == history.last(),
{
}

} // verus!
