//! The per-media watermark store.
//!
//! One counter per `Media` records the highest item id ever accepted as new.
//! The store owns all watermark state: it is lazily initialised per media
//! from a caller-supplied persisted value (defaulting to 0 when no readable
//! record exists) and advanced through `advance`, which accepts an id exactly
//! when it is strictly greater than the current watermark. Durable storage
//! itself is outside the library: callers hand in what they read and write
//! back what `advance` accepted.

use vstd::prelude::*;
use vstd::pervasive::VecAdditionalExecFns;
use crate::{Media, MEDIA_COUNT, media_index_spec};

verus! {

/// The watermark a media starts from when its persisted record is `persisted`
/// (absent or unreadable records count as 0).
pub open spec fn persisted_or_zero(persisted: Option<u64>) -> u64 {
    match persisted {
        Some(v) => v,
        None => 0,
    }
}

/// Whether `advance` accepts `id` against the current watermark `w`.
pub open spec fn advance_accepts(w: u64, id: u64) -> bool {
    id > w
}

/// The watermark after `advance` sees `id` against watermark `w`.
pub open spec fn advance_step(w: u64, id: u64) -> u64 {
    if id > w {
        id
    } else {
        w
    }
}

/// The watermark after a whole sequence of ids has been presented, in order.
pub open spec fn run_advances(w: u64, ids: Seq<u64>) -> u64
    decreases ids.len(),
{
    if ids.len() == 0 {
        w
    } else {
        advance_step(run_advances(w, ids.drop_last()), ids.last())
    }
}

/// What the `i`-th call of `advance` reports when the ids of `ids` are
/// presented in order against starting watermark `w`.
pub open spec fn nth_advance_result(w: u64, ids: Seq<u64>, i: int) -> bool {
    advance_accepts(run_advances(w, ids.take(i)), ids[i])
}

/// Keyed store of one watermark per media, populated on first access.
pub struct WatermarkStore {
    entries: Vec<Option<u64>>,
}

impl WatermarkStore {
    /// The store always holds one slot per media; `None` means the media's
    /// watermark has not been loaded yet.
    pub closed spec fn wf(self) -> bool {
        self.entries@.len() == MEDIA_COUNT
    }

    /// The slot of one media: `None` before the first load, `Some(w)` after.
    pub closed spec fn entry(self, m: Media) -> Option<u64> {
        self.entries@[media_index_spec(m)]
    }

    pub open spec fn is_loaded_spec(self, m: Media) -> bool {
        self.entry(m) is Some
    }

    /// The in-memory watermark of a loaded media.
    pub open spec fn value_spec(self, m: Media) -> u64 {
        self.entry(m)->Some_0
    }

    /// The watermark a call sees: the in-memory value once loaded, otherwise
    /// whatever the persisted record (or its absence) supplies.
    pub open spec fn effective_spec(self, m: Media, persisted: Option<u64>) -> u64 {
        if self.is_loaded_spec(m) {
            self.value_spec(m)
        } else {
            persisted_or_zero(persisted)
        }
    }

    /// A store with no watermark loaded for any media.
    pub fn new() -> (s: Self)
        ensures
            s.wf(),
            forall|m: Media| !(#[trigger] s.is_loaded_spec(m)),
    {
        let mut entries: Vec<Option<u64>> = Vec::new();
        let mut i: usize = 0;
        while i < MEDIA_COUNT
            invariant
                entries@.len() == i,
                i <= MEDIA_COUNT,
                forall|j: int| 0 <= j < i ==> entries@[j] is None,
            decreases MEDIA_COUNT - i,
        {
            entries.push(None);
            i += 1;
        }
        let s = WatermarkStore { entries };
        proof {
            assert forall|m: Media| !(#[trigger] s.is_loaded_spec(m)) by {
                assert(0 <= media_index_spec(m) < MEDIA_COUNT);
            }
        }
        s
    }

    /// Whether the media's watermark has already been loaded this process.
    pub fn is_loaded(&self, media: &Media) -> (r: bool)
        requires
            self.wf(),
        ensures
            r == self.is_loaded_spec(*media),
    {
        let idx = media.index();
        self.entries[idx].is_some()
    }

    /// First-use initialisation for one media: adopt the persisted value
    /// (0 when there is none) unless the media was loaded before, in which
    /// case nothing changes. This runs at most once per media per process;
    /// later calls are no-ops whatever they carry.
    pub fn load(&mut self, media: &Media, persisted: Option<u64>)
        requires
            old(self).wf(),
        ensures
            final(self).wf(),
            final(self).is_loaded_spec(*media),
            final(self).value_spec(*media) == old(self).effective_spec(*media, persisted),
            forall|m2: Media| media_index_spec(m2) != media_index_spec(*media)
                ==> #[trigger] final(self).entry(m2) == old(self).entry(m2),
    {
        let idx = media.index();
        if self.entries[idx].is_none() {
            let start = match persisted {
                Some(v) => v,
                None => 0,
            };
            self.entries.set(idx, Some(start));
        }
    }

    /// The current in-memory watermark of a loaded media.
    pub fn watermark(&self, media: &Media) -> (r: u64)
        requires
            self.wf(),
            self.is_loaded_spec(*media),
        ensures
            r == self.value_spec(*media),
    {
        let idx = media.index();
        self.entries[idx].unwrap()
    }

    /// Check-and-advance: accepts `id` exactly when it is strictly greater
    /// than the media's current watermark, in which case the watermark moves
    /// to `id`. No other media's state is touched, whatever happens.
    pub fn advance(&mut self, media: &Media, id: u64) -> (accepted: bool)
        requires
            old(self).wf(),
            old(self).is_loaded_spec(*media),
        ensures
            final(self).wf(),
            accepted == advance_accepts(old(self).value_spec(*media), id),
            final(self).is_loaded_spec(*media),
            final(self).value_spec(*media) == advance_step(old(self).value_spec(*media), id),
            forall|m2: Media| media_index_spec(m2) != media_index_spec(*media)
                ==> #[trigger] final(self).entry(m2) == old(self).entry(m2),
    {
        let idx = media.index();
        let current = self.entries[idx].unwrap();
        if id > current {
            self.entries.set(idx, Some(id));
            true
        } else {
            false
        }
    }
}

} // verus!
