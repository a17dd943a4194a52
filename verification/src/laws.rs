//! Laws of the watermark discipline, stated over the pure advance model that
//! `WatermarkStore::advance` is specified against (`advance_accepts`,
//! `advance_step`, `run_advances`, `nth_advance_result`).

use vstd::prelude::*;
use crate::watermark::{advance_accepts, advance_step, run_advances, nth_advance_result, WatermarkStore};
use crate::Media;

verus! {

/// Cross-media independence: whether an id is reported new for a media
/// depends on that media's slot alone. Two stores that agree on media `b` —
/// as the store does before and after an `advance` or `load` for any other
/// media, by those functions' contracts — report every id for `b` alike.
pub proof fn lemma_cross_media_independence(
    s1: WatermarkStore,
    s2: WatermarkStore,
    b: Media,
    persisted: Option<u64>,
    id: u64,
)
    requires
        s1.entry(b) == s2.entry(b),
    ensures
        advance_accepts(s1.effective_spec(b, persisted), id)
            == advance_accepts(s2.effective_spec(b, persisted), id),
{
}

/// After any sequence of advances the watermark never goes down, and it is at
/// least every id that was presented.
pub proof fn lemma_run_advances_lower_bound(w: u64, ids: Seq<u64>)
    ensures
        run_advances(w, ids) >= w,
        forall|j: int| 0 <= j < ids.len() ==> run_advances(w, ids) >= ids[j],
    decreases ids.len(),
{
    if ids.len() > 0 {
        lemma_run_advances_lower_bound(w, ids.drop_last());
        assert forall|j: int| 0 <= j < ids.len() implies run_advances(w, ids) >= ids[j] by {
            if j < ids.len() - 1 {
                assert(ids.drop_last()[j] == ids[j]);
            }
        }
    }
}

proof fn lemma_run_advances_strictly_increasing(w: u64, ids: Seq<u64>, i: int)
    requires
        forall|k: int| 0 <= k < ids.len() - 1 ==> #[trigger] ids[k] < ids[k + 1],
        ids.len() > 0 ==> ids[0] > w,
        0 <= i <= ids.len(),
    ensures
        run_advances(w, ids.take(i)) == if i == 0 { w } else { ids[i - 1] },
    decreases i,
{
    if i > 0 {
        lemma_run_advances_strictly_increasing(w, ids, i - 1);
        assert(ids.take(i).drop_last() =~= ids.take(i - 1));
        assert(ids.take(i).last() == ids[i - 1]);
    }
}

/// Monotonic acceptance, rising side: when a strictly increasing sequence of
/// ids whose first id lies above the starting watermark is presented to
/// `advance`, every call reports the id as new.
pub proof fn lemma_monotonic_acceptance(w: u64, ids: Seq<u64>)
    requires
        forall|k: int| 0 <= k < ids.len() - 1 ==> #[trigger] ids[k] < ids[k + 1],
        ids.len() > 0 ==> ids[0] > w,
    ensures
        forall|i: int| 0 <= i < ids.len() ==> #[trigger] nth_advance_result(w, ids, i),
{
    assert forall|i: int| 0 <= i < ids.len() implies #[trigger] nth_advance_result(w, ids, i) by {
        lemma_run_advances_strictly_increasing(w, ids, i);
        if i > 0 {
            assert(ids[i - 1] < ids[i]);
        }
    }
}

proof fn lemma_non_increasing_prefix(ids: Seq<u64>, j: int, i: int)
    requires
        forall|k: int| 0 <= k < ids.len() - 1 ==> #[trigger] ids[k] >= ids[k + 1],
        0 <= j <= i < ids.len(),
    ensures
        ids[j] >= ids[i],
    decreases i - j,
{
    if j < i {
        lemma_non_increasing_prefix(ids, j + 1, i);
        assert(ids[j] >= ids[j + 1]);
    }
}

/// Monotonic acceptance, falling side: when a non-increasing sequence of ids
/// is presented to `advance`, every call after the first reports "not new".
pub proof fn lemma_non_increasing_rejected(w: u64, ids: Seq<u64>)
    requires
        forall|k: int| 0 <= k < ids.len() - 1 ==> #[trigger] ids[k] >= ids[k + 1],
    ensures
        forall|i: int| 1 <= i < ids.len() ==> !(#[trigger] nth_advance_result(w, ids, i)),
{
    assert forall|i: int| 1 <= i < ids.len() implies !(#[trigger] nth_advance_result(w, ids, i)) by {
        lemma_run_advances_lower_bound(w, ids.take(i));
        assert(ids.take(i)[0] == ids[0]);
        assert(run_advances(w, ids.take(i)) >= ids[0]);
        lemma_non_increasing_prefix(ids, 0, i);
    }
}

/// Idempotence: presenting the same id twice reports "new" at most on the
/// first call — exactly then when the id lies above the watermark — and
/// "not new" on every repeat, which leaves the watermark where it is.
pub proof fn lemma_idempotence(w: u64, id: u64)
    ensures
        advance_accepts(w, id) == (id > w),
        !advance_accepts(advance_step(w, id), id),
        advance_step(advance_step(w, id), id) == advance_step(w, id),
{
}

/// Crash-duplicate bound, never crash-loss: suppose the persisted watermark
/// `p` lags the in-memory watermark `w` (a persist failed after an in-memory
/// advance) and the process restarts from `p`. An id that was never accepted
/// (`id > w`) is still accepted after the restart — nothing is ever lost —
/// while an already-seen id can be re-accepted at most once, since the first
/// acceptance moves the watermark past it again.
pub proof fn lemma_stale_persistence(w: u64, p: u64, id: u64)
    requires
        p <= w,
    ensures
        id > w ==> advance_accepts(p, id),
        advance_accepts(p, id) ==> !advance_accepts(advance_step(p, id), id),
{
}

} // verus!
