//! The image loader (dispatcher and cache together) as a state machine over
//! fetch events, and what holds of every run of it.

use vstd::prelude::*;
use crate::fetch::{cache_after, ends_cycle};

verus! {

/// An event seen by the image loader.
pub enum FetchEvent {
    /// A refresh cycle starts, with one fetch for each of these ids.
    Dispatch(Seq<Seq<char>>),
    /// The fetch of an id completed, with its bytes, or `None` if it failed.
    Completed(Seq<char>, Option<Seq<u8>>),
}

/// The ids still pending in the current cycle and the cached images.
pub struct LoaderState {
    pub pending: Set<Seq<char>>,
    pub cache: Map<Seq<char>, Seq<u8>>,
}

/// Nothing pending, nothing cached.
pub open spec fn initial_state() -> LoaderState {
    LoaderState { pending: Set::empty(), cache: Map::empty() }
}

/// The state after one event, as `FetchDispatcher::dispatch` and
/// `FetchDispatcher::complete` change it.
pub open spec fn next_state(s: LoaderState, e: FetchEvent) -> LoaderState {
    match e {
        FetchEvent::Dispatch(ids) => LoaderState { pending: ids.to_set(), cache: s.cache },
        FetchEvent::Completed(id, body) => LoaderState {
            pending: s.pending.remove(id),
            cache: cache_after(s.cache, id, body),
        },
    }
}

/// Whether the event signals the end of the refresh cycle.
pub open spec fn signals(s: LoaderState, e: FetchEvent) -> bool {
    match e {
        FetchEvent::Dispatch(_) => false,
        FetchEvent::Completed(id, _) => ends_cycle(s.pending, id),
    }
}

/// The state after the events, in order.
pub open spec fn run(s: LoaderState, evs: Seq<FetchEvent>) -> LoaderState
    decreases evs.len(),
{
    if evs.len() == 0 {
        s
    } else {
        next_state(run(s, evs.drop_last()), evs.last())
    }
}

/// Every id of `ids` occurs in `done`.
pub open spec fn all_completed(ids: Seq<Seq<char>>, done: Seq<Seq<char>>) -> bool {
    forall|i: int| 0 <= i < ids.len() ==> done.contains(#[trigger] ids[i])
}

/// The completion events of the ids of `done`, with the matching bodies.
pub open spec fn completions(done: Seq<Seq<char>>, bodies: Seq<Option<Seq<u8>>>) -> Seq<FetchEvent> {
    Seq::new(done.len(), |i: int| FetchEvent::Completed(done[i], bodies[i]))
}

/// Whether, in a cycle dispatched for `ids` from state `s`, the `k`-th
/// completion signals the end of the cycle.
pub open spec fn cycle_signals_at(
    s: LoaderState,
    ids: Seq<Seq<char>>,
    done: Seq<Seq<char>>,
    bodies: Seq<Option<Seq<u8>>>,
    k: int,
) -> bool {
    let evs = completions(done, bodies);
    signals(run(next_state(s, FetchEvent::Dispatch(ids)), evs.take(k)), evs[k])
}

/// Before any fetch completes, no business has an image: from the initial
/// state, refresh cycles alone leave every id without a cached image.
pub proof fn lemma_no_image_before_completion(evs: Seq<FetchEvent>, id: Seq<char>)
    requires
        forall|i: int| 0 <= i < evs.len() ==> evs[i] is Dispatch,
    ensures
        !run(initial_state(), evs).cache.contains_key(id),
    decreases evs.len(),
{
    if evs.len() > 0 {
        lemma_no_image_before_completion(evs.drop_last(), id);
        assert(evs.last() is Dispatch);
    }
}

/// After a successful fetch of `id`, the cache holds its bytes, and keeps
/// them through any later events until another successful fetch of `id`
/// overwrites them.
pub proof fn lemma_image_kept_until_overwritten(
    s: LoaderState,
    id: Seq<char>,
    bytes: Seq<u8>,
    later: Seq<FetchEvent>,
)
    requires
        forall|i: int|
            0 <= i < later.len() ==> !(#[trigger] later[i] matches FetchEvent::Completed(j, Some(_))
                && j == id),
    ensures
        ({
            let after = run(next_state(s, FetchEvent::Completed(id, Some(bytes))), later);
            after.cache.contains_key(id) && after.cache[id] == bytes
        }),
    decreases later.len(),
{
    if later.len() > 0 {
        lemma_image_kept_until_overwritten(s, id, bytes, later.drop_last());
        assert(later[later.len() - 1] == later.last());
    }
}

proof fn lemma_pending_after(
    s: LoaderState,
    ids: Seq<Seq<char>>,
    done: Seq<Seq<char>>,
    bodies: Seq<Option<Seq<u8>>>,
    k: int,
)
    requires
        0 <= k <= done.len(),
    ensures
        run(next_state(s, FetchEvent::Dispatch(ids)), completions(done, bodies).take(k)).pending
            == ids.to_set().difference(done.take(k).to_set()),
    decreases k,
{
    let start = next_state(s, FetchEvent::Dispatch(ids));
    let evs = completions(done, bodies);
    if k == 0 {
        assert(evs.take(0) =~= Seq::<FetchEvent>::empty());
        assert(ids.to_set().difference(done.take(0).to_set()) =~= ids.to_set());
    } else {
        lemma_pending_after(s, ids, done, bodies, k - 1);
        assert(evs.take(k).drop_last() =~= evs.take(k - 1));
        let before = ids.to_set().difference(done.take(k - 1).to_set());
        assert(done.take(k).to_set() =~= done.take(k - 1).to_set().insert(done[k - 1])) by {
            assert forall|x: Seq<char>| done.take(k).contains(x) implies done.take(k - 1).contains(x)
                || x == done[k - 1] by {
                let i = choose|i: int| 0 <= i < k && #[trigger] done.take(k)[i] == x;
                if i < k - 1 {
                    assert(done.take(k - 1)[i] == x);
                }
            }
            assert forall|x: Seq<char>| done.take(k - 1).contains(x) implies done.take(k).contains(
                x,
            ) by {
                let i = choose|i: int| 0 <= i < k - 1 && #[trigger] done.take(k - 1)[i] == x;
                assert(done.take(k)[i] == x);
            }
            assert(done.take(k)[k - 1] == done[k - 1]);
        }
        assert(before.remove(done[k - 1]) =~= ids.to_set().difference(done.take(k).to_set()));
    }
}

proof fn lemma_all_completed_iff_empty(ids: Seq<Seq<char>>, d: Seq<Seq<char>>)
    ensures
        all_completed(ids, d) <==> ids.to_set().difference(d.to_set()) == Set::<Seq<char>>::empty(),
{
    if all_completed(ids, d) {
        assert(ids.to_set().difference(d.to_set()) =~= Set::<Seq<char>>::empty());
    }
    if ids.to_set().difference(d.to_set()) == Set::<Seq<char>>::empty() {
        assert forall|i: int| 0 <= i < ids.len() implies d.contains(#[trigger] ids[i]) by {
            assert(ids.to_set().contains(ids[i]));
            assert(!ids.to_set().difference(d.to_set()).contains(ids[i]));
        }
    }
}

proof fn lemma_completed_grows(ids: Seq<Seq<char>>, done: Seq<Seq<char>>, a: int, b: int)
    requires
        0 <= a <= b <= done.len(),
        all_completed(ids, done.take(a)),
    ensures
        all_completed(ids, done.take(b)),
{
    assert forall|i: int| 0 <= i < ids.len() implies done.take(b).contains(#[trigger] ids[i]) by {
        let j = choose|j: int| 0 <= j < a && #[trigger] done.take(a)[j] == ids[i];
        assert(done.take(b)[j] == ids[i]);
    }
}

proof fn lemma_first_completing(ids: Seq<Seq<char>>, done: Seq<Seq<char>>, m: int) -> (k: int)
    requires
        1 <= m <= done.len(),
        all_completed(ids, done.take(m)),
        !all_completed(ids, done.take(0)),
    ensures
        0 <= k < m,
        all_completed(ids, done.take(k + 1)),
        !all_completed(ids, done.take(k)),
    decreases m,
{
    if m == 1 || !all_completed(ids, done.take(m - 1)) {
        m - 1
    } else {
        lemma_first_completing(ids, done, m - 1)
    }
}

/// The end of a refresh cycle is signalled exactly once: by the completion
/// after which every dispatched fetch has completed, successfully or not,
/// and by no other; and never while some fetch has not completed.
pub proof fn lemma_refresh_signal_once(
    s: LoaderState,
    ids: Seq<Seq<char>>,
    done: Seq<Seq<char>>,
    bodies: Seq<Option<Seq<u8>>>,
)
    requires
        ids.len() > 0,
        bodies.len() == done.len(),
    ensures
        forall|k: int|
            0 <= k < done.len() ==> (#[trigger] cycle_signals_at(s, ids, done, bodies, k) <==> (
            all_completed(ids, done.take(k + 1)) && !all_completed(ids, done.take(k)))),
        all_completed(ids, done) ==> exists|k: int|
            0 <= k < done.len() && #[trigger] cycle_signals_at(s, ids, done, bodies, k) && forall|
                j: int,
            |
                0 <= j < done.len() && #[trigger] cycle_signals_at(s, ids, done, bodies, j) ==> j
                    == k,
        !all_completed(ids, done) ==> forall|k: int|
            0 <= k < done.len() ==> !#[trigger] cycle_signals_at(s, ids, done, bodies, k),
{
    let evs = completions(done, bodies);
    let start = next_state(s, FetchEvent::Dispatch(ids));
    assert forall|k: int| 0 <= k < done.len() implies (#[trigger] cycle_signals_at(
        s,
        ids,
        done,
        bodies,
        k,
    ) <==> (all_completed(ids, done.take(k + 1)) && !all_completed(ids, done.take(k)))) by {
        lemma_pending_after(s, ids, done, bodies, k);
        lemma_pending_after(s, ids, done, bodies, k + 1);
        lemma_all_completed_iff_empty(ids, done.take(k));
        lemma_all_completed_iff_empty(ids, done.take(k + 1));
        assert(evs.take(k + 1).drop_last() =~= evs.take(k));
        assert(evs.take(k + 1).last() == evs[k]);
        let pk = run(start, evs.take(k)).pending;
        let d = done[k];
        assert(evs[k] == FetchEvent::Completed(d, bodies[k]));
        assert(pk.remove(d) == run(start, evs.take(k + 1)).pending);
        if pk.remove(d) == Set::<Seq<char>>::empty() && pk != Set::<Seq<char>>::empty() {
            let x = pk.choose();
            assert(pk.contains(x));
            if x != d {
                assert(pk.remove(d).contains(x));
            }
        }
        if pk.contains(d) {
            assert(pk != Set::<Seq<char>>::empty());
        }
    }
    assert(!all_completed(ids, done.take(0))) by {
        assert(!done.take(0).contains(ids[0]));
    }
    if all_completed(ids, done) {
        assert(done.take(done.len() as int) =~= done);
        let k = lemma_first_completing(ids, done, done.len() as int);
        assert(cycle_signals_at(s, ids, done, bodies, k));
        assert forall|j: int|
            0 <= j < done.len() && #[trigger] cycle_signals_at(s, ids, done, bodies, j) implies j
            == k by {
            if j < k {
                lemma_completed_grows(ids, done, j + 1, k);
            }
            if k < j {
                lemma_completed_grows(ids, done, k + 1, j);
            }
        }
    } else {
        assert forall|k: int| 0 <= k < done.len() implies !#[trigger] cycle_signals_at(
            s,
            ids,
            done,
            bodies,
            k,
        ) by {
            if all_completed(ids, done.take(k + 1)) {
                lemma_completed_grows(ids, done, k + 1, done.len() as int);
                assert(done.take(done.len() as int) =~= done);
            }
        }
    }
}

} // verus!
