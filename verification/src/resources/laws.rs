//! Laws of the retention policies, proved of the cache's state.
//!
//! Every operation of the cache is specified by one function of
//! [`Cache`]; what is proved here of those functions holds of the cache.

use super::consistency::{extends, lemma_hand_out, lemma_release};
use super::kind::{ends_in, kind_of};
use super::model::{Cache, Handle};
use super::{ResourceError, Step};
use vstd::prelude::*;

verus! {

/// **What is at hand is never loaded again.** While `id` resolves to an
/// instance, every form of `get` hands out a handle on that instance: the
/// first half asks for no load, the second half leaves the outcome of a
/// load unused, and the load counter stays.
pub proof fn law_resident_is_reused<P>(
    s: Cache<P>,
    id: Seq<char>,
    loaded: Result<P, std::io::Error>,
)
    requires
        s.wf(),
        s.resident(id).is_some(),
    ensures
        ({
            let h = s.handle(s.resident(id).unwrap());
            &&& s.try_get(id) == (s.hand_out(id), Some(h))
            &&& s.get(id) == (s.hand_out(id), Ok::<Step<Handle>, ResourceError>(Step::Ready(h)))
            &&& s.get_with(id, loaded) == (s.hand_out(id), Ok::<Handle, ResourceError>(h))
            &&& s.hand_out(id).loads == s.loads
            &&& s.hand_out(id).is_live(h.instance)
        }),
{
    lemma_hand_out(s, id);
}

/// **Repeated `get`.** Where a `get` of `id` has handed out an instance,
/// the next `get` of `id` hands out the same instance and takes in no load,
/// as long as a handle on that instance is outstanding; any number of
/// handles may be given back in between. Left out are the states in which
/// `id` is both preloaded and kept: there the first `get` uses up the
/// preloaded instance and the second hands out the kept one.
pub proof fn law_repeated_get_same_instance<P>(
    s: Cache<P>,
    id: Seq<char>,
    first: Result<P, std::io::Error>,
    second: Result<P, std::io::Error>,
    given_back: Seq<u64>,
)
    requires
        s.wf(),
        !(s.preloaded.contains_key(id) && s.kept.contains_key(id)),
        s.get_with(id, first).1 is Ok,
    ensures
        ({
            let (s1, r1) = s.get_with(id, first);
            let s1 = s1.release_all(given_back);
            let (s2, r2) = s1.get_with(id, second);
            s1.held(r1->Ok_0.instance) ==> r2 == r1 && s2.loads == s1.loads
        }),
{
    let (s1, r1) = s.get_with(id, first);
    let x = r1->Ok_0.instance;
    if s.resident(id).is_some() {
        lemma_hand_out(s, id);
    }
    assert(s1.resident(id) == Some(x));
    assert(s1.handle(x) == r1->Ok_0);
    let t = s1.release_all(given_back);
    lemma_release_all(s1, given_back, x);
    if t.held(x) {
        assert(t.resident(id) == Some(x));
        assert(t.handle(x) == r1->Ok_0);
    }
}

/// Giving handles back changes no map, no counter, and nothing of an
/// instance that is live afterwards but the number of its handles.
proof fn lemma_release_all<P>(s: Cache<P>, xs: Seq<u64>, x: u64)
    ensures
        s.release_all(xs).weak == s.weak,
        s.release_all(xs).preloaded == s.preloaded,
        s.release_all(xs).kept == s.kept,
        s.release_all(xs).loads == s.loads,
        s.release_all(xs).is_live(x) ==> s.is_live(x) && s.release_all(xs).handle(x) == s.handle(x)
            && s.release_all(xs).live[x].payload == s.live[x].payload,
        s.wf() ==> s.release_all(xs).wf(),
    decreases xs.len(),
{
    if xs.len() > 0 {
        let t = s.release(xs[0]).0;
        if s.wf() {
            lemma_release(s, xs[0]);
        }
        lemma_release_all(t, xs.drop_first(), x);
    }
}

/// **A dropped instance is loaded afresh.** Take an instance that is
/// weakly tracked for `id` and that the cache does not own, while `id` is
/// neither preloaded nor kept. Once handles have been given back until
/// none on that instance is outstanding, the instance is gone. The next
/// `get` of `id` finds nothing at hand and asks for a load; given one, it
/// takes it in as a new instance, and the load counter grows by one.
pub proof fn law_dropped_instance_is_reloaded<P>(
    s: Cache<P>,
    id: Seq<char>,
    x: u64,
    given_back: Seq<u64>,
    payload: P,
)
    requires
        s.wf(),
        !s.preloaded.contains_key(id),
        !s.kept.contains_key(id),
        s.weak.contains_key(id) && s.weak[id] == x,
        !s.pinned(x),
        !s.release_all(given_back).held(x),
    ensures
        ({
            let s1 = s.release_all(given_back);
            let (s2, r2) = s1.get_with(id, Ok(payload));
            &&& !s1.is_live(x)
            &&& s1.try_get(id) == (s1, None::<Handle>)
            &&& s1.get(id) == (s1, Ok::<Step<Handle>, ResourceError>(Step::Load(kind_of(id).unwrap())))
            &&& r2 == Ok::<Handle, ResourceError>(
                Handle { kind: kind_of(id).unwrap(), instance: s1.fresh() },
            )
            &&& s1.fresh() != x
            &&& s2.loads == s1.loads + 1
            &&& s2.live[s1.fresh()].payload == payload
        }),
{
    let s1 = s.release_all(given_back);
    lemma_release_all(s, given_back, x);
    assert(!s1.pinned(x));
}

/// **The last handle.** Giving back the last handle on an instance that the
/// cache does not own drops the instance and returns its payload; giving
/// back any other handle drops nothing.
pub proof fn law_last_handle_drops_the_instance<P>(s: Cache<P>, x: u64)
    requires
        s.wf(),
        s.held(x),
    ensures
        ({
            let (s1, out) = s.release(x);
            if s.live[x].holders == 1 && !s.pinned(x) {
                out == Some(s.live[x].payload) && !s1.is_live(x)
            } else {
                out.is_none() && s1.is_live(x) && s1.live[x].payload == s.live[x].payload
            }
        }),
        forall|y: u64| y != x && s.is_live(y) ==> #[trigger] s.release(x).0.is_live(y),
{
}

/// **Preload, then `get`.** After a `preload` of `id` that succeeded, the
/// next `get` of `id` hands out the preloaded instance and asks for no
/// load, and a further `preload` of `id` changes nothing, whatever outcome
/// of a load it is given.
pub proof fn law_preload_then_get<P>(
    s: Cache<P>,
    id: Seq<char>,
    loaded: Result<P, std::io::Error>,
    again: Result<P, std::io::Error>,
    unused: Result<P, std::io::Error>,
)
    requires
        s.wf(),
        s.preload_with(id, loaded).1 is Ok,
    ensures
        ({
            let s1 = s.preload_with(id, loaded).0;
            let x = s1.preloaded[id];
            let s2 = s1.get_with(id, unused).0;
            &&& s1.preloaded.contains_key(id)
            &&& s1.weak.contains_key(id) && s1.weak[id] == x
            &&& !s.preloaded.contains_key(id) ==> x == s.fresh() && s1.loads == s.loads + 1
                && loaded == Ok::<P, std::io::Error>(s1.live[x].payload)
            &&& s1.preload(id) == (s1, Ok::<Step<()>, ResourceError>(Step::Ready(())))
            &&& s1.preload_with(id, again) == (s1, Ok::<(), ResourceError>(()))
            &&& s1.get(id).1 == Ok::<Step<Handle>, ResourceError>(Step::Ready(s1.handle(x)))
            &&& s1.get_with(id, unused).1 == Ok::<Handle, ResourceError>(s1.handle(x))
            &&& s2.loads == s1.loads
            &&& !s2.preloaded.contains_key(id)
            &&& s2.weak.contains_key(id) && s2.weak[id] == x && s2.held(x)
        }),
{
    if s.preloaded.contains_key(id) {
        lemma_hand_out(s, id);
    }
}

/// **`keep` is idempotent.** After a `keep` of `id` that succeeded, `id`
/// is kept; a further `keep` of `id` changes nothing and asks for no load,
/// whatever outcome of a load it is given; and `try_get` of `id` succeeds.
pub proof fn law_keep_is_idempotent<P>(
    s: Cache<P>,
    id: Seq<char>,
    loaded: Result<P, std::io::Error>,
    again: Result<P, std::io::Error>,
)
    requires
        s.wf(),
        s.keep_with(id, loaded).1 is Ok,
    ensures
        ({
            let s1 = s.keep_with(id, loaded).0;
            &&& s1.kept.contains_key(id)
            &&& s1.loads <= s.loads + 1
            &&& s1.keep(id) == (s1, Ok::<Step<()>, ResourceError>(Step::Ready(())))
            &&& s1.keep_with(id, again) == (s1, Ok::<(), ResourceError>(()))
            &&& s1.try_get(id).1 is Some
        }),
{
}

/// **What is kept stays.** No operation takes an entry out of the kept map
/// or changes one, so in every later state a kept identifier is still kept,
/// its instance is live, and `try_get` of it succeeds, however many handles
/// have been given back.
pub proof fn law_kept_is_permanent<P>(
    s: Cache<P>,
    id: Seq<char>,
    other: Seq<char>,
    x: u64,
    loaded: Result<P, std::io::Error>,
    given_back: Seq<u64>,
)
    requires
        s.wf(),
        s.kept.contains_key(id),
    ensures
        s.is_live(s.kept[id]),
        s.try_get(id).1 is Some,
        extends(s.kept, s.try_get(other).0.kept),
        extends(s.kept, s.get(other).0.kept),
        extends(s.kept, s.get_with(other, loaded).0.kept),
        extends(s.kept, s.preload_with(other, loaded).0.kept),
        extends(s.kept, s.keep(other).0.kept),
        extends(s.kept, s.keep_with(other, loaded).0.kept),
        extends(s.kept, s.upgrade(x).0.kept),
        extends(s.kept, s.release(x).0.kept),
        s.release_all(given_back).kept == s.kept,
        s.release_all(given_back).is_live(s.kept[id]),
        s.release_all(given_back).try_get(id).1 is Some,
{
    lemma_release(s, x);
    lemma_release_all(s, given_back, x);
}

/// **A failure changes nothing.** An operation that fails, because the
/// identifier names no kind or because the load failed, leaves the cache as
/// it was; and a failed load is reported with the cause it was given.
pub proof fn law_failure_changes_nothing<P>(
    s: Cache<P>,
    id: Seq<char>,
    loaded: Result<P, std::io::Error>,
)
    ensures
        s.get(id).1 is Err ==> s.get(id).0 == s,
        s.get_with(id, loaded).1 is Err ==> s.get_with(id, loaded).0 == s,
        s.preload_with(id, loaded).1 is Err ==> s.preload_with(id, loaded).0 == s,
        s.keep_with(id, loaded).1 is Err ==> s.keep_with(id, loaded).0 == s,
        s.resident(id).is_none() && kind_of(id).is_none() ==> s.get_with(id, loaded).1 == Err::<
            Handle,
            ResourceError,
        >(ResourceError::UnsupportedKind),
        s.resident(id).is_none() && kind_of(id).is_some() ==> (loaded matches Err(cause)
            ==> s.get_with(id, loaded).1 == Err::<Handle, ResourceError>(
            ResourceError::LoadError(cause),
        )),
{
}

/// **An identifier of no kind is never served.** Where `id` names no kind
/// of asset, as one that ends in `.png` does, nothing is ever at hand for
/// it, and every operation that would have to load it fails with
/// `UnsupportedKind`, whatever outcome of a load it is given.
pub proof fn law_unsupported_kind_is_refused<P>(
    s: Cache<P>,
    id: Seq<char>,
    loaded: Result<P, std::io::Error>,
)
    requires
        s.wf(),
        kind_of(id).is_none(),
    ensures
        s.try_get(id) == (s, None::<Handle>),
        s.get(id) == (s, Err::<Step<Handle>, ResourceError>(ResourceError::UnsupportedKind)),
        s.get_with(id, loaded) == (s, Err::<Handle, ResourceError>(ResourceError::UnsupportedKind)),
        s.preload(id) == (s, Err::<Step<()>, ResourceError>(ResourceError::UnsupportedKind)),
        s.preload_with(id, loaded) == (s, Err::<(), ResourceError>(ResourceError::UnsupportedKind)),
        s.keep(id) == (s, Err::<Step<()>, ResourceError>(ResourceError::UnsupportedKind)),
        s.keep_with(id, loaded) == (s, Err::<(), ResourceError>(ResourceError::UnsupportedKind)),
{
}

/// An identifier that ends in `.png` names no kind of asset.
pub proof fn law_png_names_no_kind(id: Seq<char>)
    requires
        ends_in(id, 'p', 'n', 'g'),
    ensures
        kind_of(id).is_none(),
{
}

} // verus!
