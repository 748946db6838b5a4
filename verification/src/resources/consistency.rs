//! The invariant of the cache's state is kept by every operation.
//!
//! The invariant itself is [`Cache::wf`]. Each lemma here takes one
//! operation; [`law_invariant_is_kept`] states them together.

use super::kind::kind_of;
use super::model::Cache;
use vstd::prelude::*;

verus! {

/// Whether `b` holds every entry of `a`.
pub open spec fn extends(a: Map<Seq<char>, u64>, b: Map<Seq<char>, u64>) -> bool {
    forall|id: Seq<char>| #[trigger] a.contains_key(id) ==> b.contains_key(id) && b[id] == a[id]
}

/// **The invariant is kept.** Every operation takes a state that meets the
/// invariant to one that meets it, and the state of a new cache meets it.
/// The operations that take in a load need room in the counters for that.
pub proof fn law_invariant_is_kept<P>(
    s: Cache<P>,
    id: Seq<char>,
    x: u64,
    loaded: Result<P, std::io::Error>,
)
    requires
        s.wf(),
    ensures
        Cache::<P>::empty().wf(),
        s.try_get(id).0.wf(),
        s.get(id).0.wf(),
        s.preload(id).0.wf(),
        s.keep(id).0.wf(),
        s.upgrade(x).0.wf(),
        s.release(x).0.wf(),
        s.has_room() ==> s.get_with(id, loaded).0.wf(),
        s.has_room() ==> s.preload_with(id, loaded).0.wf(),
        s.has_room() ==> s.keep_with(id, loaded).0.wf(),
{
    lemma_hand_out(s, id);
    lemma_keep(s, id);
    lemma_upgrade(s, x);
    lemma_release(s, x);
    if s.has_room() {
        lemma_get_with(s, id, loaded);
        lemma_preload_with(s, id, loaded);
        lemma_keep_with(s, id, loaded);
    }
}

/// An instance that the cache owns stays owned where the preloaded and the
/// kept map only gain entries.
proof fn lemma_pinned_grows<P>(s: Cache<P>, t: Cache<P>, x: u64)
    requires
        s.pinned(x),
        extends(s.preloaded, t.preloaded),
        extends(s.kept, t.kept),
    ensures
        t.pinned(x),
{
    if exists|id: Seq<char>| s.preloaded.contains_key(id) && #[trigger] s.preloaded[id] == x {
        let id = choose|id: Seq<char>| s.preloaded.contains_key(id) && #[trigger] s.preloaded[id] == x;
        assert(t.preloaded.contains_key(id) && t.preloaded[id] == x);
    } else {
        let id = choose|id: Seq<char>| s.kept.contains_key(id) && #[trigger] s.kept[id] == x;
        assert(t.kept.contains_key(id) && t.kept[id] == x);
    }
}

/// `try_get` and the first half of `get` keep the invariant, and what `id`
/// resolves to is live.
pub proof fn lemma_hand_out<P>(s: Cache<P>, id: Seq<char>)
    requires
        s.wf(),
    ensures
        s.try_get(id).0.wf(),
        s.get(id).0.wf(),
        s.resident(id) matches Some(x) ==> s.is_live(x) && s.hand_out(id).wf(),
{
    if s.resident(id).is_some() {
        let t = s.hand_out(id);
        let x = s.resident(id).unwrap();
        assert forall|y: u64| #[trigger] t.live.contains_key(y) implies y < t.loads
            && t.live[y].holders <= t.issued && (t.live[y].holders > 0 || t.pinned(y)) by {
            if y != x && s.live[y].holders == 0 {
                assert(s.pinned(y));
                if exists|i: Seq<char>| s.preloaded.contains_key(i) && #[trigger] s.preloaded[i] == y {
                    let i = choose|i: Seq<char>|
                        s.preloaded.contains_key(i) && #[trigger] s.preloaded[i] == y;
                    assert(i != id);
                    assert(t.preloaded.contains_key(i) && t.preloaded[i] == y);
                } else {
                    let i = choose|i: Seq<char>| s.kept.contains_key(i) && #[trigger] s.kept[i] == y;
                    assert(t.kept.contains_key(i) && t.kept[i] == y);
                }
            }
        }
    }
}

/// `upgrade` keeps the invariant.
pub proof fn lemma_upgrade<P>(s: Cache<P>, x: u64)
    requires
        s.wf(),
    ensures
        s.upgrade(x).0.wf(),
{
    if s.is_live(x) {
        let t = s.acquire(x);
        assert forall|y: u64| #[trigger] t.live.contains_key(y) implies y < t.loads
            && t.live[y].holders <= t.issued && (t.live[y].holders > 0 || t.pinned(y)) by {
            if y != x && s.live[y].holders == 0 {
                lemma_pinned_grows(s, t, y);
            }
        }
    }
}

/// `release` keeps the invariant: an instance that the cache owns is never
/// dropped.
pub proof fn lemma_release<P>(s: Cache<P>, x: u64)
    requires
        s.wf(),
    ensures
        s.release(x).0.wf(),
{
    let t = s.release(x).0;
    if s.held(x) {
        assert forall|y: u64| #[trigger] t.live.contains_key(y) implies y < t.loads
            && t.live[y].holders <= t.issued && (t.live[y].holders > 0 || t.pinned(y)) by {
            if t.live[y].holders == 0 {
                lemma_pinned_grows(s, t, y);
            }
        }
        if s.live[x].holders == 1 && !s.pinned(x) {
            assert forall|i: Seq<char>| #[trigger] t.preloaded.contains_key(i) implies t.is_live(
                t.preloaded[i],
            ) by {
                assert(s.preloaded[i] != x);
            }
            assert forall|i: Seq<char>| #[trigger] t.kept.contains_key(i) implies t.is_live(
                t.kept[i],
            ) && kind_of(i).is_some() by {
                assert(s.kept[i] != x);
            }
        }
    }
}

/// The first halves of `keep` and of `preload` keep the invariant.
pub proof fn lemma_keep<P>(s: Cache<P>, id: Seq<char>)
    requires
        s.wf(),
    ensures
        s.keep(id).0.wf(),
        s.preload(id).0.wf(),
{
    let t = s.keep(id).0;
    if t != s {
        assert forall|y: u64| #[trigger] t.live.contains_key(y) implies y < t.loads
            && t.live[y].holders <= t.issued && (t.live[y].holders > 0 || t.pinned(y)) by {
            if s.live[y].holders == 0 {
                assert(s.pinned(y));
                if exists|i: Seq<char>| s.preloaded.contains_key(i) && #[trigger] s.preloaded[i] == y {
                    let i = choose|i: Seq<char>|
                        s.preloaded.contains_key(i) && #[trigger] s.preloaded[i] == y;
                    if i == id {
                        assert(t.kept.contains_key(id) && t.kept[id] == y);
                    } else {
                        assert(t.preloaded.contains_key(i) && t.preloaded[i] == y);
                    }
                } else {
                    let i = choose|i: Seq<char>| s.kept.contains_key(i) && #[trigger] s.kept[i] == y;
                    assert(t.kept.contains_key(i) && t.kept[i] == y);
                }
            }
        }
    }
}

/// A state `t` that differs from `s` by one load taken in for `id`, and by
/// at most one new entry for it in the preloaded or the kept map, meets the
/// invariant where the new instance has an owner.
proof fn lemma_take_in<P>(s: Cache<P>, t: Cache<P>, id: Seq<char>)
    requires
        s.wf(),
        s.has_room(),
        kind_of(id).is_some(),
        !s.preloaded.contains_key(id),
        t.weak == s.weak.insert(id, s.fresh()),
        t.loads == s.loads + 1,
        extends(s.preloaded, t.preloaded),
        extends(s.kept, t.kept),
        t.preloaded.dom().subset_of(s.preloaded.dom().insert(id)),
        t.kept.dom().subset_of(s.kept.dom().insert(id)),
        t.preloaded.contains_key(id) ==> t.preloaded[id] == s.fresh(),
        !s.kept.contains_key(id) && t.kept.contains_key(id) ==> t.kept[id] == s.fresh(),
        t.live.dom() == s.live.dom().insert(s.fresh()),
        forall|y: u64| s.live.contains_key(y) ==> t.live[y] == s.live[y],
        t.live[s.fresh()].holders <= 1,
        t.issued == s.issued + t.live[s.fresh()].holders,
        t.live[s.fresh()].holders > 0 || t.pinned(s.fresh()),
    ensures
        t.wf(),
{
    assert(s.fresh() == s.loads);
    assert forall|y: u64| #[trigger] t.live.contains_key(y) implies y < t.loads && t.live[y].holders
        <= t.issued && (t.live[y].holders > 0 || t.pinned(y)) by {
        if y != s.fresh() {
            assert(s.live.contains_key(y));
            if s.live[y].holders == 0 {
                lemma_pinned_grows(s, t, y);
            }
        }
    }
    assert forall|i: Seq<char>| #[trigger] t.preloaded.contains_key(i) implies t.is_live(
        t.preloaded[i],
    ) && t.weak.contains_key(i) && t.weak[i] == t.preloaded[i] by {
        if i != id {
            assert(s.preloaded.dom().insert(id).contains(i));
            assert(s.preloaded.contains_key(i));
        }
    }
    assert forall|i: Seq<char>| #[trigger] t.kept.contains_key(i) implies t.is_live(t.kept[i])
        && kind_of(i).is_some() by {
        if !s.kept.contains_key(i) {
            assert(s.kept.dom().insert(id).contains(i));
        }
    }
}

/// `get_with` keeps the invariant.
pub proof fn lemma_get_with<P>(s: Cache<P>, id: Seq<char>, loaded: Result<P, std::io::Error>)
    requires
        s.wf(),
        s.has_room(),
    ensures
        s.get_with(id, loaded).0.wf(),
{
    lemma_hand_out(s, id);
    let t = s.get_with(id, loaded).0;
    if s.resident(id).is_none() && kind_of(id).is_some() && loaded.is_ok() {
        lemma_take_in(s, t, id);
    }
}

/// `preload_with` keeps the invariant.
pub proof fn lemma_preload_with<P>(s: Cache<P>, id: Seq<char>, loaded: Result<P, std::io::Error>)
    requires
        s.wf(),
        s.has_room(),
    ensures
        s.preload_with(id, loaded).0.wf(),
{
    let t = s.preload_with(id, loaded).0;
    if !s.preloaded.contains_key(id) && kind_of(id).is_some() && loaded.is_ok() {
        assert(t.preloaded.contains_key(id) && t.preloaded[id] == s.fresh());
        lemma_take_in(s, t, id);
    }
}

/// `keep_with` keeps the invariant.
pub proof fn lemma_keep_with<P>(s: Cache<P>, id: Seq<char>, loaded: Result<P, std::io::Error>)
    requires
        s.wf(),
        s.has_room(),
    ensures
        s.keep_with(id, loaded).0.wf(),
{
    lemma_keep(s, id);
    let t = s.keep_with(id, loaded).0;
    if s.keep(id).1 is Ok && s.keep(id).1->Ok_0 is Load && loaded.is_ok() {
        assert(t.kept.contains_key(id) && t.kept[id] == s.fresh());
        lemma_take_in(s, t, id);
    }
}

} // verus!
