//! The cache's store: tables and counters, with the invariant that ties
//! them to the cache's state.

use super::kind::ResourceKind;
use super::model::{Cache, Slot};
use super::table::Table;
use super::{
    handle_view, option_view, step_view, Resource, ResourceError, Step, WeakResource,
};
use std::collections::HashMap;
use vstd::prelude::*;

verus! {

broadcast use vstd::std_specs::hash::group_hash_axioms;

/// One live instance, as the cache stores it.
struct Entry<P> {
    kind: ResourceKind,
    holders: u64,
    payload: P,
}

/// The live instances, as the state has them.
spec fn slots_view<P>(slots: Map<u64, Entry<P>>) -> Map<u64, Slot<P>> {
    Map::new(
        |x: u64| slots.contains_key(x),
        |x: u64|
            Slot { kind: slots[x].kind, payload: slots[x].payload, holders: slots[x].holders as nat },
    )
}

/// What a cache holds: the three maps as tables, the live instances by
/// number, and the two counters.
pub(crate) struct Store<P> {
    res: Table,
    preloads: Table,
    keep: Table,
    slots: HashMap<u64, Entry<P>>,
    loads: u64,
    issued: u64,
}

impl<P> View for Store<P> {
    type V = Cache<P>;

    closed spec fn view(&self) -> Cache<P> {
        Cache {
            weak: self.res@,
            preloaded: self.preloads@,
            kept: self.keep@,
            live: slots_view(self.slots@),
            loads: self.loads as nat,
            issued: self.issued as nat,
        }
    }
}

impl<P> Store<P> {
    /// The three tables are well formed.
    spec fn tables_wf(&self) -> bool {
        self.res.wf() && self.preloads.wf() && self.keep.wf()
    }

    /// The store's invariant: that of the state, and that of the tables.
    pub(crate) closed spec fn wf(&self) -> bool {
        self.tables_wf() && self@.wf()
    }

    /// The state of a well-formed store meets the state's invariant.
    pub(crate) proof fn lemma_wf(&self)
        requires
            self.wf(),
        ensures
            self@.wf(),
    {
    }

    /// An empty store.
    pub(crate) fn new() -> (cache: Self)
        ensures
            cache.wf(),
            cache@ == Cache::<P>::empty(),
    {
        let cache = Store {
            res: Table::new(),
            preloads: Table::new(),
            keep: Table::new(),
            slots: HashMap::new(),
            loads: 0,
            issued: 0,
        };
        assert(cache@.live =~= Map::<u64, Slot<P>>::empty());
        cache
    }

    /// The number of loads taken in so far.
    pub(crate) fn loads(&self) -> (n: u64)
        ensures
            n == self@.loads,
    {
        self.loads
    }

    /// Whether the counters can still grow.
    pub(crate) fn has_room(&self) -> (b: bool)
        ensures
            b == self@.has_room(),
    {
        self.loads < u64::MAX && self.issued < u64::MAX
    }

    /// Whether `id` is preloaded.
    pub(crate) fn is_preloaded(&self, id: &str) -> (b: bool)
        requires
            self.wf(),
        ensures
            b == self@.preloaded.contains_key(id@),
    {
        let key = id.to_owned();
        self.preloads.contains_key(&key)
    }

    /// Whether `id` is kept.
    pub(crate) fn is_kept(&self, id: &str) -> (b: bool)
        requires
            self.wf(),
        ensures
            b == self@.kept.contains_key(id@),
    {
        let key = id.to_owned();
        self.keep.contains_key(&key)
    }

    /// The instance that `key` resolves to without a load.
    fn resolve(&self, key: &String) -> (r: Option<u64>)
        requires
            self.wf(),
        ensures
            r == self@.resident(key@),
    {
        if let Some(x) = self.preloads.get(key) {
            return Some(x);
        }
        if let Some(x) = self.keep.get(key) {
            return Some(x);
        }
        match self.res.get(key) {
            Some(x) => {
                if self.slots.contains_key(&x) {
                    Some(x)
                } else {
                    None
                }
            },
            None => None,
        }
    }

    /// Gives out one more handle on the live instance `x`.
    fn acquire(&mut self, x: u64) -> (h: Resource)
        requires
            old(self).tables_wf(),
            old(self)@.is_live(x),
            old(self)@.live[x].holders < u64::MAX,
            old(self)@.issued < u64::MAX,
        ensures
            final(self).tables_wf(),
            final(self)@ == old(self)@.acquire(x),
            h@ == old(self)@.handle(x),
    {
        match self.slots.remove(&x) {
            Some(e) => {
                let kind = e.kind;
                self.slots.insert(x, Entry { kind: e.kind, holders: e.holders + 1, payload: e.payload });
                self.issued = self.issued + 1;
                assert(self@.live =~= old(self)@.acquire(x).live);
                Resource { kind, instance: x }
            },
            None => vstd::pervasive::unreached(),
        }
    }

    /// Stores a freshly loaded instance under the next number, and tracks
    /// it weakly for `key`.
    fn take_in(&mut self, key: String, kind: ResourceKind, payload: P, holders: u64) -> (x: u64)
        requires
            old(self).wf(),
            old(self)@.has_room(),
            holders <= 1,
        ensures
            final(self).tables_wf(),
            final(self)@ == old(self)@.take_in(key@, kind, payload, holders as nat),
            x == old(self)@.fresh(),
            final(self).preloads == old(self).preloads,
            final(self).keep == old(self).keep,
    {
        let x = self.loads;
        self.slots.insert(x, Entry { kind, holders, payload });
        self.res.insert(key, x);
        self.loads = self.loads + 1;
        self.issued = self.issued + holders;
        assert(self@.live =~= old(self)@.take_in(key@, kind, payload, holders as nat).live);
        x
    }

    /// What to ask of the caller for an identifier that is not at hand.
    fn demand<T>(id: &str) -> (r: Result<Step<T>, ResourceError>)
        ensures
            r == Cache::<P>::demand::<T>(id@),
    {
        match ResourceKind::of(id) {
            Some(kind) => Ok(Step::Load(kind)),
            None => Err(ResourceError::UnsupportedKind),
        }
    }

    /// Resolves `id` without a load.
    pub(crate) fn try_get(&mut self, id: &str) -> (r: Option<Resource>)
        requires
            old(self).wf(),
            old(self)@.has_room(),
        ensures
            final(self).wf(),
            final(self)@ == old(self)@.try_get(id@).0,
            option_view(r) == old(self)@.try_get(id@).1,
    {
        let key = id.to_owned();
        match self.resolve(&key) {
            Some(x) => {
                proof {
                    super::consistency::lemma_hand_out(self@, id@);
                }
                self.preloads.remove(&key);
                let h = self.acquire(x);
                Some(h)
            },
            None => None,
        }
    }

    /// Resolves `id`, or asks for a load.
    pub(crate) fn get(&mut self, id: &str) -> (r: Result<Step<Resource>, ResourceError>)
        requires
            old(self).wf(),
            old(self)@.has_room(),
        ensures
            final(self).wf(),
            final(self)@ == old(self)@.get(id@).0,
            step_view(r) == old(self)@.get(id@).1,
    {
        match self.try_get(id) {
            Some(h) => Ok(Step::Ready(h)),
            None => Self::demand(id),
        }
    }

    /// Resolves `id`, and takes in the load where one is needed.
    pub(crate) fn get_with(&mut self, id: &str, loaded: Result<P, std::io::Error>) -> (r: Result<
        Resource,
        ResourceError,
    >)
        requires
            old(self).wf(),
            old(self)@.has_room(),
        ensures
            final(self).wf(),
            final(self)@ == old(self)@.get_with(id@, loaded).0,
            handle_view(r) == old(self)@.get_with(id@, loaded).1,
    {
        proof {
            super::consistency::lemma_get_with(self@, id@, loaded);
        }
        match self.get(id) {
            Ok(Step::Ready(h)) => Ok(h),
            Err(e) => Err(e),
            Ok(Step::Load(kind)) => match loaded {
                Ok(payload) => {
                    let x = self.take_in(id.to_owned(), kind, payload, 1);
                    Ok(Resource { kind, instance: x })
                },
                Err(cause) => Err(ResourceError::LoadError(cause)),
            },
        }
    }

    /// Says whether `id` is preloaded, or asks for a load.
    pub(crate) fn preload(&self, id: &str) -> (r: Result<Step<()>, ResourceError>)
        requires
            self.wf(),
        ensures
            r == self@.preload(id@).1,
    {
        let key = id.to_owned();
        if self.preloads.contains_key(&key) {
            Ok(Step::Ready(()))
        } else {
            Self::demand(id)
        }
    }

    /// Takes in the load where `id` is not preloaded.
    pub(crate) fn preload_with(&mut self, id: &str, loaded: Result<P, std::io::Error>) -> (r: Result<
        (),
        ResourceError,
    >)
        requires
            old(self).wf(),
            old(self)@.has_room(),
        ensures
            final(self).wf(),
            final(self)@ == old(self)@.preload_with(id@, loaded).0,
            r == old(self)@.preload_with(id@, loaded).1,
    {
        proof {
            super::consistency::lemma_preload_with(self@, id@, loaded);
        }
        match self.preload(id) {
            Ok(Step::Ready(_)) => Ok(()),
            Err(e) => Err(e),
            Ok(Step::Load(kind)) => match loaded {
                Ok(payload) => {
                    let x = self.take_in(id.to_owned(), kind, payload, 0);
                    self.preloads.insert(id.to_owned(), x);
                    Ok(())
                },
                Err(cause) => Err(ResourceError::LoadError(cause)),
            },
        }
    }

    /// Pins what `id` resolves to, or asks for a load.
    pub(crate) fn keep(&mut self, id: &str) -> (r: Result<Step<()>, ResourceError>)
        requires
            old(self).wf(),
        ensures
            final(self).wf(),
            final(self)@ == old(self)@.keep(id@).0,
            r == old(self)@.keep(id@).1,
    {
        proof {
            super::consistency::lemma_keep(self@, id@);
        }
        let key = id.to_owned();
        if self.keep.contains_key(&key) {
            return Ok(Step::Ready(()));
        }
        if let Some(x) = self.preloads.remove(&key) {
            self.keep.insert(key, x);
            return Ok(Step::Ready(()));
        }
        assert(self.preloads@ =~= old(self).preloads@);
        match self.res.get(&key) {
            Some(x) => {
                if self.slots.contains_key(&x) {
                    self.res.remove(&key);
                    self.keep.insert(key, x);
                    return Ok(Step::Ready(()));
                }
            },
            None => {},
        }
        Self::demand(id)
    }

    /// Pins what `id` resolves to, else the load.
    pub(crate) fn keep_with(&mut self, id: &str, loaded: Result<P, std::io::Error>) -> (r: Result<
        (),
        ResourceError,
    >)
        requires
            old(self).wf(),
            old(self)@.has_room(),
        ensures
            final(self).wf(),
            final(self)@ == old(self)@.keep_with(id@, loaded).0,
            r == old(self)@.keep_with(id@, loaded).1,
    {
        proof {
            super::consistency::lemma_keep_with(self@, id@, loaded);
        }
        match self.keep(id) {
            Ok(Step::Ready(_)) => Ok(()),
            Err(e) => Err(e),
            Ok(Step::Load(kind)) => match loaded {
                Ok(payload) => {
                    let x = self.take_in(id.to_owned(), kind, payload, 0);
                    self.keep.insert(id.to_owned(), x);
                    Ok(())
                },
                Err(cause) => Err(ResourceError::LoadError(cause)),
            },
        }
    }

    /// Gives a handle back, and drops the instance with its last owner.
    pub(crate) fn release(&mut self, resource: Resource) -> (r: Option<P>)
        requires
            old(self).wf(),
        ensures
            final(self).wf(),
            final(self)@ == old(self)@.release(resource@.instance).0,
            r == old(self)@.release(resource@.instance).1,
    {
        proof {
            super::consistency::lemma_release(self@, resource@.instance);
        }
        let x = resource.instance;
        match self.slots.remove(&x) {
            None => {
                assert(self@.live =~= old(self)@.live);
                None
            },
            Some(e) => {
                if e.holders == 0 {
                    self.slots.insert(x, e);
                    assert(self@.live =~= old(self)@.live);
                    None
                } else if e.holders == 1 && !self.preloads.has_value(x) && !self.keep.has_value(x) {
                    assert(self@.live =~= old(self)@.live.remove(x));
                    Some(e.payload)
                } else {
                    self.slots.insert(
                        x,
                        Entry { kind: e.kind, holders: e.holders - 1, payload: e.payload },
                    );
                    assert(self@.live =~= old(self)@.release(x).0.live);
                    None
                }
            },
        }
    }

    /// The payload behind a handle on a font.
    pub(crate) fn payload(&self, resource: &Resource) -> (r: Option<&P>)
        requires
            self.wf(),
        ensures
            match self@.payload(resource@) {
                Some(payload) => r == Some(&payload),
                None => r.is_none(),
            },
    {
        match resource.kind {
            ResourceKind::Font => match self.slots.get(&resource.instance) {
                Some(e) => Some(&e.payload),
                None => None,
            },
        }
    }

    /// One more handle on the instance of `weak`, if it is still live.
    pub(crate) fn upgrade(&mut self, weak: &WeakResource) -> (r: Option<Resource>)
        requires
            old(self).wf(),
            old(self)@.has_room(),
        ensures
            final(self).wf(),
            final(self)@ == old(self)@.upgrade(weak@.instance).0,
            option_view(r) == old(self)@.upgrade(weak@.instance).1,
    {
        proof {
            super::consistency::lemma_upgrade(self@, weak@.instance);
        }
        if self.slots.contains_key(&weak.instance) {
            Some(self.acquire(weak.instance))
        } else {
            None
        }
    }

    /// Sets room aside in the three tables; the contents stay.
    pub(crate) fn reserve(&mut self, preloads: usize, res: usize, keep: usize)
        requires
            old(self).wf(),
        ensures
            final(self).wf(),
            final(self)@ == old(self)@,
    {
        self.preloads.reserve(preloads);
        self.res.reserve(res);
        self.keep.reserve(keep);
    }
}

} // verus!
