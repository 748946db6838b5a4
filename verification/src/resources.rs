//! The asset cache.
//!
//! The cache maps an identifier to loaded instances of the asset it names,
//! under three retention policies: weakly tracked, preloaded and kept. It
//! never reads an asset itself. Where an operation finds that a load is
//! needed it says so, and the caller hands the outcome of the load to the
//! operation's second half.
//!
//! A [`Resource`] is an owning handle on one instance. It is given back
//! with [`Resources::release`]; an instance that no handle and no entry of
//! the cache owns any more is dropped at once.

pub mod consistency;
pub mod kind;
pub mod laws;
pub mod model;
mod store;
mod table;

use vstd::prelude::*;

pub use kind::ResourceKind;
use model::{Cache, Handle};
use store::Store;

verus! {

/// `std::io::Error`, the cause of a failed load. The cache only carries such
/// a value from the caller's loader to the caller; nothing is claimed of it.
#[verifier::external_type_specification]
#[verifier::external_body]
pub struct ExIoError(std::io::Error);

/// Why the cache could not hand out an asset.
pub enum ResourceError {
    /// The identifier names no kind of asset that can be loaded.
    UnsupportedKind,
    /// Reading or decoding the asset failed, for the cause given.
    LoadError(std::io::Error),
}

/// What the first half of an operation answers.
pub enum Step<T> {
    /// The operation is complete.
    Ready(T),
    /// The asset has to be loaded, as one of the given kind; the operation's
    /// second half takes the outcome.
    Load(ResourceKind),
}

/// An owning handle on one loaded instance of an asset.
///
/// The instance lives at least until the handle is given back to the cache
/// it came from.
pub struct Resource {
    kind: ResourceKind,
    instance: u64,
}

/// A handle that owns nothing: it names an instance that may be gone.
#[derive(Clone, Copy)]
pub struct WeakResource {
    kind: ResourceKind,
    instance: u64,
}

impl View for Resource {
    type V = Handle;

    closed spec fn view(&self) -> Handle {
        Handle { kind: self.kind, instance: self.instance }
    }
}

impl View for WeakResource {
    type V = Handle;

    closed spec fn view(&self) -> Handle {
        Handle { kind: self.kind, instance: self.instance }
    }
}

/// The handles inside the answer of `get`, as what they name.
pub open spec fn step_view(r: Result<Step<Resource>, ResourceError>) -> Result<
    Step<Handle>,
    ResourceError,
> {
    match r {
        Ok(Step::Ready(h)) => Ok(Step::Ready(h@)),
        Ok(Step::Load(kind)) => Ok(Step::Load(kind)),
        Err(e) => Err(e),
    }
}

/// The handle inside the answer of `get_with`, as what it names.
pub open spec fn handle_view(r: Result<Resource, ResourceError>) -> Result<Handle, ResourceError> {
    match r {
        Ok(h) => Ok(h@),
        Err(e) => Err(e),
    }
}

/// The handle inside the answer of `try_get` or `upgrade`, as what it names.
pub open spec fn option_view(r: Option<Resource>) -> Option<Handle> {
    match r {
        Some(h) => Some(h@),
        None => None,
    }
}

/// The cache of loaded assets, with payloads of type `P`.
///
/// A value of this type always meets the invariant of its state, so every
/// law of [`laws`] holds of it.
pub struct Resources<P> {
    store: Store<P>,
}

impl<P> View for Resources<P> {
    type V = Cache<P>;

    closed spec fn view(&self) -> Cache<P> {
        self.store@
    }
}

impl<P> Resources<P> {
    #[verifier::type_invariant]
    spec fn well_formed(self) -> bool {
        self.store.wf()
    }

    /// An empty cache.
    pub fn new() -> (cache: Self)
        ensures
            cache@ == Cache::<P>::empty(),
            cache@.wf(),
    {
        Resources { store: Store::new() }
    }

    /// The number of loads taken in so far.
    pub fn loads(&self) -> (n: u64)
        ensures
            n == self@.loads,
            self@.wf(),
    {
        proof {
            use_type_invariant(self);
            self.store.lemma_wf();
        }
        self.store.loads()
    }

    /// Whether the cache's counters can still grow. Every operation that
    /// hands out a handle or takes in a load asks for this.
    pub fn has_room(&self) -> (b: bool)
        ensures
            b == self@.has_room(),
            self@.wf(),
    {
        proof {
            use_type_invariant(self);
            self.store.lemma_wf();
        }
        self.store.has_room()
    }

    /// Whether the cache owns an instance for `id` that the next `get` of
    /// `id` takes.
    pub fn is_preloaded(&self, id: &str) -> (b: bool)
        ensures
            b == self@.preloaded.contains_key(id@),
    {
        proof {
            use_type_invariant(self);
        }
        self.store.is_preloaded(id)
    }

    /// Whether the cache owns an instance for `id` for good.
    pub fn is_kept(&self, id: &str) -> (b: bool)
        ensures
            b == self@.kept.contains_key(id@),
    {
        proof {
            use_type_invariant(self);
        }
        self.store.is_kept(id)
    }

    /// Resolves `id` without a load: the preloaded instance, which is
    /// thereby used up; else the kept one; else the weakly tracked one if it
    /// is still live. Returns `None`, and changes nothing, where there is
    /// none of these.
    pub fn try_get(&mut self, id: &str) -> (r: Option<Resource>)
        requires
            old(self)@.has_room(),
        ensures
            final(self)@ == old(self)@.try_get(id@).0,
            option_view(r) == old(self)@.try_get(id@).1,
            final(self)@.wf(),
    {
        proof {
            use_type_invariant(&*self);
        }
        let mut store = Store::new();
        std::mem::swap(&mut store, &mut self.store);
        let r = store.try_get(id);
        proof {
            store.lemma_wf();
        }
        self.store = store;
        r
    }

    /// The first half of `get`. Resolves `id` as `try_get` does; where
    /// nothing is at hand it changes nothing and asks for a load of the kind
    /// that `id` names, or fails with `UnsupportedKind` where `id` names none.
    pub fn get(&mut self, id: &str) -> (r: Result<Step<Resource>, ResourceError>)
        requires
            old(self)@.has_room(),
        ensures
            final(self)@ == old(self)@.get(id@).0,
            step_view(r) == old(self)@.get(id@).1,
            final(self)@.wf(),
    {
        proof {
            use_type_invariant(&*self);
        }
        let mut store = Store::new();
        std::mem::swap(&mut store, &mut self.store);
        let r = store.get(id);
        proof {
            store.lemma_wf();
        }
        self.store = store;
        r
    }

    /// `get`, with the outcome of the load at hand. Resolves `id` as
    /// `try_get` does, and `loaded` is dropped unused. Where nothing is at
    /// hand, a loaded payload becomes a new instance that is weakly tracked
    /// for `id`, and the handle on it is returned; a failed load is returned
    /// as `LoadError` with its cause, and the cache stays as it was.
    pub fn get_with(&mut self, id: &str, loaded: Result<P, std::io::Error>) -> (r: Result<
        Resource,
        ResourceError,
    >)
        requires
            old(self)@.has_room(),
        ensures
            final(self)@ == old(self)@.get_with(id@, loaded).0,
            handle_view(r) == old(self)@.get_with(id@, loaded).1,
            final(self)@.wf(),
    {
        proof {
            use_type_invariant(&*self);
        }
        let mut store = Store::new();
        std::mem::swap(&mut store, &mut self.store);
        let r = store.get_with(id, loaded);
        proof {
            store.lemma_wf();
        }
        self.store = store;
        r
    }

    /// The first half of `preload`. Where `id` is preloaded there is nothing
    /// to do. Else it asks for a load, whatever else the cache holds for
    /// `id`, or fails with `UnsupportedKind`. The cache is never changed.
    pub fn preload(&self, id: &str) -> (r: Result<Step<()>, ResourceError>)
        ensures
            r == self@.preload(id@).1,
    {
        proof {
            use_type_invariant(self);
        }
        self.store.preload(id)
    }

    /// `preload`, with the outcome of the load at hand. Where `id` is
    /// preloaded nothing changes. Else a loaded payload becomes a new
    /// instance that the cache owns until the next `get` of `id` takes it,
    /// and that is weakly tracked for `id`; a failed load is returned as
    /// `LoadError`, and the cache stays as it was.
    pub fn preload_with(&mut self, id: &str, loaded: Result<P, std::io::Error>) -> (r: Result<
        (),
        ResourceError,
    >)
        requires
            old(self)@.has_room(),
        ensures
            final(self)@ == old(self)@.preload_with(id@, loaded).0,
            r == old(self)@.preload_with(id@, loaded).1,
            final(self)@.wf(),
    {
        proof {
            use_type_invariant(&*self);
        }
        let mut store = Store::new();
        std::mem::swap(&mut store, &mut self.store);
        let r = store.preload_with(id, loaded);
        proof {
            store.lemma_wf();
        }
        self.store = store;
        r
    }

    /// The first half of `keep`. Where `id` is kept there is nothing to do.
    /// Else the preloaded instance moves to the kept map; else the weakly
    /// tracked one, if it is still live, moves there. Where there is none of
    /// these the cache stays as it was, and the answer asks for a load or
    /// fails with `UnsupportedKind`.
    pub fn keep(&mut self, id: &str) -> (r: Result<Step<()>, ResourceError>)
        ensures
            final(self)@ == old(self)@.keep(id@).0,
            r == old(self)@.keep(id@).1,
            final(self)@.wf(),
    {
        proof {
            use_type_invariant(&*self);
        }
        let mut store = Store::new();
        std::mem::swap(&mut store, &mut self.store);
        let r = store.keep(id);
        proof {
            store.lemma_wf();
        }
        self.store = store;
        r
    }

    /// `keep`, with the outcome of the load at hand. Pins what is at hand
    /// as the first half does, and `loaded` is dropped unused. Where nothing
    /// is at hand, a loaded payload becomes a new instance that the cache
    /// owns for good and that is weakly tracked for `id`; a failed load is
    /// returned as `LoadError`, and the cache stays as it was.
    pub fn keep_with(&mut self, id: &str, loaded: Result<P, std::io::Error>) -> (r: Result<
        (),
        ResourceError,
    >)
        requires
            old(self)@.has_room(),
        ensures
            final(self)@ == old(self)@.keep_with(id@, loaded).0,
            r == old(self)@.keep_with(id@, loaded).1,
            final(self)@.wf(),
    {
        proof {
            use_type_invariant(&*self);
        }
        let mut store = Store::new();
        std::mem::swap(&mut store, &mut self.store);
        let r = store.keep_with(id, loaded);
        proof {
            store.lemma_wf();
        }
        self.store = store;
        r
    }

    /// Gives the handle `resource` back. Where no handle on its instance is
    /// outstanding nothing changes. Else the instance has one owner fewer;
    /// where that was its last handle and the cache does not own it, the
    /// instance goes and its payload is returned.
    pub fn release(&mut self, resource: Resource) -> (r: Option<P>)
        ensures
            final(self)@ == old(self)@.release(resource@.instance).0,
            r == old(self)@.release(resource@.instance).1,
            final(self)@.wf(),
    {
        proof {
            use_type_invariant(&*self);
        }
        let mut store = Store::new();
        std::mem::swap(&mut store, &mut self.store);
        let r = store.release(resource);
        proof {
            store.lemma_wf();
        }
        self.store = store;
        r
    }
}

impl Resource {
    /// The kind of asset that the handle is on.
    pub fn kind(&self) -> (kind: ResourceKind)
        ensures
            kind == self@.kind,
    {
        self.kind
    }

    /// The number of the instance that the handle is on. Two handles are on
    /// the same instance exactly where their numbers are equal.
    pub fn instance(&self) -> (x: u64)
        ensures
            x == self@.instance,
    {
        self.instance
    }

    /// A handle on the same instance that owns nothing.
    pub fn downgrade(res: &Resource) -> (weak: WeakResource)
        ensures
            weak@ == res@,
    {
        WeakResource { kind: res.kind, instance: res.instance }
    }

    /// The payload of a font: `Some` where the handle is on a font whose
    /// instance is live in `cache`.
    pub fn try_as_glyphs<'a, P>(&self, cache: &'a Resources<P>) -> (r: Option<&'a P>)
        ensures
            match cache@.payload(self@) {
                Some(payload) => r == Some(&payload),
                None => r.is_none(),
            },
    {
        proof {
            use_type_invariant(cache);
        }
        cache.store.payload(self)
    }
}

impl WeakResource {
    /// An owning handle on the instance, where it is still live in `cache`;
    /// else `None`, and nothing changes.
    pub fn upgrade<P>(&self, cache: &mut Resources<P>) -> (r: Option<Resource>)
        requires
            old(cache)@.has_room(),
        ensures
            final(cache)@ == old(cache)@.upgrade(self@.instance).0,
            option_view(r) == old(cache)@.upgrade(self@.instance).1,
            final(cache)@.wf(),
    {
        proof {
            use_type_invariant(&*cache);
        }
        let mut store = Store::new();
        std::mem::swap(&mut store, &mut cache.store);
        let r = store.upgrade(self);
        proof {
            store.lemma_wf();
        }
        cache.store = store;
        r
    }
}

/// Builds a cache with room set aside in its three maps.
pub struct ResourcesBuilder {
    preload_cap: Option<usize>,
    res_cap: Option<usize>,
    keep_cap: Option<usize>,
}

impl ResourcesBuilder {
    /// A builder that sets no room aside, in none of the three maps.
    pub fn new() -> (builder: Self)
        ensures
            builder.preload_capacity().is_none(),
            builder.weak_capacity().is_none(),
            builder.keep_capacity().is_none(),
    {
        ResourcesBuilder { preload_cap: None, res_cap: None, keep_cap: None }
    }

    /// The cache: empty, whatever room was set aside.
    pub fn build<P>(self) -> (cache: Resources<P>)
        ensures
            cache@ == Cache::<P>::empty(),
            cache@.wf(),
    {
        let mut store = Store::new();
        if let Some(preload_cap) = self.preload_cap {
            store.reserve(preload_cap, 0, 0);
        }
        if let Some(res_cap) = self.res_cap {
            store.reserve(0, res_cap, 0);
        }
        if let Some(keep_cap) = self.keep_cap {
            store.reserve(0, 0, keep_cap);
        }
        Resources { store }
    }

    /// The room that the builder sets aside in the preloaded map, if any.
    pub closed spec fn preload_capacity(&self) -> Option<usize> {
        self.preload_cap
    }

    /// The room that the builder sets aside in the weakly tracked map, if
    /// any.
    pub closed spec fn weak_capacity(&self) -> Option<usize> {
        self.res_cap
    }

    /// The room that the builder sets aside in the kept map, if any.
    pub closed spec fn keep_capacity(&self) -> Option<usize> {
        self.keep_cap
    }
}

} // verus!
