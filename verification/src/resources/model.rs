//! The cache as a mathematical state, and its operations as functions on
//! that state.
//!
//! An instance is one loaded copy of an asset. Instances are numbered in
//! the order in which they were loaded, and a number is never used again.
//! An instance is live while it has an owner: a handle outside the cache,
//! or an entry of the preloaded or the kept map.

use super::kind::{kind_of, ResourceKind};
use super::{ResourceError, Step};
use vstd::prelude::*;

verus! {

/// What a handle names: an instance, and the kind of asset it is.
pub struct Handle {
    pub kind: ResourceKind,
    pub instance: u64,
}

/// One live instance.
pub struct Slot<P> {
    pub kind: ResourceKind,
    /// The decoded asset.
    pub payload: P,
    /// The number of owning handles outside the cache.
    pub holders: nat,
}

/// The state of a cache.
pub struct Cache<P> {
    /// The instance that is weakly tracked for each identifier; the entry
    /// owns nothing, and the instance may be gone.
    pub weak: Map<Seq<char>, u64>,
    /// The instances that the cache owns until the next `get` takes them.
    pub preloaded: Map<Seq<char>, u64>,
    /// The instances that the cache owns for good.
    pub kept: Map<Seq<char>, u64>,
    /// The live instances, by number.
    pub live: Map<u64, Slot<P>>,
    /// The number of loads taken in so far; also the next instance number.
    pub loads: nat,
    /// The number of handles given out so far.
    pub issued: nat,
}

impl<P> Cache<P> {
    /// The state of a new cache.
    pub open spec fn empty() -> Self {
        Cache {
            weak: Map::empty(),
            preloaded: Map::empty(),
            kept: Map::empty(),
            live: Map::empty(),
            loads: 0,
            issued: 0,
        }
    }

    /// Whether instance `x` is live.
    pub open spec fn is_live(self, x: u64) -> bool {
        self.live.contains_key(x)
    }

    /// Whether the cache itself owns instance `x`.
    pub open spec fn pinned(self, x: u64) -> bool {
        ||| exists|id: Seq<char>| self.preloaded.contains_key(id) && #[trigger] self.preloaded[id] == x
        ||| exists|id: Seq<char>| self.kept.contains_key(id) && #[trigger] self.kept[id] == x
    }

    /// The instance that `id` resolves to without a load: the preloaded one,
    /// else the kept one, else the weakly tracked one if it is still live.
    pub open spec fn resident(self, id: Seq<char>) -> Option<u64> {
        if self.preloaded.contains_key(id) {
            Some(self.preloaded[id])
        } else if self.kept.contains_key(id) {
            Some(self.kept[id])
        } else if self.weak.contains_key(id) && self.is_live(self.weak[id]) {
            Some(self.weak[id])
        } else {
            None
        }
    }

    /// The handle of the live instance `x`.
    pub open spec fn handle(self, x: u64) -> Handle {
        Handle { kind: self.live[x].kind, instance: x }
    }

    /// The number that the next load gets.
    pub open spec fn fresh(self) -> u64 {
        self.loads as u64
    }

    /// Whether the counters can still grow.
    pub open spec fn has_room(self) -> bool {
        self.loads < u64::MAX && self.issued < u64::MAX
    }

    /// The state's invariant.
    pub open spec fn wf(self) -> bool {
        &&& self.loads <= u64::MAX
        &&& forall|x: u64| #[trigger]
            self.live.contains_key(x) ==> x < self.loads && self.live[x].holders <= self.issued && (
            self.live[x].holders > 0 || self.pinned(x))
        &&& forall|id: Seq<char>| #[trigger]
            self.weak.contains_key(id) ==> self.weak[id] < self.loads && kind_of(id).is_some()
        &&& forall|id: Seq<char>| #[trigger]
            self.preloaded.contains_key(id) ==> self.is_live(self.preloaded[id])
                && self.weak.contains_key(id) && self.weak[id] == self.preloaded[id]
        &&& forall|id: Seq<char>| #[trigger]
            self.kept.contains_key(id) ==> self.is_live(self.kept[id]) && kind_of(id).is_some()
    }

    /// One more handle on the live instance `x`.
    pub open spec fn acquire(self, x: u64) -> Self {
        Cache {
            live: self.live.insert(
                x,
                Slot { holders: self.live[x].holders + 1, ..self.live[x] },
            ),
            issued: self.issued + 1,
            ..self
        }
    }

    /// Hands out the instance that `id` resolves to: a preloaded entry is
    /// used up, and the instance has one more handle.
    pub open spec fn hand_out(self, id: Seq<char>) -> Self {
        Cache { preloaded: self.preloaded.remove(id), ..self }.acquire(self.resident(id).unwrap())
    }

    /// Takes in a load for `id`: the instance gets the next number, starts
    /// with `holders` handles, and becomes the one weakly tracked for `id`.
    pub open spec fn take_in(self, id: Seq<char>, kind: ResourceKind, payload: P, holders: nat) -> Self {
        Cache {
            weak: self.weak.insert(id, self.fresh()),
            live: self.live.insert(self.fresh(), Slot { kind, payload, holders }),
            loads: self.loads + 1,
            issued: self.issued + holders,
            ..self
        }
    }

    /// What is asked of the caller where `id` is not at hand: a load of the
    /// kind that `id` names, or nothing that could help.
    pub open spec fn demand<T>(id: Seq<char>) -> Result<Step<T>, ResourceError> {
        match kind_of(id) {
            Some(kind) => Ok(Step::Load(kind)),
            None => Err(ResourceError::UnsupportedKind),
        }
    }

    /// `try_get`: resolves `id` without a load.
    pub open spec fn try_get(self, id: Seq<char>) -> (Self, Option<Handle>) {
        match self.resident(id) {
            Some(x) => (self.hand_out(id), Some(self.handle(x))),
            None => (self, None),
        }
    }

    /// `get`: resolves `id`, or asks for a load.
    pub open spec fn get(self, id: Seq<char>) -> (Self, Result<Step<Handle>, ResourceError>) {
        match self.resident(id) {
            Some(x) => (self.hand_out(id), Ok(Step::Ready(self.handle(x)))),
            None => (self, Self::demand(id)),
        }
    }

    /// `get_with`: resolves `id`, and takes in the load where one is needed.
    pub open spec fn get_with(self, id: Seq<char>, loaded: Result<P, std::io::Error>) -> (
        Self,
        Result<Handle, ResourceError>,
    ) {
        match self.get(id) {
            (next, Ok(Step::Ready(h))) => (next, Ok(h)),
            (_, Err(e)) => (self, Err(e)),
            (_, Ok(Step::Load(kind))) => match loaded {
                Ok(payload) => (
                    self.take_in(id, kind, payload, 1),
                    Ok(Handle { kind, instance: self.fresh() }),
                ),
                Err(cause) => (self, Err(ResourceError::LoadError(cause))),
            },
        }
    }

    /// `preload`: nothing to do where `id` is preloaded, else asks for a load.
    pub open spec fn preload(self, id: Seq<char>) -> (Self, Result<Step<()>, ResourceError>) {
        if self.preloaded.contains_key(id) {
            (self, Ok(Step::Ready(())))
        } else {
            (self, Self::demand(id))
        }
    }

    /// `preload_with`: takes in the load where `id` was not preloaded.
    pub open spec fn preload_with(self, id: Seq<char>, loaded: Result<P, std::io::Error>) -> (
        Self,
        Result<(), ResourceError>,
    ) {
        match self.preload(id) {
            (next, Ok(Step::Ready(_))) => (next, Ok(())),
            (_, Err(e)) => (self, Err(e)),
            (_, Ok(Step::Load(kind))) => match loaded {
                Ok(payload) => (
                    Cache {
                        preloaded: self.preloaded.insert(id, self.fresh()),
                        ..self.take_in(id, kind, payload, 0)
                    },
                    Ok(()),
                ),
                Err(cause) => (self, Err(ResourceError::LoadError(cause))),
            },
        }
    }

    /// `keep`: pins what `id` resolves to, or asks for a load.
    pub open spec fn keep(self, id: Seq<char>) -> (Self, Result<Step<()>, ResourceError>) {
        if self.kept.contains_key(id) {
            (self, Ok(Step::Ready(())))
        } else if self.preloaded.contains_key(id) {
            (
                Cache {
                    preloaded: self.preloaded.remove(id),
                    kept: self.kept.insert(id, self.preloaded[id]),
                    ..self
                },
                Ok(Step::Ready(())),
            )
        } else if self.weak.contains_key(id) && self.is_live(self.weak[id]) {
            (
                Cache {
                    weak: self.weak.remove(id),
                    kept: self.kept.insert(id, self.weak[id]),
                    ..self
                },
                Ok(Step::Ready(())),
            )
        } else {
            (self, Self::demand(id))
        }
    }

    /// `keep_with`: pins what `id` resolves to, else the load.
    pub open spec fn keep_with(self, id: Seq<char>, loaded: Result<P, std::io::Error>) -> (
        Self,
        Result<(), ResourceError>,
    ) {
        match self.keep(id) {
            (next, Ok(Step::Ready(_))) => (next, Ok(())),
            (_, Err(e)) => (self, Err(e)),
            (_, Ok(Step::Load(kind))) => match loaded {
                Ok(payload) => (
                    Cache {
                        kept: self.kept.insert(id, self.fresh()),
                        ..self.take_in(id, kind, payload, 0)
                    },
                    Ok(()),
                ),
                Err(cause) => (self, Err(ResourceError::LoadError(cause))),
            },
        }
    }

    /// `upgrade`: a handle on instance `x`, if it is still live.
    pub open spec fn upgrade(self, x: u64) -> (Self, Option<Handle>) {
        if self.is_live(x) {
            (self.acquire(x), Some(self.handle(x)))
        } else {
            (self, None)
        }
    }

    /// Whether a handle on instance `x` is outstanding.
    pub open spec fn held(self, x: u64) -> bool {
        self.is_live(x) && self.live[x].holders > 0
    }

    /// `release`: gives a handle on instance `x` back. The instance goes,
    /// and its payload comes out, where that was its last owner.
    pub open spec fn release(self, x: u64) -> (Self, Option<P>) {
        if !self.held(x) {
            (self, None)
        } else if self.live[x].holders == 1 && !self.pinned(x) {
            (Cache { live: self.live.remove(x), ..self }, Some(self.live[x].payload))
        } else {
            (
                Cache {
                    live: self.live.insert(
                        x,
                        Slot { holders: (self.live[x].holders - 1) as nat, ..self.live[x] },
                    ),
                    ..self
                },
                None,
            )
        }
    }

    /// The state after handles on the instances `xs` have been given back,
    /// one after the other.
    pub open spec fn release_all(self, xs: Seq<u64>) -> Self
        decreases xs.len(),
    {
        if xs.len() == 0 {
            self
        } else {
            self.release(xs[0]).0.release_all(xs.drop_first())
        }
    }

    /// The payload that the handle `h` gives access to.
    pub open spec fn payload(self, h: Handle) -> Option<P> {
        if self.is_live(h.instance) && h.kind == ResourceKind::Font {
            Some(self.live[h.instance].payload)
        } else {
            None
        }
    }
}

} // verus!
