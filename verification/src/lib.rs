//! A combinator for carrying a lock-style guard together with a value derived
//! from its protected contents, as one movable aggregate.
//!
//! A `MappedGuard` owns a guard (any value whose destruction releases some
//! access) and a target (a value computed from the guard's contents). The
//! aggregate dereferences to the target alone, never to the guard, so the
//! underlying access stays held for exactly as long as the aggregate lives.

use vstd::prelude::*;

verus! {

/// An aggregate that owns a guard together with a value derived from the
/// guard's protected contents.
///
/// Dereferencing the aggregate yields the target alone; the guard is never
/// exposed, so the only path to the protected contents is through `target`.
#[derive(Debug)]
pub struct MappedGuard<G, R> {
    guard: G,
    target: R,
}

impl<G, R> MappedGuard<G, R> {
    /// The guard the aggregate owns.
    pub closed spec fn guard(self) -> G {
        self.guard
    }

    /// The derived value the aggregate dereferences to.
    pub closed spec fn target(self) -> R {
        self.target
    }

    /// Pairs an already-owned guard with an already-computed target.
    /// No validation is performed; construction cannot fail.
    pub fn new(guard: G, target: R) -> (m: Self)
        ensures
            m.guard() == guard,
            m.target() == target,
    {
        MappedGuard { guard, target }
    }
}

impl<G, R> core::ops::Deref for MappedGuard<G, R> {
    type Target = R;

    /// Dereferencing defers entirely to the target; the guard is unreachable.
    fn deref(&self) -> (r: &R)
        ensures
            *r == self.target(),
    {
        &self.target
    }
}

/// What flattening a nested aggregate produces: the innermost guard paired
/// with the outer target, with the intermediate wrapper discarded.
pub closed spec fn flattened<G, R1, R>(nested: MappedGuard<MappedGuard<G, R1>, R>) -> MappedGuard<
    G,
    R,
> {
    MappedGuard { guard: nested.guard.guard, target: nested.target }
}

/// Flattening equivalence: flattening changes only the representation. The
/// flattened aggregate dereferences to the very target the nested one did, and
/// the guard it holds is the innermost guard of the nested one, so no release
/// is triggered or skipped by flattening.
pub proof fn lemma_flatten_equivalence<G, R1, R>(nested: MappedGuard<MappedGuard<G, R1>, R>)
    ensures
        flattened(nested).target() == nested.target(),
        flattened(nested).guard() == nested.guard().guard(),
{
}

impl<G, R1, R> From<MappedGuard<MappedGuard<G, R1>, R>> for MappedGuard<G, R> {
    /// Flattens a nested aggregate: the result's guard is the innermost guard
    /// and its target the outer target. Pure restructuring; nothing is dropped
    /// or released.
    fn from(nested: MappedGuard<MappedGuard<G, R1>, R>) -> (m: Self) {
        MappedGuard { guard: nested.guard.guard, target: nested.target }
    }
}

impl<G, R1, R> vstd::std_specs::convert::FromSpecImpl<MappedGuard<MappedGuard<G, R1>, R>> for MappedGuard<G, R> {
    open spec fn obeys_from_spec() -> bool {
        true
    }

    open spec fn from_spec(nested: MappedGuard<MappedGuard<G, R1>, R>) -> Self {
        flattened(nested)
    }
}

/// Marker for guard types whose own storage address is not guaranteed stable,
/// so a mapping must move them into heap storage before pairing them with a
/// value derived from their contents.
pub trait BoxedMapped {}

impl<G, R> BoxedMapped for MappedGuard<G, R> {}

/// Declares std's `MutexGuard` so it can carry the `BoxedMapped` marker; the
/// type stays opaque and none of its methods are relied on.
#[verifier::reject_recursive_types(T)]
#[verifier::external_type_specification]
#[verifier::external_body]
pub struct ExMutexGuard<'a, T>(std::sync::MutexGuard<'a, T>) where T: ?Sized + 'a;

/// Declares std's `RwLockReadGuard` so it can carry the `BoxedMapped` marker;
/// the type stays opaque and none of its methods are relied on.
#[verifier::reject_recursive_types(T)]
#[verifier::external_type_specification]
#[verifier::external_body]
pub struct ExRwLockReadGuard<'a, T>(std::sync::RwLockReadGuard<'a, T>) where T: ?Sized;

/// Declares std's `RwLockWriteGuard` so it can carry the `BoxedMapped` marker;
/// the type stays opaque and none of its methods are relied on.
#[verifier::reject_recursive_types(T)]
#[verifier::external_type_specification]
#[verifier::external_body]
pub struct ExRwLockWriteGuard<'a, T>(std::sync::RwLockWriteGuard<'a, T>) where T: ?Sized + 'a;

impl<'a, T> BoxedMapped for std::sync::MutexGuard<'a, T> {}

impl<'a, T> BoxedMapped for std::sync::RwLockReadGuard<'a, T> {}

impl<'a, T> BoxedMapped for std::sync::RwLockWriteGuard<'a, T> {}

/// Consumes a guard, moves it into heap-stable storage, and pairs it with a
/// value the projection computes from a reference to it.
pub trait MapGuard<R>: Sized {
    /// Maps with a total projection: always yields an aggregate that holds the
    /// consumed guard and dereferences to the projection's output.
    fn map_guard<F: FnOnce(&Self) -> R>(self, map: F) -> (m: MappedGuard<Box<Self>, R>)
        requires
            call_requires(map, (&self,)),
        ensures
            m.guard() == self,
            call_ensures(map, (&self,), m.target()),
    ;

    /// Maps with a projection that may decline: on `Some` the aggregate holds
    /// the consumed guard and the projected value; on `None` no aggregate
    /// exists and the guard has already been dropped, releasing its access.
    fn maybe_map_guard<F: FnOnce(&Self) -> Option<R>>(self, maybe_map: F) -> (m: Option<
        MappedGuard<Box<Self>, R>,
    >)
        requires
            call_requires(maybe_map, (&self,)),
        ensures
            match m {
                Some(mg) => mg.guard() == self && call_ensures(
                    maybe_map,
                    (&self,),
                    Some(mg.target()),
                ),
                None => call_ensures(maybe_map, (&self,), None::<R>),
            },
    ;
}

/// Consumes a guard, moves it into heap-stable storage, and pairs it with a
/// value a fallible projection computes from a reference to it.
pub trait TryMapGuard<R, E>: Sized {
    /// Maps with a fallible projection: on `Ok` the aggregate holds the
    /// consumed guard and the projected value; on `Err` the projection's own
    /// error is passed through unmodified and the guard has already been
    /// dropped, releasing its access.
    fn try_map_guard<F: FnOnce(&Self) -> Result<R, E>>(self, try_map: F) -> (m: Result<
        MappedGuard<Box<Self>, R>,
        E,
    >)
        requires
            call_requires(try_map, (&self,)),
        ensures
            match m {
                Ok(mg) => mg.guard() == self && call_ensures(
                    try_map,
                    (&self,),
                    Ok::<R, E>(mg.target()),
                ),
                Err(e) => call_ensures(try_map, (&self,), Err::<R, E>(e)),
            },
    ;
}

impl<G: BoxedMapped, R> MapGuard<R> for G {
    fn map_guard<F: FnOnce(&G) -> R>(self, map: F) -> (m: MappedGuard<Box<G>, R>) {
        let boxed = Box::new(self);
        let target = map(&*boxed);
        MappedGuard { guard: boxed, target }
    }

    fn maybe_map_guard<F: FnOnce(&G) -> Option<R>>(self, maybe_map: F) -> (m: Option<
        MappedGuard<Box<G>, R>,
    >) {
        let boxed = Box::new(self);
        match maybe_map(&*boxed) {
            Some(target) => Some(MappedGuard { guard: boxed, target }),
            None => None,
        }
    }
}

impl<G: BoxedMapped, R, E> TryMapGuard<R, E> for G {
    fn try_map_guard<F: FnOnce(&G) -> Result<R, E>>(self, try_map: F) -> (m: Result<
        MappedGuard<Box<G>, R>,
        E,
    >) {
        let boxed = Box::new(self);
        match try_map(&*boxed) {
            Ok(target) => Ok(MappedGuard { guard: boxed, target }),
            Err(e) => Err(e),
        }
    }
}

} // verus!
