//! Handles to cache entries, and the shape of a cacheable object.
//!
//! A handle is a slot that is settled once, with the value of an entry or
//! with the error of its generator. This module states the rules of the
//! slot for one owner; sharing a settled handle between threads, and waiting
//! for it, is the caller's part.
use crate::disk::Outcome;
use vstd::prelude::*;

verus! {

/// A cacheable object: its own state is its cache key, and generating is a
/// function of that state alone.
pub trait Cacheable {
    /// The output produced by generating the object.
    type Output;

    /// The error type returned by [`Cacheable::generate`].
    type Error;

    /// Generates the output of the cacheable object.
    fn generate(&self) -> Result<Self::Output, Self::Error>;
}

/// A cacheable object whose generator needs to store state.
pub trait CacheableWithState<S> {
    /// The output produced by generating the object.
    type Output;

    /// The error type returned by
    /// [`CacheableWithState::generate_with_state`].
    type Error;

    /// Generates the output of the cacheable object using `state`.
    ///
    /// The state is no part of the cache key, so it must not influence the
    /// output: it is there to store collateral or to reuse computation from
    /// other calls.
    fn generate_with_state(&self, state: S) -> Result<Self::Output, Self::Error>;
}

/// A handle to a cache entry that might still be generating.
#[derive(Debug)]
pub struct CacheHandle<V, E> {
    slot: Option<Result<V, E>>,
}

impl<V, E> View for CacheHandle<V, E> {
    type V = Option<Result<V, E>>;

    closed spec fn view(&self) -> Option<Result<V, E>> {
        self.slot
    }
}

/// What a handle is settled with at the end of a request: the generator's
/// own result where it ran; the stored value where one was read and could be
/// decoded; else the fallback error.
pub open spec fn resolved<V, E>(
    outcome: Outcome,
    generated: Option<Result<V, E>>,
    cached: Option<V>,
    fallback: E,
) -> Result<V, E> {
    match outcome {
        Outcome::Generated | Outcome::GeneratorFailed => match generated {
            Some(result) => result,
            None => Err(fallback),
        },
        Outcome::Cached => match cached {
            Some(value) => Ok(value),
            None => Err(fallback),
        },
        Outcome::Unavailable => Err(fallback),
    }
}

/// Decides what a handle is settled with at the end of a request.
/// `generated` is what the generator returned, if it ran; `cached` is the
/// stored value, if one was read and could be decoded; `fallback` stands in
/// where neither is there.
pub fn resolve<V, E>(
    outcome: Outcome,
    generated: Option<Result<V, E>>,
    cached: Option<V>,
    fallback: E,
) -> (result: Result<V, E>)
    ensures
        result == resolved(outcome, generated, cached, fallback),
{
    match outcome {
        Outcome::Generated | Outcome::GeneratorFailed => match generated {
            Some(result) => result,
            None => Err(fallback),
        },
        Outcome::Cached => match cached {
            Some(value) => Ok(value),
            None => Err(fallback),
        },
        Outcome::Unavailable => Err(fallback),
    }
}

impl<V, E> CacheHandle<V, E> {
    /// A handle that is not settled yet.
    pub fn new() -> (handle: Self)
        ensures
            handle@ is None,
    {
        CacheHandle { slot: None }
    }

    /// Settles the handle. A handle is settled once: a second result is
    /// rejected and handed back, and the handle stays as it is.
    pub fn set(&mut self, result: Result<V, E>) -> (rejected: Option<Result<V, E>>)
        ensures
            old(self)@ is None ==> final(self)@ == Some(result) && rejected is None,
            old(self)@ is Some ==> final(self)@ == old(self)@ && rejected == Some(result),
    {
        if self.slot.is_none() {
            self.slot = Some(result);
            None
        } else {
            Some(result)
        }
    }

    /// Checks whether the underlying entry is ready.
    ///
    /// Returns the entry if available, otherwise returns [`None`].
    pub fn poll(&self) -> (entry: Option<&Result<V, E>>)
        ensures
            match entry {
                Some(result) => self@ == Some(*result),
                None => self@ is None,
            },
    {
        self.slot.as_ref()
    }

    /// The result of a settled handle: the value, or the error that the
    /// generator returned.
    pub fn try_get(&self) -> (result: Result<&V, &E>)
        requires
            self@ is Some,
        ensures
            match result {
                Ok(value) => self@ == Some(Ok::<V, E>(*value)),
                Err(error) => self@ == Some(Err::<V, E>(*error)),
            },
    {
        self.slot.as_ref().unwrap().as_ref()
    }

    /// Settles the handle with the output of a cacheable object, unless it
    /// is settled already: then the generator does not run.
    pub fn generate<C: Cacheable<Output = V, Error = E>>(&mut self, object: &C)
        ensures
            final(self)@ is Some,
            old(self)@ is Some ==> final(self)@ == old(self)@,
    {
        if self.slot.is_none() {
            self.slot = Some(object.generate());
        }
    }

    /// Settles the handle with the output of a cacheable object that uses
    /// `state`, unless it is settled already: then the generator does not
    /// run.
    pub fn generate_with_state<S, C: CacheableWithState<S, Output = V, Error = E>>(
        &mut self,
        object: &C,
        state: S,
    )
        ensures
            final(self)@ is Some,
            old(self)@ is Some ==> final(self)@ == old(self)@,
    {
        if self.slot.is_none() {
            self.slot = Some(object.generate_with_state(state));
        }
    }
}

impl<V, E: core::fmt::Debug> CacheHandle<V, E> {
    /// The value of a handle that is settled with one.
    pub fn get(&self) -> (value: &V)
        requires
            self@ is Some,
            self@->0 is Ok,
        ensures
            self@ == Some(Ok::<V, E>(*value)),
    {
        self.try_get().unwrap()
    }
}

impl<V: core::fmt::Debug, E> CacheHandle<V, E> {
    /// The error of a handle that is settled with one.
    pub fn get_err(&self) -> (error: &E)
        requires
            self@ is Some,
            self@->0 is Err,
        ensures
            self@ == Some(Err::<V, E>(*error)),
    {
        self.try_get().unwrap_err()
    }
}

} // verus!
