//! One interpreter, the lock that guards it, and its one-time start.
//!
//! The interpreter keeps state of its own and synchronises nothing, so every
//! entry point of the bridge takes the runtime's lock before it calls the
//! backend. The runtime hands its backend out only against the guard that
//! taking the lock returns, and only for as long as the guard lives. The
//! lock is reentrant: a host function that the interpreter calls back runs
//! under the lock already and may call the bridge again.
//!
//! Two things are done once and kept: the start of the interpreter, and
//! the making of the function that evaluates source text. What is kept is
//! evidence: it can only be made of an answer of the backend, so that what
//! is found later is known to have come about so.

use vstd::prelude::*;
use crate::backend::Backend;
use crate::error::{lift, lifted, outcome, Error, Fault};
use crate::eval::{evaluator_kept, Evaluator};

verus! {

/// `parking_lot::ReentrantMutex`, as the `lock_api` crate defines it. The
/// type is opaque: nothing is known of a lock but what its functions say.
#[verifier::external_type_specification]
#[verifier::external_body]
#[verifier::reject_recursive_types(R)]
#[verifier::reject_recursive_types(G)]
#[verifier::reject_recursive_types(T)]
pub struct ExReentrantMutex<R, G, T: ?Sized>(parking_lot::lock_api::ReentrantMutex<R, G, T>);

/// `parking_lot::RawMutex`, the first type argument of the lock. Opaque.
#[verifier::external_type_specification]
#[verifier::external_body]
pub struct ExRawMutex(parking_lot::RawMutex);

/// `parking_lot::RawThreadId`, the second type argument of the lock.
/// Opaque.
#[verifier::external_type_specification]
#[verifier::external_body]
pub struct ExRawThreadId(parking_lot::RawThreadId);

/// `std::sync::OnceLock`. Opaque.
#[verifier::external_type_specification]
#[verifier::external_body]
#[verifier::reject_recursive_types(T)]
pub struct ExOnceLock<T>(std::sync::OnceLock<T>);

/// A `parking_lot::ReentrantMutexGuard`, a type that cannot be declared as
/// it is: its definition is bound by traits of `lock_api`. The lock is
/// given back when the guard goes out of scope.
#[verifier::external_body]
struct Guard<'a> {
    guard: parking_lot::ReentrantMutexGuard<'a, ()>,
}

/// Proof that a lock is held: the guard, and the lock that it was taken
/// on. The lock is given back when this value goes out of scope.
pub struct Held<'a> {
    guard: Guard<'a>,
    lock: &'a parking_lot::ReentrantMutex<()>,
}

impl<'a> Held<'a> {
    /// The lock that is held.
    pub closed spec fn taken_on(&self) -> parking_lot::ReentrantMutex<()> {
        *self.lock
    }
}

/// `parking_lot::ReentrantMutex::new`: a lock that nobody holds.
#[verifier::external_body]
fn new_lock() -> parking_lot::ReentrantMutex<()> {
    parking_lot::ReentrantMutex::new(())
}

/// `parking_lot::ReentrantMutex::lock`: waits until the lock is free or held
/// by this thread, and takes it.
#[verifier::external_body]
fn acquire<'a>(lock: &'a parking_lot::ReentrantMutex<()>) -> Guard<'a> {
    Guard { guard: lock.lock() }
}

/// `std::sync::OnceLock::new`: an empty cell.
#[verifier::external_body]
fn new_cell<T>() -> std::sync::OnceLock<T> {
    std::sync::OnceLock::new()
}

/// `std::sync::OnceLock::get`: the value stored in the cell, if any.
/// Nothing is claimed of whether the cell holds a value. A value that it
/// holds is the one that `set` stored there, so a value of a type with an
/// invariant comes out as it went in.
#[verifier::external_body]
fn cell_get<T>(cell: &std::sync::OnceLock<T>) -> Option<&T> {
    cell.get()
}

/// `std::sync::OnceLock::set`: stores a value unless the cell holds one.
/// Returns whether the value was stored. Nothing is claimed of the answer.
#[verifier::external_body]
fn cell_set<T>(cell: &std::sync::OnceLock<T>, value: T) -> bool {
    cell.set(value).is_ok()
}

/// Evidence that the interpreter has been started: a backend has answered
/// the request to start with success. The runtime keeps it once it has
/// started the interpreter, and starts no more when it finds it.
struct Started<B: Backend> {
    by: Ghost<B>,
}

impl<B: Backend> Started<B> {
    #[verifier::type_invariant]
    spec fn answered(self) -> bool {
        call_ensures(B::bqn_init, (&self.by@,), Ok::<(), Fault>(()))
    }
}

/// Whether a backend has answered the request to start with success.
pub open spec fn start_succeeded<B: Backend>() -> bool {
    exists|by: B| #[trigger] call_ensures(B::bqn_init, (&by,), Ok::<(), Fault>(()))
}

/// An interpreter together with the lock that serialises access to it.
#[verifier::reject_recursive_types(B)]
pub struct Runtime<B: Backend> {
    backend: B,
    lock: parking_lot::ReentrantMutex<()>,
    started: std::sync::OnceLock<Started<B>>,
    evaluator: std::sync::OnceLock<Evaluator<B>>,
}

impl<B: Backend> Runtime<B> {
    /// The backend that the runtime wraps.
    pub closed spec fn engine(&self) -> B {
        self.backend
    }

    /// The lock that guards the backend.
    pub closed spec fn mutex(&self) -> parking_lot::ReentrantMutex<()> {
        self.lock
    }

    /// Starting the interpreter: `began` is the backend's answer to the
    /// request to start. Where the runtime has kept the evidence of an
    /// earlier start, the backend is not asked again: `began` is the success
    /// that the request to start was answered with then.
    pub open spec fn started(&self, began: Result<(), Fault>) -> bool {
        ||| call_ensures(B::bqn_init, (&self.engine(),), began)
        ||| began == Ok::<(), Fault>(()) && start_succeeded::<B>()
    }

    /// Wraps a backend. The interpreter is started on first use.
    pub fn new(backend: B) -> (rt: Self)
        ensures
            rt.engine() == backend,
    {
        Runtime { backend, lock: new_lock(), started: new_cell(), evaluator: new_cell() }
    }

    /// The backend, for as long as the runtime's lock is held.
    ///
    /// The backend is reached in no other way, so that no call is made to
    /// it without the lock.
    pub fn backend<'g>(&'g self, held: &'g Held<'_>) -> (b: &'g B)
        requires
            held.taken_on() == self.mutex(),
        ensures
            *b == self.engine(),
    {
        &self.backend
    }

    /// Takes the runtime's lock, waiting for other threads to give it back.
    /// A thread that holds the lock already takes it again without waiting.
    ///
    /// The guard that is returned is one on this runtime's lock.
    pub fn lock(&self) -> (held: Held<'_>)
        ensures
            held.taken_on() == self.mutex(),
    {
        Held { guard: acquire(&self.lock), lock: &self.lock }
    }

    /// Starts the interpreter unless it has been started before, and
    /// reports a failure as the backend gave it.
    pub(crate) fn start_raw(&self) -> (r: Result<(), Fault>)
        ensures
            self.started(r),
    {
        let held = self.lock();
        let backend = self.backend(&held);
        match cell_get(&self.started) {
            Some(evidence) => {
                proof {
                    use_type_invariant(evidence);
                }
                Ok(())
            },
            None => {
                let began = backend.bqn_init();
                let ghost answer = began;
                match began {
                    Ok(()) => {
                        assert(answer == Ok::<(), Fault>(answer->Ok_0));
                        let _ = cell_set(&self.started, Started { by: Ghost(self.engine()) });
                        Ok(())
                    },
                    Err(f) => Err(f),
                }
            },
        }
    }

    /// Starts the interpreter unless it has been started before.
    ///
    /// Runs under the lock, so that of several threads that start the
    /// interpreter at once only one calls the backend. A start that failed
    /// is tried again by the next call. Fails only if the backend does.
    pub fn start(&self) -> (r: Result<(), Error>)
        ensures
            exists|began: Result<(), Fault>| self.started(began) && outcome(r) == lifted(began),
    {
        let began = self.start_raw();
        let ghost seen = began;
        let r = lift(began);
        assert(self.started(seen) && outcome(r) == lifted(seen));
        r
    }

    /// The handle of the function that evaluates source text, if the
    /// runtime has kept one. A handle that was kept is one that was made of
    /// the source of that function.
    pub(crate) fn evaluator(&self) -> (r: Option<u64>)
        ensures
            r matches Some(h) ==> evaluator_kept::<B>(h),
    {
        match cell_get(&self.evaluator) {
            Some(kept) => Some(kept.handle()),
            None => None,
        }
    }

    /// Keeps the function that evaluates source text, unless one is kept
    /// already. Returns whether it was kept.
    pub(crate) fn keep_evaluator(&self, made: Evaluator<B>) -> bool {
        cell_set(&self.evaluator, made)
    }
}

/// Starts the interpreter.
///
/// The interpreter is started on first use anyway. This function lets a
/// program start it ahead of time, for instance in a background thread.
pub fn init<B: Backend>(rt: &Runtime<B>) -> (r: Result<(), Error>)
    ensures
        exists|began: Result<(), Fault>| rt.started(began) && outcome(r) == lifted(began),
{
    rt.start()
}

} // verus!
