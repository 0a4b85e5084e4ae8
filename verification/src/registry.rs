//! Host functions that the interpreter can call.
//!
//! The interpreter calls a host function through a fixed entry point and
//! hands it one value of its own choosing, the bound object. The bridge
//! binds a number to each function it creates: the key under which the host
//! function is registered here. A function stays registered for good, since
//! the interpreter may keep the value that refers to it for as long as it
//! likes.
//!
//! A host function is registered once. Functions are told apart by an
//! identity that the caller supplies, the address of the function for
//! instance.

use vstd::prelude::*;
use crate::backend::Backend;
use crate::conversions::value_made;
use crate::decide::{settle, settled};
use crate::error::{lift, outcome, Error, ErrorView, Fault};
use crate::runtime::Runtime;
use crate::value::{value_outcome, BQNValue};

verus! {

/// A registered host function and the identity it was registered under.
struct Bound<F> {
    identity: usize,
    func: F,
}

/// The host functions that the interpreter can call: those of one argument
/// and those of two.
pub struct BoundFns<F1, F2> {
    boundfn_1: Vec<Bound<F1>>,
    boundfn_2: Vec<Bound<F2>>,
}

/// Whether no value occurs twice in a sequence.
pub open spec fn distinct(s: Seq<usize>) -> bool {
    forall|i: int, j: int| 0 <= i < j < s.len() ==> s[i] != s[j]
}

/// What registering a function does to the list of identities.
///
/// A function that is registered already keeps its key and the list stays
/// as it is. A new function is put at the end, and its key is its position.
pub open spec fn registered(before: Seq<usize>, after: Seq<usize>, identity: usize, key: u64) -> bool {
    &&& 0 <= key < after.len()
    &&& after[key as int] == identity
    &&& if before.contains(identity) {
        after == before
    } else {
        after == before.push(identity) && key == before.len()
    }
}

spec fn identities_of<F>(entries: Seq<Bound<F>>) -> Seq<usize> {
    Seq::new(entries.len(), |i: int| entries[i].identity)
}

spec fn functions_of<F>(entries: Seq<Bound<F>>) -> Seq<F> {
    Seq::new(entries.len(), |i: int| entries[i].func)
}

/// Looks for an identity among the entries.
fn position<F>(entries: &Vec<Bound<F>>, identity: usize) -> (r: Option<usize>)
    ensures
        match r {
            Some(i) => i < entries@.len() && identities_of(entries@)[i as int] == identity,
            None => !identities_of(entries@).contains(identity),
        },
{
    let mut i: usize = 0;
    while i < entries.len()
        invariant
            i <= entries.len(),
            forall|k: int| 0 <= k < i ==> identities_of(entries@)[k] != identity,
        decreases entries.len() - i,
    {
        if entries[i].identity == identity {
            return Some(i);
        }
        i = i + 1;
    }
    None
}

impl<F1, F2> BoundFns<F1, F2> {
    /// Whether no function is registered twice. Holds of every registry
    /// that [`BoundFns::new`] made, whatever was registered since.
    pub closed spec fn wf(&self) -> bool {
        &&& distinct(identities_of(self.boundfn_1@))
        &&& distinct(identities_of(self.boundfn_2@))
    }

    /// In a well-formed registry no identity has two keys, and every key
    /// has its function.
    pub proof fn lemma_keys_are_unique(&self)
        requires
            self.wf(),
        ensures
            distinct(self.identities_1()),
            distinct(self.identities_2()),
            self.functions_1().len() == self.identities_1().len(),
            self.functions_2().len() == self.identities_2().len(),
    {
    }

    /// The identities of the registered functions of one argument, by key.
    pub closed spec fn identities_1(&self) -> Seq<usize> {
        identities_of(self.boundfn_1@)
    }

    /// The identities of the registered functions of two arguments, by key.
    pub closed spec fn identities_2(&self) -> Seq<usize> {
        identities_of(self.boundfn_2@)
    }

    /// The registered functions of one argument, by key.
    pub closed spec fn functions_1(&self) -> Seq<F1> {
        functions_of(self.boundfn_1@)
    }

    /// The registered functions of two arguments, by key.
    pub closed spec fn functions_2(&self) -> Seq<F2> {
        functions_of(self.boundfn_2@)
    }

    /// A registry without functions.
    pub fn new() -> (fns: Self)
        ensures
            fns.wf(),
            fns.identities_1() == Seq::<usize>::empty(),
            fns.identities_2() == Seq::<usize>::empty(),
            fns.functions_1() == Seq::<F1>::empty(),
            fns.functions_2() == Seq::<F2>::empty(),
    {
        let fns = BoundFns { boundfn_1: Vec::new(), boundfn_2: Vec::new() };
        assert(fns.identities_1() =~= Seq::<usize>::empty());
        assert(fns.identities_2() =~= Seq::<usize>::empty());
        assert(fns.functions_1() =~= Seq::<F1>::empty());
        assert(fns.functions_2() =~= Seq::<F2>::empty());
        fns
    }

    /// The number of registered functions of one argument.
    pub fn len_1(&self) -> (n: usize)
        ensures
            n == self.identities_1().len(),
            n == self.functions_1().len(),
    {
        self.boundfn_1.len()
    }

    /// The number of registered functions of two arguments.
    pub fn len_2(&self) -> (n: usize)
        ensures
            n == self.identities_2().len(),
            n == self.functions_2().len(),
    {
        self.boundfn_2.len()
    }

    /// Registers a function of one argument and returns its key.
    ///
    /// If a function of this identity is registered already, its key is
    /// returned and `func` is dropped.
    pub fn register_1(&mut self, identity: usize, func: F1) -> (key: u64)
        requires
            old(self).wf(),
        ensures
            final(self).wf(),
            registered(old(self).identities_1(), final(self).identities_1(), identity, key),
            final(self).functions_1() == if old(self).identities_1().contains(identity) {
                old(self).functions_1()
            } else {
                old(self).functions_1().push(func)
            },
            final(self).identities_2() == old(self).identities_2(),
            final(self).functions_2() == old(self).functions_2(),
    {
        match position(&self.boundfn_1, identity) {
            Some(i) => i as u64,
            None => {
                let ghost before = self.boundfn_1@;
                let key: usize = self.boundfn_1.len();
                self.boundfn_1.push(Bound { identity, func });
                assert(identities_of(self.boundfn_1@) =~= identities_of(before).push(identity));
                assert(functions_of(self.boundfn_1@) =~= functions_of(before).push(func));
                key as u64
            },
        }
    }

    /// Registers a function of two arguments and returns its key.
    ///
    /// If a function of this identity is registered already, its key is
    /// returned and `func` is dropped.
    pub fn register_2(&mut self, identity: usize, func: F2) -> (key: u64)
        requires
            old(self).wf(),
        ensures
            final(self).wf(),
            registered(old(self).identities_2(), final(self).identities_2(), identity, key),
            final(self).functions_2() == if old(self).identities_2().contains(identity) {
                old(self).functions_2()
            } else {
                old(self).functions_2().push(func)
            },
            final(self).identities_1() == old(self).identities_1(),
            final(self).functions_1() == old(self).functions_1(),
    {
        match position(&self.boundfn_2, identity) {
            Some(i) => i as u64,
            None => {
                let ghost before = self.boundfn_2@;
                let key: usize = self.boundfn_2.len();
                self.boundfn_2.push(Bound { identity, func });
                assert(identities_of(self.boundfn_2@) =~= identities_of(before).push(identity));
                assert(functions_of(self.boundfn_2@) =~= functions_of(before).push(func));
                key as u64
            },
        }
    }

    /// The function of one argument registered under a key.
    pub fn lookup_1(&self, key: u64) -> (r: Option<&F1>)
        ensures
            match r {
                Some(f) => key < self.functions_1().len() && *f == self.functions_1()[key as int],
                None => key >= self.functions_1().len(),
            },
    {
        if key < self.boundfn_1.len() as u64 {
            Some(&self.boundfn_1[key as usize].func)
        } else {
            None
        }
    }

    /// The function of two arguments registered under a key.
    pub fn lookup_2(&self, key: u64) -> (r: Option<&F2>)
        ensures
            match r {
                Some(f) => key < self.functions_2().len() && *f == self.functions_2()[key as int],
                None => key >= self.functions_2().len(),
            },
    {
        if key < self.boundfn_2.len() as u64 {
            Some(&self.boundfn_2[key as usize].func)
        } else {
            None
        }
    }
}

/// Binding the key of a registered function: a number is made that has
/// the key as its bits, the backend is asked for a function of one or of
/// two arguments around it, and the number is released.
pub open spec fn key_bound<B: Backend>(
    engine: B,
    key: u64,
    two: bool,
    obj: Result<u64, Fault>,
    bound: Result<u64, Fault>,
    freed: Result<(), Fault>,
    out: Result<u64, Fault>,
) -> bool {
    &&& call_ensures(B::bqn_makeF64, (&engine, key), obj)
    &&& match obj {
        Err(f) => out == Err::<u64, Fault>(f),
        Ok(o) => {
            &&& if two {
                call_ensures(B::bqn_makeBoundFn2, (&engine, o), bound)
            } else {
                call_ensures(B::bqn_makeBoundFn1, (&engine, o), bound)
            }
            &&& call_ensures(B::bqn_free, (&engine, o), freed)
            &&& out == settled(bound, freed)
        },
    }
}

/// Making a value of a registered function: the interpreter is started if
/// need be, and the function's key is bound.
pub open spec fn function_made<B: Backend>(
    rt: &Runtime<B>,
    key: u64,
    two: bool,
    began: Result<(), Fault>,
    obj: Result<u64, Fault>,
    bound: Result<u64, Fault>,
    freed: Result<(), Fault>,
    made: Result<u64, Fault>,
    out: Result<u64, ErrorView>,
) -> bool {
    value_made(rt, began, key_bound(rt.engine(), key, two, obj, bound, freed, made), made, out)
}

impl<'r, B: Backend> BQNValue<'r, B> {
    /// Binds the key of a registered function to the backend's entry point.
    /// A function that was made is released again if the number cannot be.
    fn bind_key(backend: &B, key: u64, two: bool) -> (r: (
        Result<u64, Fault>,
        Ghost<(Result<u64, Fault>, Result<u64, Fault>, Result<(), Fault>)>,
    ))
        ensures
            key_bound(*backend, key, two, r.1@.0, r.1@.1, r.1@.2, r.0),
    {
        let obj = backend.bqn_makeF64(key);
        let ghost obj_seen = obj;
        match obj {
            Err(f) => (Err(f), Ghost((obj_seen, Ok(0), Ok(())))),
            Ok(o) => {
                let bound = if two {
                    backend.bqn_makeBoundFn2(o)
                } else {
                    backend.bqn_makeBoundFn1(o)
                };
                let freed = backend.bqn_free(o);
                let ghost bound_seen = bound;
                let ghost freed_seen = freed;
                match &freed {
                    Err(_) => match &bound {
                        Ok(b) => {
                            let _ = backend.bqn_free(*b);
                        },
                        Err(_) => {},
                    },
                    Ok(()) => {},
                }
                (settle(bound, freed), Ghost((obj_seen, bound_seen, freed_seen)))
            },
        }
    }

    /// Makes the value of the function registered under a key.
    fn bind(rt: &'r Runtime<B>, key: u64, two: bool) -> (r: Result<Self, Error>)
        ensures
            r matches Ok(v) ==> v.home() == rt,
            exists|
                began: Result<(), Fault>,
                obj: Result<u64, Fault>,
                bound: Result<u64, Fault>,
                freed: Result<(), Fault>,
                made: Result<u64, Fault>,
            |
                function_made(rt, key, two, began, obj, bound, freed, made, value_outcome(r)),
    {
        let held = rt.lock();
        let backend = rt.backend(&held);
        let began = rt.start_raw();
        match began {
            Err(f) => {
                let r: Result<Self, Error> = Err(Error::from_fault(f));
                assert(function_made(rt, key, two, began, Ok(0), Ok(0), Ok(()), Ok(0), value_outcome(r)));
                r
            },
            Ok(()) => {
                let (made, Ghost(steps)) = BQNValue::bind_key(backend, key, two);
                let ghost shown = made;
                let r: Result<Self, Error> = match lift(made) {
                    Ok(value) => Ok(BQNValue::new(rt, value)),
                    Err(e) => Err(e),
                };
                assert(function_made(
                    rt,
                    key,
                    two,
                    began,
                    steps.0,
                    steps.1,
                    steps.2,
                    shown,
                    value_outcome(r),
                ));
                r
            },
        }
    }

    /// Generates a BQNValue from a Rust function.
    ///
    /// The function receives one argument. It is registered in `fns` under
    /// `identity`; the value refers to it by its key, which the entry point
    /// of the backend finds in the bound object as a number with the key as
    /// its bits.
    ///
    /// The function stays registered whether the value can be made or not.
    ///
    /// Fails only if the backend does; one that cannot be called back fails
    /// with `NotSupported`.
    pub fn fn1<F1, F2>(
        rt: &'r Runtime<B>,
        fns: &mut BoundFns<F1, F2>,
        identity: usize,
        func: F1,
    ) -> (r: Result<Self, Error>)
        requires
            old(fns).wf(),
        ensures
            final(fns).wf(),
            final(fns).functions_1() == if old(fns).identities_1().contains(identity) {
                old(fns).functions_1()
            } else {
                old(fns).functions_1().push(func)
            },
            final(fns).identities_2() == old(fns).identities_2(),
            final(fns).functions_2() == old(fns).functions_2(),
            r matches Ok(v) ==> v.home() == rt,
            exists|
                key: u64,
                began: Result<(), Fault>,
                obj: Result<u64, Fault>,
                bound: Result<u64, Fault>,
                freed: Result<(), Fault>,
                made: Result<u64, Fault>,
            |
                registered(old(fns).identities_1(), final(fns).identities_1(), identity, key)
                    && #[trigger] function_made(
                    rt,
                    key,
                    false,
                    began,
                    obj,
                    bound,
                    freed,
                    made,
                    value_outcome(r),
                ),
    {
        let key: u64 = fns.register_1(identity, func);
        BQNValue::bind(rt, key, false)
    }

    /// Generates a BQNValue from a Rust function.
    ///
    /// The function receives two arguments. It is registered in `fns` under
    /// `identity`; the value refers to it by its key, which the entry point
    /// of the backend finds in the bound object as a number with the key as
    /// its bits.
    ///
    /// The function stays registered whether the value can be made or not.
    ///
    /// Fails only if the backend does; one that cannot be called back fails
    /// with `NotSupported`.
    pub fn fn2<F1, F2>(
        rt: &'r Runtime<B>,
        fns: &mut BoundFns<F1, F2>,
        identity: usize,
        func: F2,
    ) -> (r: Result<Self, Error>)
        requires
            old(fns).wf(),
        ensures
            final(fns).wf(),
            final(fns).functions_2() == if old(fns).identities_2().contains(identity) {
                old(fns).functions_2()
            } else {
                old(fns).functions_2().push(func)
            },
            final(fns).identities_1() == old(fns).identities_1(),
            final(fns).functions_1() == old(fns).functions_1(),
            r matches Ok(v) ==> v.home() == rt,
            exists|
                key: u64,
                began: Result<(), Fault>,
                obj: Result<u64, Fault>,
                bound: Result<u64, Fault>,
                freed: Result<(), Fault>,
                made: Result<u64, Fault>,
            |
                registered(old(fns).identities_2(), final(fns).identities_2(), identity, key)
                    && #[trigger] function_made(
                    rt,
                    key,
                    true,
                    began,
                    obj,
                    bound,
                    freed,
                    made,
                    value_outcome(r),
                ),
    {
        let key: u64 = fns.register_2(identity, func);
        BQNValue::bind(rt, key, true)
    }
}

/// Reads the key that a bound function carries in its bound object, and
/// releases the object.
///
/// This is the first thing that the entry point of a backend does when the
/// interpreter calls a host function. The key is the bits of the number in
/// the bound object; an object that is no number is an `InvalidType` error.
pub fn bound_key<'r, B: Backend>(rt: &'r Runtime<B>, obj: u64) -> (r: Result<u64, Error>)
    ensures
        exists|
            v: BQNValue<'r, B>,
            tag: Result<i32, Fault>,
            bits: Result<u64, Fault>,
            freed: Result<(), Fault>,
        |
            v@ == obj && v.home() == rt && #[trigger] v.number_taken(tag, bits, freed, outcome(r)),
{
    BQNValue::new(rt, obj).take_number()
}

/// Running a host function for the interpreter: the function is run on a
/// wrapper of the argument, the argument is released, and the handle of the
/// function's result is handed back.
pub open spec fn invoked_1<'r, B: Backend, F: Fn(&BQNValue<'r, B>) -> BQNValue<'r, B>>(
    func: &F,
    x: BQNValue<'r, B>,
    ret: BQNValue<'r, B>,
    freed: Result<(), Fault>,
    out: Result<u64, ErrorView>,
) -> bool {
    &&& call_ensures(*func, (&x,), ret)
    &&& call_ensures(B::bqn_free, (&x.engine(), x@), freed)
    &&& out == match freed {
        Ok(()) => Ok(ret@),
        Err(f) => Err(crate::error::reported(f@)),
    }
}

/// Runs a host function of one argument on a value that the interpreter
/// handed over, and hands the result back.
///
/// The argument comes with a reference that is given up once the function
/// has returned. The result goes to the interpreter together with the
/// reference that the function returned. Fails only if the argument cannot
/// be released; the result is released in that case.
pub fn invoke_1<'r, B: Backend, F: Fn(&BQNValue<'r, B>) -> BQNValue<'r, B>>(
    rt: &'r Runtime<B>,
    func: &F,
    x: u64,
) -> (r: Result<u64, Error>)
    requires
        forall|v: &BQNValue<'r, B>| call_requires(*func, (v,)),
    ensures
        exists|v: BQNValue<'r, B>, ret: BQNValue<'r, B>, freed: Result<(), Fault>|
            v@ == x && v.home() == rt && #[trigger] invoked_1(func, v, ret, freed, outcome(r)),
{
    let v = BQNValue::new(rt, x);
    let ret = func(&v);
    let released = v.release();
    let ghost freed = choose|freed: Result<(), Fault>| v.released(freed, outcome(released));
    match released {
        Ok(()) => {
            let r: Result<u64, Error> = Ok(ret.into_raw());
            assert(invoked_1(func, v, ret, freed, outcome(r)));
            r
        },
        Err(e) => {
            let r: Result<u64, Error> = Err(e);
            assert(invoked_1(func, v, ret, freed, outcome(r)));
            let _ = ret.release();
            r
        },
    }
}

/// Running a host function of two arguments for the interpreter: the
/// function is run on wrappers of the arguments, the arguments are
/// released, and the handle of the function's result is handed back.
pub open spec fn invoked_2<
    'r,
    B: Backend,
    F: Fn(&BQNValue<'r, B>, &BQNValue<'r, B>) -> BQNValue<'r, B>,
>(
    func: &F,
    w: BQNValue<'r, B>,
    x: BQNValue<'r, B>,
    ret: BQNValue<'r, B>,
    freed_w: Result<(), Fault>,
    freed_x: Result<(), Fault>,
    out: Result<u64, ErrorView>,
) -> bool {
    &&& call_ensures(*func, (&w, &x), ret)
    &&& call_ensures(B::bqn_free, (&w.engine(), w@), freed_w)
    &&& call_ensures(B::bqn_free, (&x.engine(), x@), freed_x)
    &&& out == match settled(freed_w, freed_x) {
        Ok(()) => Ok(ret@),
        Err(f) => Err(crate::error::reported(f@)),
    }
}

/// Runs a host function of two arguments on values that the interpreter
/// handed over, and hands the result back.
///
/// Each argument comes with a reference that is given up once the function
/// has returned. The result goes to the interpreter together with the
/// reference that the function returned. Fails only if an argument cannot
/// be released; the result is released in that case.
pub fn invoke_2<
    'r,
    B: Backend,
    F: Fn(&BQNValue<'r, B>, &BQNValue<'r, B>) -> BQNValue<'r, B>,
>(rt: &'r Runtime<B>, func: &F, w: u64, x: u64) -> (r: Result<u64, Error>)
    requires
        forall|u: &BQNValue<'r, B>, v: &BQNValue<'r, B>| call_requires(*func, (u, v)),
    ensures
        exists|
            u: BQNValue<'r, B>,
            v: BQNValue<'r, B>,
            ret: BQNValue<'r, B>,
            freed_w: Result<(), Fault>,
            freed_x: Result<(), Fault>,
        |
            u@ == w && v@ == x && u.home() == rt && v.home() == rt && #[trigger] invoked_2(
                func,
                u,
                v,
                ret,
                freed_w,
                freed_x,
                outcome(r),
            ),
{
    let u = BQNValue::new(rt, w);
    let v = BQNValue::new(rt, x);
    let ret = func(&u, &v);
    let freed_w = u.release_raw();
    let freed_x = v.release_raw();
    let ghost seen_w = freed_w;
    let ghost seen_x = freed_x;
    match settle(freed_w, freed_x) {
        Ok(()) => {
            let r: Result<u64, Error> = Ok(ret.into_raw());
            assert(invoked_2(func, u, v, ret, seen_w, seen_x, outcome(r)));
            r
        },
        Err(f) => {
            let r: Result<u64, Error> = Err(Error::from_fault(f));
            assert(invoked_2(func, u, v, ret, seen_w, seen_x, outcome(r)));
            let _ = ret.release();
            r
        },
    }
}

} // verus!
