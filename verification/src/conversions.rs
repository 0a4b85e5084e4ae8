//! Values of the interpreter made from values of the host.
//!
//! Every constructor takes the lock, starts the interpreter if need be, and
//! asks the backend to make the value.

use vstd::prelude::*;
use crate::backend::Backend;
use crate::error::{lift, lifted, Error, ErrorView, Fault};
use crate::runtime::Runtime;
use crate::text::codepoint;
use crate::value::{handles, value_outcome, BQNValue};

verus! {

/// What comes of a step that is taken once the interpreter has been
/// started: the failure to start, or else what the step gave.
pub open spec fn once_started<T>(began: Result<(), Fault>, then: Result<T, Fault>) -> Result<
    T,
    Fault,
> {
    match began {
        Err(f) => Err(f),
        Ok(()) => then,
    }
}

/// Making a value: the interpreter is started if need be, and then the
/// backend is asked to make the value. `asked` says that `made` is the
/// backend's answer to that request.
pub open spec fn value_made<B: Backend>(
    rt: &Runtime<B>,
    began: Result<(), Fault>,
    asked: bool,
    made: Result<u64, Fault>,
    out: Result<u64, ErrorView>,
) -> bool {
    &&& rt.started(began)
    &&& began is Ok ==> asked
    &&& out == lifted(once_started(began, made))
}

/// The handles of the strings that were made of the first `n` texts of a
/// list, or the first failure to make one. `made[i]` is the backend's
/// answer to the request to make a string of text `i`.
pub open spec fn strings_outcome(made: Seq<Result<u64, Fault>>, n: nat) -> Result<Seq<u64>, Fault>
    decreases n,
{
    if n == 0 {
        Ok(Seq::empty())
    } else {
        match strings_outcome(made, (n - 1) as nat) {
            Err(f) => Err(f),
            Ok(strs) => match made[n - 1] {
                Err(f) => Err(f),
                Ok(s) => Ok(strs.push(s)),
            },
        }
    }
}

/// Making a list of strings: a string is made of every text in turn, up
/// to the first that cannot be made, and a list of all the strings.
pub open spec fn strings_listed<B: Backend>(
    engine: B,
    arr: &[&str],
    made: Seq<Result<u64, Fault>>,
    list: Result<u64, Fault>,
    out: Result<u64, Fault>,
) -> bool {
    &&& forall|i: int|
        #![trigger made[i]]
        0 <= i < arr@.len() && strings_outcome(made, i as nat) is Ok ==> call_ensures(
            B::bqn_makeUTF8Str,
            (&engine, arr@[i]),
            made[i],
        )
    &&& strings_outcome(made, arr@.len()) matches Ok(strs) ==> exists|elems: &[u64]|
        #![trigger call_ensures(B::bqn_makeObjVec, (&engine, elems), list)]
        elems@ == strs && call_ensures(B::bqn_makeObjVec, (&engine, elems), list)
    &&& out == match strings_outcome(made, arr@.len()) {
        Err(f) => Err(f),
        Ok(_) => list,
    }
}

/// Strings past the first `n` play no part in the making of the first `n`.
pub proof fn lemma_strings_ignore_rest(
    a: Seq<Result<u64, Fault>>,
    b: Seq<Result<u64, Fault>>,
    n: nat,
)
    requires
        forall|i: int| 0 <= i < n ==> a[i] == b[i],
    ensures
        strings_outcome(a, n) == strings_outcome(b, n),
    decreases n,
{
    if n > 0 {
        lemma_strings_ignore_rest(a, b, (n - 1) as nat);
    }
}

/// Once a string could not be made, making more changes nothing.
pub proof fn lemma_strings_stop_at_failure(made: Seq<Result<u64, Fault>>, n: nat, m: nat)
    requires
        n <= m,
        strings_outcome(made, n) is Err,
    ensures
        strings_outcome(made, m) == strings_outcome(made, n),
    decreases m,
{
    if n < m {
        lemma_strings_stop_at_failure(made, n, (m - 1) as nat);
    }
}

/// Takes the handles out of their wrappers, each with its reference.
pub fn into_handles<'r, B: Backend>(values: Vec<BQNValue<'r, B>>) -> (out: Vec<u64>)
    ensures
        out@ == handles(values@),
{
    let ghost all = values@;
    let mut out: Vec<u64> = Vec::with_capacity(values.len());
    for v in it: values
        invariant
            it.seq() == all,
            out@ == handles(all.take(it.index() as int)),
    {
        out.push(v.into_raw());
        assert(out@ =~= handles(all.take(it.index() + 1)));
    }
    assert(all.take(all.len() as int) =~= all);
    out
}

impl<'r, B: Backend> BQNValue<'r, B> {
    /// Wraps the handle that the backend made, if it made one.
    fn wrap(rt: &'r Runtime<B>, made: Result<u64, Fault>) -> (r: Result<Self, Error>)
        ensures
            r matches Ok(v) ==> v.home() == rt,
            value_outcome(r) == lifted(made),
    {
        match lift(made) {
            Ok(value) => Ok(BQNValue::new(rt, value)),
            Err(e) => Err(e),
        }
    }

    /// Constructs a BQN null value `@`: the character with the code point
    /// zero.
    ///
    /// Starts the interpreter if need be. Fails only if the backend does.
    pub fn null(rt: &'r Runtime<B>) -> (r: Result<Self, Error>)
        ensures
            r matches Ok(v) ==> v.home() == rt,
            exists|began: Result<(), Fault>, made: Result<u64, Fault>|
                value_made(
                    rt,
                    began,
                    call_ensures(B::bqn_makeChar, (&rt.engine(), 0u32), made),
                    made,
                    value_outcome(r),
                ),
    {
        let held = rt.lock();
        let backend = rt.backend(&held);
        let began = rt.start_raw();
        let ghost mut asked: Result<u64, Fault> = Ok(0);
        let made = match began {
            Err(f) => Err(f),
            Ok(()) => {
                let made = backend.bqn_makeChar(0);
                proof {
                    asked = made;
                }
                made
            },
        };
        let r = BQNValue::wrap(rt, made);
        assert(value_made(
            rt,
            began,
            call_ensures(B::bqn_makeChar, (&rt.engine(), 0u32), asked),
            asked,
            value_outcome(r),
        ));
        r
    }

    /// A number, from the bits of a double.
    ///
    /// Starts the interpreter if need be. Fails only if the backend does.
    pub fn from_f64_bits(rt: &'r Runtime<B>, bits: u64) -> (r: Result<Self, Error>)
        ensures
            r matches Ok(v) ==> v.home() == rt,
            exists|began: Result<(), Fault>, made: Result<u64, Fault>|
                value_made(
                    rt,
                    began,
                    call_ensures(B::bqn_makeF64, (&rt.engine(), bits), made),
                    made,
                    value_outcome(r),
                ),
    {
        let held = rt.lock();
        let backend = rt.backend(&held);
        let began = rt.start_raw();
        let ghost mut asked: Result<u64, Fault> = Ok(0);
        let made = match began {
            Err(f) => Err(f),
            Ok(()) => {
                let made = backend.bqn_makeF64(bits);
                proof {
                    asked = made;
                }
                made
            },
        };
        let r = BQNValue::wrap(rt, made);
        assert(value_made(
            rt,
            began,
            call_ensures(B::bqn_makeF64, (&rt.engine(), bits), asked),
            asked,
            value_outcome(r),
        ));
        r
    }

    /// A character.
    ///
    /// Starts the interpreter if need be. Fails only if the backend does.
    pub fn from_char(rt: &'r Runtime<B>, c: char) -> (r: Result<Self, Error>)
        ensures
            r matches Ok(v) ==> v.home() == rt,
            exists|began: Result<(), Fault>, made: Result<u64, Fault>|
                value_made(
                    rt,
                    began,
                    call_ensures(B::bqn_makeChar, (&rt.engine(), codepoint(c)), made),
                    made,
                    value_outcome(r),
                ),
    {
        let held = rt.lock();
        let backend = rt.backend(&held);
        let began = rt.start_raw();
        let ghost mut asked: Result<u64, Fault> = Ok(0);
        let made = match began {
            Err(f) => Err(f),
            Ok(()) => {
                let made = backend.bqn_makeChar(c as u32);
                proof {
                    asked = made;
                }
                made
            },
        };
        let r = BQNValue::wrap(rt, made);
        assert(value_made(
            rt,
            began,
            call_ensures(B::bqn_makeChar, (&rt.engine(), codepoint(c)), asked),
            asked,
            value_outcome(r),
        ));
        r
    }

    /// A string: a list of the characters of `s`.
    ///
    /// Starts the interpreter if need be. Fails only if the backend does.
    pub fn from_str(rt: &'r Runtime<B>, s: &str) -> (r: Result<Self, Error>)
        ensures
            r matches Ok(v) ==> v.home() == rt,
            exists|began: Result<(), Fault>, made: Result<u64, Fault>|
                value_made(
                    rt,
                    began,
                    call_ensures(B::bqn_makeUTF8Str, (&rt.engine(), s), made),
                    made,
                    value_outcome(r),
                ),
    {
        let held = rt.lock();
        let backend = rt.backend(&held);
        let began = rt.start_raw();
        let ghost mut asked: Result<u64, Fault> = Ok(0);
        let made = match began {
            Err(f) => Err(f),
            Ok(()) => {
                let made = backend.bqn_makeUTF8Str(s);
                proof {
                    asked = made;
                }
                made
            },
        };
        let r = BQNValue::wrap(rt, made);
        assert(value_made(
            rt,
            began,
            call_ensures(B::bqn_makeUTF8Str, (&rt.engine(), s), asked),
            asked,
            value_outcome(r),
        ));
        r
    }

    /// A list of numbers, from the bits of doubles.
    ///
    /// Starts the interpreter if need be. Fails only if the backend does.
    pub fn from_f64_bits_slice(rt: &'r Runtime<B>, arr: &[u64]) -> (r: Result<Self, Error>)
        ensures
            r matches Ok(v) ==> v.home() == rt,
            exists|began: Result<(), Fault>, made: Result<u64, Fault>|
                value_made(
                    rt,
                    began,
                    call_ensures(B::bqn_makeF64Vec, (&rt.engine(), arr), made),
                    made,
                    value_outcome(r),
                ),
    {
        let held = rt.lock();
        let backend = rt.backend(&held);
        let began = rt.start_raw();
        let ghost mut asked: Result<u64, Fault> = Ok(0);
        let made = match began {
            Err(f) => Err(f),
            Ok(()) => {
                let made = backend.bqn_makeF64Vec(arr);
                proof {
                    asked = made;
                }
                made
            },
        };
        let r = BQNValue::wrap(rt, made);
        assert(value_made(
            rt,
            began,
            call_ensures(B::bqn_makeF64Vec, (&rt.engine(), arr), asked),
            asked,
            value_outcome(r),
        ));
        r
    }

    /// A list of numbers, from 32-bit integers.
    ///
    /// Starts the interpreter if need be. Fails only if the backend does.
    pub fn from_i32_slice(rt: &'r Runtime<B>, arr: &[i32]) -> (r: Result<Self, Error>)
        ensures
            r matches Ok(v) ==> v.home() == rt,
            exists|began: Result<(), Fault>, made: Result<u64, Fault>|
                value_made(
                    rt,
                    began,
                    call_ensures(B::bqn_makeI32Vec, (&rt.engine(), arr), made),
                    made,
                    value_outcome(r),
                ),
    {
        let held = rt.lock();
        let backend = rt.backend(&held);
        let began = rt.start_raw();
        let ghost mut asked: Result<u64, Fault> = Ok(0);
        let made = match began {
            Err(f) => Err(f),
            Ok(()) => {
                let made = backend.bqn_makeI32Vec(arr);
                proof {
                    asked = made;
                }
                made
            },
        };
        let r = BQNValue::wrap(rt, made);
        assert(value_made(
            rt,
            began,
            call_ensures(B::bqn_makeI32Vec, (&rt.engine(), arr), asked),
            asked,
            value_outcome(r),
        ));
        r
    }

    /// A list of numbers, from 16-bit integers.
    ///
    /// Starts the interpreter if need be. Fails only if the backend does.
    pub fn from_i16_slice(rt: &'r Runtime<B>, arr: &[i16]) -> (r: Result<Self, Error>)
        ensures
            r matches Ok(v) ==> v.home() == rt,
            exists|began: Result<(), Fault>, made: Result<u64, Fault>|
                value_made(
                    rt,
                    began,
                    call_ensures(B::bqn_makeI16Vec, (&rt.engine(), arr), made),
                    made,
                    value_outcome(r),
                ),
    {
        let held = rt.lock();
        let backend = rt.backend(&held);
        let began = rt.start_raw();
        let ghost mut asked: Result<u64, Fault> = Ok(0);
        let made = match began {
            Err(f) => Err(f),
            Ok(()) => {
                let made = backend.bqn_makeI16Vec(arr);
                proof {
                    asked = made;
                }
                made
            },
        };
        let r = BQNValue::wrap(rt, made);
        assert(value_made(
            rt,
            began,
            call_ensures(B::bqn_makeI16Vec, (&rt.engine(), arr), asked),
            asked,
            value_outcome(r),
        ));
        r
    }

    /// A list of numbers, from 8-bit integers.
    ///
    /// Starts the interpreter if need be. Fails only if the backend does.
    pub fn from_i8_slice(rt: &'r Runtime<B>, arr: &[i8]) -> (r: Result<Self, Error>)
        ensures
            r matches Ok(v) ==> v.home() == rt,
            exists|began: Result<(), Fault>, made: Result<u64, Fault>|
                value_made(
                    rt,
                    began,
                    call_ensures(B::bqn_makeI8Vec, (&rt.engine(), arr), made),
                    made,
                    value_outcome(r),
                ),
    {
        let held = rt.lock();
        let backend = rt.backend(&held);
        let began = rt.start_raw();
        let ghost mut asked: Result<u64, Fault> = Ok(0);
        let made = match began {
            Err(f) => Err(f),
            Ok(()) => {
                let made = backend.bqn_makeI8Vec(arr);
                proof {
                    asked = made;
                }
                made
            },
        };
        let r = BQNValue::wrap(rt, made);
        assert(value_made(
            rt,
            began,
            call_ensures(B::bqn_makeI8Vec, (&rt.engine(), arr), asked),
            asked,
            value_outcome(r),
        ));
        r
    }

    /// A list of values. The list takes over the references that the
    /// wrappers owned, so the wrappers are consumed.
    ///
    /// Starts the interpreter if need be. Fails only if the backend does.
    pub fn from_values(rt: &'r Runtime<B>, arr: Vec<BQNValue<'r, B>>) -> (r: Result<Self, Error>)
        ensures
            r matches Ok(v) ==> v.home() == rt,
            exists|began: Result<(), Fault>, made: Result<u64, Fault>, elems: &[u64]|
                elems@ == handles(arr@) && value_made(
                    rt,
                    began,
                    call_ensures(B::bqn_makeObjVec, (&rt.engine(), elems), made),
                    made,
                    value_outcome(r),
                ),
    {
        let owned: Vec<u64> = into_handles(arr);
        let elems = owned.as_slice();
        let held = rt.lock();
        let backend = rt.backend(&held);
        let began = rt.start_raw();
        let ghost mut asked: Result<u64, Fault> = Ok(0);
        let made = match began {
            Err(f) => Err(f),
            Ok(()) => {
                let made = backend.bqn_makeObjVec(elems);
                proof {
                    asked = made;
                }
                made
            },
        };
        let r = BQNValue::wrap(rt, made);
        assert(elems@ == handles(arr@) && value_made(
            rt,
            began,
            call_ensures(B::bqn_makeObjVec, (&rt.engine(), elems), asked),
            asked,
            value_outcome(r),
        ));
        r
    }

    /// Makes one string per text and a list of them. If a string cannot be
    /// made, those made before it are released.
    fn make_strings(rt: &'r Runtime<B>, backend: &B, arr: &[&str]) -> (r: Result<u64, Fault>)
        requires
            *backend == rt.engine(),
        ensures
            exists|made: Seq<Result<u64, Fault>>, list: Result<u64, Fault>|
                strings_listed(rt.engine(), arr, made, list, r),
    {
        let mut strs: Vec<u64> = Vec::with_capacity(arr.len());
        let ghost mut seen: Seq<Result<u64, Fault>> = Seq::empty();
        let mut i: usize = 0;
        while i < arr.len()
            invariant
                i <= arr@.len(),
                seen.len() == i,
                *backend == rt.engine(),
                strings_outcome(seen, i as nat) == Ok::<Seq<u64>, Fault>(strs@),
                forall|k: int|
                    0 <= k < i ==> call_ensures(
                        B::bqn_makeUTF8Str,
                        (&rt.engine(), arr@[k]),
                        #[trigger] seen[k],
                    ),
            decreases arr@.len() - i,
        {
            let made = backend.bqn_makeUTF8Str(arr[i]);
            let ghost before = seen;
            proof {
                seen = seen.push(made);
                lemma_strings_ignore_rest(seen, before, i as nat);
            }
            match made {
                Ok(s) => {
                    strs.push(s);
                },
                Err(f) => {
                    let mut k: usize = 0;
                    while k < strs.len()
                        invariant
                            k <= strs.len(),
                        decreases strs.len() - k,
                    {
                        let _ = backend.bqn_free(strs[k]);
                        k = k + 1;
                    }
                    let r: Result<u64, Fault> = Err(f);
                    proof {
                        lemma_strings_stop_at_failure(seen, (i + 1) as nat, arr@.len());
                        assert forall|k: int|
                            0 <= k < arr@.len() && strings_outcome(
                                seen,
                                k as nat,
                            ) is Ok implies call_ensures(
                            B::bqn_makeUTF8Str,
                            (&rt.engine(), arr@[k]),
                            #[trigger] seen[k],
                        ) by {
                            if k > i {
                                lemma_strings_stop_at_failure(seen, (i + 1) as nat, k as nat);
                            }
                        }
                        assert(strings_listed(rt.engine(), arr, seen, Ok(0), r));
                    }
                    return r;
                },
            }
            i = i + 1;
        }
        let elems = strs.as_slice();
        let list = backend.bqn_makeObjVec(elems);
        assert(call_ensures(B::bqn_makeObjVec, (&rt.engine(), elems), list));
        assert(strings_listed(rt.engine(), arr, seen, list, list));
        list
    }

    /// A list of strings.
    ///
    /// Starts the interpreter if need be. Fails only if the backend does:
    /// if one of the strings cannot be made, those made before it are
    /// released and the failure is returned.
    pub fn from_strs(rt: &'r Runtime<B>, arr: &[&str]) -> (r: Result<Self, Error>)
        ensures
            r matches Ok(v) ==> v.home() == rt,
            exists|
                began: Result<(), Fault>,
                made: Seq<Result<u64, Fault>>,
                list: Result<u64, Fault>,
                listed: Result<u64, Fault>,
            |
                value_made(
                    rt,
                    began,
                    strings_listed(rt.engine(), arr, made, list, listed),
                    listed,
                    value_outcome(r),
                ),
    {
        let held = rt.lock();
        let backend = rt.backend(&held);
        let began = rt.start_raw();
        match began {
            Err(f) => {
                let r = BQNValue::wrap(rt, Err(f));
                assert(value_made(
                    rt,
                    began,
                    strings_listed(rt.engine(), arr, Seq::empty(), Ok(0), Ok(0)),
                    Ok(0),
                    value_outcome(r),
                ));
                r
            },
            Ok(()) => {
                let listed = BQNValue::make_strings(rt, backend, arr);
                let ghost shown = listed;
                let ghost (made, list) = choose|made: Seq<Result<u64, Fault>>, list: Result<u64, Fault>|
                    strings_listed(rt.engine(), arr, made, list, listed);
                let r = BQNValue::wrap(rt, listed);
                assert(value_made(
                    rt,
                    began,
                    strings_listed(rt.engine(), arr, made, list, shown),
                    shown,
                    value_outcome(r),
                ));
                r
            },
        }
    }
}

} // verus!
