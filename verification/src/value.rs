//! The owned handle on a value of the interpreter.
//!
//! Every operation on a value is a short exchange with the backend. What is
//! asked, in which order and with which arguments, and what the operation
//! makes of the answers is stated by the spec function that stands before
//! the operation; the operation promises that its result comes of such an
//! exchange.

use vstd::prelude::*;
use crate::backend::Backend;
use crate::bqntype::BQNType;
use crate::decide::{
    call_outcome, char_outcome, check_callable, check_type, checked, classify, guarded, settle,
    settled, type_outcome,
};
use crate::error::{lift, lifted, outcome, Error, ErrorView, Fault};
use crate::runtime::Runtime;
use crate::text::char_from_codepoint;

verus! {

/// Represents a BQN value.
///
/// A `BQNValue` owns one reference to a value of the interpreter. The
/// reference is given up by [`BQNValue::release`], which consumes the
/// wrapper, so that it is given up once. [`BQNValue::clone`] takes a
/// reference of its own from the interpreter: the two wrappers are released
/// independently of each other.
///
/// A value lives in the runtime that made it. Every operation takes the
/// runtime's lock while it calls the backend.
#[verifier::reject_recursive_types(B)]
pub struct BQNValue<'r, B: Backend> {
    value: u64,
    rt: &'r Runtime<B>,
}

impl<'r, B: Backend> View for BQNValue<'r, B> {
    type V = u64;

    /// The handle that the wrapper owns.
    closed spec fn view(&self) -> u64 {
        self.value
    }
}

/// The handles of a list of values, in order.
pub open spec fn handles<'r, B: Backend>(values: Seq<BQNValue<'r, B>>) -> Seq<u64> {
    Seq::new(values.len(), |i: int| values[i]@)
}

/// Whether every value of a list lives in the given runtime.
pub open spec fn all_at_home<'r, B: Backend>(
    values: Seq<BQNValue<'r, B>>,
    rt: &'r Runtime<B>,
) -> bool {
    forall|i: int| 0 <= i < values.len() ==> (#[trigger] values[i]).home() == rt
}

/// The view of a result that holds a value.
pub open spec fn value_outcome<'r, B: Backend>(r: Result<BQNValue<'r, B>, Error>) -> Result<
    u64,
    ErrorView,
> {
    match r {
        Ok(v) => Ok(v@),
        Err(e) => Err(e@),
    }
}

/// The view of a result that holds a value or none.
pub open spec fn option_outcome<'r, B: Backend>(
    r: Result<Option<BQNValue<'r, B>>, Error>,
) -> Result<Option<u64>, ErrorView> {
    match r {
        Ok(Some(v)) => Ok(Some(v@)),
        Ok(None) => Ok(None),
        Err(e) => Err(e@),
    }
}

/// The view of a result that holds a list of values.
pub open spec fn values_outcome<'r, B: Backend>(r: Result<Vec<BQNValue<'r, B>>, Error>) -> Result<
    Seq<u64>,
    ErrorView,
> {
    match r {
        Ok(v) => Ok(handles(v@)),
        Err(e) => Err(e@),
    }
}

/// The view of a result that holds a list of plain values.
pub open spec fn vec_outcome<T>(r: Result<Vec<T>, Error>) -> Result<Seq<T>, ErrorView> {
    match r {
        Ok(v) => Ok(v@),
        Err(e) => Err(e@),
    }
}

/// The view of a result that holds a string.
pub open spec fn string_outcome(r: Result<String, Error>) -> Result<Seq<char>, ErrorView> {
    match r {
        Ok(s) => Ok(s@),
        Err(e) => Err(e@),
    }
}

impl<'r, B: Backend> BQNValue<'r, B> {
    /// The runtime that the value lives in.
    pub closed spec fn home(&self) -> &'r Runtime<B> {
        self.rt
    }

    /// The backend of the runtime that the value lives in.
    pub open spec fn engine(&self) -> B {
        self.home().engine()
    }

    /// Takes ownership of a handle.
    ///
    /// The handle must carry a reference that nothing else gives up: it was
    /// returned by the backend of `rt` and has not been handed to another
    /// wrapper.
    pub fn new(rt: &'r Runtime<B>, value: u64) -> (v: Self)
        ensures
            v@ == value,
            v.home() == rt,
    {
        BQNValue { value, rt }
    }

    /// The handle, for a call of the backend. The wrapper keeps its
    /// reference.
    pub fn handle(&self) -> (h: u64)
        ensures
            h == self@,
    {
        self.value
    }

    /// The runtime that the value lives in.
    pub fn runtime(&self) -> (rt: &'r Runtime<B>)
        ensures
            rt == self.home(),
    {
        self.rt
    }

    /// Gives the handle to the caller, together with the reference that the
    /// wrapper owned.
    pub fn into_raw(self) -> (h: u64)
        ensures
            h == self@,
    {
        self.value
    }

    /// Releasing the value: the backend is asked to give up one reference
    /// to it, and its answer is handed on.
    pub open spec fn released(&self, freed: Result<(), Fault>, out: Result<(), ErrorView>) -> bool {
        &&& call_ensures(B::bqn_free, (&self.engine(), self@), freed)
        &&& out == lifted(freed)
    }

    /// Gives up the wrapper's reference to the value, and reports a failure
    /// as the backend gave it.
    pub(crate) fn release_raw(self) -> (r: Result<(), Fault>)
        ensures
            call_ensures(B::bqn_free, (&self.engine(), self@), r),
    {
        let held = self.rt.lock();
        let backend = self.rt.backend(&held);
        backend.bqn_free(self.value)
    }

    /// Gives up the wrapper's reference to the value.
    ///
    /// Fails only if the backend does.
    pub fn release(self) -> (r: Result<(), Error>)
        ensures
            exists|freed: Result<(), Fault>| self.released(freed, outcome(r)),
    {
        let held = self.rt.lock();
        let backend = self.rt.backend(&held);
        let freed = backend.bqn_free(self.value);
        let ghost seen = freed;
        let r = lift(freed);
        assert(self.released(seen, outcome(r)));
        r
    }

    /// Cloning the value: the backend is asked for another reference to
    /// it, and the handle it returns is wrapped.
    pub open spec fn copied(&self, copy: Result<u64, Fault>, out: Result<u64, ErrorView>) -> bool {
        &&& call_ensures(B::bqn_copy, (&self.engine(), self@), copy)
        &&& out == lifted(copy)
    }

    /// Takes another reference to the value from the interpreter. The new
    /// wrapper is released on its own.
    ///
    /// Fails only if the backend does.
    pub fn clone(&self) -> (r: Result<Self, Error>)
        ensures
            r matches Ok(v) ==> v.home() == self.home(),
            exists|copy: Result<u64, Fault>| self.copied(copy, value_outcome(r)),
    {
        let held = self.rt.lock();
        let backend = self.rt.backend(&held);
        let copied = backend.bqn_copy(self.value);
        let ghost seen = copied;
        let r: Result<Self, Error> = match lift(copied) {
            Ok(copy) => Ok(BQNValue { value: copy, rt: self.rt }),
            Err(e) => Err(e),
        };
        assert(self.copied(seen, value_outcome(r)));
        r
    }

    /// `tag` is an answer of the backend to the question for the type of
    /// the value.
    pub open spec fn type_asked(&self, tag: Result<i32, Fault>) -> bool {
        call_ensures(B::bqn_type, (&self.engine(), self@), tag)
    }

    /// Asking for the type of the value: the answer to the type query is
    /// classified.
    pub open spec fn type_read(&self, tag: Result<i32, Fault>, out: Result<BQNType, ErrorView>) -> bool {
        &&& self.type_asked(tag)
        &&& out == type_outcome(tag)
    }

    /// Returns the BQN type of the BQNValue.
    ///
    /// The result is the type that the interpreter's answer to the type
    /// query names. An answer that names no type is an `InvalidType` error.
    pub fn bqn_type(&self) -> (r: Result<BQNType, Error>)
        ensures
            exists|tag: Result<i32, Fault>| self.type_read(tag, outcome(r)),
    {
        let held = self.rt.lock();
        let backend = self.rt.backend(&held);
        let tag = backend.bqn_type(self.value);
        let ghost seen = tag;
        let r = match tag {
            Ok(t) => classify(t),
            Err(f) => Err(Error::from_fault(f)),
        };
        assert(self.type_read(seen, outcome(r)));
        r
    }

    /// Calling the value with one argument: the type is asked for, and
    /// only a function or a modifier is called, with `x`.
    pub open spec fn called1(
        &self,
        x: u64,
        tag: Result<i32, Fault>,
        result: Result<u64, Fault>,
        out: Result<u64, ErrorView>,
    ) -> bool {
        &&& self.type_asked(tag)
        &&& call_outcome(tag, Ok(0)) is Ok ==> call_ensures(
            B::bqn_call1,
            (&self.engine(), self@, x),
            result,
        )
        &&& out == call_outcome(tag, result)
    }

    /// Calls `BQNValue` as a function with one argument.
    ///
    /// Fails with `InvalidType` on a value that is neither a function nor a
    /// modifier; the interpreter is not asked to call it. What a call gives
    /// is for the interpreter to say.
    pub fn call1(&self, x: &BQNValue<'r, B>) -> (r: Result<Self, Error>)
        ensures
            r matches Ok(v) ==> v.home() == self.home(),
            exists|tag: Result<i32, Fault>, result: Result<u64, Fault>|
                self.called1(x@, tag, result, value_outcome(r)),
    {
        let held = self.rt.lock();
        let backend = self.rt.backend(&held);
        let tag = backend.bqn_type(self.value);
        let ghost tag_seen = tag;
        match check_callable(tag) {
            Err(e) => {
                assert(self.called1(x@, tag_seen, Ok(0), value_outcome::<B>(Err(e))));
                Err(e)
            },
            Ok(()) => {
                let called = backend.bqn_call1(self.value, x.value);
                let ghost seen = called;
                let r: Result<Self, Error> = match lift(called) {
                    Ok(value) => Ok(BQNValue { value, rt: self.rt }),
                    Err(e) => Err(e),
                };
                assert(self.called1(x@, tag_seen, seen, value_outcome(r)));
                r
            },
        }
    }

    /// Calling the value with two arguments: the type is asked for, and
    /// only a function or a modifier is called, with `w` and `x`.
    pub open spec fn called2(
        &self,
        w: u64,
        x: u64,
        tag: Result<i32, Fault>,
        result: Result<u64, Fault>,
        out: Result<u64, ErrorView>,
    ) -> bool {
        &&& self.type_asked(tag)
        &&& call_outcome(tag, Ok(0)) is Ok ==> call_ensures(
            B::bqn_call2,
            (&self.engine(), self@, w, x),
            result,
        )
        &&& out == call_outcome(tag, result)
    }

    /// Calls `BQNValue` as a function with two arguments.
    ///
    /// Fails with `InvalidType` on a value that is neither a function nor a
    /// modifier; the interpreter is not asked to call it. What a call gives
    /// is for the interpreter to say.
    pub fn call2(&self, w: &BQNValue<'r, B>, x: &BQNValue<'r, B>) -> (r: Result<Self, Error>)
        ensures
            r matches Ok(v) ==> v.home() == self.home(),
            exists|tag: Result<i32, Fault>, result: Result<u64, Fault>|
                self.called2(w@, x@, tag, result, value_outcome(r)),
    {
        let held = self.rt.lock();
        let backend = self.rt.backend(&held);
        let tag = backend.bqn_type(self.value);
        let ghost tag_seen = tag;
        match check_callable(tag) {
            Err(e) => {
                assert(self.called2(w@, x@, tag_seen, Ok(0), value_outcome::<B>(Err(e))));
                Err(e)
            },
            Ok(()) => {
                let called = backend.bqn_call2(self.value, w.value, x.value);
                let ghost seen = called;
                let r: Result<Self, Error> = match lift(called) {
                    Ok(value) => Ok(BQNValue { value, rt: self.rt }),
                    Err(e) => Err(e),
                };
                assert(self.called2(w@, x@, tag_seen, seen, value_outcome(r)));
                r
            },
        }
    }

    /// Reading a number: the type is asked for, and only a number is read.
    pub open spec fn number_read(
        &self,
        tag: Result<i32, Fault>,
        bits: Result<u64, Fault>,
        out: Result<u64, ErrorView>,
    ) -> bool {
        &&& self.type_asked(tag)
        &&& checked(tag, BQNType::Number, "value isn't a number"@) is Ok ==> call_ensures(
            B::bqn_readF64,
            (&self.engine(), self@),
            bits,
        )
        &&& out == guarded(tag, BQNType::Number, "value isn't a number"@, lifted(bits))
    }

    /// Converts `BQNValue` into the bits of a double.
    ///
    /// On a number the result is what the interpreter reads from it. On any
    /// other value the function fails with `InvalidType`, and the
    /// interpreter is not asked to read.
    pub fn to_f64_bits(&self) -> (r: Result<u64, Error>)
        ensures
            exists|tag: Result<i32, Fault>, bits: Result<u64, Fault>|
                self.number_read(tag, bits, outcome(r)),
    {
        let held = self.rt.lock();
        let backend = self.rt.backend(&held);
        let tag = backend.bqn_type(self.value);
        let ghost tag_seen = tag;
        match check_type(tag, BQNType::Number, "value isn't a number") {
            Err(e) => {
                assert(self.number_read(tag_seen, Ok(0), outcome::<u64>(Err(e))));
                Err(e)
            },
            Ok(()) => {
                let bits = backend.bqn_readF64(self.value);
                let ghost bits_seen = bits;
                let r = lift(bits);
                assert(self.number_read(tag_seen, bits_seen, outcome(r)));
                r
            },
        }
    }

    /// Reading a number out of a value that is given up: the number is
    /// read, and the value is released.
    pub open spec fn number_taken(
        &self,
        tag: Result<i32, Fault>,
        bits: Result<u64, Fault>,
        freed: Result<(), Fault>,
        out: Result<u64, ErrorView>,
    ) -> bool {
        exists|read: Result<u64, ErrorView>, released: Result<(), ErrorView>|
            #![trigger settled(read, released)]
            self.number_read(tag, bits, read) && self.released(freed, released) && out == settled(
                read,
                released,
            )
    }

    /// Converts `BQNValue` into the bits of a double and gives the value
    /// up.
    pub fn take_number(self) -> (r: Result<u64, Error>)
        ensures
            exists|tag: Result<i32, Fault>, bits: Result<u64, Fault>, freed: Result<(), Fault>|
                self.number_taken(tag, bits, freed, outcome(r)),
    {
        let read = self.to_f64_bits();
        let ghost (tag, bits) = choose|tag: Result<i32, Fault>, bits: Result<u64, Fault>|
            self.number_read(tag, bits, outcome(read));
        let ghost was_read = outcome(read);
        let released = self.release();
        let ghost freed = choose|freed: Result<(), Fault>| self.released(freed, outcome(released));
        let ghost was_released = outcome(released);
        let r = settle(read, released);
        assert(outcome(r) == settled(was_read, was_released));
        assert(self.number_taken(tag, bits, freed, outcome(r)));
        r
    }

    /// Reading a code point: the type is asked for, and only a character
    /// is read.
    pub open spec fn codepoint_read(
        &self,
        tag: Result<i32, Fault>,
        code: Result<u32, Fault>,
        out: Result<u32, ErrorView>,
    ) -> bool {
        &&& self.type_asked(tag)
        &&& checked(tag, BQNType::Character, "value isn't a character"@) is Ok ==> call_ensures(
            B::bqn_readChar,
            (&self.engine(), self@),
            code,
        )
        &&& out == guarded(tag, BQNType::Character, "value isn't a character"@, lifted(code))
    }

    /// Converts `BQNValue` into `u32`.
    ///
    /// BQN characters can contain values that aren't Unicode scalar values.
    /// Those characters can be converted into a `u32` using this function.
    /// On a value that is no character the function fails with
    /// `InvalidType`, and the interpreter is not asked to read.
    pub fn to_u32(&self) -> (r: Result<u32, Error>)
        ensures
            exists|tag: Result<i32, Fault>, code: Result<u32, Fault>|
                self.codepoint_read(tag, code, outcome(r)),
    {
        let held = self.rt.lock();
        let backend = self.rt.backend(&held);
        let tag = backend.bqn_type(self.value);
        let ghost tag_seen = tag;
        match check_type(tag, BQNType::Character, "value isn't a character") {
            Err(e) => {
                assert(self.codepoint_read(tag_seen, Ok(0), outcome::<u32>(Err(e))));
                Err(e)
            },
            Ok(()) => {
                let code = backend.bqn_readChar(self.value);
                let ghost code_seen = code;
                let r = lift(code);
                assert(self.codepoint_read(tag_seen, code_seen, outcome(r)));
                r
            },
        }
    }

    /// Reading a character: as [`BQNValue::codepoint_read`], with the code
    /// point turned into a `char` if it is a scalar value.
    pub open spec fn char_read(
        &self,
        tag: Result<i32, Fault>,
        code: Result<u32, Fault>,
        out: Result<Option<char>, ErrorView>,
    ) -> bool {
        &&& self.type_asked(tag)
        &&& checked(tag, BQNType::Character, "value isn't a character"@) is Ok ==> call_ensures(
            B::bqn_readChar,
            (&self.engine(), self@),
            code,
        )
        &&& out == guarded(tag, BQNType::Character, "value isn't a character"@, char_outcome(code))
    }

    /// Converts `BQNValue` into `char`.
    ///
    /// Returns `None` if the value is not an Unicode scalar value. Rust
    /// `char`s cannot represent characters that are not Unicode scalar
    /// values. On a value that is no character the function fails with
    /// `InvalidType`, and the interpreter is not asked to read.
    pub fn to_char(&self) -> (r: Result<Option<char>, Error>)
        ensures
            exists|tag: Result<i32, Fault>, code: Result<u32, Fault>|
                self.char_read(tag, code, outcome(r)),
    {
        let code = self.to_u32();
        let ghost (tag, seen) = choose|tag: Result<i32, Fault>, seen: Result<u32, Fault>|
            self.codepoint_read(tag, seen, outcome(code));
        let r: Result<Option<char>, Error> = match code {
            Ok(c) => Ok(char_from_codepoint(c)),
            Err(e) => Err(e),
        };
        assert(self.char_read(tag, seen, outcome(r)));
        r
    }
}

} // verus!
