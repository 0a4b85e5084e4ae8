//! Arrays: their elements, their numbers, their text, their shape.
//!
//! An array is read as numbers or as characters only if it holds nothing
//! else. Where the interpreter stores the array unboxed, the direct element
//! type settles that. Where it does not, every element is looked at before
//! the array is read.

use vstd::prelude::*;
use crate::backend::Backend;
use crate::bqntype::BQNType;
use crate::decide::{
    bounds_outcome, check_type, checked, element_complaint, element_scan_needed, element_type,
    elements_outcome, guarded, known_outcome, lemma_scan_ignores_rest,
    lemma_scan_stops_at_failure, needs_scan, pick_outcome, read_outcome, scan_outcome, settle,
    settled, shape_outcome, text_outcome, ArrayProbe,
};
use crate::error::{lift, lifted, outcome, Error, ErrorView, Fault};
use crate::text::{chars_from_codepoints, string_from_codepoints};
use crate::value::{
    all_at_home, handles, string_outcome, value_outcome, values_outcome, vec_outcome, BQNValue,
};

verus! {

impl<'r, B: Backend> BQNValue<'r, B> {
    /// Picking an element: the type is asked for, then the number of
    /// elements of an array, and only an element that the array has is
    /// picked.
    pub open spec fn picked(
        &self,
        pos: usize,
        tag: Result<i32, Fault>,
        bound: Result<usize, Fault>,
        element: Result<u64, Fault>,
        out: Result<u64, ErrorView>,
    ) -> bool {
        &&& self.type_asked(tag)
        &&& checked(tag, BQNType::Array, "value isn't an array"@) is Ok ==> {
            &&& call_ensures(B::bqn_bound, (&self.engine(), self@), bound)
            &&& (bound matches Ok(b) && pos < b) ==> call_ensures(
                B::bqn_pick,
                (&self.engine(), self@, pos),
                element,
            )
        }
        &&& out == guarded(
            tag,
            BQNType::Array,
            "value isn't an array"@,
            pick_outcome(pos, bound, element),
        )
    }

    /// The element at a position of an array, in ravel order, with a
    /// reference of its own.
    ///
    /// Fails with `InvalidType` on a value that is no array, and at a
    /// position past the last element; the interpreter is not asked for the
    /// element in either case.
    pub fn pick(&self, pos: usize) -> (r: Result<Self, Error>)
        ensures
            r matches Ok(v) ==> v.home() == self.home(),
            exists|tag: Result<i32, Fault>, bound: Result<usize, Fault>, element: Result<u64, Fault>|
                self.picked(pos, tag, bound, element, value_outcome(r)),
    {
        let held = self.runtime().lock();
        let backend = self.runtime().backend(&held);
        let tag = backend.bqn_type(self.handle());
        let ghost tag_seen = tag;
        match check_type(tag, BQNType::Array, "value isn't an array") {
            Err(e) => {
                assert(self.picked(pos, tag_seen, Ok(0), Ok(0), value_outcome::<B>(Err(e))));
                return Err(e);
            },
            Ok(()) => {},
        }
        let bound = backend.bqn_bound(self.handle());
        let ghost bound_seen = bound;
        let b: usize = match lift(bound) {
            Err(e) => {
                assert(self.picked(pos, tag_seen, bound_seen, Ok(0), value_outcome::<B>(Err(e))));
                return Err(e);
            },
            Ok(b) => b,
        };
        if pos >= b {
            let e = Error::invalid_type("position is out of range");
            assert(self.picked(pos, tag_seen, bound_seen, Ok(0), value_outcome::<B>(Err(e))));
            return Err(e);
        }
        let element = backend.bqn_pick(self.handle(), pos);
        let ghost element_seen = element;
        let r: Result<Self, Error> = match lift(element) {
            Ok(value) => Ok(BQNValue::new(self.runtime(), value)),
            Err(e) => Err(e),
        };
        assert(self.picked(pos, tag_seen, bound_seen, element_seen, value_outcome(r)));
        r
    }

    /// Taking an element out of an array that is given up: the element is
    /// picked, and the array is released.
    pub open spec fn element_taken(
        &self,
        pos: usize,
        tag: Result<i32, Fault>,
        bound: Result<usize, Fault>,
        element: Result<u64, Fault>,
        freed: Result<(), Fault>,
        out: Result<u64, ErrorView>,
    ) -> bool {
        exists|got: Result<u64, ErrorView>, released: Result<(), ErrorView>|
            #![trigger settled(got, released)]
            self.picked(pos, tag, bound, element, got) && self.released(freed, released) && out
                == settled(got, released)
    }

    /// Takes the element at a position out of an array and gives the array
    /// up. If the array cannot be released, the element is released again.
    pub fn take_element(self, pos: usize) -> (r: Result<Self, Error>)
        ensures
            r matches Ok(v) ==> v.home() == self.home(),
            exists|
                tag: Result<i32, Fault>,
                bound: Result<usize, Fault>,
                element: Result<u64, Fault>,
                freed: Result<(), Fault>,
            |
                self.element_taken(pos, tag, bound, element, freed, value_outcome(r)),
    {
        let got = self.pick(pos);
        let ghost (tag, bound, element) = choose|
            tag: Result<i32, Fault>,
            bound: Result<usize, Fault>,
            element: Result<u64, Fault>,
        |
            self.picked(pos, tag, bound, element, value_outcome(got));
        let ghost was_got = value_outcome(got);
        let released = self.release();
        let ghost freed = choose|freed: Result<(), Fault>| self.released(freed, outcome(released));
        let ghost was_released = outcome(released);
        let r: Result<Self, Error> = match got {
            Err(e) => Err(e),
            Ok(v) => match released {
                Ok(()) => Ok(v),
                Err(e) => {
                    let _ = v.release();
                    Err(e)
                },
            },
        };
        assert(value_outcome(r) == settled(was_got, was_released));
        assert(self.element_taken(pos, tag, bound, element, freed, value_outcome(r)));
        r
    }

    /// Asking whether the storage of an array settles what it holds: the
    /// type is asked for, and only an array is asked for its direct element
    /// type.
    pub open spec fn known_read(
        &self,
        numeric: bool,
        tag: Result<i32, Fault>,
        eltype: Result<u32, Fault>,
        out: Result<bool, ErrorView>,
    ) -> bool {
        &&& self.type_asked(tag)
        &&& checked(tag, BQNType::Array, "value isn't an array"@) is Ok ==> call_ensures(
            B::bqn_directArrType,
            (&self.engine(), self@),
            eltype,
        )
        &&& out == guarded(
            tag,
            BQNType::Array,
            "value isn't an array"@,
            known_outcome(eltype, numeric),
        )
    }

    /// Whether it's known that the array elements are numbers. `false` says
    /// that it is not known; the elements may be numbers all the same.
    ///
    /// Fails with `InvalidType` on a value that is no array.
    pub fn known_f64_arr(&self) -> (r: Result<bool, Error>)
        ensures
            exists|tag: Result<i32, Fault>, eltype: Result<u32, Fault>|
                self.known_read(true, tag, eltype, outcome(r)),
    {
        let held = self.runtime().lock();
        let backend = self.runtime().backend(&held);
        let tag = backend.bqn_type(self.handle());
        let ghost tag_seen = tag;
        match check_type(tag, BQNType::Array, "value isn't an array") {
            Err(e) => {
                assert(self.known_read(true, tag_seen, Ok(0), outcome::<bool>(Err(e))));
                Err(e)
            },
            Ok(()) => {
                let eltype = backend.bqn_directArrType(self.handle());
                let ghost seen = eltype;
                let r: Result<bool, Error> = match lift(eltype) {
                    Ok(eltype) => Ok(!element_scan_needed(eltype, true)),
                    Err(e) => Err(e),
                };
                assert(self.known_read(true, tag_seen, seen, outcome(r)));
                r
            },
        }
    }

    /// Whether it's known that the array elements are characters. `false`
    /// says that it is not known; the elements may be characters all the
    /// same.
    ///
    /// Fails with `InvalidType` on a value that is no array.
    pub fn known_char_arr(&self) -> (r: Result<bool, Error>)
        ensures
            exists|tag: Result<i32, Fault>, eltype: Result<u32, Fault>|
                self.known_read(false, tag, eltype, outcome(r)),
    {
        let held = self.runtime().lock();
        let backend = self.runtime().backend(&held);
        let tag = backend.bqn_type(self.handle());
        let ghost tag_seen = tag;
        match check_type(tag, BQNType::Array, "value isn't an array") {
            Err(e) => {
                assert(self.known_read(false, tag_seen, Ok(0), outcome::<bool>(Err(e))));
                Err(e)
            },
            Ok(()) => {
                let eltype = backend.bqn_directArrType(self.handle());
                let ghost seen = eltype;
                let r: Result<bool, Error> = match lift(eltype) {
                    Ok(eltype) => Ok(!element_scan_needed(eltype, false)),
                    Err(e) => Err(e),
                };
                assert(self.known_read(false, tag_seen, seen, outcome(r)));
                r
            },
        }
    }

    /// The steps of a look at the element at `pos`.
    pub open spec fn element_looked_at(
        &self,
        pos: usize,
        element: Result<u64, Fault>,
        tag: Result<i32, Fault>,
        freed: Result<(), Fault>,
        seen: Result<i32, Fault>,
    ) -> bool {
        &&& call_ensures(B::bqn_pick, (&self.engine(), self@, pos), element)
        &&& match element {
            Err(f) => seen == Err::<i32, Fault>(f),
            Ok(e) => {
                &&& call_ensures(B::bqn_type, (&self.engine(), e), tag)
                &&& call_ensures(B::bqn_free, (&self.engine(), e), freed)
                &&& seen == settled(tag, freed)
            },
        }
    }

    /// A look at the element at `pos`: the element is picked, asked for its
    /// type, and released. `seen` is the answer to the type query, or the
    /// first failure on the way.
    pub open spec fn element_asked(&self, pos: usize, seen: Result<i32, Fault>) -> bool {
        exists|element: Result<u64, Fault>, tag: Result<i32, Fault>, freed: Result<(), Fault>|
            #![trigger self.element_looked_at(pos, element, tag, freed, seen)]
            self.element_looked_at(pos, element, tag, freed, seen)
    }

    /// Asks for the type of one element, and releases the element again.
    fn element_tag(&self, backend: &B, pos: usize) -> (r: Result<i32, Fault>)
        requires
            *backend == self.engine(),
        ensures
            self.element_asked(pos, r),
    {
        let element = backend.bqn_pick(self.handle(), pos);
        let ghost element_seen = element;
        match element {
            Err(f) => {
                let r: Result<i32, Fault> = Err(f);
                assert(self.element_looked_at(pos, element_seen, Ok(0), Ok(()), r));
                r
            },
            Ok(v) => {
                let tag = backend.bqn_type(v);
                let freed = backend.bqn_free(v);
                let ghost tag_seen = tag;
                let ghost freed_seen = freed;
                let r = settle(tag, freed);
                assert(self.element_looked_at(pos, element_seen, tag_seen, freed_seen, r));
                r
            },
        }
    }

    /// Finding out whether the value can be read as an array of numbers
    /// (`numeric`) or of characters, and how many elements it has.
    ///
    /// The type is asked for; of an array, the number of elements and the
    /// direct element type. If the element type settles nothing, the
    /// elements are looked at one after another, up to the first that
    /// cannot be asked or is of the wrong type.
    pub open spec fn probed(&self, probe: ArrayProbe, numeric: bool) -> bool {
        &&& self.type_asked(probe.tag)
        &&& checked(probe.tag, BQNType::Array, "value isn't an array"@) is Ok ==> {
            &&& call_ensures(B::bqn_bound, (&self.engine(), self@), probe.bound)
            &&& probe.bound is Ok ==> {
                &&& call_ensures(B::bqn_directArrType, (&self.engine(), self@), probe.eltype)
                &&& (probe.eltype matches Ok(eltype) && needs_scan(eltype, numeric)) ==> forall|
                    i: int,
                |
                    #![trigger probe.elements[i]]
                    0 <= i < probe.bound->Ok_0 && scan_outcome(
                        probe.elements,
                        i as nat,
                        element_type(numeric),
                        element_complaint(numeric),
                    ) is Ok ==> self.element_asked(i as usize, probe.elements[i])
            }
        }
    }

    /// Finding the number of elements of an array of numbers or of
    /// characters.
    pub open spec fn bounds_read(
        &self,
        numeric: bool,
        probe: ArrayProbe,
        out: Result<usize, ErrorView>,
    ) -> bool {
        &&& self.probed(probe, numeric)
        &&& out == bounds_outcome(probe, numeric)
    }

    /// The number of elements of a value that is to be read as an array of
    /// numbers (`numeric`) or of characters.
    fn array_bounds(&self, backend: &B, numeric: bool) -> (r: Result<usize, Error>)
        requires
            *backend == self.engine(),
        ensures
            exists|probe: ArrayProbe| self.bounds_read(numeric, probe, outcome(r)),
    {
        let ghost mut probe = ArrayProbe {
            tag: Ok(0),
            bound: Ok(0),
            eltype: Ok(0),
            elements: Seq::empty(),
        };
        let tag = backend.bqn_type(self.handle());
        proof {
            probe = ArrayProbe { tag, ..probe };
        }
        match check_type(tag, BQNType::Array, "value isn't an array") {
            Err(e) => {
                assert(self.bounds_read(numeric, probe, outcome::<usize>(Err(e))));
                return Err(e);
            },
            Ok(()) => {},
        }
        let bound = backend.bqn_bound(self.handle());
        proof {
            probe = ArrayProbe { bound, ..probe };
        }
        let b: usize = match lift(bound) {
            Err(e) => {
                assert(self.bounds_read(numeric, probe, outcome::<usize>(Err(e))));
                return Err(e);
            },
            Ok(b) => b,
        };
        let asked = backend.bqn_directArrType(self.handle());
        proof {
            probe = ArrayProbe { eltype: asked, ..probe };
        }
        let eltype: u32 = match lift(asked) {
            Err(e) => {
                assert(self.bounds_read(numeric, probe, outcome::<usize>(Err(e))));
                return Err(e);
            },
            Ok(eltype) => eltype,
        };
        if !element_scan_needed(eltype, numeric) {
            assert(self.bounds_read(numeric, probe, outcome::<usize>(Ok(b))));
            return Ok(b);
        }
        let wanted: BQNType = if numeric {
            BQNType::Number
        } else {
            BQNType::Character
        };
        let complaint: &str = if numeric {
            "value isn't a f64 array"
        } else {
            "value isn't a character array"
        };
        let ghost mut seen: Seq<Result<i32, Fault>> = Seq::empty();
        let mut i: usize = 0;
        while i < b
            invariant
                i <= b,
                seen.len() == i,
                *backend == self.engine(),
                wanted == element_type(numeric),
                complaint@ == element_complaint(numeric),
                scan_outcome(seen, i as nat, wanted, complaint@) == Ok::<(), ErrorView>(()),
                forall|k: int| 0 <= k < i ==> self.element_asked(k as usize, #[trigger] seen[k]),
                self.type_asked(probe.tag),
                checked(probe.tag, BQNType::Array, "value isn't an array"@) == Ok::<(), ErrorView>(()),
                call_ensures(B::bqn_bound, (&self.engine(), self@), probe.bound),
                probe.bound == Ok::<usize, Fault>(b),
                call_ensures(B::bqn_directArrType, (&self.engine(), self@), probe.eltype),
                probe.eltype == Ok::<u32, Fault>(eltype),
                needs_scan(eltype, numeric),
            decreases b - i,
        {
            let looked = self.element_tag(backend, i);
            let ghost before = seen;
            proof {
                seen = seen.push(looked);
                lemma_scan_ignores_rest(seen, before, i as nat, wanted, complaint@);
            }
            let verdict = check_type(looked, wanted, complaint);
            assert(outcome(verdict) == scan_outcome(seen, (i + 1) as nat, wanted, complaint@));
            match verdict {
                Err(e) => {
                    proof {
                        lemma_scan_stops_at_failure(
                            seen,
                            (i + 1) as nat,
                            b as nat,
                            wanted,
                            complaint@,
                        );
                        probe = ArrayProbe { elements: seen, ..probe };
                        assert forall|k: int|
                            0 <= k < b && scan_outcome(
                                seen,
                                k as nat,
                                wanted,
                                complaint@,
                            ) is Ok implies self.element_asked(k as usize, #[trigger] seen[k]) by {
                            if k > i {
                                lemma_scan_stops_at_failure(
                                    seen,
                                    (i + 1) as nat,
                                    k as nat,
                                    wanted,
                                    complaint@,
                                );
                            }
                        }
                    }
                    assert(self.bounds_read(numeric, probe, outcome::<usize>(Err(e))));
                    return Err(e);
                },
                Ok(()) => {},
            }
            i = i + 1;
        }
        proof {
            probe = ArrayProbe { elements: seen, ..probe };
        }
        assert(self.bounds_read(numeric, probe, outcome::<usize>(Ok(b))));
        Ok(b)
    }

    /// The number of elements of an array of characters.
    ///
    /// Fails with `InvalidType` on a value that is no array, and on an
    /// array with an element that is no character. An array that is stored
    /// as unboxed characters is taken at its word; of any other array every
    /// element is looked at.
    pub fn get_character_array_bounds(&self) -> (r: Result<usize, Error>)
        ensures
            exists|probe: ArrayProbe| self.bounds_read(false, probe, outcome(r)),
    {
        let held = self.runtime().lock();
        let backend = self.runtime().backend(&held);
        self.array_bounds(backend, false)
    }

    /// The number of elements of an array of numbers.
    ///
    /// Fails with `InvalidType` on a value that is no array, and on an
    /// array with an element that is no number. An array that is stored as
    /// unboxed numbers is taken at its word; of any other array every
    /// element is looked at.
    pub fn get_numeric_array_bounds(&self) -> (r: Result<usize, Error>)
        ensures
            exists|probe: ArrayProbe| self.bounds_read(true, probe, outcome(r)),
    {
        let held = self.runtime().lock();
        let backend = self.runtime().backend(&held);
        self.array_bounds(backend, true)
    }

    /// Reading an array of numbers: the value is probed, and the numbers of
    /// an array that can be read so are asked for, all at once.
    pub open spec fn numbers_read(
        &self,
        probe: ArrayProbe,
        bits: Result<Vec<u64>, Fault>,
        out: Result<Seq<u64>, ErrorView>,
    ) -> bool {
        &&& self.probed(probe, true)
        &&& bounds_outcome(probe, true) matches Ok(b) ==> call_ensures(
            B::bqn_readF64Arr,
            (&self.engine(), self@, b),
            bits,
        )
        &&& out == read_outcome(probe, true, bits)
    }

    /// Converts `BQNValue` into a vector of the bits of doubles.
    ///
    /// Fails with `InvalidType` unless the value is an array of numbers.
    /// The result is what the interpreter gives for the array's elements.
    pub fn to_f64_bits_vec(&self) -> (r: Result<Vec<u64>, Error>)
        ensures
            exists|probe: ArrayProbe, bits: Result<Vec<u64>, Fault>|
                self.numbers_read(probe, bits, vec_outcome(r)),
    {
        let held = self.runtime().lock();
        let backend = self.runtime().backend(&held);
        let bounds = self.array_bounds(backend, true);
        let ghost probe = choose|probe: ArrayProbe| self.bounds_read(true, probe, outcome(bounds));
        match bounds {
            Err(e) => {
                assert(self.numbers_read(probe, arbitrary(), vec_outcome::<u64>(Err(e))));
                Err(e)
            },
            Ok(b) => {
                let read = backend.bqn_readF64Arr(self.handle(), b);
                let ghost bits = read;
                let r = lift(read);
                assert(self.numbers_read(probe, bits, vec_outcome(r)));
                r
            },
        }
    }

    /// Reading the code points of an array of characters: the value is
    /// probed, and the code points of an array that can be read so are
    /// asked for, all at once.
    pub open spec fn codepoints_read(
        &self,
        probe: ArrayProbe,
        codes: Result<Vec<u32>, Fault>,
        out: Result<Seq<u32>, ErrorView>,
    ) -> bool {
        &&& self.probed(probe, false)
        &&& bounds_outcome(probe, false) matches Ok(b) ==> call_ensures(
            B::bqn_readC32Arr,
            (&self.engine(), self@, b),
            codes,
        )
        &&& out == read_outcome(probe, false, codes)
    }

    /// Reads the code points of an array of characters.
    fn read_codepoints(&self) -> (r: Result<Vec<u32>, Error>)
        ensures
            exists|probe: ArrayProbe, codes: Result<Vec<u32>, Fault>|
                self.codepoints_read(probe, codes, vec_outcome(r)),
    {
        let held = self.runtime().lock();
        let backend = self.runtime().backend(&held);
        let bounds = self.array_bounds(backend, false);
        let ghost probe = choose|probe: ArrayProbe| self.bounds_read(false, probe, outcome(bounds));
        match bounds {
            Err(e) => {
                assert(self.codepoints_read(probe, arbitrary(), vec_outcome::<u32>(Err(e))));
                Err(e)
            },
            Ok(b) => {
                let read = backend.bqn_readC32Arr(self.handle(), b);
                let ghost codes = read;
                let r = lift(read);
                assert(self.codepoints_read(probe, codes, vec_outcome(r)));
                r
            },
        }
    }

    /// Reading an array of characters as text: as
    /// [`BQNValue::codepoints_read`], with the code points decoded.
    pub open spec fn text_read(
        &self,
        probe: ArrayProbe,
        codes: Result<Vec<u32>, Fault>,
        out: Result<Seq<char>, ErrorView>,
    ) -> bool {
        &&& self.probed(probe, false)
        &&& bounds_outcome(probe, false) matches Ok(b) ==> call_ensures(
            B::bqn_readC32Arr,
            (&self.engine(), self@, b),
            codes,
        )
        &&& out == text_outcome(probe, codes)
    }

    /// Converts `BQNValue` into vector of `char`s.
    ///
    /// Fails with `InvalidType` unless the value is an array of characters.
    /// Characters that are no Unicode scalar values are left out.
    pub fn to_char_vec(&self) -> (r: Result<Vec<char>, Error>)
        ensures
            exists|probe: ArrayProbe, codes: Result<Vec<u32>, Fault>|
                self.text_read(probe, codes, vec_outcome(r)),
    {
        let read = self.read_codepoints();
        let ghost (probe, codes) = choose|probe: ArrayProbe, codes: Result<Vec<u32>, Fault>|
            self.codepoints_read(probe, codes, vec_outcome(read));
        let r: Result<Vec<char>, Error> = match read {
            Err(e) => Err(e),
            Ok(u32s) => Ok(chars_from_codepoints(&u32s)),
        };
        assert(self.text_read(probe, codes, vec_outcome(r)));
        r
    }

    /// Converts `BQNValue` into a `String`.
    ///
    /// Fails with `InvalidType` unless the value is an array of characters.
    /// Characters that are no Unicode scalar values are left out.
    pub fn to_string(&self) -> (r: Result<String, Error>)
        ensures
            exists|probe: ArrayProbe, codes: Result<Vec<u32>, Fault>|
                self.text_read(probe, codes, string_outcome(r)),
    {
        let read = self.read_codepoints();
        let ghost (probe, codes) = choose|probe: ArrayProbe, codes: Result<Vec<u32>, Fault>|
            self.codepoints_read(probe, codes, vec_outcome(read));
        let r: Result<String, Error> = match read {
            Err(e) => Err(e),
            Ok(u32s) => Ok(string_from_codepoints(&u32s)),
        };
        assert(self.text_read(probe, codes, string_outcome(r)));
        r
    }

    /// Reading the text out of a value that is given up: the text is read,
    /// and the value is released.
    pub open spec fn text_taken(
        &self,
        probe: ArrayProbe,
        codes: Result<Vec<u32>, Fault>,
        freed: Result<(), Fault>,
        out: Result<Seq<char>, ErrorView>,
    ) -> bool {
        exists|read: Result<Seq<char>, ErrorView>, released: Result<(), ErrorView>|
            #![trigger settled(read, released)]
            self.text_read(probe, codes, read) && self.released(freed, released) && out == settled(
                read,
                released,
            )
    }

    /// Converts `BQNValue` into a `String` and gives the value up.
    pub fn take_string(self) -> (r: Result<String, Error>)
        ensures
            exists|probe: ArrayProbe, codes: Result<Vec<u32>, Fault>, freed: Result<(), Fault>|
                self.text_taken(probe, codes, freed, string_outcome(r)),
    {
        let read = self.to_string();
        let ghost (probe, codes) = choose|probe: ArrayProbe, codes: Result<Vec<u32>, Fault>|
            self.text_read(probe, codes, string_outcome(read));
        let ghost was_read = string_outcome(read);
        let released = self.release();
        let ghost freed = choose|freed: Result<(), Fault>| self.released(freed, outcome(released));
        let ghost was_released = outcome(released);
        let r = settle(read, released);
        assert(string_outcome(r) == settled(was_read, was_released));
        assert(self.text_taken(probe, codes, freed, string_outcome(r)));
        r
    }

    /// Reading the elements of an array: the type is asked for, then the
    /// number of elements of an array, then handles for that many elements.
    pub open spec fn elements_read(
        &self,
        tag: Result<i32, Fault>,
        bound: Result<usize, Fault>,
        elements: Result<Vec<u64>, Fault>,
        out: Result<Seq<u64>, ErrorView>,
    ) -> bool {
        &&& self.type_asked(tag)
        &&& checked(tag, BQNType::Array, "value isn't an object array"@) is Ok ==> {
            &&& call_ensures(B::bqn_bound, (&self.engine(), self@), bound)
            &&& bound matches Ok(b) ==> call_ensures(
                B::bqn_readObjArr,
                (&self.engine(), self@, b),
                elements,
            )
        }
        &&& out == guarded(
            tag,
            BQNType::Array,
            "value isn't an object array"@,
            elements_outcome(bound, elements),
        )
    }

    /// Converts `BQNValue` into a vector of `BQNValue`s.
    ///
    /// Fails with `InvalidType` on a value that is no array. On an array the
    /// result holds one value per handle that the interpreter gave, in
    /// order, each with a reference of its own.
    pub fn to_bqnvalue_vec(&self) -> (r: Result<Vec<BQNValue<'r, B>>, Error>)
        ensures
            r matches Ok(values) ==> all_at_home(values@, self.home()),
            exists|tag: Result<i32, Fault>, bound: Result<usize, Fault>, elements: Result<Vec<u64>, Fault>|
                self.elements_read(tag, bound, elements, values_outcome(r)),
    {
        let held = self.runtime().lock();
        let backend = self.runtime().backend(&held);
        let tag = backend.bqn_type(self.handle());
        let ghost tag_seen = tag;
        match check_type(tag, BQNType::Array, "value isn't an object array") {
            Err(e) => {
                assert(self.elements_read(tag_seen, Ok(0), arbitrary(), values_outcome::<B>(Err(e))));
                return Err(e);
            },
            Ok(()) => {},
        }
        let bound = backend.bqn_bound(self.handle());
        let ghost bound_seen = bound;
        let b: usize = match lift(bound) {
            Err(e) => {
                assert(self.elements_read(tag_seen, bound_seen, arbitrary(), values_outcome::<B>(Err(e))));
                return Err(e);
            },
            Ok(b) => b,
        };
        let read = backend.bqn_readObjArr(self.handle(), b);
        let ghost elements = read;
        let objarr: Vec<u64> = match lift(read) {
            Err(e) => {
                assert(self.elements_read(tag_seen, bound_seen, elements, values_outcome::<B>(Err(e))));
                return Err(e);
            },
            Ok(objarr) => objarr,
        };
        let mut out: Vec<BQNValue<'r, B>> = Vec::with_capacity(objarr.len());
        let mut i: usize = 0;
        while i < objarr.len()
            invariant
                i <= objarr.len(),
                out@.len() == i,
                forall|k: int| 0 <= k < i ==> (#[trigger] out@[k])@ == objarr@[k],
                all_at_home(out@, self.home()),
            decreases objarr.len() - i,
        {
            out.push(BQNValue::new(self.runtime(), objarr[i]));
            i = i + 1;
        }
        assert(handles(out@) =~= objarr@);
        let r: Result<Vec<BQNValue<'r, B>>, Error> = Ok(out);
        assert(self.elements_read(tag_seen, bound_seen, elements, values_outcome(r)));
        r
    }

    /// Reading the rank: the type is asked for, and only an array is asked
    /// for its rank.
    pub open spec fn rank_read(
        &self,
        tag: Result<i32, Fault>,
        axes: Result<usize, Fault>,
        out: Result<usize, ErrorView>,
    ) -> bool {
        &&& self.type_asked(tag)
        &&& checked(tag, BQNType::Array, "value isn't an array"@) is Ok ==> call_ensures(
            B::bqn_rank,
            (&self.engine(), self@),
            axes,
        )
        &&& out == guarded(tag, BQNType::Array, "value isn't an array"@, lifted(axes))
    }

    /// The number of axes of an array.
    ///
    /// Fails with `InvalidType` on a value that is no array.
    pub fn rank(&self) -> (r: Result<usize, Error>)
        ensures
            exists|tag: Result<i32, Fault>, axes: Result<usize, Fault>|
                self.rank_read(tag, axes, outcome(r)),
    {
        let held = self.runtime().lock();
        let backend = self.runtime().backend(&held);
        let tag = backend.bqn_type(self.handle());
        let ghost tag_seen = tag;
        match check_type(tag, BQNType::Array, "value isn't an array") {
            Err(e) => {
                assert(self.rank_read(tag_seen, Ok(0), outcome::<usize>(Err(e))));
                Err(e)
            },
            Ok(()) => {
                let axes = backend.bqn_rank(self.handle());
                let ghost axes_seen = axes;
                let r = lift(axes);
                assert(self.rank_read(tag_seen, axes_seen, outcome(r)));
                r
            },
        }
    }

    /// Reading the shape: the type is asked for, then the rank of an array,
    /// then the lengths of that many axes.
    pub open spec fn shape_read(
        &self,
        tag: Result<i32, Fault>,
        axes: Result<usize, Fault>,
        lengths: Result<Vec<usize>, Fault>,
        out: Result<Seq<usize>, ErrorView>,
    ) -> bool {
        &&& self.type_asked(tag)
        &&& checked(tag, BQNType::Array, "value isn't an array"@) is Ok ==> {
            &&& call_ensures(B::bqn_rank, (&self.engine(), self@), axes)
            &&& axes matches Ok(n) ==> call_ensures(
                B::bqn_shape,
                (&self.engine(), self@, n),
                lengths,
            )
        }
        &&& out == guarded(
            tag,
            BQNType::Array,
            "value isn't an array"@,
            shape_outcome(axes, lengths),
        )
    }

    /// The lengths of the axes of an array.
    ///
    /// Fails with `InvalidType` on a value that is no array.
    pub fn shape(&self) -> (r: Result<Vec<usize>, Error>)
        ensures
            exists|tag: Result<i32, Fault>, axes: Result<usize, Fault>, lengths: Result<Vec<usize>, Fault>|
                self.shape_read(tag, axes, lengths, vec_outcome(r)),
    {
        let held = self.runtime().lock();
        let backend = self.runtime().backend(&held);
        let tag = backend.bqn_type(self.handle());
        let ghost tag_seen = tag;
        match check_type(tag, BQNType::Array, "value isn't an array") {
            Err(e) => {
                assert(self.shape_read(tag_seen, Ok(0), arbitrary(), vec_outcome::<usize>(Err(e))));
                return Err(e);
            },
            Ok(()) => {},
        }
        let axes = backend.bqn_rank(self.handle());
        let ghost axes_seen = axes;
        let n: usize = match lift(axes) {
            Err(e) => {
                assert(self.shape_read(tag_seen, axes_seen, arbitrary(), vec_outcome::<usize>(Err(e))));
                return Err(e);
            },
            Ok(n) => n,
        };
        let lengths = backend.bqn_shape(self.handle(), n);
        let ghost lengths_seen = lengths;
        let r = lift(lengths);
        assert(self.shape_read(tag_seen, axes_seen, lengths_seen, vec_outcome(r)));
        r
    }
}

} // verus!
