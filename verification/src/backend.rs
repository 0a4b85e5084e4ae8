//! The interpreter's call surface.
//!
//! Everything the bridge asks of the interpreter goes through [`Backend`].
//! An implementation forwards each method to the interpreter, either linked
//! into the process or run inside a sandbox. It keeps no books on ownership
//! and takes no lock: both are the business of the layers above.
//!
//! Values cross this surface as raw handles. A handle means nothing to the
//! host; it is only ever handed back to the interpreter. Numbers cross it
//! as the bit patterns of IEEE 754 double-precision values.
//!
//! A method that fails says so with a [`Fault`]. No method promises anything
//! about its result: what the bridge proves holds for every interpreter, a
//! faulty one included. The contracts of the bridge say which questions it
//! put to the backend and what it made of the answers; where a backend does
//! promise something about an answer, that promise carries over.

use vstd::prelude::*;
use crate::error::Fault;

verus! {

#[allow(non_snake_case)]
pub trait Backend {
    /// Prepares the interpreter for use. Called once, before any other call.
    fn bqn_init(&self) -> Result<(), Fault>;

    /// Gives up one reference to a value.
    fn bqn_free(&self, v: u64) -> Result<(), Fault>;

    /// Takes one more reference to a value and returns a handle for it.
    fn bqn_copy(&self, v: u64) -> Result<u64, Fault>;

    /// The number of elements of an array.
    fn bqn_bound(&self, v: u64) -> Result<usize, Fault>;

    /// The number of axes of an array.
    fn bqn_rank(&self, v: u64) -> Result<usize, Fault>;

    /// The lengths of the axes of an array that has `rank` axes.
    fn bqn_shape(&self, v: u64, rank: usize) -> Result<Vec<usize>, Fault>;

    /// The element at position `pos` of an array, in ravel order.
    fn bqn_pick(&self, v: u64, pos: usize) -> Result<u64, Fault>;

    /// The number that names a value's type.
    fn bqn_type(&self, v: u64) -> Result<i32, Fault>;

    /// The number that names an array's direct element type.
    fn bqn_directArrType(&self, v: u64) -> Result<u32, Fault>;

    /// Calls a function with one argument.
    fn bqn_call1(&self, f: u64, x: u64) -> Result<u64, Fault>;

    /// Calls a function with two arguments.
    fn bqn_call2(&self, f: u64, w: u64, x: u64) -> Result<u64, Fault>;

    /// Evaluates the source text held in a string value.
    fn bqn_eval(&self, src: u64) -> Result<u64, Fault>;

    /// Whether a namespace has a field of the given name.
    fn bqn_hasField(&self, ns: u64, name: u64) -> Result<bool, Fault>;

    /// The field of the given name of a namespace.
    fn bqn_getField(&self, ns: u64, name: u64) -> Result<u64, Fault>;

    /// A number value, from the bits of a double.
    fn bqn_makeF64(&self, bits: u64) -> Result<u64, Fault>;

    /// A character value, from a code point.
    fn bqn_makeChar(&self, c: u32) -> Result<u64, Fault>;

    /// A list of numbers, from the bits of doubles.
    fn bqn_makeF64Vec(&self, a: &[u64]) -> Result<u64, Fault>;

    /// A list of numbers, from 32-bit integers.
    fn bqn_makeI32Vec(&self, a: &[i32]) -> Result<u64, Fault>;

    /// A list of numbers, from 16-bit integers.
    fn bqn_makeI16Vec(&self, a: &[i16]) -> Result<u64, Fault>;

    /// A list of numbers, from 8-bit integers.
    fn bqn_makeI8Vec(&self, a: &[i8]) -> Result<u64, Fault>;

    /// A list of values. Takes over one reference to each element.
    fn bqn_makeObjVec(&self, a: &[u64]) -> Result<u64, Fault>;

    /// A string value, from UTF-8 text.
    fn bqn_makeUTF8Str(&self, s: &str) -> Result<u64, Fault>;

    /// The bits of a number value.
    fn bqn_readF64(&self, v: u64) -> Result<u64, Fault>;

    /// The code point of a character value.
    fn bqn_readChar(&self, v: u64) -> Result<u32, Fault>;

    /// The elements of an array of `bound` numbers, as bits of doubles.
    fn bqn_readF64Arr(&self, v: u64, bound: usize) -> Result<Vec<u64>, Fault>;

    /// The elements of an array of `bound` characters, as code points.
    fn bqn_readC32Arr(&self, v: u64, bound: usize) -> Result<Vec<u32>, Fault>;

    /// Handles for the elements of an array of `bound` elements, each with
    /// a reference of its own.
    fn bqn_readObjArr(&self, v: u64, bound: usize) -> Result<Vec<u64>, Fault>;

    /// A function of one argument that, when the interpreter calls it, runs
    /// the host function registered under the key held in `obj`.
    fn bqn_makeBoundFn1(&self, obj: u64) -> Result<u64, Fault>;

    /// A function of two arguments that, when the interpreter calls it, runs
    /// the host function registered under the key held in `obj`.
    fn bqn_makeBoundFn2(&self, obj: u64) -> Result<u64, Fault>;
}

} // verus!
