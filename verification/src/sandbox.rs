//! What a backend needs that runs the interpreter in a sandbox.
//!
//! A sandboxed interpreter has a memory of its own, addressed by 32-bit
//! numbers. A buffer crosses the boundary in a scratch area that the
//! sandbox's allocator reserves: the area is reserved, the call is made with
//! the area's address, and the area is given back. Every length is narrowed
//! to 32 bits on the way in. A length that does not fit is a failure, never
//! a truncation.

use vstd::prelude::*;
use crate::decide::{settle, settled};
use crate::error::{Fault, FaultView};

verus! {

/// The allocator of a sandbox, and the sandbox's standard error.
///
/// No method promises anything about its result.
pub trait Scratch {
    /// Reserves an area of `size` bytes in the sandbox's memory and returns
    /// its address.
    fn malloc(&self, size: u32) -> Result<u32, Fault>;

    /// Gives back an area that `malloc` reserved.
    fn free(&self, ptr: u32) -> Result<(), Fault>;

    /// What the interpreter wrote to its standard error since the last
    /// time this was asked.
    fn last_words(&self) -> String;
}

/// The failure of a call into the sandbox, with what the interpreter wrote
/// to its standard error before it failed.
pub fn fault(stderr: String) -> (f: Fault)
    ensures
        f@ == FaultView::Failed(stderr@),
{
    Fault::Failed(stderr)
}

/// The number of elements of a buffer, as the sandbox counts them, if the
/// number fits in 32 bits.
pub fn element_count(len: usize) -> (r: Option<u32>)
    ensures
        r == if len <= u32::MAX {
            Some(len as u32)
        } else {
            None
        },
{
    if len <= 0xffff_ffff {
        Some(len as u32)
    } else {
        None
    }
}

/// The size in bytes of the scratch area for `len` elements of `width`
/// bytes each, if the size fits in 32 bits.
pub fn scratch_size(len: usize, width: usize) -> (r: Option<u32>)
    ensures
        r == if len * width <= u32::MAX {
            Some((len * width) as u32)
        } else {
            None
        },
{
    if width == 0 || len == 0 {
        assert(len * width == 0) by (nonlinear_arith)
            requires
                width == 0 || len == 0,
        ;
        return Some(0);
    }
    if len > 0xffff_ffff || width > 0xffff_ffff {
        assert(len * width > u32::MAX) by (nonlinear_arith)
            requires
                len >= 1,
                width >= 1,
                len > 0xffff_ffff || width > 0xffff_ffff,
        ;
        return None;
    }
    assert(len * width <= 0xffff_ffff * 0xffff_ffff) by (nonlinear_arith)
        requires
            len <= 0xffff_ffff,
            width <= 0xffff_ffff,
    ;
    let bytes: u64 = (len as u64) * (width as u64);
    if bytes <= 0xffff_ffff {
        Some(bytes as u32)
    } else {
        None
    }
}

/// Making a call that needs a scratch area: the area is reserved, the
/// call is made with its address, and the area is given back. If the area
/// cannot be reserved, the call is not made.
pub open spec fn served<S: Scratch, T, F: FnOnce(u32) -> Result<T, Fault>>(
    sandbox: &S,
    size: u32,
    call: F,
    ptr: Result<u32, Fault>,
    called: Result<T, Fault>,
    freed: Result<(), Fault>,
    out: Result<T, Fault>,
) -> bool {
    &&& call_ensures(S::malloc, (sandbox, size), ptr)
    &&& match ptr {
        Err(f) => out == Err::<T, Fault>(f),
        Ok(p) => {
            &&& call_ensures(call, (p,), called)
            &&& call_ensures(S::free, (sandbox, p), freed)
            &&& out == settled(called, freed)
        },
    }
}

/// Refusing a call whose buffer the sandbox cannot address: the failure
/// carries what the interpreter wrote to its standard error.
pub open spec fn refused<S: Scratch, T>(sandbox: &S, words: String, out: Result<T, Fault>) -> bool {
    &&& call_ensures(S::last_words, (sandbox,), words)
    &&& out == Err::<T, Fault>(Fault::Failed(words))
}

/// Makes a call that needs a scratch area for `len` elements of `width`
/// bytes each.
///
/// The area is reserved, `call` is run with its address, and the area is
/// given back whether the call succeeded or not. A buffer that the sandbox
/// cannot address is a failure, and nothing is reserved for it.
pub fn with_buf<S: Scratch, T, F: FnOnce(u32) -> Result<T, Fault>>(
    sandbox: &S,
    len: usize,
    width: usize,
    call: F,
) -> (r: Result<T, Fault>)
    requires
        forall|ptr: u32| call_requires(call, (ptr,)),
    ensures
        len * width > u32::MAX ==> exists|words: String| refused(sandbox, words, r),
        len * width <= u32::MAX ==> exists|
            size: u32,
            ptr: Result<u32, Fault>,
            called: Result<T, Fault>,
            freed: Result<(), Fault>,
        |
            size == len * width && #[trigger] served(sandbox, size, call, ptr, called, freed, r),
{
    match scratch_size(len, width) {
        None => {
            let words = sandbox.last_words();
            let ghost said = words;
            let r: Result<T, Fault> = Err(Fault::Failed(words));
            assert(refused(sandbox, said, r));
            r
        },
        Some(size) => {
            let ptr = sandbox.malloc(size);
            let ghost ptr_seen = ptr;
            match ptr {
                Err(f) => {
                    let r: Result<T, Fault> = Err(f);
                    assert(served(sandbox, size, call, ptr_seen, r, Ok(()), r));
                    r
                },
                Ok(p) => {
                    let called = call(p);
                    let freed = sandbox.free(p);
                    let ghost called_seen = called;
                    let ghost freed_seen = freed;
                    let r = settle(called, freed);
                    assert(served(sandbox, size, call, ptr_seen, called_seen, freed_seen, r));
                    r
                },
            }
        },
    }
}

/// The sandbox's answer to the question whether a namespace has a field:
/// any number but zero says yes.
pub fn field_flag(raw: i32) -> (r: bool)
    ensures
        r == (raw != 0),
{
    raw != 0
}

/// The lengths of an array's axes, widened from the sandbox's 32 bits.
pub fn widen_shape(shape: &Vec<u32>) -> (r: Vec<usize>)
    ensures
        r@.len() == shape@.len(),
        forall|i: int| 0 <= i < shape@.len() ==> r@[i] == shape@[i],
{
    let mut out: Vec<usize> = Vec::with_capacity(shape.len());
    let mut i: usize = 0;
    while i < shape.len()
        invariant
            i <= shape.len(),
            out@.len() == i,
            forall|k: int| 0 <= k < i ==> out@[k] == shape@[k],
        decreases shape.len() - i,
    {
        out.push(shape[i] as usize);
        i = i + 1;
    }
    out
}

/// The failure of a sandboxed backend that is asked to bind a host
/// function: nothing can carry a host function into the sandbox.
pub fn bound_fn_unsupported() -> (f: Fault)
    ensures
        f@ == FaultView::NotSupported("BoundFns are not supported with WASI backend"@),
{
    Fault::NotSupported(String::from_str("BoundFns are not supported with WASI backend"))
}

} // verus!
