//! Classification of an array's direct element type.
//!
//! The interpreter stores an array either unboxed, with one fixed element
//! width, or boxed. An unboxed array is known to hold only numbers or only
//! characters without a look at its elements.
//!
//! The interpreter's C interface numbers the element types. The functions
//! of this module compare against the numbers that the bindings define; the
//! constants say what those numbers are.

use vstd::prelude::*;

verus! {

/// Element type of an array whose elements must be inspected one by one.
pub const ELT_UNK: u32 = 0;
/// Element type of an array of 8-bit integers.
pub const ELT_I8: u32 = 1;
/// Element type of an array of 16-bit integers.
pub const ELT_I16: u32 = 2;
/// Element type of an array of 32-bit integers.
pub const ELT_I32: u32 = 3;
/// Element type of an array of 64-bit floating-point numbers.
pub const ELT_F64: u32 = 4;
/// Element type of an array of 8-bit characters.
pub const ELT_C8: u32 = 5;
/// Element type of an array of 16-bit characters.
pub const ELT_C16: u32 = 6;
/// Element type of an array of 32-bit characters.
pub const ELT_C32: u32 = 7;

/// `cbqn_sys::BQNElType_elt_unk`, which the bindings define as 0.
#[verifier::external_body]
fn elt_unk() -> (r: u32)
    ensures
        r == ELT_UNK,
{
    cbqn_sys::BQNElType_elt_unk
}

/// `cbqn_sys::BQNElType_elt_i8`, which the bindings define as 1.
#[verifier::external_body]
fn elt_i8() -> (r: u32)
    ensures
        r == ELT_I8,
{
    cbqn_sys::BQNElType_elt_i8
}

/// `cbqn_sys::BQNElType_elt_i16`, which the bindings define as 2.
#[verifier::external_body]
fn elt_i16() -> (r: u32)
    ensures
        r == ELT_I16,
{
    cbqn_sys::BQNElType_elt_i16
}

/// `cbqn_sys::BQNElType_elt_i32`, which the bindings define as 3.
#[verifier::external_body]
fn elt_i32() -> (r: u32)
    ensures
        r == ELT_I32,
{
    cbqn_sys::BQNElType_elt_i32
}

/// `cbqn_sys::BQNElType_elt_f64`, which the bindings define as 4.
#[verifier::external_body]
fn elt_f64() -> (r: u32)
    ensures
        r == ELT_F64,
{
    cbqn_sys::BQNElType_elt_f64
}

/// `cbqn_sys::BQNElType_elt_c8`, which the bindings define as 5.
#[verifier::external_body]
fn elt_c8() -> (r: u32)
    ensures
        r == ELT_C8,
{
    cbqn_sys::BQNElType_elt_c8
}

/// `cbqn_sys::BQNElType_elt_c16`, which the bindings define as 6.
#[verifier::external_body]
fn elt_c16() -> (r: u32)
    ensures
        r == ELT_C16,
{
    cbqn_sys::BQNElType_elt_c16
}

/// `cbqn_sys::BQNElType_elt_c32`, which the bindings define as 7.
#[verifier::external_body]
fn elt_c32() -> (r: u32)
    ensures
        r == ELT_C32,
{
    cbqn_sys::BQNElType_elt_c32
}

/// Whether an element type guarantees that every element is a number.
pub open spec fn is_numeric(eltype: u32) -> bool {
    eltype == ELT_F64 || eltype == ELT_I32 || eltype == ELT_I16 || eltype == ELT_I8
}

/// Whether an element type guarantees that every element is a character.
pub open spec fn is_char(eltype: u32) -> bool {
    eltype == ELT_C32 || eltype == ELT_C16 || eltype == ELT_C8
}

/// Whether an element type says nothing about the elements.
pub open spec fn is_unknown(eltype: u32) -> bool {
    eltype == ELT_UNK
}

/// Whether the array is stored as unboxed numbers of any width.
pub fn bqneltype_is_numeric(eltype: u32) -> (r: bool)
    ensures
        r == is_numeric(eltype),
{
    eltype == elt_f64() || eltype == elt_i32() || eltype == elt_i16() || eltype == elt_i8()
}

/// Whether the array is stored as unboxed characters of any width.
pub fn bqneltype_is_char(eltype: u32) -> (r: bool)
    ensures
        r == is_char(eltype),
{
    eltype == elt_c32() || eltype == elt_c16() || eltype == elt_c8()
}

/// Whether the elements have to be inspected one by one.
pub fn bqneltype_is_unknown(eltype: u32) -> (r: bool)
    ensures
        r == is_unknown(eltype),
{
    eltype == elt_unk()
}

/// No element type is both numeric and character, and neither kind is the
/// unknown one.
pub proof fn lemma_element_kinds_disjoint(eltype: u32)
    ensures
        !(is_numeric(eltype) && is_char(eltype)),
        is_unknown(eltype) ==> !is_numeric(eltype) && !is_char(eltype),
{
}

} // verus!
