//! What the bridge concludes from the interpreter's answers.
//!
//! The functions of this module take the answers of the backend as plain
//! values and say what the bridge makes of them. The operations on values
//! call them between their calls of the backend, and state their contracts
//! over the spec functions defined here.

use vstd::prelude::*;
use crate::bqntype::BQNType;
use crate::error::{lifted, outcome, reported, Error, ErrorView, Fault};
use crate::typecheck::{is_char, is_numeric, bqneltype_is_char, bqneltype_is_numeric};

verus! {

/// What a type query amounts to: the type that the reported number names.
/// A failed query stays the failure it was; a number that names no type is
/// an `InvalidType` error.
pub open spec fn type_outcome(tag: Result<i32, Fault>) -> Result<BQNType, ErrorView> {
    match tag {
        Err(f) => Err(reported(f@)),
        Ok(t) => match BQNType::of_tag(t as int) {
            Some(ty) => Ok(ty),
            None => Err(ErrorView::InvalidType("Invalid type"@)),
        },
    }
}

/// The result of an operation that is defined on values of one type only.
///
/// `tag` is the answer to the type query and `then` is what the operation
/// yields on a value of the type `wanted`. On a value of any other type the
/// operation fails with `InvalidType` and the message `complaint`.
pub open spec fn guarded<T>(
    tag: Result<i32, Fault>,
    wanted: BQNType,
    complaint: Seq<char>,
    then: Result<T, ErrorView>,
) -> Result<T, ErrorView> {
    match type_outcome(tag) {
        Err(e) => Err(e),
        Ok(ty) => if ty == wanted {
            then
        } else {
            Err(ErrorView::InvalidType(complaint))
        },
    }
}

/// The result of checking the type of a value, for an operation that is
/// defined on values of the type `wanted`.
pub open spec fn checked(tag: Result<i32, Fault>, wanted: BQNType, complaint: Seq<char>) -> Result<
    (),
    ErrorView,
> {
    guarded(tag, wanted, complaint, Ok(()))
}

/// Classifies the number that a type query returned.
pub fn classify(tag: i32) -> (r: Result<BQNType, Error>)
    ensures
        outcome(r) == type_outcome(Ok(tag)),
{
    match BQNType::try_from(tag) {
        Ok(ty) => Ok(ty),
        Err(message) => Err(Error::invalid_type(message)),
    }
}

/// Checks that a value has the type that an operation is defined on.
///
/// Succeeds exactly when `actual` is `wanted`; fails otherwise with
/// `InvalidType` and the message `complaint`.
pub fn require(actual: BQNType, wanted: BQNType, complaint: &str) -> (r: Result<(), Error>)
    ensures
        outcome(r) == if actual == wanted {
            Ok::<(), ErrorView>(())
        } else {
            Err(ErrorView::InvalidType(complaint@))
        },
{
    if actual == wanted {
        Ok(())
    } else {
        Err(Error::invalid_type(complaint))
    }
}

/// The result of an operation that had to release a temporary value when it
/// was done: the operation's own failure if it failed, else the failure to
/// release, else the operation's result.
pub open spec fn settled<T, E>(result: Result<T, E>, released: Result<(), E>) -> Result<T, E> {
    match result {
        Err(e) => Err(e),
        Ok(v) => match released {
            Err(e) => Err(e),
            Ok(()) => Ok(v),
        },
    }
}

/// Combines the result of an operation with that of releasing the temporary
/// value it worked on.
pub fn settle<T, E>(result: Result<T, E>, released: Result<(), E>) -> (r: Result<T, E>)
    ensures
        r == settled(result, released),
{
    match result {
        Err(e) => Err(e),
        Ok(v) => match released {
            Err(e) => Err(e),
            Ok(()) => Ok(v),
        },
    }
}

/// Checks the answer to a type query against the type that an operation is
/// defined on.
///
/// Succeeds exactly when the query succeeded and the number it returned
/// names the type `wanted`. A failed query is reported as the failure it
/// was; a number that names another type, or none, is an `InvalidType`
/// error.
pub fn check_type(tag: Result<i32, Fault>, wanted: BQNType, complaint: &str) -> (r: Result<
    (),
    Error,
>)
    ensures
        outcome(r) == checked(tag, wanted, complaint@),
{
    match tag {
        Err(f) => Err(Error::from_fault(f)),
        Ok(t) => match classify(t) {
            Err(e) => Err(e),
            Ok(ty) => require(ty, wanted, complaint),
        },
    }
}

/// Whether a value of a type can be called: functions and modifiers can.
pub open spec fn callable(ty: BQNType) -> bool {
    ty == BQNType::Function || ty == BQNType::Mod1 || ty == BQNType::Mod2
}

/// The result of calling a value: what the call gave, if the value is a
/// function or a modifier. A call of any other value fails with
/// `InvalidType`.
pub open spec fn call_outcome(tag: Result<i32, Fault>, result: Result<u64, Fault>) -> Result<
    u64,
    ErrorView,
> {
    match type_outcome(tag) {
        Err(e) => Err(e),
        Ok(ty) => if callable(ty) {
            lifted(result)
        } else {
            Err(ErrorView::InvalidType("value isn't a function"@))
        },
    }
}

/// Checks the answer to a type query on a value that is to be called.
///
/// Succeeds exactly when the query succeeded and the number it returned
/// names the type of a function or of a modifier.
pub fn check_callable(tag: Result<i32, Fault>) -> (r: Result<(), Error>)
    ensures
        outcome(r) == match type_outcome(tag) {
            Err(e) => Err::<(), ErrorView>(e),
            Ok(ty) => if callable(ty) {
                Ok(())
            } else {
                Err(ErrorView::InvalidType("value isn't a function"@))
            },
        },
{
    match tag {
        Err(f) => Err(Error::from_fault(f)),
        Ok(t) => match classify(t) {
            Err(e) => Err(e),
            Ok(ty) => match ty {
                BQNType::Function | BQNType::Mod1 | BQNType::Mod2 => Ok(()),
                _ => Err(Error::invalid_type("value isn't a function")),
            },
        },
    }
}

/// The character that a character value converts to: the one with the code
/// point that the interpreter read, or none if that is no scalar value.
pub open spec fn char_outcome(code: Result<u32, Fault>) -> Result<Option<char>, ErrorView> {
    match code {
        Ok(c) => Ok(crate::text::scalar_value(c)),
        Err(f) => Err(reported(f@)),
    }
}

/// What picking an element of an array amounts to: the element at the
/// position, if the array has that many elements.
pub open spec fn pick_outcome(
    pos: usize,
    bound: Result<usize, Fault>,
    element: Result<u64, Fault>,
) -> Result<u64, ErrorView> {
    match bound {
        Err(f) => Err(reported(f@)),
        Ok(b) => if pos < b {
            lifted(element)
        } else {
            Err(ErrorView::InvalidType("position is out of range"@))
        },
    }
}

/// What reading the elements of an array amounts to: the handles that the
/// interpreter gave, if it gave the number of elements first.
pub open spec fn elements_outcome(bound: Result<usize, Fault>, elements: Result<Vec<u64>, Fault>) -> Result<
    Seq<u64>,
    ErrorView,
> {
    match bound {
        Err(f) => Err(reported(f@)),
        Ok(_) => match elements {
            Ok(handles) => Ok(handles@),
            Err(f) => Err(reported(f@)),
        },
    }
}

/// What reading the shape of an array amounts to: the lengths that the
/// interpreter gave, if it gave the rank first.
pub open spec fn shape_outcome(axes: Result<usize, Fault>, lengths: Result<Vec<usize>, Fault>) -> Result<
    Seq<usize>,
    ErrorView,
> {
    match axes {
        Err(f) => Err(reported(f@)),
        Ok(_) => match lengths {
            Ok(l) => Ok(l@),
            Err(f) => Err(reported(f@)),
        },
    }
}

/// What a lookup in a namespace amounts to.
///
/// Under a name that no field can have, nothing is found, whatever the
/// value is: the answer is `absent`. Under any other name the value must be
/// a namespace, and the answer is the interpreter's.
pub open spec fn field_outcome<T>(
    name: Seq<char>,
    tag: Result<i32, Fault>,
    answer: Result<T, Fault>,
    absent: T,
) -> Result<T, ErrorView> {
    if !crate::text::valid_field_name(name) {
        Ok(absent)
    } else {
        guarded(tag, BQNType::Namespace, "value isn't a namespace"@, lifted(answer))
    }
}

/// What reading an array of numbers or of characters amounts to: the
/// elements that the interpreter wrote, if the value can be read so.
pub open spec fn read_outcome<T>(
    probe: ArrayProbe,
    numeric: bool,
    data: Result<Vec<T>, Fault>,
) -> Result<Seq<T>, ErrorView> {
    match bounds_outcome(probe, numeric) {
        Err(e) => Err(e),
        Ok(_) => match data {
            Ok(elements) => Ok(elements@),
            Err(f) => Err(reported(f@)),
        },
    }
}

/// What reading an array of characters as text amounts to: the characters
/// that the code points stand for. Code points that are no scalar values
/// are left out.
pub open spec fn text_outcome(probe: ArrayProbe, codes: Result<Vec<u32>, Fault>) -> Result<
    Seq<char>,
    ErrorView,
> {
    match read_outcome(probe, false, codes) {
        Err(e) => Err(e),
        Ok(c) => Ok(crate::text::decoded(c)),
    }
}

/// Whether the elements of an array have to be inspected one by one before
/// they can be read as numbers (`numeric`) or as characters.
pub open spec fn needs_scan(eltype: u32, numeric: bool) -> bool {
    if numeric {
        !is_numeric(eltype)
    } else {
        !is_char(eltype)
    }
}

/// Whether an array is known to hold only numbers (`numeric`) or only
/// characters, given the answer to the query for its direct element type.
pub open spec fn known_outcome(eltype: Result<u32, Fault>, numeric: bool) -> Result<
    bool,
    ErrorView,
> {
    match eltype {
        Ok(t) => Ok(!needs_scan(t, numeric)),
        Err(f) => Err(reported(f@)),
    }
}

/// Whether the elements of an array have to be inspected one by one.
///
/// An array that is stored unboxed with a matching element type needs no
/// look at its elements. Any other array does: its direct element type says
/// nothing about what it holds.
pub fn element_scan_needed(eltype: u32, numeric: bool) -> (r: bool)
    ensures
        r == needs_scan(eltype, numeric),
{
    if numeric {
        !bqneltype_is_numeric(eltype)
    } else {
        !bqneltype_is_char(eltype)
    }
}

/// The type that every element must have for an array to be read as
/// numbers (`numeric`) or as characters.
pub open spec fn element_type(numeric: bool) -> BQNType {
    if numeric {
        BQNType::Number
    } else {
        BQNType::Character
    }
}

/// The message of the error for an array with an element of another type.
pub open spec fn element_complaint(numeric: bool) -> Seq<char> {
    if numeric {
        "value isn't a f64 array"@
    } else {
        "value isn't a character array"@
    }
}

/// The result of looking at the first `n` elements of an array, one after
/// another: the first failure, if there is one.
///
/// `elements[i]` is the answer to the type query on element `i`, or the
/// failure to get at that element. The look stops at the first element that
/// could not be queried or is not of the type `wanted`.
pub open spec fn scan_outcome(
    elements: Seq<Result<i32, Fault>>,
    n: nat,
    wanted: BQNType,
    complaint: Seq<char>,
) -> Result<(), ErrorView>
    decreases n,
{
    if n == 0 {
        Ok(())
    } else {
        match scan_outcome(elements, (n - 1) as nat, wanted, complaint) {
            Err(e) => Err(e),
            Ok(()) => checked(elements[n - 1], wanted, complaint),
        }
    }
}

/// What the interpreter reported of a value that is to be read as an array
/// of numbers or of characters.
pub struct ArrayProbe {
    /// The answer to the type query on the value.
    pub tag: Result<i32, Fault>,
    /// The number of elements.
    pub bound: Result<usize, Fault>,
    /// The direct element type.
    pub eltype: Result<u32, Fault>,
    /// The answers to the type queries on the elements. An element that was
    /// never looked at plays no part.
    pub elements: Seq<Result<i32, Fault>>,
}

/// The number of elements of a value that is to be read as an array of
/// numbers (`numeric`) or of characters, or the reason why it cannot be
/// read so.
///
/// The value must be an array. If its direct element type is of the right
/// kind, that settles it. If not, every element must be of the right type.
pub open spec fn bounds_outcome(probe: ArrayProbe, numeric: bool) -> Result<usize, ErrorView> {
    guarded(
        probe.tag,
        BQNType::Array,
        "value isn't an array"@,
        match probe.bound {
            Err(f) => Err(reported(f@)),
            Ok(b) => match probe.eltype {
                Err(f) => Err(reported(f@)),
                Ok(eltype) => if needs_scan(eltype, numeric) {
                    match scan_outcome(
                        probe.elements,
                        b as nat,
                        element_type(numeric),
                        element_complaint(numeric),
                    ) {
                        Err(e) => Err(e),
                        Ok(()) => Ok(b),
                    }
                } else {
                    Ok(b)
                },
            },
        },
    )
}

/// Where a guarded operation fails with `InvalidType`, the value was of the
/// wrong type, or of none, or the error is the operation's own: a failure
/// of the type query is never reported so.
pub proof fn lemma_type_errors_are_the_bridges<T>(
    tag: Result<i32, Fault>,
    wanted: BQNType,
    complaint: Seq<char>,
    then: Result<T, ErrorView>,
)
    ensures
        guarded(tag, wanted, complaint, then) matches Err(ErrorView::InvalidType(m)) ==> {
            ||| then == Err::<T, ErrorView>(ErrorView::InvalidType(m))
            ||| (tag matches Ok(t) && BQNType::of_tag(t as int) is None && m == "Invalid type"@)
            ||| (tag matches Ok(t) && BQNType::of_tag(t as int) is Some && BQNType::of_tag(t as int)
                != Some(wanted) && m == complaint)
        },
{
}

/// Elements past the first `n` play no part in the look at the first `n`.
pub proof fn lemma_scan_ignores_rest(
    a: Seq<Result<i32, Fault>>,
    b: Seq<Result<i32, Fault>>,
    n: nat,
    wanted: BQNType,
    complaint: Seq<char>,
)
    requires
        forall|i: int| 0 <= i < n ==> a[i] == b[i],
    ensures
        scan_outcome(a, n, wanted, complaint) == scan_outcome(b, n, wanted, complaint),
    decreases n,
{
    if n > 0 {
        lemma_scan_ignores_rest(a, b, (n - 1) as nat, wanted, complaint);
    }
}

/// Once the look has failed, looking further changes nothing.
pub proof fn lemma_scan_stops_at_failure(
    elements: Seq<Result<i32, Fault>>,
    n: nat,
    m: nat,
    wanted: BQNType,
    complaint: Seq<char>,
)
    requires
        n <= m,
        scan_outcome(elements, n, wanted, complaint) is Err,
    ensures
        scan_outcome(elements, m, wanted, complaint)
            == scan_outcome(elements, n, wanted, complaint),
    decreases m,
{
    if n < m {
        lemma_scan_stops_at_failure(elements, n, (m - 1) as nat, wanted, complaint);
    }
}

/// The look at the first `n` elements succeeds exactly if each of them
/// could be queried and is of the wanted type.
pub proof fn lemma_scan_succeeds_iff_all_match(
    elements: Seq<Result<i32, Fault>>,
    n: nat,
    wanted: BQNType,
    complaint: Seq<char>,
)
    ensures
        scan_outcome(elements, n, wanted, complaint) is Ok <==> forall|i: int|
            0 <= i < n ==> type_outcome(#[trigger] elements[i]) == Ok::<BQNType, ErrorView>(wanted),
    decreases n,
{
    if n > 0 {
        lemma_scan_succeeds_iff_all_match(elements, (n - 1) as nat, wanted, complaint);
    }
}

} // verus!
