//! What holds of the bridge whatever the interpreter does.

use vstd::prelude::*;
use crate::bqntype::BQNType;
use crate::decide::{
    bounds_outcome, char_outcome, element_complaint, element_type, field_outcome, guarded,
    lemma_scan_succeeds_iff_all_match, needs_scan, read_outcome, type_outcome, ArrayProbe,
};
use crate::backend::Backend;
use crate::error::{lifted, ErrorView, Fault};
use crate::eval::concluded;
use crate::runtime::Runtime;
use crate::registry::{distinct, registered};
use crate::typecheck::{is_char, is_numeric};
use crate::value::BQNValue;
use crate::text::{decoded, encoded, lowercase, scalar_value, valid_field_name};

verus! {

/// Every character is the character of its own code point.
pub proof fn law_char_round_trip(c: char)
    ensures
        scalar_value(c as u32) == Some(c),
{
}

/// Text survives the way into code points and back: the characters that
/// the code points of a text stand for are the text itself.
///
/// This is the host's half of a string's round trip through the
/// interpreter. The other half is the interpreter's: that it hands back the
/// code points of the text it was given.
pub proof fn law_text_round_trip(text: Seq<char>)
    ensures
        decoded(encoded(text)) == text,
    decreases text.len(),
{
    if text.len() == 0 {
        assert(encoded(text) =~= Seq::<u32>::empty());
        assert(decoded(encoded(text)) =~= text);
    } else {
        let front = text.drop_last();
        law_text_round_trip(front);
        law_char_round_trip(text.last());
        assert(encoded(text).drop_last() =~= encoded(front));
        assert(encoded(text).last() == text.last() as u32);
        assert(decoded(encoded(text)) =~= decoded(encoded(front)) + seq![text.last()]);
        assert(front + seq![text.last()] =~= text);
    }
}

/// What a backend must promise of a list that it made of numbers, for the
/// numbers to come back: that the list answers as an array of that many
/// elements, stored as unboxed numbers, and that reading it gives the
/// numbers it was made of.
pub open spec fn keeps_numbers<B: Backend>(engine: B, arr: &[u64], h: u64) -> bool {
    &&& forall|tag: Result<i32, Fault>| #[trigger]
        call_ensures(B::bqn_type, (&engine, h), tag) ==> tag == Ok::<i32, Fault>(0)
    &&& forall|bound: Result<usize, Fault>| #[trigger]
        call_ensures(B::bqn_bound, (&engine, h), bound) ==> (bound matches Ok(b) && b == arr@.len())
    &&& forall|eltype: Result<u32, Fault>| #[trigger]
        call_ensures(B::bqn_directArrType, (&engine, h), eltype) ==> (eltype matches Ok(t)
            && is_numeric(t))
    &&& forall|b: usize, bits: Result<Vec<u64>, Fault>| #[trigger]
        call_ensures(B::bqn_readF64Arr, (&engine, h, b), bits) ==> b == arr@.len() ==> (bits
            matches Ok(v) && v@ == arr@)
}

/// Numbers survive the round trip: a list that was made of the bits of
/// doubles is read back as those bits, in number and in order, by every
/// backend that keeps what it is given. An empty list is no exception.
pub proof fn law_numbers_round_trip<'r, B: Backend>(
    list: BQNValue<'r, B>,
    arr: &[u64],
    probe: ArrayProbe,
    bits: Result<Vec<u64>, Fault>,
    out: Result<Seq<u64>, ErrorView>,
)
    requires
        keeps_numbers(list.engine(), arr, list@),
        list.numbers_read(probe, bits, out),
    ensures
        out == Ok::<Seq<u64>, ErrorView>(arr@),
{
}

/// What a backend must promise of a string that it made of a text, for
/// the text to come back: that the string answers as an array of as many
/// elements as the text has characters, stored as unboxed characters, and
/// that reading it gives the code points of the text.
pub open spec fn keeps_text<B: Backend>(engine: B, text: &str, h: u64) -> bool {
    &&& forall|tag: Result<i32, Fault>| #[trigger]
        call_ensures(B::bqn_type, (&engine, h), tag) ==> tag == Ok::<i32, Fault>(0)
    &&& forall|bound: Result<usize, Fault>| #[trigger]
        call_ensures(B::bqn_bound, (&engine, h), bound) ==> (bound matches Ok(b) && b
            == text@.len())
    &&& forall|eltype: Result<u32, Fault>| #[trigger]
        call_ensures(B::bqn_directArrType, (&engine, h), eltype) ==> (eltype matches Ok(t)
            && is_char(t))
    &&& forall|b: usize, codes: Result<Vec<u32>, Fault>| #[trigger]
        call_ensures(B::bqn_readC32Arr, (&engine, h, b), codes) ==> b == text@.len() ==> (codes
            matches Ok(v) && v@ == encoded(text@))
}

/// Text survives the round trip: a string that was made of a text is read
/// back as that text by every backend that keeps what it is given.
pub proof fn law_string_round_trip<'r, B: Backend>(
    string: BQNValue<'r, B>,
    text: &str,
    probe: ArrayProbe,
    codes: Result<Vec<u32>, Fault>,
    out: Result<Seq<char>, ErrorView>,
)
    requires
        keeps_text(string.engine(), text, string@),
        string.text_read(probe, codes, out),
    ensures
        out == Ok::<Seq<char>, ErrorView>(text@),
{
    law_text_round_trip(text@);
}

/// What a backend must promise of a copy, for a scalar to be read from it
/// as from the original: that it answers the question for the type, and
/// the requests to read a number or a character, as the original does.
pub open spec fn copy_answers_as<B: Backend>(engine: B, original: u64, copy: u64) -> bool {
    &&& forall|tag: Result<i32, Fault>| #[trigger]
        call_ensures(B::bqn_type, (&engine, copy), tag) ==> call_ensures(
            B::bqn_type,
            (&engine, original),
            tag,
        )
    &&& forall|bits: Result<u64, Fault>| #[trigger]
        call_ensures(B::bqn_readF64, (&engine, copy), bits) ==> call_ensures(
            B::bqn_readF64,
            (&engine, original),
            bits,
        )
    &&& forall|code: Result<u32, Fault>| #[trigger]
        call_ensures(B::bqn_readChar, (&engine, copy), code) ==> call_ensures(
            B::bqn_readChar,
            (&engine, original),
            code,
        )
}

/// A clone of a number or of a character is read as the original is: what
/// is read from the clone is something that could have been read from the
/// original, with every backend whose copies answer as the original.
pub proof fn law_clone_of_a_scalar_reads_as_the_original<'r, B: Backend>(
    original: BQNValue<'r, B>,
    clone: BQNValue<'r, B>,
    tag: Result<i32, Fault>,
    bits: Result<u64, Fault>,
    code: Result<u32, Fault>,
    number: Result<u64, ErrorView>,
    character: Result<Option<char>, ErrorView>,
)
    requires
        clone.home() == original.home(),
        copy_answers_as(original.engine(), original@, clone@),
    ensures
        clone.number_read(tag, bits, number) ==> original.number_read(tag, bits, number),
        clone.char_read(tag, code, character) ==> original.char_read(tag, code, character),
{
}

/// A value of the wrong type is not read: where the type query says that
/// the value is no number, reading a number fails with `InvalidType`, and
/// the backend is not asked for the number.
pub proof fn law_no_number_is_read_from_another_type<'r, B: Backend>(
    v: BQNValue<'r, B>,
    tag: i32,
    bits: Result<u64, Fault>,
    out: Result<u64, ErrorView>,
)
    requires
        BQNType::of_tag(tag as int) != Some(BQNType::Number),
        v.number_read(Ok(tag), bits, out),
    ensures
        out is Err,
        out->Err_0 is InvalidType,
        forall|other: Result<u64, Fault>| v.number_read(Ok(tag), other, out),
{
}

/// Code points that are scalar values all survive decoding, in number and
/// in order; one that is no scalar value is dropped.
pub proof fn law_decoding_is_lossy_only_on_non_scalars(codes: Seq<u32>, code: u32)
    ensures
        decoded(codes.push(code)) == match scalar_value(code) {
            Some(c) => decoded(codes).push(c),
            None => decoded(codes),
        },
{
    assert(codes.push(code).drop_last() =~= codes);
    match scalar_value(code) {
        Some(c) => {
            assert(decoded(codes) + seq![c] =~= decoded(codes).push(c));
        },
        None => {},
    }
}

/// An operation that is defined on values of one type fails on a value of
/// any other type, with `InvalidType` and the operation's own message, and
/// without a look at anything else the interpreter might say.
pub proof fn law_type_mismatch_fails<T>(
    tag: i32,
    wanted: BQNType,
    complaint: Seq<char>,
    then: Result<T, ErrorView>,
)
    requires
        BQNType::of_tag(tag as int) != Some(wanted),
    ensures
        guarded(Ok(tag), wanted, complaint, then) is Err,
        guarded(Ok(tag), wanted, complaint, then)->Err_0 is InvalidType,
        BQNType::of_tag(tag as int) is Some ==> guarded(Ok(tag), wanted, complaint, then) == Err::<
            T,
            ErrorView,
        >(ErrorView::InvalidType(complaint)),
        forall|other: Result<T, ErrorView>|
            #[trigger] guarded(Ok(tag), wanted, complaint, other) == guarded(
                Ok(tag),
                wanted,
                complaint,
                then,
            ),
{
}

/// An operation on a value of the type it is defined on yields what the
/// interpreter reads from the value.
pub proof fn law_type_match_passes<T>(
    wanted: BQNType,
    complaint: Seq<char>,
    then: Result<T, ErrorView>,
)
    ensures
        guarded(Ok(wanted.tag() as i32), wanted, complaint, then) == then,
{
}

/// A character converts to the `char` of its code point if that is a scalar
/// value, and to `None` if not; a value that is no character does not
/// convert.
pub proof fn law_char_conversion(tag: i32, code: u32)
    ensures
        BQNType::of_tag(tag as int) == Some(BQNType::Character) ==> guarded(
            Ok(tag),
            BQNType::Character,
            "value isn't a character"@,
            char_outcome(Ok(code)),
        ) == Ok::<Option<char>, ErrorView>(scalar_value(code)),
        BQNType::of_tag(tag as int) != Some(BQNType::Character) ==> guarded(
            Ok(tag),
            BQNType::Character,
            "value isn't a character"@,
            char_outcome(Ok(code)),
        ) is Err,
{
}

/// A value that is no array cannot be read as an array of numbers or of
/// characters, whatever else the interpreter says of it.
pub proof fn law_non_array_is_not_read<T>(
    probe: ArrayProbe,
    numeric: bool,
    data: Result<Vec<T>, Fault>,
)
    requires
        probe.tag matches Ok(tag) && BQNType::of_tag(tag as int) != Some(BQNType::Array),
    ensures
        bounds_outcome(probe, numeric) is Err,
        bounds_outcome(probe, numeric)->Err_0 is InvalidType,
        read_outcome(probe, numeric, data) is Err,
        read_outcome(probe, numeric, data)->Err_0 is InvalidType,
{
}

/// An array whose direct element type settles nothing, and which holds an
/// element of the wrong type, cannot be read: the look at its elements
/// fails.
pub proof fn law_foreign_element_is_found<T>(
    probe: ArrayProbe,
    numeric: bool,
    data: Result<Vec<T>, Fault>,
    i: int,
)
    requires
        probe.tag matches Ok(tag) && BQNType::of_tag(tag as int) == Some(BQNType::Array),
        probe.bound matches Ok(b) && 0 <= i < b,
        probe.eltype matches Ok(eltype) && needs_scan(eltype, numeric),
        type_outcome(probe.elements[i]) != Ok::<BQNType, ErrorView>(element_type(numeric)),
    ensures
        bounds_outcome(probe, numeric) is Err,
        read_outcome(probe, numeric, data) is Err,
{
    let b = probe.bound->Ok_0;
    lemma_scan_succeeds_iff_all_match(
        probe.elements,
        b as nat,
        element_type(numeric),
        element_complaint(numeric),
    );
}

/// An array of the right direct element type is read without a look at its
/// elements, and an array whose elements are all of the right type is read
/// after the look: both yield what the interpreter wrote.
pub proof fn law_matching_array_is_read<T>(
    probe: ArrayProbe,
    numeric: bool,
    data: Result<Vec<T>, Fault>,
)
    requires
        probe.tag matches Ok(tag) && BQNType::of_tag(tag as int) == Some(BQNType::Array),
        probe.bound is Ok,
        probe.eltype is Ok,
        needs_scan(probe.eltype->Ok_0, numeric) ==> forall|i: int|
            0 <= i < probe.bound->Ok_0 ==> type_outcome(#[trigger] probe.elements[i]) == Ok::<
                BQNType,
                ErrorView,
            >(element_type(numeric)),
    ensures
        bounds_outcome(probe, numeric) == Ok::<usize, ErrorView>(probe.bound->Ok_0),
        read_outcome(probe, numeric, data) == match data {
            Ok(elements) => Ok::<Seq<T>, ErrorView>(elements@),
            Err(f) => Err(crate::error::reported(f@)),
        },
{
    lemma_scan_succeeds_iff_all_match(
        probe.elements,
        probe.bound->Ok_0 as nat,
        element_type(numeric),
        element_complaint(numeric),
    );
}

/// Whether a character cannot occur in the name under which a field is
/// looked up: it is an underscore, or it is not lowercase.
pub open spec fn breaks_field_convention(c: char) -> bool {
    c == '_' || !lowercase(c)
}

/// The uppercase letters of ASCII and the underscore cannot occur in the
/// name of a field.
pub proof fn law_uppercase_breaks_field_convention(c: char)
    requires
        c == '_' || 65 <= (c as u32) <= 90,
    ensures
        breaks_field_convention(c),
{
}

/// Under a name with a character that cannot occur in a field's name,
/// nothing is found: the lookup answers `absent` whatever the value is and
/// whatever the interpreter would say.
pub proof fn law_unusable_name_finds_nothing<T>(
    name: Seq<char>,
    i: int,
    tag: Result<i32, Fault>,
    answer: Result<T, Fault>,
    absent: T,
)
    requires
        0 <= i < name.len(),
        breaks_field_convention(name[i]),
    ensures
        !valid_field_name(name),
        field_outcome(name, tag, answer, absent) == Ok::<T, ErrorView>(absent),
{
}

/// Under a name that a field can have, a lookup in a value that is no
/// namespace fails with `InvalidType`.
pub proof fn law_lookup_needs_namespace<T>(
    name: Seq<char>,
    tag: i32,
    answer: Result<T, Fault>,
    absent: T,
)
    requires
        valid_field_name(name),
        BQNType::of_tag(tag as int) != Some(BQNType::Namespace),
    ensures
        field_outcome(name, Ok(tag), answer, absent) is Err,
        field_outcome(name, Ok(tag), answer, absent)->Err_0 is InvalidType,
{
}

/// A script that ran gives its result: with a flag of zero the evaluation
/// yields the payload, whatever the payload is.
pub proof fn law_finished_script_gives_its_result<B: Backend>(
    rt: &Runtime<B>,
    payload: u64,
    words: Result<Seq<char>, ErrorView>,
    out: Result<u64, ErrorView>,
)
    requires
        concluded(rt, Ok(0), Ok(payload), words, out),
    ensures
        out == Ok::<u64, ErrorView>(payload),
{
}

/// A script that failed is told apart from a misuse of the bridge: with any
/// flag but zero the evaluation fails, and where the interpreter's words
/// could be read, with a `CBQN` error that carries them.
pub proof fn law_failed_script_is_a_cbqn_error<B: Backend>(
    rt: &Runtime<B>,
    flag: u64,
    payload: u64,
    words: Result<Seq<char>, ErrorView>,
    out: Result<u64, ErrorView>,
)
    requires
        flag != 0,
        concluded(rt, Ok(flag), Ok(payload), words, out),
    ensures
        out is Err,
        words matches Ok(text) ==> out == Err::<u64, ErrorView>(ErrorView::CBQN(text)),
{
}

/// A failure of the backend is never reported as a value of the wrong
/// type: where an operation on a value of the right type fails, the error
/// is `CBQN` or `NotSupported`.
pub proof fn law_backend_failures_are_no_type_errors<T>(
    wanted: BQNType,
    complaint: Seq<char>,
    answer: Result<T, Fault>,
)
    requires
        answer is Err,
    ensures
        guarded(Ok(wanted.tag() as i32), wanted, complaint, lifted(answer)) matches Err(e)
            && !(e is InvalidType),
        guarded(answer_of_failed_query(answer), wanted, complaint, lifted(answer)) matches Err(e)
            && !(e is InvalidType),
{
}

/// The answer to a type query that failed as `answer` did.
pub open spec fn answer_of_failed_query<T>(answer: Result<T, Fault>) -> Result<i32, Fault> {
    match answer {
        Err(f) => Err(f),
        Ok(_) => Ok(0),
    }
}

/// Registering a function keeps the keys of the functions registered
/// before, and keeps keys unique: no two keys stand for one identity.
pub proof fn law_registration_keeps_keys(
    before: Seq<usize>,
    after: Seq<usize>,
    identity: usize,
    key: u64,
)
    requires
        distinct(before),
        registered(before, after, identity, key),
    ensures
        distinct(after),
        before.len() <= after.len(),
        forall|k: int| 0 <= k < before.len() ==> after[k] == before[k],
        forall|k: int| 0 <= k < after.len() && after[k] == identity ==> k == key,
{
    if before.contains(identity) {
    } else {
        assert forall|i: int, j: int| 0 <= i < j < after.len() implies after[i] != after[j] by {
            if j == before.len() {
                assert(before[i] == after[i]);
            } else {
                assert(before[i] == after[i]);
                assert(before[j] == after[j]);
            }
        }
    }
}

} // verus!
