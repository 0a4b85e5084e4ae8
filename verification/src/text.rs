//! Characters on the boundary: code points read back from the interpreter,
//! and the names by which a namespace's fields are looked up.

use vstd::prelude::*;

verus! {

/// Whether a code point is a Unicode scalar value: any code point up to
/// U+10FFFF that is not a surrogate.
pub open spec fn is_scalar_value(code: u32) -> bool {
    code <= 0xD7FF || (0xE000 <= code && code <= 0x10FFFF)
}

/// The character with the given code point, if the code point is a scalar
/// value.
pub open spec fn scalar_value(code: u32) -> Option<char> {
    if is_scalar_value(code) {
        Some(code as char)
    } else {
        None
    }
}

/// `char::from_u32` returns the character for a scalar value and `None` for
/// a surrogate or a number above U+10FFFF.
pub assume_specification[ char::from_u32 ](i: u32) -> (r: Option<char>)
    ensures
        r == scalar_value(i),
;

/// Whether a character outside ASCII has the Unicode property `Lowercase`,
/// as `char::is_lowercase` reports it.
pub uninterp spec fn unicode_lowercase(c: char) -> bool;

/// Whether a character has the Unicode property `Lowercase`. Among the
/// ASCII characters those are the letters `a` to `z`.
pub open spec fn lowercase(c: char) -> bool {
    if (c as u32) < 128 {
        97 <= (c as u32) <= 122
    } else {
        unicode_lowercase(c)
    }
}

/// `char::is_lowercase` tells whether the character has the Unicode property
/// `Lowercase`: for an ASCII character, whether it is one of the letters `a`
/// to `z`; for any other character, what the Unicode tables say.
pub assume_specification[ char::is_lowercase ](c: char) -> (r: bool)
    ensures
        (c as u32) < 128 ==> (r <==> 97 <= (c as u32) <= 122),
        (c as u32) >= 128 ==> r == unicode_lowercase(c),
;

/// `String::push` appends one character to the end of the string.
pub assume_specification[ String::push ](s: &mut String, c: char)
    ensures
        final(s)@ == old(s)@.push(c),
;

/// The characters that a sequence of code points stands for: every scalar
/// value among them, in order. Code points that are no scalar values are
/// left out.
pub open spec fn decoded(codes: Seq<u32>) -> Seq<char> {
    codes.filter_map(|code: u32| scalar_value(code))
}

/// The code point of a character.
pub open spec fn codepoint(c: char) -> u32 {
    c as u32
}

/// The code points of a sequence of characters.
pub open spec fn encoded(text: Seq<char>) -> Seq<u32> {
    text.map_values(|c: char| codepoint(c))
}

/// Whether a character may occur in the name of a namespace field: the
/// interpreter looks fields up by names in lowercase without underscores.
pub open spec fn field_char_ok(c: char) -> bool {
    lowercase(c) && c != '_'
}

/// Whether a namespace field can be looked up under this name.
pub open spec fn valid_field_name(name: Seq<char>) -> bool {
    forall|i: int| 0 <= i < name.len() ==> field_char_ok(#[trigger] name[i])
}

/// Converts a code point to a character, if it is a scalar value.
pub fn char_from_codepoint(code: u32) -> (r: Option<char>)
    ensures
        r == scalar_value(code),
{
    char::from_u32(code)
}

/// Whether a namespace field can be looked up under `field`: every character
/// is lowercase and none is an underscore.
pub fn is_valid_namespace_field(field: &str) -> (r: bool)
    ensures
        r == valid_field_name(field@),
{
    let mut ok: bool = true;
    for c in it: field.chars()
        invariant
            it.seq() == field@,
            ok <==> forall|i: int| 0 <= i < it.index() ==> field_char_ok(#[trigger] field@[i]),
    {
        if !(c.is_lowercase() && c != '_') {
            ok = false;
        }
    }
    ok
}

/// Converts code points to characters, dropping those that are no scalar
/// values.
pub fn chars_from_codepoints(codes: &Vec<u32>) -> (r: Vec<char>)
    ensures
        r@ == decoded(codes@),
{
    let mut out: Vec<char> = Vec::new();
    let mut i: usize = 0;
    while i < codes.len()
        invariant
            i <= codes.len(),
            out@ == decoded(codes@.take(i as int)),
        decreases codes.len() - i,
    {
        proof {
            codes@.lemma_filter_map_take_succ(|code: u32| scalar_value(code), i as int);
        }
        match char::from_u32(codes[i]) {
            Some(c) => {
                out.push(c);
            },
            None => {},
        }
        i = i + 1;
    }
    assert(codes@.take(codes.len() as int) =~= codes@);
    out
}

/// Converts code points to a string, dropping those that are no scalar
/// values.
pub fn string_from_codepoints(codes: &Vec<u32>) -> (r: String)
    ensures
        r@ == decoded(codes@),
{
    let mut out: String = String::new();
    let mut i: usize = 0;
    while i < codes.len()
        invariant
            i <= codes.len(),
            out@ == decoded(codes@.take(i as int)),
        decreases codes.len() - i,
    {
        proof {
            codes@.lemma_filter_map_take_succ(|code: u32| scalar_value(code), i as int);
        }
        match char::from_u32(codes[i]) {
            Some(c) => {
                out.push(c);
            },
            None => {},
        }
        i = i + 1;
    }
    assert(codes@.take(codes.len() as int) =~= codes@);
    out
}

} // verus!
