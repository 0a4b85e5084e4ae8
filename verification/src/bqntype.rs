//! The seven kinds of value that the interpreter distinguishes.

use vstd::prelude::*;

verus! {

/// The type of a BQN value, as the interpreter's type query reports it.
#[derive(Debug, Clone, Copy, PartialEq, Eq, Structural)]
pub enum BQNType {
    Array,
    Number,
    Character,
    Function,
    /// 1-modifier
    Mod1,
    /// 2-modifier
    Mod2,
    Namespace,
}

impl BQNType {
    /// The number by which the interpreter names this type.
    pub open spec fn tag(self) -> int {
        match self {
            BQNType::Array => 0,
            BQNType::Number => 1,
            BQNType::Character => 2,
            BQNType::Function => 3,
            BQNType::Mod1 => 4,
            BQNType::Mod2 => 5,
            BQNType::Namespace => 6,
        }
    }

    /// The type that a number names, if it names one.
    pub open spec fn of_tag(tag: int) -> Option<BQNType> {
        if tag == 0 {
            Some(BQNType::Array)
        } else if tag == 1 {
            Some(BQNType::Number)
        } else if tag == 2 {
            Some(BQNType::Character)
        } else if tag == 3 {
            Some(BQNType::Function)
        } else if tag == 4 {
            Some(BQNType::Mod1)
        } else if tag == 5 {
            Some(BQNType::Mod2)
        } else if tag == 6 {
            Some(BQNType::Namespace)
        } else {
            None
        }
    }

    /// Classifies the number that the interpreter's type query returned.
    ///
    /// Succeeds exactly on the numbers 0 to 6; any other number is rejected
    /// with the message `Invalid type`.
    pub fn try_from(value: i32) -> (r: Result<BQNType, &'static str>)
        ensures
            match r {
                Ok(t) => BQNType::of_tag(value as int) == Some(t),
                Err(m) => BQNType::of_tag(value as int) is None && m@ == "Invalid type"@,
            },
    {
        match value {
            0 => Ok(BQNType::Array),
            1 => Ok(BQNType::Number),
            2 => Ok(BQNType::Character),
            3 => Ok(BQNType::Function),
            4 => Ok(BQNType::Mod1),
            5 => Ok(BQNType::Mod2),
            6 => Ok(BQNType::Namespace),
            _ => Err("Invalid type"),
        }
    }

    /// The number by which the interpreter names this type.
    pub fn to_tag(self) -> (tag: i32)
        ensures
            tag as int == self.tag(),
    {
        match self {
            BQNType::Array => 0,
            BQNType::Number => 1,
            BQNType::Character => 2,
            BQNType::Function => 3,
            BQNType::Mod1 => 4,
            BQNType::Mod2 => 5,
            BQNType::Namespace => 6,
        }
    }
}

/// Every type is named by a number from 0 to 6, and that number names no
/// other type.
pub proof fn lemma_tag_round_trip(t: BQNType)
    ensures
        0 <= t.tag() <= 6,
        BQNType::of_tag(t.tag()) == Some(t),
{
}

/// A number names at most one type, and that type's number is the number
/// itself.
pub proof fn lemma_of_tag_is_inverse(tag: int)
    ensures
        BQNType::of_tag(tag) is Some <==> 0 <= tag <= 6,
        BQNType::of_tag(tag) matches Some(t) ==> t.tag() == tag,
{
}

} // verus!
