//! Markers that select a wire format, a strictness, or a separator.

use vstd::prelude::*;

verus! {

/// A wire format of a quantity: a signed or an unsigned integer, a number with a
/// fraction, or a string.
pub trait Format {

}

/// The wire format of a number with a fraction, in double precision.
pub struct Double;

impl Format for i8 {

}

impl Format for i16 {

}

impl Format for i32 {

}

impl Format for i64 {

}

impl Format for i128 {

}

impl Format for u8 {

}

impl Format for u16 {

}

impl Format for u32 {

}

impl Format for u64 {

}

impl Format for u128 {

}

impl Format for Double {

}

impl Format for String {

}

/// How much an adapter accepts on input.
pub trait Strictness {

}

/// Accepts exactly the wire shape that is produced.
pub struct Strict;

/// Accepts the quantity as a number or as a string.
pub struct Flexible;

impl Strictness for Strict {

}

impl Strictness for Flexible {

}

/// The text between the items of a list that is written as one string.
pub trait Separator {
    /// The separator.
    open spec fn spec_separator() -> Seq<char> {
        arbitrary()
    }

    /// The separator.
    fn separator() -> (text: &'static str)
        ensures
            text@ == Self::spec_separator(),
    ;
}

/// Separates items by one space.
pub struct SpaceSeparator;

/// Separates items by one comma.
pub struct CommaSeparator;

impl Separator for SpaceSeparator {
    open spec fn spec_separator() -> Seq<char> {
        " "@
    }

    fn separator() -> (text: &'static str) {
        " "
    }
}

impl Separator for CommaSeparator {
    open spec fn spec_separator() -> Seq<char> {
        ","@
    }

    fn separator() -> (text: &'static str) {
        ","
    }
}

} // verus!
