//! Runtime type identity, synthesized as a per-type token.

use vstd::prelude::*;

verus! {

/// A runtime identity token for a concrete type.
///
/// The token is a property of the type alone: it is fixed when the program is
/// written, never depends on any value of the type, and never changes over
/// the life of the process. Two types count as the same identity exactly when
/// their tokens are equal, so an implementation must pick a token that no
/// other implementing type uses. The tokens up to 16 are reserved for the
/// implementations this crate provides; implementations elsewhere should pick
/// larger ones.
///
/// An implementation returns one and the same constant from both items:
/// `token_spec` is the token as the contracts speak of it, `token` is the
/// token as the program computes it, and the contract on `token` holds the
/// two together.
pub trait AnyTag {
    /// The type's token, as specification-level data.
    spec fn token_spec() -> u64;

    /// Returns the type's token.
    fn token() -> (r: u64)
        ensures
            r == Self::token_spec(),
    ;
}

impl AnyTag for bool {
    open spec fn token_spec() -> u64 {
        1
    }

    fn token() -> (r: u64)
        ensures
            r == Self::token_spec(),
    {
        1
    }
}

impl AnyTag for char {
    open spec fn token_spec() -> u64 {
        2
    }

    fn token() -> (r: u64)
        ensures
            r == Self::token_spec(),
    {
        2
    }
}

impl AnyTag for u8 {
    open spec fn token_spec() -> u64 {
        3
    }

    fn token() -> (r: u64)
        ensures
            r == Self::token_spec(),
    {
        3
    }
}

impl AnyTag for u16 {
    open spec fn token_spec() -> u64 {
        4
    }

    fn token() -> (r: u64)
        ensures
            r == Self::token_spec(),
    {
        4
    }
}

impl AnyTag for u32 {
    open spec fn token_spec() -> u64 {
        5
    }

    fn token() -> (r: u64)
        ensures
            r == Self::token_spec(),
    {
        5
    }
}

impl AnyTag for u64 {
    open spec fn token_spec() -> u64 {
        6
    }

    fn token() -> (r: u64)
        ensures
            r == Self::token_spec(),
    {
        6
    }
}

impl AnyTag for usize {
    open spec fn token_spec() -> u64 {
        7
    }

    fn token() -> (r: u64)
        ensures
            r == Self::token_spec(),
    {
        7
    }
}

impl AnyTag for i8 {
    open spec fn token_spec() -> u64 {
        8
    }

    fn token() -> (r: u64)
        ensures
            r == Self::token_spec(),
    {
        8
    }
}

impl AnyTag for i16 {
    open spec fn token_spec() -> u64 {
        9
    }

    fn token() -> (r: u64)
        ensures
            r == Self::token_spec(),
    {
        9
    }
}

impl AnyTag for i32 {
    open spec fn token_spec() -> u64 {
        10
    }

    fn token() -> (r: u64)
        ensures
            r == Self::token_spec(),
    {
        10
    }
}

impl AnyTag for i64 {
    open spec fn token_spec() -> u64 {
        11
    }

    fn token() -> (r: u64)
        ensures
            r == Self::token_spec(),
    {
        11
    }
}

impl AnyTag for isize {
    open spec fn token_spec() -> u64 {
        12
    }

    fn token() -> (r: u64)
        ensures
            r == Self::token_spec(),
    {
        12
    }
}

impl AnyTag for String {
    open spec fn token_spec() -> u64 {
        13
    }

    fn token() -> (r: u64)
        ensures
            r == Self::token_spec(),
    {
        13
    }
}

} // verus!
