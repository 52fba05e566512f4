//! Ownership and borrowing of a player's name.
use vstd::prelude::*;
use vstd::string::*;

verus! {

/// A player known only by name.
pub struct Player {
    pub name: String,
}

impl Player {
    /// A player holding its own copy of `name`.
    pub fn new(name: &str) -> (p: Player)
        ensures
            p.name@ == name@,
    {
        Player { name: String::from_str(name) }
    }
}

/// Borrows a string and leaves it as it was.
#[allow(non_snake_case)]
pub fn addToMyStrings2(p0: &String) {
}

/// Borrows a string mutably and leaves it as it was.
#[allow(non_snake_case)]
pub fn addToMyStrings(p0: &mut String)
    ensures
        final(p0)@ == old(p0)@,
{
}

} // verus!
