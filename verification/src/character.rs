//! The character kind a player refers to.

use vstd::prelude::*;

verus! {

/// A character kind from the character catalog. The catalog itself is an
/// external collaborator; the core only carries the chosen kind by name,
/// immutable after a player is constructed.
#[derive(Debug, Clone)]
pub struct Character {
    pub name: String,
}

impl Character {
    pub fn new(name: String) -> (c: Character)
        ensures
            c.name == name,
    {
        Character { name }
    }
}

} // verus!
