use vstd::prelude::*;

verus! {

/// The file operation applied when sorting tagged images into label folders.
#[derive(Debug, Clone, Copy, PartialEq, Eq, Structural)]
pub enum OrganizeMode {
    Copy,
    Move,
    Link,
}

/// The mode that follows `m` in the fixed cycle Copy, Move, Link, Copy, ...
pub open spec fn next_mode(m: OrganizeMode) -> OrganizeMode {
    match m {
        OrganizeMode::Copy => OrganizeMode::Move,
        OrganizeMode::Move => OrganizeMode::Link,
        OrganizeMode::Link => OrganizeMode::Copy,
    }
}

impl OrganizeMode {
    /// Advances to the next mode of the cycle.
    pub fn next(&mut self)
        ensures
            *final(self) == next_mode(*old(self)),
    {
        *self = match *self {
            OrganizeMode::Copy => OrganizeMode::Move,
            OrganizeMode::Move => OrganizeMode::Link,
            OrganizeMode::Link => OrganizeMode::Copy,
        };
    }
}

} // verus!
