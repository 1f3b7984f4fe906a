use vstd::prelude::*;

verus! {

/// An entity identifier: a slot index paired with a generation counter.
///
/// The index names a slot in a generational arena; the generation
/// disambiguates successive entities that occupy the same slot over time.
/// Two identifiers are equal exactly when both fields match.
#[derive(Clone, Copy, PartialEq, Eq, PartialOrd, Ord, Hash, Debug, Structural)]
pub struct Entity {
    /// The slot index within the arena.
    pub index: u32,
    /// The generation counter stored for that slot when this identifier
    /// was issued.
    pub generation: u32,
}

} // verus!
