use vstd::prelude::*;

verus! {

/// Identifier of a node in the scene's node arena.
#[derive(Clone, Copy, Debug, PartialEq, Eq, Structural)]
pub struct GameNodeId {
    pub index: u32,
    pub generation: u32,
}

/// Stable handle of a collider in the physics world.
#[derive(Clone, Copy, Debug, PartialEq, Eq, Structural)]
pub struct ColliderHandle {
    pub index: u32,
    pub generation: u32,
}

impl ColliderHandle {
    /// Whether two handles name the same collider.
    pub fn same_as(&self, other: &ColliderHandle) -> (r: bool)
        ensures
            r == (*self == *other),
    {
        self.index == other.index && self.generation == other.generation
    }
}

} // verus!
