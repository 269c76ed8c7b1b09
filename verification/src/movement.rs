//! The movement system: one step along the x and y axes of a
//! positioned entity.

use vstd::prelude::*;
use crate::position::Position;

verus! {

/// The records one movement call declares.
pub struct Components {
    pub position: Position,
}

/// Advance the position one step along x and y. The coordinates must
/// have room to grow.
pub fn execute(components: &mut Components)
    requires
        old(components).position.x < i64::MAX,
        old(components).position.y < i64::MAX,
    ensures
        final(components).position.x == old(components).position.x + 1,
        final(components).position.y == old(components).position.y + 1,
        final(components).position.z == old(components).position.z,
        final(components).position.description == old(components).position.description,
{
    components.position.x = components.position.x + 1;
    components.position.y = components.position.y + 1;
}

} // verus!
