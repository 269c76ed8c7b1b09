//! A positioned entity on a three-axis grid, with a free-form
//! description.

use vstd::prelude::*;

verus! {

/// A point on the grid.
#[derive(Clone, Debug)]
pub struct Position {
    pub x: i64,
    pub y: i64,
    pub z: i64,
    pub description: String,
}

} // verus!
