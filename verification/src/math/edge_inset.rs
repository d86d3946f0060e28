//! Insets from the four edges of a rectangle.

use vstd::prelude::*;

verus! {

/// Fixed-point insets from the four edges of a rectangle.
#[derive(Clone, Copy, Debug, PartialEq, Eq, Structural)]
pub struct EdgeInset {
    pub top: i64,
    pub right: i64,
    pub bottom: i64,
    pub left: i64,
}

} // verus!
