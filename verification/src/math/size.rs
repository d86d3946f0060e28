//! A size in whole device pixels.

use vstd::prelude::*;

verus! {

/// A width/height pair in whole device pixels.
#[derive(Clone, Copy, Debug, PartialEq, Eq, Structural)]
pub struct Size {
    pub x: u32,
    pub y: u32,
}

impl Size {
    pub fn new(x: u32, y: u32) -> (s: Size)
        ensures
            s.x == x,
            s.y == y,
    {
        Size { x, y }
    }

    /// How many pixels the size covers.
    pub fn count(&self) -> (n: u32)
        requires
            self.x * self.y <= u32::MAX,
        ensures
            n == self.x * self.y,
    {
        self.x * self.y
    }
}

impl From<[u32; 2]> for Size {
    fn from(vs: [u32; 2]) -> (s: Size) {
        Size { x: vs[0], y: vs[1] }
    }
}

impl vstd::std_specs::convert::FromSpecImpl<[u32; 2]> for Size {
    open spec fn obeys_from_spec() -> bool {
        true
    }

    open spec fn from_spec(vs: [u32; 2]) -> Size {
        Size { x: vs[0], y: vs[1] }
    }
}

impl From<Size> for [u32; 2] {
    fn from(s: Size) -> (vs: [u32; 2]) {
        [s.x, s.y]
    }
}

impl vstd::std_specs::convert::FromSpecImpl<Size> for [u32; 2] {
    open spec fn obeys_from_spec() -> bool {
        true
    }

    open spec fn from_spec(s: Size) -> [u32; 2] {
        [s.x, s.y]
    }
}

impl From<(u32, u32)> for Size {
    fn from(data: (u32, u32)) -> (s: Size) {
        Size { x: data.0, y: data.1 }
    }
}

impl vstd::std_specs::convert::FromSpecImpl<(u32, u32)> for Size {
    open spec fn obeys_from_spec() -> bool {
        true
    }

    open spec fn from_spec(data: (u32, u32)) -> Size {
        Size { x: data.0, y: data.1 }
    }
}

impl From<Size> for (u32, u32) {
    fn from(s: Size) -> (data: (u32, u32)) {
        (s.x, s.y)
    }
}

impl vstd::std_specs::convert::FromSpecImpl<Size> for (u32, u32) {
    open spec fn obeys_from_spec() -> bool {
        true
    }

    open spec fn from_spec(s: Size) -> (u32, u32) {
        (s.x, s.y)
    }
}

} // verus!
