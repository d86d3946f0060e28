//! Vertex layouts whose data the library itself fills in.

use vstd::prelude::*;

verus! {

/// A vertex carrying a particle's integer grid index.
#[derive(Clone, Copy, Debug)]
pub struct PosParticleIndex {
    pub pos: [u32; 3],
}

impl PosParticleIndex {
    pub fn new(pos: [u32; 3]) -> (v: PosParticleIndex)
        ensures
            v.pos == pos,
    {
        PosParticleIndex { pos }
    }
}

} // verus!
