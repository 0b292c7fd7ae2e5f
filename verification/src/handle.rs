//! Handles of the two engines.
//!
//! Both engines store their bodies in generational arenas and name a slot by
//! an index and the generation that filled it. The two handle spaces are
//! allocated independently, so each has a type of its own.

use vstd::prelude::*;

verus! {

/// Number of distinct generations, by which an index is scaled inside a key.
pub const GENERATIONS: u128 = 0x1_0000_0000_0000_0000;

/// Handle of a body or of a collider in the source engine.
#[derive(Clone, Copy, Debug, PartialEq, Eq, Structural)]
pub struct SourceHandle {
    pub index: usize,
    pub generation: u64,
}

/// Handle of a body in the target engine.
#[derive(Clone, Copy, Debug, PartialEq, Eq, Structural)]
pub struct TargetHandle {
    pub index: usize,
    pub generation: u64,
}

/// Handle of a body in the source engine.
pub type BodyHandle = SourceHandle;

/// Handle of a collider in the source engine.
pub type ColliderHandle = SourceHandle;

impl SourceHandle {
    /// The integer that stands for this handle in a hash map.
    pub open spec fn spec_key(self) -> u128 {
        (self.index * GENERATIONS + self.generation) as u128
    }

    /// A handle from the two parts that the source engine gives out.
    pub fn new(index: usize, generation: u64) -> (h: SourceHandle)
        ensures
            h.index == index,
            h.generation == generation,
    {
        SourceHandle { index, generation }
    }

    /// Packs the handle into one integer; distinct handles give distinct keys.
    #[verifier::when_used_as_spec(spec_key)]
    pub fn key(self) -> (k: u128)
        ensures
            k == self.spec_key(),
            k == self.index * GENERATIONS + self.generation,
    {
        let wide: u128 = self.index as u128;
        let low: u128 = self.generation as u128;
        wide * GENERATIONS + low
    }
}

impl TargetHandle {
    /// A handle from the two parts that the target engine gives out.
    pub fn new(index: usize, generation: u64) -> (h: TargetHandle)
        ensures
            h.index == index,
            h.generation == generation,
    {
        TargetHandle { index, generation }
    }
}

/// Two source handles with the same key are the same handle.
pub proof fn lemma_key_injective(a: SourceHandle, b: SourceHandle)
    ensures
        a.spec_key() == b.spec_key() <==> a == b,
{
    let ka: int = a.index * GENERATIONS + a.generation;
    let kb: int = b.index * GENERATIONS + b.generation;
    assert(0 <= ka < 0x1_0000_0000_0000_0000_0000_0000_0000_0000) by (nonlinear_arith)
        requires
            ka == a.index * 0x1_0000_0000_0000_0000 + a.generation,
            0 <= a.index <= 0xffff_ffff_ffff_ffff,
            0 <= a.generation <= 0xffff_ffff_ffff_ffff,
    ;
    assert(0 <= kb < 0x1_0000_0000_0000_0000_0000_0000_0000_0000) by (nonlinear_arith)
        requires
            kb == b.index * 0x1_0000_0000_0000_0000 + b.generation,
            0 <= b.index <= 0xffff_ffff_ffff_ffff,
            0 <= b.generation <= 0xffff_ffff_ffff_ffff,
    ;
    if ka == kb {
        assert(a.index == b.index && a.generation == b.generation) by (nonlinear_arith)
            requires
                a.index * 0x1_0000_0000_0000_0000 + a.generation == b.index
                    * 0x1_0000_0000_0000_0000 + b.generation,
                0 <= a.generation < 0x1_0000_0000_0000_0000,
                0 <= b.generation < 0x1_0000_0000_0000_0000,
        ;
    }
}

} // verus!
