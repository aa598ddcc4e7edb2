use crate::constants::{COMPUTE_WORKGROUP_SIZE, NUM_PARTICLES};
use vstd::prelude::*;

verus! {

/// Bytes from one particle record to the next in the pool.
pub const PARTICLE_STRIDE: u64 = 48;

/// Byte offset of a particle's position (two 32-bit values) in its record.
pub const PARTICLE_POSITION_OFFSET: u64 = 0;

/// Byte offset of a particle's velocity (two 32-bit values) in its record.
pub const PARTICLE_VELOCITY_OFFSET: u64 = 8;

/// Byte offset of a particle's lifetime (one 32-bit value) in its record.
pub const PARTICLE_LIFETIME_OFFSET: u64 = 16;

/// Byte offset of a particle's color (four 32-bit values) in its record.
pub const PARTICLE_COLOR_OFFSET: u64 = 32;

/// Bytes from one corner of the shared quad to the next.
pub const QUAD_VERTEX_STRIDE: u64 = 8;

/// Corners of the shared quad, drawn as a strip.
pub const QUAD_VERTEX_COUNT: u32 = 4;

/// The quotient of `pool_size` by `workgroup_size`, rounded up: the least
/// number of workgroups that covers the pool.
pub open spec fn spec_workgroups(pool_size: nat, workgroup_size: nat) -> nat
    recommends
        workgroup_size > 0,
{
    if pool_size % workgroup_size == 0 {
        pool_size / workgroup_size
    } else {
        pool_size / workgroup_size + 1
    }
}

/// The round-up law of the dispatch: the workgroups cover every slot of the
/// pool, and one workgroup fewer would not.
pub proof fn lemma_workgroups_cover_pool(pool_size: nat, workgroup_size: nat)
    requires
        workgroup_size > 0,
    ensures
        spec_workgroups(pool_size, workgroup_size) * workgroup_size >= pool_size,
        pool_size > 0 ==> (spec_workgroups(pool_size, workgroup_size) - 1) * workgroup_size
            < pool_size,
        pool_size == 0 ==> spec_workgroups(pool_size, workgroup_size) == 0,
{
    let q = pool_size / workgroup_size;
    let r = pool_size % workgroup_size;
    assert(pool_size == q * workgroup_size + r && 0 <= r < workgroup_size) by (nonlinear_arith)
        requires
            workgroup_size > 0,
            q == pool_size / workgroup_size,
            r == pool_size % workgroup_size,
    ;
    assert((q + 1) * workgroup_size == q * workgroup_size + workgroup_size) by (nonlinear_arith);
    assert((q - 1) * workgroup_size == q * workgroup_size - workgroup_size) by (nonlinear_arith);
}

/// Number of workgroups to dispatch so that every slot of a pool of
/// `pool_size` slots is advanced: the quotient rounded up. There is no such
/// number for workgroups of no slots.
pub fn workgroups(pool_size: u32, workgroup_size: u32) -> (count: Option<u32>)
    ensures
        workgroup_size == 0 <==> count is None,
        count matches Some(n) ==> {
            &&& n == spec_workgroups(pool_size as nat, workgroup_size as nat)
            &&& n * workgroup_size >= pool_size
            &&& pool_size > 0 ==> (n - 1) * workgroup_size < pool_size
        },
{
    if workgroup_size == 0 {
        return None;
    }
    proof {
        lemma_workgroups_cover_pool(pool_size as nat, workgroup_size as nat);
    }
    let q: u32 = pool_size / workgroup_size;
    if pool_size % workgroup_size == 0 {
        Some(q)
    } else {
        assert(q < u32::MAX) by (nonlinear_arith)
            requires
                workgroup_size > 0,
                q == pool_size / workgroup_size,
                pool_size % workgroup_size != 0,
                pool_size <= u32::MAX,
        ;
        Some(q + 1)
    }
}

/// The fixed arena of particle slots that the compute pass advances in place.
/// Slots are never added or removed; a slot whose particle has expired is
/// written anew.
#[derive(Clone, Copy, Debug, PartialEq, Eq)]
pub struct ParticlePool {
    size: u32,
    workgroup_size: u32,
}

impl ParticlePool {
    #[verifier::type_invariant]
    spec fn inv(self) -> bool {
        self.workgroup_size > 0
    }

    /// Number of slots.
    pub closed spec fn spec_size(self) -> nat {
        self.size as nat
    }

    /// Number of slots that one workgroup advances; never zero.
    pub closed spec fn spec_workgroup_size(self) -> nat {
        self.workgroup_size as nat
    }

    /// A pool of `size` slots advanced by workgroups of `workgroup_size`
    /// slots, which must not be zero.
    pub fn new(size: u32, workgroup_size: u32) -> (pool: Option<ParticlePool>)
        ensures
            workgroup_size == 0 <==> pool is None,
            pool matches Some(p) ==> p.spec_size() == size && p.spec_workgroup_size()
                == workgroup_size,
    {
        if workgroup_size == 0 {
            None
        } else {
            Some(ParticlePool { size, workgroup_size })
        }
    }

    /// The pool the engine runs with.
    pub fn standard() -> (pool: ParticlePool)
        ensures
            pool.spec_size() == NUM_PARTICLES,
            pool.spec_workgroup_size() == COMPUTE_WORKGROUP_SIZE,
    {
        ParticlePool { size: NUM_PARTICLES, workgroup_size: COMPUTE_WORKGROUP_SIZE }
    }

    pub fn size(&self) -> (size: u32)
        ensures
            size == self.spec_size(),
    {
        self.size
    }

    pub fn workgroup_size(&self) -> (workgroup_size: u32)
        ensures
            workgroup_size == self.spec_workgroup_size(),
            workgroup_size > 0,
    {
        proof {
            use_type_invariant(self);
        }
        self.workgroup_size
    }

    /// Number of workgroups of one compute dispatch: enough to advance every
    /// slot, and no more than that takes.
    pub fn dispatch_count(&self) -> (count: u32)
        ensures
            count == spec_workgroups(self.spec_size(), self.spec_workgroup_size()),
            count * self.spec_workgroup_size() >= self.spec_size(),
            self.spec_size() > 0 ==> (count - 1) * self.spec_workgroup_size() < self.spec_size(),
    {
        proof {
            use_type_invariant(self);
        }
        match workgroups(self.size, self.workgroup_size) {
            Some(count) => count,
            None => 0,
        }
    }

    /// Size of the pool's buffer in bytes.
    pub fn byte_len(&self) -> (len: u64)
        ensures
            len == self.spec_size() * PARTICLE_STRIDE,
    {
        assert(self.size * PARTICLE_STRIDE <= u32::MAX * 48) by (nonlinear_arith)
            requires
                self.size <= u32::MAX,
                PARTICLE_STRIDE == 48,
        ;
        (self.size as u64) * PARTICLE_STRIDE
    }

    /// Byte offset of the record in slot `slot`, for a slot of the pool.
    pub fn slot_offset(&self, slot: u32) -> (offset: Option<u64>)
        ensures
            slot < self.spec_size() <==> offset is Some,
            offset matches Some(o) ==> o == slot * PARTICLE_STRIDE && o + PARTICLE_STRIDE
                <= self.spec_size() * PARTICLE_STRIDE,
    {
        if slot < self.size {
            assert(slot * PARTICLE_STRIDE + PARTICLE_STRIDE <= self.size * PARTICLE_STRIDE
                && self.size * PARTICLE_STRIDE <= u32::MAX * 48) by (nonlinear_arith)
                requires
                    slot < self.size,
                    self.size <= u32::MAX,
                    PARTICLE_STRIDE == 48,
            ;
            Some((slot as u64) * PARTICLE_STRIDE)
        } else {
            None
        }
    }
}

} // verus!
