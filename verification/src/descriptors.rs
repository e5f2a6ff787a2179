//! Descriptor-pool accounting and the per-call binding plan.
//!
//! The descriptor pool is owned and sized by the host; the comparator only
//! draws from it, two image-sampler slots per compare call. The accounting
//! here decides, before anything is recorded, whether the pool still has
//! that capacity — exhaustion is a caller sizing violation, surfaced as an
//! error and never retried.

use vstd::prelude::*;

verus! {

/// The number of image-sampler bindings one compare call consumes from the
/// host's descriptor pool.
pub const IMAGE_SAMPLER_COUNT: u32 = 2;

/// What the host must write into the binding instance allocated for one
/// compare call: two image-read slots through the one shared sampler.
#[derive(Clone, Copy, Debug, PartialEq, Eq, Structural)]
pub struct BindingPlan {
    /// The binding layout to allocate the instance with.
    pub layout: u64,
    /// The shared sampler, used by both slots.
    pub sampler: u64,
    /// Slot 0: the first (left) input image.
    pub slot0_image: u64,
    /// Slot 1: the second (right) input image.
    pub slot1_image: u64,
}

/// Capacity bookkeeping for the host-owned descriptor pool the comparator
/// allocates binding instances from. Instances are never returned one by
/// one — the host resets the pool in bulk — so the budget only decreases.
pub struct DescriptorPoolState {
    capacity: u32,
    remaining: u32,
}

impl DescriptorPoolState {
    /// The budget never exceeds the declared capacity.
    pub closed spec fn wf(&self) -> bool {
        self.remaining <= self.capacity
    }

    /// The image-sampler capacity the pool was declared with.
    pub closed spec fn spec_capacity(&self) -> u32 {
        self.capacity
    }

    /// The image-sampler slots still unconsumed.
    pub closed spec fn spec_remaining(&self) -> u32 {
        self.remaining
    }

    /// A fresh pool budget of `capacity` image-sampler slots.
    pub fn new(capacity: u32) -> (r: Self)
        ensures
            r.wf(),
            r.spec_capacity() == capacity,
            r.spec_remaining() == capacity,
    {
        DescriptorPoolState { capacity, remaining: capacity }
    }

    /// The image-sampler slots still unconsumed.
    pub fn remaining(&self) -> (r: u32)
        ensures
            r == self.spec_remaining(),
    {
        self.remaining
    }

    /// The image-sampler capacity the pool was declared with.
    pub fn capacity(&self) -> (r: u32)
        ensures
            r == self.spec_capacity(),
    {
        self.capacity
    }

    /// Consumes the two image-sampler slots one compare call needs.
    /// Succeeds exactly when the budget still holds them; on failure the
    /// budget is untouched.
    pub fn take_binding_slots(&mut self) -> (r: bool)
        requires
            old(self).wf(),
        ensures
            final(self).wf(),
            final(self).spec_capacity() == old(self).spec_capacity(),
            r == (old(self).spec_remaining() >= IMAGE_SAMPLER_COUNT),
            r ==> final(self).spec_remaining() == old(self).spec_remaining()
                - IMAGE_SAMPLER_COUNT,
            !r ==> *final(self) == *old(self),
    {
        if self.remaining >= IMAGE_SAMPLER_COUNT {
            self.remaining = self.remaining - IMAGE_SAMPLER_COUNT;
            true
        } else {
            false
        }
    }
}

} // verus!
