//! Owning records of device objects, and the order in which they are
//! released. A handle of zero is the null handle: nothing was created.
use vstd::prelude::*;
use crate::memory::{MemoryRequirements, MemoryProperties, find_memorytype_index, select_spec};

verus! {

/// One destructive device call, with the handle it applies to.
#[derive(Clone, Copy, PartialEq, Eq, Structural, Debug)]
pub enum ReleaseStep {
    WaitIdle,
    DestroyAccelerationStructure(u64),
    FreeMemory(u64),
    DestroyDescriptorPool(u64),
    DestroyPipeline(u64),
    DestroyPipelineLayout(u64),
    DestroyDescriptorSetLayout(u64),
    DestroyShaderModule(u64),
    DestroyImageView(u64),
    DestroyImage(u64),
    DestroySampler(u64),
    DestroyBuffer(u64),
}

/// `step` when `handle` names an object, nothing for the null handle.
pub open spec fn step_if(handle: u64, step: ReleaseStep) -> Seq<ReleaseStep> {
    if handle == 0 {
        Seq::empty()
    } else {
        seq![step]
    }
}

/// Appends `step` unless `handle` is null.
pub fn push_step(steps: &mut Vec<ReleaseStep>, handle: u64, step: ReleaseStep)
    ensures
        final(steps)@ == old(steps)@ + step_if(handle, step),
{
    if handle != 0 {
        steps.push(step);
    }
    assert(final(steps)@ =~= old(steps)@ + step_if(handle, step));
}

/// Size and memory type of an allocation.
#[derive(Clone, Copy, PartialEq, Eq, Structural, Debug)]
pub struct AllocationInfo {
    pub allocation_size: u64,
    pub memory_type_index: u32,
}

/// The allocation that backs a resource with requirements `memory_req` in
/// memory with `flags`; `None` when no memory type can.
pub fn allocation_for(memory_req: &MemoryRequirements, memory_prop: &MemoryProperties, flags: u32) -> (r: Option<AllocationInfo>)
    ensures
        match r {
            Some(a) => a.allocation_size == memory_req.size && select_spec(
                memory_req.memory_type_bits,
                memory_prop.type_flags@,
                flags,
                Some(a.memory_type_index),
            ),
            None => select_spec(memory_req.memory_type_bits, memory_prop.type_flags@, flags, None),
        },
{
    match find_memorytype_index(memory_req, memory_prop, flags) {
        Some(i) => Some(AllocationInfo { allocation_size: memory_req.size, memory_type_index: i }),
        None => None,
    }
}

/// An image with its memory, view and sampler.
#[derive(Clone, Copy, PartialEq, Eq, Structural, Debug)]
pub struct ImageResource {
    pub image: u64,
    pub memory: u64,
    pub view: u64,
    pub sampler: u64,
}

impl ImageResource {
    /// A record that owns nothing yet.
    pub fn new() -> (r: Self)
        ensures
            r.is_null(),
    {
        ImageResource { image: 0, memory: 0, view: 0, sampler: 0 }
    }

    /// Every handle is null.
    pub open spec fn is_null(self) -> bool {
        self.image == 0 && self.memory == 0 && self.view == 0 && self.sampler == 0
    }

    /// View, then image, then memory, then sampler; null handles are skipped.
    pub open spec fn release_spec(self) -> Seq<ReleaseStep> {
        step_if(self.view, ReleaseStep::DestroyImageView(self.view)) + step_if(
            self.image,
            ReleaseStep::DestroyImage(self.image),
        ) + step_if(self.memory, ReleaseStep::FreeMemory(self.memory)) + step_if(
            self.sampler,
            ReleaseStep::DestroySampler(self.sampler),
        )
    }

    /// Gives up every owned object and returns the calls that destroy them.
    pub fn release(&mut self) -> (r: Vec<ReleaseStep>)
        ensures
            r@ == old(self).release_spec(),
            final(self).is_null(),
    {
        let mut r: Vec<ReleaseStep> = Vec::new();
        push_step(&mut r, self.view, ReleaseStep::DestroyImageView(self.view));
        push_step(&mut r, self.image, ReleaseStep::DestroyImage(self.image));
        push_step(&mut r, self.memory, ReleaseStep::FreeMemory(self.memory));
        push_step(&mut r, self.sampler, ReleaseStep::DestroySampler(self.sampler));
        assert(r@ =~= old(self).release_spec());
        *self = ImageResource::new();
        r
    }
}

/// A buffer with its memory.
#[derive(Clone, Copy, PartialEq, Eq, Structural, Debug)]
pub struct BufferResource {
    pub buffer: u64,
    pub memory: u64,
    pub size: u64,
}

impl BufferResource {
    /// A record that owns nothing yet.
    pub fn empty() -> (r: Self)
        ensures
            r.is_null() && r.size == 0,
    {
        BufferResource { buffer: 0, memory: 0, size: 0 }
    }

    /// Every handle is null.
    pub open spec fn is_null(self) -> bool {
        self.buffer == 0 && self.memory == 0
    }

    /// Buffer, then memory; null handles are skipped.
    pub open spec fn release_spec(self) -> Seq<ReleaseStep> {
        step_if(self.buffer, ReleaseStep::DestroyBuffer(self.buffer)) + step_if(
            self.memory,
            ReleaseStep::FreeMemory(self.memory),
        )
    }

    /// Gives up every owned object and returns the calls that destroy them.
    pub fn release(&mut self) -> (r: Vec<ReleaseStep>)
        ensures
            r@ == old(self).release_spec(),
            final(self).is_null() && final(self).size == 0,
    {
        let mut r: Vec<ReleaseStep> = Vec::new();
        push_step(&mut r, self.buffer, ReleaseStep::DestroyBuffer(self.buffer));
        push_step(&mut r, self.memory, ReleaseStep::FreeMemory(self.memory));
        assert(r@ =~= old(self).release_spec());
        *self = BufferResource::empty();
        r
    }
}

/// Releasing an image or buffer record that never owned anything makes no
/// device call, and releasing a record a second time makes none either.
pub proof fn lemma_release_of_null_is_empty(img: ImageResource, buf: BufferResource)
    ensures
        img.is_null() ==> img.release_spec() == Seq::<ReleaseStep>::empty(),
        buf.is_null() ==> buf.release_spec() == Seq::<ReleaseStep>::empty(),
{
    if img.is_null() {
        assert(img.release_spec() =~= Seq::<ReleaseStep>::empty());
    }
    if buf.is_null() {
        assert(buf.release_spec() =~= Seq::<ReleaseStep>::empty());
    }
}

} // verus!
