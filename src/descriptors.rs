//! The descriptor set that hands the top-level structure and the offscreen
//! target to the raygen shader.
use vstd::prelude::*;

verus! {

#[derive(Clone, Copy, PartialEq, Eq, Structural, Debug)]
pub enum DescriptorKind {
    AccelerationStructure,
    StorageImage,
}

/// One binding of the set layout; every binding is visible to the raygen
/// stage.
#[derive(Clone, Copy, PartialEq, Eq, Structural, Debug)]
pub struct LayoutBinding {
    pub binding: u32,
    pub kind: DescriptorKind,
    pub count: u32,
}

/// Binding 0: one acceleration structure; binding 1: one storage image.
pub fn layout_bindings() -> (r: Vec<LayoutBinding>)
    ensures
        r@ == seq![
            LayoutBinding { binding: 0, kind: DescriptorKind::AccelerationStructure, count: 1 },
            LayoutBinding { binding: 1, kind: DescriptorKind::StorageImage, count: 1 },
        ],
{
    let mut r: Vec<LayoutBinding> = Vec::new();
    r.push(LayoutBinding { binding: 0, kind: DescriptorKind::AccelerationStructure, count: 1 });
    r.push(LayoutBinding { binding: 1, kind: DescriptorKind::StorageImage, count: 1 });
    assert(r@ =~= seq![
        LayoutBinding { binding: 0, kind: DescriptorKind::AccelerationStructure, count: 1 },
        LayoutBinding { binding: 1, kind: DescriptorKind::StorageImage, count: 1 },
    ]);
    r
}

/// How many descriptors of a kind the pool holds.
#[derive(Clone, Copy, PartialEq, Eq, Structural, Debug)]
pub struct PoolSize {
    pub kind: DescriptorKind,
    pub count: u32,
}

/// Sets that the pool can hand out.
pub const MAX_SETS: u32 = 1;

/// A pool sized for exactly one set of the layout.
pub fn descriptor_pool_sizes() -> (r: Vec<PoolSize>)
    ensures
        r@ == seq![
            PoolSize { kind: DescriptorKind::AccelerationStructure, count: 1 },
            PoolSize { kind: DescriptorKind::StorageImage, count: 1 },
        ],
{
    let mut r: Vec<PoolSize> = Vec::new();
    r.push(PoolSize { kind: DescriptorKind::AccelerationStructure, count: 1 });
    r.push(PoolSize { kind: DescriptorKind::StorageImage, count: 1 });
    assert(r@ =~= seq![
        PoolSize { kind: DescriptorKind::AccelerationStructure, count: 1 },
        PoolSize { kind: DescriptorKind::StorageImage, count: 1 },
    ]);
    r
}

/// What a write puts in its binding: a top-level structure, or an image view
/// in the general layout.
#[derive(Clone, Copy, PartialEq, Eq, Structural, Debug)]
pub enum DescriptorTarget {
    AccelerationStructure(u64),
    StorageImageGeneral(u64),
}

#[derive(Clone, Copy, PartialEq, Eq, Structural, Debug)]
pub struct DescriptorWrite {
    pub set: u64,
    pub binding: u32,
    pub array_element: u32,
    pub count: u32,
    pub target: DescriptorTarget,
}

pub open spec fn descriptor_writes_spec(set: u64, top_as: u64, target_view: u64) -> Seq<DescriptorWrite> {
    seq![
        DescriptorWrite {
            set,
            binding: 0,
            array_element: 0,
            count: 1,
            target: DescriptorTarget::AccelerationStructure(top_as),
        },
        DescriptorWrite {
            set,
            binding: 1,
            array_element: 0,
            count: 1,
            target: DescriptorTarget::StorageImageGeneral(target_view),
        },
    ]
}

/// The single batched update of `set`: binding 0 gets the top-level
/// structure and binding 1 the target's view, one descriptor each.
pub fn descriptor_writes(set: u64, top_as: u64, target_view: u64) -> (r: Vec<DescriptorWrite>)
    ensures
        r@ == descriptor_writes_spec(set, top_as, target_view),
{
    let mut r: Vec<DescriptorWrite> = Vec::new();
    r.push(
        DescriptorWrite {
            set,
            binding: 0,
            array_element: 0,
            count: 1,
            target: DescriptorTarget::AccelerationStructure(top_as),
        },
    );
    r.push(
        DescriptorWrite {
            set,
            binding: 1,
            array_element: 0,
            count: 1,
            target: DescriptorTarget::StorageImageGeneral(target_view),
        },
    );
    assert(r@ =~= descriptor_writes_spec(set, top_as, target_view));
    r
}

} // verus!
