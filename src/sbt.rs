//! The shader binding table: one group handle per shader group, contiguous,
//! in group order, and the regions that a trace-rays dispatch reads from it.
use vstd::prelude::*;
use crate::accel::{BufferRequest, BufferUsage};
use crate::pipeline::{GROUP_COUNT, ShaderGroup, group_index};
use crate::vkconst::memory_host_visible;

verus! {

/// Byte length of a table whose handles are `handle_size` bytes each.
pub fn table_size(handle_size: u32) -> (r: u64)
    ensures
        r == 3 * handle_size,
{
    assert(GROUP_COUNT == 3);
    assert(handle_size as u64 * 3 <= 3 * 0xffff_ffffu64);
    handle_size as u64 * GROUP_COUNT as u64
}

/// The host-visible buffer that holds a table of `handle_size`-byte handles
/// and is read by dispatches.
pub fn binding_table_request(handle_size: u32) -> (r: BufferRequest)
    ensures
        r.size == 3 * handle_size,
        r.usage == BufferUsage::TransferSrc,
        r.memory_flags == 2,
{
    BufferRequest {
        size: table_size(handle_size),
        usage: BufferUsage::TransferSrc,
        memory_flags: memory_host_visible(),
    }
}

/// The handle bytes of every shader group, as the pipeline reported them.
pub struct ShaderBindingTable {
    handle_size: u32,
    data: Vec<u8>,
}

impl ShaderBindingTable {
    #[verifier::type_invariant]
    spec fn inv(self) -> bool {
        self.data@.len() == 3 * self.handle_size
    }
}

/// Byte offset of group `g`'s record in a table of `h`-byte handles.
pub open spec fn region_offset(g: ShaderGroup, h: u32) -> int {
    group_index(g) * h
}

impl ShaderBindingTable {
    pub closed spec fn spec_handle_size(self) -> u32 {
        self.handle_size
    }

    pub closed spec fn spec_data(self) -> Seq<u8> {
        self.data@
    }

    /// The table holds exactly one handle per group.
    pub open spec fn wf(self) -> bool {
        self.spec_data().len() == 3 * self.spec_handle_size()
    }

    /// The bytes of group `g`'s handle.
    pub open spec fn group_handle(self, g: ShaderGroup) -> Seq<u8> {
        self.spec_data().subrange(
            region_offset(g, self.spec_handle_size()),
            region_offset(g, self.spec_handle_size()) + self.spec_handle_size(),
        )
    }

    /// Builds the table from the handles of groups 0, 1 and 2 read back from
    /// the pipeline; `None` when `handles` is not three handles long.
    pub fn from_handles(handle_size: u32, handles: Vec<u8>) -> (r: Option<Self>)
        ensures
            r.is_some() <==> handles@.len() == 3 * handle_size,
            r.is_some() ==> {
                &&& r.unwrap().wf()
                &&& r.unwrap().spec_handle_size() == handle_size
                &&& r.unwrap().spec_data() == handles@
            },
    {
        if handles.len() as u64 == table_size(handle_size) {
            Some(ShaderBindingTable { handle_size, data: handles })
        } else {
            None
        }
    }

    pub fn handle_size(&self) -> (r: u32)
        ensures
            r == self.spec_handle_size(),
            self.wf(),
    {
        proof {
            use_type_invariant(self);
        }
        self.handle_size
    }

    /// The table's bytes, as the binding-table buffer receives them.
    pub fn data(&self) -> (r: &Vec<u8>)
        ensures
            r@ == self.spec_data(),
            self.wf(),
    {
        proof {
            use_type_invariant(self);
        }
        &self.data
    }

    /// The regions of a dispatch over a `width` x `height` x 1 grid: raygen at
    /// offset 0, hit at one handle with a stride of one handle, miss at two
    /// handles with a stride of one handle, and no callable region.
    pub fn trace_rays(&self, width: u32, height: u32) -> (r: TraceRays)
        ensures
            r == trace_rays_spec(self.spec_handle_size(), width, height),
            self.wf(),
    {
        proof {
            use_type_invariant(self);
        }
        let h = self.handle_size as u64;
        TraceRays {
            raygen_offset: 0,
            miss_offset: 2 * h,
            miss_stride: h,
            hit_offset: 1 * h,
            hit_stride: h,
            callable_offset: 0,
            callable_stride: 0,
            width,
            height,
            depth: 1,
        }
    }
}

/// A trace-rays dispatch over the binding table. Every region but the
/// callable one lies in the table's buffer; the callable region is empty.
#[derive(Clone, Copy, PartialEq, Eq, Structural, Debug)]
pub struct TraceRays {
    pub raygen_offset: u64,
    pub miss_offset: u64,
    pub miss_stride: u64,
    pub hit_offset: u64,
    pub hit_stride: u64,
    pub callable_offset: u64,
    pub callable_stride: u64,
    pub width: u32,
    pub height: u32,
    pub depth: u32,
}

pub open spec fn trace_rays_spec(h: u32, width: u32, height: u32) -> TraceRays {
    TraceRays {
        raygen_offset: 0,
        miss_offset: (2 * h) as u64,
        miss_stride: h as u64,
        hit_offset: h as u64,
        hit_stride: h as u64,
        callable_offset: 0,
        callable_stride: 0,
        width,
        height,
        depth: 1,
    }
}

/// The offset at which a dispatch reads group `g`'s record.
pub open spec fn dispatch_offset(t: TraceRays, g: ShaderGroup) -> int {
    match g {
        ShaderGroup::Raygen => t.raygen_offset as int,
        ShaderGroup::Hit => t.hit_offset as int,
        ShaderGroup::Miss => t.miss_offset as int,
    }
}

/// A well-formed table of `h`-byte handles is `3h` bytes long; for each group,
/// bytes `[kh, (k+1)h)` hold that group's handle, where `k` is the group's
/// position in the list handed to pipeline creation, and a dispatch reads the
/// group at that same offset.
pub proof fn lemma_binding_table_layout(t: ShaderBindingTable, g: ShaderGroup, width: u32, height: u32)
    requires
        t.wf(),
    ensures
        t.spec_data().len() == 3 * t.spec_handle_size(),
        region_offset(g, t.spec_handle_size()) == group_index(g) * t.spec_handle_size(),
        t.group_handle(g) == t.spec_data().subrange(
            group_index(g) * t.spec_handle_size(),
            (group_index(g) + 1) * t.spec_handle_size(),
        ),
        dispatch_offset(trace_rays_spec(t.spec_handle_size(), width, height), g) == region_offset(
            g,
            t.spec_handle_size(),
        ),
        group_index(g) < GROUP_COUNT,
{
    let h = t.spec_handle_size();
    assert((group_index(g) + 1) * h == group_index(g) * h + h) by (nonlinear_arith);
}

} // verus!
