//! The scene's geometry and the one-shot build of its bottom- and top-level
//! acceleration structures.
use vstd::prelude::*;
use crate::instance::{GeometryInstance, pack24_8};
use crate::memory::{MemoryProperties, MemoryRequirements, select_spec};
use crate::resources::{AllocationInfo, allocation_for};
use crate::vkconst::{
    instance_triangle_cull_disable, memory_device_local, memory_host_coherent,
    memory_host_visible,
};

verus! {

/// Bytes per vertex: three 32-bit coordinates.
pub const VERTEX_STRIDE: u64 = 12;

/// Bytes per index.
pub const INDEX_SIZE: u64 = 2;

/// Bytes per packed instance record.
pub const INSTANCE_SIZE: u64 = 64;

/// IEEE-754 single precision bit patterns of the coordinates used here.
pub const F32_ZERO: u32 = 0;

pub const F32_HALF: u32 = 0x3f00_0000;

pub const F32_MINUS_HALF: u32 = 0xbf00_0000;

pub const F32_ONE: u32 = 0x3f80_0000;

/// What a buffer is used for.
#[derive(Clone, Copy, PartialEq, Eq, Structural, Debug)]
pub enum BufferUsage {
    VertexBuffer,
    IndexBuffer,
    RayTracing,
    TransferSrc,
}

/// A buffer to create: its size, use and required memory properties.
#[derive(Clone, Copy, PartialEq, Eq, Structural, Debug)]
pub struct BufferRequest {
    pub size: u64,
    pub usage: BufferUsage,
    pub memory_flags: u32,
}

/// Memory that the host can write without explicit flushes.
pub fn host_memory_flags() -> (r: u32)
    ensures
        r == 6,
{
    let v = memory_host_visible();
    let c = memory_host_coherent();
    assert(2u32 | 4u32 == 6u32) by (bit_vector);
    v | c
}

/// The triangle's vertex positions, x, y, z for each of its three corners:
/// (-0.5, -0.5, 0), (0, 0.5, 0), (0.5, -0.5, 0).
pub open spec fn triangle_vertices_spec() -> Seq<u32> {
    seq![
        F32_MINUS_HALF, F32_MINUS_HALF, F32_ZERO,
        F32_ZERO, F32_HALF, F32_ZERO,
        F32_HALF, F32_MINUS_HALF, F32_ZERO,
    ]
}

pub fn triangle_vertices() -> (r: Vec<u32>)
    ensures
        r@ == triangle_vertices_spec(),
{
    let r = vec![
        F32_MINUS_HALF, F32_MINUS_HALF, F32_ZERO,
        F32_ZERO, F32_HALF, F32_ZERO,
        F32_HALF, F32_MINUS_HALF, F32_ZERO,
    ];
    assert(r@ =~= triangle_vertices_spec());
    r
}

/// The triangle's indices.
pub fn triangle_indices() -> (r: Vec<u16>)
    ensures
        r@ == seq![0u16, 1u16, 2u16],
{
    let r = vec![0u16, 1u16, 2u16];
    assert(r@ =~= seq![0u16, 1u16, 2u16]);
    r
}

/// The host-visible buffer that receives the vertices.
pub fn vertex_buffer_request() -> (r: BufferRequest)
    ensures
        r.size == 3 * VERTEX_STRIDE,
        r.usage == BufferUsage::VertexBuffer,
        r.memory_flags == 6,
{
    BufferRequest { size: 3 * VERTEX_STRIDE, usage: BufferUsage::VertexBuffer, memory_flags: host_memory_flags() }
}

/// The host-visible buffer that receives the indices.
pub fn index_buffer_request() -> (r: BufferRequest)
    ensures
        r.size == 3 * INDEX_SIZE,
        r.usage == BufferUsage::IndexBuffer,
        r.memory_flags == 6,
{
    BufferRequest { size: 3 * INDEX_SIZE, usage: BufferUsage::IndexBuffer, memory_flags: host_memory_flags() }
}

/// The host-visible buffer that receives the one instance record.
pub fn instance_buffer_request() -> (r: BufferRequest)
    ensures
        r.size == INSTANCE_SIZE,
        r.usage == BufferUsage::RayTracing,
        r.memory_flags == 6,
{
    BufferRequest { size: INSTANCE_SIZE, usage: BufferUsage::RayTracing, memory_flags: host_memory_flags() }
}

/// The device-local scratch buffer shared by both builds, sized for the
/// larger of the two scratch needs: the builds run one after the other.
pub fn scratch_buffer_request(bottom_scratch: u64, top_scratch: u64) -> (r: BufferRequest)
    ensures
        r.size == if bottom_scratch >= top_scratch { bottom_scratch } else { top_scratch },
        r.size >= bottom_scratch && r.size >= top_scratch,
        r.usage == BufferUsage::RayTracing,
        r.memory_flags == 1,
{
    let size = if bottom_scratch >= top_scratch { bottom_scratch } else { top_scratch };
    BufferRequest { size, usage: BufferUsage::RayTracing, memory_flags: memory_device_local() }
}

/// The allocation that backs an acceleration structure with requirements
/// `memory_req`: device-local memory; `None` when no memory type has it.
pub fn structure_allocation(memory_req: &MemoryRequirements, memory_prop: &MemoryProperties) -> (r: Option<AllocationInfo>)
    ensures
        match r {
            Some(a) => a.allocation_size == memory_req.size && select_spec(
                memory_req.memory_type_bits,
                memory_prop.type_flags@,
                1,
                Some(a.memory_type_index),
            ),
            None => select_spec(memory_req.memory_type_bits, memory_prop.type_flags@, 1, None),
        },
{
    allocation_for(memory_req, memory_prop, memory_device_local())
}

/// One triangle geometry over a vertex and an index buffer: three-float
/// positions and 16-bit indices, flagged opaque.
#[derive(Clone, Copy, PartialEq, Eq, Structural, Debug)]
pub struct TriangleGeometry {
    pub vertex_buffer: u64,
    pub vertex_offset: u64,
    pub vertex_count: u32,
    pub vertex_stride: u64,
    pub index_buffer: u64,
    pub index_offset: u64,
    pub index_count: u32,
    pub opaque: bool,
}

/// The geometry of the triangle held by `vertex_buffer` and `index_buffer`.
pub fn triangle_geometry(vertex_buffer: u64, index_buffer: u64) -> (r: TriangleGeometry)
    ensures
        r.vertex_buffer == vertex_buffer && r.vertex_offset == 0 && r.vertex_count == 3,
        r.vertex_stride == VERTEX_STRIDE,
        r.index_buffer == index_buffer && r.index_offset == 0 && r.index_count == 3,
        r.opaque,
{
    TriangleGeometry {
        vertex_buffer,
        vertex_offset: 0,
        vertex_count: 3,
        vertex_stride: VERTEX_STRIDE,
        index_buffer,
        index_offset: 0,
        index_count: 3,
        opaque: true,
    }
}

/// The 3x4 identity, row-major.
pub open spec fn identity_transform_spec() -> Seq<u32> {
    seq![
        F32_ONE, F32_ZERO, F32_ZERO, F32_ZERO,
        F32_ZERO, F32_ONE, F32_ZERO, F32_ZERO,
        F32_ZERO, F32_ZERO, F32_ONE, F32_ZERO,
    ]
}

pub fn identity_transform() -> (r: [u32; 12])
    ensures
        r@ == identity_transform_spec(),
{
    let r = [
        F32_ONE, F32_ZERO, F32_ZERO, F32_ZERO,
        F32_ZERO, F32_ONE, F32_ZERO, F32_ZERO,
        F32_ZERO, F32_ZERO, F32_ONE, F32_ZERO,
    ];
    assert(r@ =~= identity_transform_spec());
    r
}

/// The scene's one instance of the bottom-level structure `blas_handle`:
/// identity transform, id 0, visible to every ray mask, binding-table offset
/// 0, back-face culling off.
pub fn scene_instance(blas_handle: u64) -> (r: GeometryInstance)
    ensures
        r.transform@ == identity_transform_spec(),
        r.instance_id_and_mask == pack24_8(0, 0xff),
        r.instance_offset_and_flags == pack24_8(0, 1),
        r.acceleration_handle == blas_handle,
{
    GeometryInstance::new(identity_transform(), 0, 0xff, 0, instance_triangle_cull_disable(), blas_handle)
}

#[derive(Clone, Copy, PartialEq, Eq, Structural, Debug)]
pub enum AccelerationLevel {
    Bottom,
    Top,
}

/// A command of the build command buffer. A build writes `destination`
/// using `scratch_buffer`; a top-level build reads its instances from
/// `instance_buffer`, null for a bottom-level one. A barrier orders
/// acceleration-structure reads and writes between build stages.
#[derive(Clone, Copy, PartialEq, Eq, Structural, Debug)]
pub enum BuildCommand {
    Build { level: AccelerationLevel, instance_buffer: u64, destination: u64, scratch_buffer: u64 },
    Barrier,
}

pub open spec fn build_commands_spec(bottom_as: u64, top_as: u64, instance_buffer: u64, scratch_buffer: u64) -> Seq<BuildCommand> {
    seq![
        BuildCommand::Build {
            level: AccelerationLevel::Bottom,
            instance_buffer: 0,
            destination: bottom_as,
            scratch_buffer,
        },
        BuildCommand::Barrier,
        BuildCommand::Build {
            level: AccelerationLevel::Top,
            instance_buffer,
            destination: top_as,
            scratch_buffer,
        },
        BuildCommand::Barrier,
    ]
}

/// The build command buffer: the bottom level, a barrier, the top level
/// over the instance buffer, a barrier; both builds share one scratch buffer.
pub fn build_commands(bottom_as: u64, top_as: u64, instance_buffer: u64, scratch_buffer: u64) -> (r: Vec<BuildCommand>)
    ensures
        r@ == build_commands_spec(bottom_as, top_as, instance_buffer, scratch_buffer),
{
    let mut r: Vec<BuildCommand> = Vec::new();
    r.push(
        BuildCommand::Build {
            level: AccelerationLevel::Bottom,
            instance_buffer: 0,
            destination: bottom_as,
            scratch_buffer,
        },
    );
    r.push(BuildCommand::Barrier);
    r.push(
        BuildCommand::Build {
            level: AccelerationLevel::Top,
            instance_buffer,
            destination: top_as,
            scratch_buffer,
        },
    );
    r.push(BuildCommand::Barrier);
    assert(r@ =~= build_commands_spec(bottom_as, top_as, instance_buffer, scratch_buffer));
    r
}

/// Whether `c` builds a structure of `level`.
pub open spec fn builds(c: BuildCommand, level: AccelerationLevel) -> bool {
    match c {
        BuildCommand::Build { level: l, .. } => l == level,
        BuildCommand::Barrier => false,
    }
}

/// In the build command buffer every top-level build comes after every
/// bottom-level build, with a barrier between them, and a barrier follows
/// the top-level build.
pub proof fn lemma_build_order(bottom_as: u64, top_as: u64, instance_buffer: u64, scratch_buffer: u64)
    ensures
        ({
            let s = build_commands_spec(bottom_as, top_as, instance_buffer, scratch_buffer);
            &&& forall|i: int, j: int|
                0 <= i < s.len() && 0 <= j < s.len() && builds(#[trigger] s[i], AccelerationLevel::Bottom)
                    && builds(#[trigger] s[j], AccelerationLevel::Top) ==> i < j && exists|k: int|
                    i < k < j && s[k] == BuildCommand::Barrier
            &&& exists|j: int| 0 <= j < s.len() && builds(s[j], AccelerationLevel::Top)
            &&& s.last() == BuildCommand::Barrier
        }),
{
    let s = build_commands_spec(bottom_as, top_as, instance_buffer, scratch_buffer);
    assert forall|i: int, j: int|
        0 <= i < s.len() && 0 <= j < s.len() && builds(#[trigger] s[i], AccelerationLevel::Bottom)
            && builds(#[trigger] s[j], AccelerationLevel::Top) implies i < j && exists|k: int|
            i < k < j && s[k] == BuildCommand::Barrier by {
        assert(i == 0);
        assert(j == 2);
        assert(s[1] == BuildCommand::Barrier);
    }
    assert(builds(s[2], AccelerationLevel::Top));
}

} // verus!
