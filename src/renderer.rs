//! The renderer's own objects, the command sequence of one frame, and the
//! order of release at shutdown.
use vstd::prelude::*;
use crate::resources::{BufferResource, ImageResource, ReleaseStep, push_step, step_if};
use crate::sbt::{ShaderBindingTable, TraceRays, trace_rays_spec};
use crate::vkconst::memory_device_local;

verus! {

/// Width of the offscreen target and of the ray grid.
pub const RENDER_WIDTH: u32 = 1024;

/// Height of the offscreen target and of the ray grid.
pub const RENDER_HEIGHT: u32 = 768;

/// The two images that a frame touches.
#[derive(Clone, Copy, PartialEq, Eq, Structural, Debug)]
pub enum FrameImage {
    Offscreen,
    Presentable,
}

#[derive(Clone, Copy, PartialEq, Eq, Structural, Debug)]
pub enum ImageLayout {
    Undefined,
    General,
    TransferSrc,
    TransferDst,
    PresentSrc,
}

#[derive(Clone, Copy, PartialEq, Eq, Structural, Debug)]
pub enum Access {
    Empty,
    ShaderWrite,
    TransferRead,
    TransferWrite,
}

/// A layout transition of one colour image, single mip level and layer,
/// between all-commands stages.
#[derive(Clone, Copy, PartialEq, Eq, Structural, Debug)]
pub struct ImageBarrier {
    pub image: FrameImage,
    pub src_access: Access,
    pub dst_access: Access,
    pub old_layout: ImageLayout,
    pub new_layout: ImageLayout,
}

/// A command of the per-frame command buffer.
#[derive(Clone, Copy, PartialEq, Eq, Structural, Debug)]
pub enum FrameCommand {
    Barrier(ImageBarrier),
    BindPipeline { pipeline: u64 },
    BindDescriptorSet { layout: u64, set: u64 },
    TraceRays { table_buffer: u64, rays: TraceRays },
    /// Copies the whole offscreen target into the presentable image.
    CopyImage { width: u32, height: u32, depth: u32 },
}

pub open spec fn barrier(image: FrameImage, src: Access, dst: Access, old_layout: ImageLayout, new_layout: ImageLayout) -> FrameCommand {
    FrameCommand::Barrier(
        ImageBarrier { image, src_access: src, dst_access: dst, old_layout, new_layout },
    )
}

/// An image to create with its memory.
#[derive(Clone, Copy, PartialEq, Eq, Structural, Debug)]
pub struct ImageRequest {
    pub width: u32,
    pub height: u32,
    pub depth: u32,
    pub memory_flags: u32,
}

/// The offscreen target: a 2D image of the render size in device-local
/// memory, written by the raygen shader and copied from.
pub fn offscreen_target_request() -> (r: ImageRequest)
    ensures
        r.width == RENDER_WIDTH && r.height == RENDER_HEIGHT && r.depth == 1,
        r.memory_flags == 1,
{
    ImageRequest {
        width: RENDER_WIDTH,
        height: RENDER_HEIGHT,
        depth: 1,
        memory_flags: memory_device_local(),
    }
}

/// Every object that the renderer owns, by handle, with the binding table.
pub struct RayTracingApp {
    pub shader_group_handle_size: u32,
    pub top_as_memory: u64,
    pub top_as: u64,
    pub bottom_as_memory: u64,
    pub bottom_as: u64,
    pub descriptor_set_layout: u64,
    pub pipeline_layout: u64,
    pub pipeline: u64,
    pub shader_binding_table: Option<ShaderBindingTable>,
    pub sbt_buffer: BufferResource,
    pub descriptor_pool: u64,
    pub descriptor_set: u64,
    pub offscreen_target: ImageResource,
    pub rgen_shader_module: u64,
    pub chit_shader_module: u64,
    pub miss_shader_module: u64,
    pub lib_shader_module: u64,
}

impl RayTracingApp {
    /// Every handle null and no binding table.
    pub open spec fn is_null(self) -> bool {
        &&& self.top_as_memory == 0 && self.top_as == 0
        &&& self.bottom_as_memory == 0 && self.bottom_as == 0
        &&& self.descriptor_set_layout == 0 && self.pipeline_layout == 0 && self.pipeline == 0
        &&& self.shader_binding_table.is_none() && self.sbt_buffer.is_null()
        &&& self.descriptor_pool == 0 && self.descriptor_set == 0
        &&& self.offscreen_target.is_null()
        &&& self.rgen_shader_module == 0 && self.chit_shader_module == 0
        &&& self.miss_shader_module == 0 && self.lib_shader_module == 0
    }

    /// A renderer that owns nothing yet, for a device whose shader-group
    /// handles are `shader_group_handle_size` bytes.
    pub fn new(shader_group_handle_size: u32) -> (r: Self)
        ensures
            r.is_null(),
            r.shader_group_handle_size == shader_group_handle_size,
    {
        RayTracingApp {
            shader_group_handle_size,
            top_as_memory: 0,
            top_as: 0,
            bottom_as_memory: 0,
            bottom_as: 0,
            descriptor_set_layout: 0,
            pipeline_layout: 0,
            pipeline: 0,
            shader_binding_table: None,
            sbt_buffer: BufferResource::empty(),
            descriptor_pool: 0,
            descriptor_set: 0,
            offscreen_target: ImageResource::new(),
            rgen_shader_module: 0,
            chit_shader_module: 0,
            miss_shader_module: 0,
            lib_shader_module: 0,
        }
    }

    /// `self` and `other` agree on every field but the binding table.
    pub open spec fn same_objects(self, other: Self) -> bool {
        &&& self.shader_group_handle_size == other.shader_group_handle_size
        &&& self.top_as_memory == other.top_as_memory && self.top_as == other.top_as
        &&& self.bottom_as_memory == other.bottom_as_memory && self.bottom_as == other.bottom_as
        &&& self.descriptor_set_layout == other.descriptor_set_layout
        &&& self.pipeline_layout == other.pipeline_layout && self.pipeline == other.pipeline
        &&& self.sbt_buffer == other.sbt_buffer
        &&& self.descriptor_pool == other.descriptor_pool
        &&& self.descriptor_set == other.descriptor_set
        &&& self.offscreen_target == other.offscreen_target
        &&& self.rgen_shader_module == other.rgen_shader_module
        &&& self.chit_shader_module == other.chit_shader_module
        &&& self.miss_shader_module == other.miss_shader_module
        &&& self.lib_shader_module == other.lib_shader_module
    }

    /// Keeps the group handles read back from the pipeline as the binding
    /// table; refuses them, and changes nothing, unless they are exactly three
    /// handles long.
    pub fn create_shader_binding_table(&mut self, handles: Vec<u8>) -> (ok: bool)
        ensures
            ok <==> handles@.len() == 3 * old(self).shader_group_handle_size,
            ok ==> final(self).shader_binding_table.is_some(),
            ok ==> final(self).shader_binding_table.unwrap().spec_data() == handles@,
            ok ==> final(self).shader_binding_table.unwrap().spec_handle_size() == old(
                self,
            ).shader_group_handle_size,
            !ok ==> final(self).shader_binding_table == old(self).shader_binding_table,
            final(self).same_objects(*old(self)),
    {
        match ShaderBindingTable::from_handles(self.shader_group_handle_size, handles) {
            Some(t) => {
                self.shader_binding_table = Some(t);
                true
            },
            None => false,
        }
    }

    /// A transition of `image` from `old_layout` to `new_layout`.
    pub fn record_image_barrier(&self, image: FrameImage, src_access: Access, dst_access: Access, old_layout: ImageLayout, new_layout: ImageLayout) -> (r: FrameCommand)
        ensures
            r == barrier(image, src_access, dst_access, old_layout, new_layout),
    {
        FrameCommand::Barrier(ImageBarrier { image, src_access, dst_access, old_layout, new_layout })
    }

    /// Bind, bind, dispatch over the whole render grid; nothing before the
    /// binding table exists.
    pub open spec fn ray_tracing_spec(self) -> Seq<FrameCommand> {
        match self.shader_binding_table {
            Some(t) => seq![
                FrameCommand::BindPipeline { pipeline: self.pipeline },
                FrameCommand::BindDescriptorSet {
                    layout: self.pipeline_layout,
                    set: self.descriptor_set,
                },
                FrameCommand::TraceRays {
                    table_buffer: self.sbt_buffer.buffer,
                    rays: trace_rays_spec(t.spec_handle_size(), RENDER_WIDTH, RENDER_HEIGHT),
                },
            ],
            None => Seq::empty(),
        }
    }

    /// The ray-tracing part of a frame.
    pub fn record_ray_tracing(&self) -> (r: Vec<FrameCommand>)
        ensures
            r@ == self.ray_tracing_spec(),
    {
        let mut r: Vec<FrameCommand> = Vec::new();
        match &self.shader_binding_table {
            Some(t) => {
                r.push(FrameCommand::BindPipeline { pipeline: self.pipeline });
                r.push(
                    FrameCommand::BindDescriptorSet {
                        layout: self.pipeline_layout,
                        set: self.descriptor_set,
                    },
                );
                let rays = t.trace_rays(RENDER_WIDTH, RENDER_HEIGHT);
                r.push(FrameCommand::TraceRays { table_buffer: self.sbt_buffer.buffer, rays });
                assert(r@ =~= self.ray_tracing_spec());
            },
            None => {
                assert(r@ =~= self.ray_tracing_spec());
            },
        }
        r
    }

    /// One frame: target to general for shader writes, trace, presentable
    /// image to transfer destination, target to transfer source, copy, and
    /// presentable image to present source.
    pub open spec fn frame_spec(self) -> Seq<FrameCommand> {
        seq![
            barrier(
                FrameImage::Offscreen,
                Access::Empty,
                Access::ShaderWrite,
                ImageLayout::Undefined,
                ImageLayout::General,
            ),
        ] + self.ray_tracing_spec() + seq![
            barrier(
                FrameImage::Presentable,
                Access::Empty,
                Access::TransferWrite,
                ImageLayout::Undefined,
                ImageLayout::TransferDst,
            ),
            barrier(
                FrameImage::Offscreen,
                Access::ShaderWrite,
                Access::TransferRead,
                ImageLayout::General,
                ImageLayout::TransferSrc,
            ),
            FrameCommand::CopyImage { width: RENDER_WIDTH, height: RENDER_HEIGHT, depth: 1 },
            barrier(
                FrameImage::Presentable,
                Access::TransferWrite,
                Access::Empty,
                ImageLayout::TransferDst,
                ImageLayout::PresentSrc,
            ),
        ]
    }

    /// The commands of one frame, in recording order.
    pub fn record_command_buffer(&self) -> (r: Vec<FrameCommand>)
        ensures
            r@ == self.frame_spec(),
    {
        let mut r: Vec<FrameCommand> = Vec::new();
        r.push(
            self.record_image_barrier(
                FrameImage::Offscreen,
                Access::Empty,
                Access::ShaderWrite,
                ImageLayout::Undefined,
                ImageLayout::General,
            ),
        );
        let mut rays = self.record_ray_tracing();
        r.append(&mut rays);
        r.push(
            self.record_image_barrier(
                FrameImage::Presentable,
                Access::Empty,
                Access::TransferWrite,
                ImageLayout::Undefined,
                ImageLayout::TransferDst,
            ),
        );
        r.push(
            self.record_image_barrier(
                FrameImage::Offscreen,
                Access::ShaderWrite,
                Access::TransferRead,
                ImageLayout::General,
                ImageLayout::TransferSrc,
            ),
        );
        r.push(FrameCommand::CopyImage { width: RENDER_WIDTH, height: RENDER_HEIGHT, depth: 1 });
        r.push(
            self.record_image_barrier(
                FrameImage::Presentable,
                Access::TransferWrite,
                Access::Empty,
                ImageLayout::TransferDst,
                ImageLayout::PresentSrc,
            ),
        );
        assert(r@ =~= self.frame_spec());
        r
    }

    /// Device idle first; then the objects in the reverse of the order in
    /// which they were made: the descriptor pool, the binding table's buffer
    /// and memory, the pipeline, its layout, the shader modules, the set
    /// layout, the top-level structure and its memory, the bottom-level
    /// structure and its memory, and last the offscreen target. Null handles
    /// are skipped.
    pub open spec fn release_spec(self) -> Seq<ReleaseStep> {
        seq![ReleaseStep::WaitIdle]
            + step_if(self.descriptor_pool, ReleaseStep::DestroyDescriptorPool(self.descriptor_pool))
            + self.sbt_buffer.release_spec()
            + step_if(self.pipeline, ReleaseStep::DestroyPipeline(self.pipeline))
            + step_if(self.pipeline_layout, ReleaseStep::DestroyPipelineLayout(self.pipeline_layout))
            + step_if(self.rgen_shader_module, ReleaseStep::DestroyShaderModule(self.rgen_shader_module))
            + step_if(self.chit_shader_module, ReleaseStep::DestroyShaderModule(self.chit_shader_module))
            + step_if(self.miss_shader_module, ReleaseStep::DestroyShaderModule(self.miss_shader_module))
            + step_if(self.lib_shader_module, ReleaseStep::DestroyShaderModule(self.lib_shader_module))
            + step_if(
            self.descriptor_set_layout,
            ReleaseStep::DestroyDescriptorSetLayout(self.descriptor_set_layout),
        ) + step_if(self.top_as, ReleaseStep::DestroyAccelerationStructure(self.top_as))
            + step_if(self.top_as_memory, ReleaseStep::FreeMemory(self.top_as_memory))
            + step_if(self.bottom_as, ReleaseStep::DestroyAccelerationStructure(self.bottom_as))
            + step_if(self.bottom_as_memory, ReleaseStep::FreeMemory(self.bottom_as_memory))
            + self.offscreen_target.release_spec()
    }

    /// Gives up every owned object and returns the calls that destroy them.
    pub fn release(&mut self) -> (r: Vec<ReleaseStep>)
        ensures
            r@ == old(self).release_spec(),
            final(self).is_null(),
            final(self).shader_group_handle_size == old(self).shader_group_handle_size,
    {
        let mut r: Vec<ReleaseStep> = Vec::new();
        r.push(ReleaseStep::WaitIdle);
        push_step(&mut r, self.descriptor_pool, ReleaseStep::DestroyDescriptorPool(self.descriptor_pool));
        self.shader_binding_table = None;
        let mut table = self.sbt_buffer.release();
        r.append(&mut table);
        push_step(&mut r, self.pipeline, ReleaseStep::DestroyPipeline(self.pipeline));
        push_step(&mut r, self.pipeline_layout, ReleaseStep::DestroyPipelineLayout(self.pipeline_layout));
        push_step(&mut r, self.rgen_shader_module, ReleaseStep::DestroyShaderModule(self.rgen_shader_module));
        push_step(&mut r, self.chit_shader_module, ReleaseStep::DestroyShaderModule(self.chit_shader_module));
        push_step(&mut r, self.miss_shader_module, ReleaseStep::DestroyShaderModule(self.miss_shader_module));
        push_step(&mut r, self.lib_shader_module, ReleaseStep::DestroyShaderModule(self.lib_shader_module));
        push_step(
            &mut r,
            self.descriptor_set_layout,
            ReleaseStep::DestroyDescriptorSetLayout(self.descriptor_set_layout),
        );
        push_step(&mut r, self.top_as, ReleaseStep::DestroyAccelerationStructure(self.top_as));
        push_step(&mut r, self.top_as_memory, ReleaseStep::FreeMemory(self.top_as_memory));
        push_step(&mut r, self.bottom_as, ReleaseStep::DestroyAccelerationStructure(self.bottom_as));
        push_step(&mut r, self.bottom_as_memory, ReleaseStep::FreeMemory(self.bottom_as_memory));
        let mut target = self.offscreen_target.release();
        r.append(&mut target);
        assert(r@ =~= old(self).release_spec());
        self.top_as_memory = 0;
        self.top_as = 0;
        self.bottom_as_memory = 0;
        self.bottom_as = 0;
        self.descriptor_set_layout = 0;
        self.pipeline_layout = 0;
        self.pipeline = 0;
        self.descriptor_pool = 0;
        self.descriptor_set = 0;
        self.rgen_shader_module = 0;
        self.chit_shader_module = 0;
        self.miss_shader_module = 0;
        self.lib_shader_module = 0;
        r
    }
}

/// Whether `c` transitions `image`.
pub open spec fn transitions(c: FrameCommand, image: FrameImage) -> bool {
    match c {
        FrameCommand::Barrier(b) => b.image == image,
        _ => false,
    }
}

/// A frame is exactly: the target to general, the ray-tracing commands (none
/// of them a transition), the presentable image to transfer destination, the
/// target to transfer source, the copy, and the presentable image to present
/// source. No two adjacent commands transition the same image.
pub proof fn lemma_frame_transitions(app: RayTracingApp)
    ensures
        ({
            let s = app.frame_spec();
            let n = app.ray_tracing_spec().len() as int;
            &&& s.len() == 5 + n
            &&& s[0] == barrier(
                FrameImage::Offscreen,
                Access::Empty,
                Access::ShaderWrite,
                ImageLayout::Undefined,
                ImageLayout::General,
            )
            &&& forall|k: int|
                1 <= k < 1 + n ==> !transitions(#[trigger] s[k], FrameImage::Offscreen)
                    && !transitions(s[k], FrameImage::Presentable)
            &&& s[1 + n] == barrier(
                FrameImage::Presentable,
                Access::Empty,
                Access::TransferWrite,
                ImageLayout::Undefined,
                ImageLayout::TransferDst,
            )
            &&& s[2 + n] == barrier(
                FrameImage::Offscreen,
                Access::ShaderWrite,
                Access::TransferRead,
                ImageLayout::General,
                ImageLayout::TransferSrc,
            )
            &&& s[3 + n] == (FrameCommand::CopyImage {
                width: RENDER_WIDTH,
                height: RENDER_HEIGHT,
                depth: 1,
            })
            &&& s[4 + n] == barrier(
                FrameImage::Presentable,
                Access::TransferWrite,
                Access::Empty,
                ImageLayout::TransferDst,
                ImageLayout::PresentSrc,
            )
            &&& forall|i: int, img: FrameImage|
                0 <= i && i + 1 < s.len() && #[trigger] transitions(s[i], img) ==> !transitions(
                    s[i + 1],
                    img,
                )
        }),
{
    let s = app.frame_spec();
    let n = app.ray_tracing_spec().len() as int;
    assert(n == 0 || n == 3);
    assert forall|i: int, img: FrameImage|
        0 <= i && i + 1 < s.len() && #[trigger] transitions(s[i], img) implies !transitions(
            s[i + 1],
            img,
        ) by {
        if n == 3 {
            assert(0 <= i <= 6);
        } else {
            assert(0 <= i <= 3);
        }
    }
}

/// Releasing a renderer that owns nothing only waits for the device.
pub proof fn lemma_release_of_new_renderer(app: RayTracingApp)
    requires
        app.is_null(),
    ensures
        app.release_spec() == seq![ReleaseStep::WaitIdle],
{
    assert(app.release_spec() =~= seq![ReleaseStep::WaitIdle]);
}

} // verus!
