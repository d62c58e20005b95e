use rt_core::accel::{
    build_commands, host_memory_flags, index_buffer_request, instance_buffer_request,
    scratch_buffer_request, triangle_geometry, triangle_indices, triangle_vertices,
    vertex_buffer_request, AccelerationLevel, BufferUsage, BuildCommand,
};
use rt_core::instance::{halves_to_bytes, words_to_bytes};
use rt_core::renderer::{
    offscreen_target_request, Access, FrameCommand, FrameImage, ImageBarrier, ImageLayout,
    RayTracingApp,
};

#[test]
fn top_level_build_follows_bottom_level_behind_a_barrier() {
    let c = build_commands(11, 22, 33, 44);
    assert_eq!(c.len(), 4);
    assert_eq!(
        c[0],
        BuildCommand::Build { level: AccelerationLevel::Bottom, instance_buffer: 0, destination: 11, scratch_buffer: 44 }
    );
    assert_eq!(c[1], BuildCommand::Barrier);
    assert_eq!(
        c[2],
        BuildCommand::Build { level: AccelerationLevel::Top, instance_buffer: 33, destination: 22, scratch_buffer: 44 }
    );
    assert_eq!(c[3], BuildCommand::Barrier);
}

#[test]
fn scratch_sized_for_larger_build() {
    assert_eq!(scratch_buffer_request(100, 300).size, 300);
    assert_eq!(scratch_buffer_request(500, 300).size, 500);
    assert_eq!(scratch_buffer_request(7, 7).size, 7);
    assert_eq!(scratch_buffer_request(1, 2).memory_flags, 1);
    assert_eq!(scratch_buffer_request(1, 2).usage, BufferUsage::RayTracing);
}

#[test]
fn triangle_scene_data() {
    let v = triangle_vertices();
    let expect: Vec<u32> = [-0.5f32, -0.5, 0.0, 0.0, 0.5, 0.0, 0.5, -0.5, 0.0].iter().map(|x| x.to_bits()).collect();
    assert_eq!(v, expect);
    assert_eq!(triangle_indices(), vec![0u16, 1, 2]);
    assert_eq!(words_to_bytes(&v).len() as u64, vertex_buffer_request().size);
    assert_eq!(halves_to_bytes(&triangle_indices()).len() as u64, index_buffer_request().size);
    assert_eq!(instance_buffer_request().size, 64);
    assert_eq!(host_memory_flags(), 6);
    assert_eq!(vertex_buffer_request().usage, BufferUsage::VertexBuffer);
    let g = triangle_geometry(5, 6);
    assert_eq!((g.vertex_buffer, g.vertex_count, g.vertex_stride), (5, 3, 12));
    assert_eq!((g.index_buffer, g.index_count), (6, 3));
    assert!(g.opaque);
}

fn barrier(image: FrameImage, s: Access, d: Access, o: ImageLayout, n: ImageLayout) -> FrameCommand {
    FrameCommand::Barrier(ImageBarrier { image, src_access: s, dst_access: d, old_layout: o, new_layout: n })
}

#[test]
fn frame_sequence_with_binding_table() {
    let mut app = RayTracingApp::new(16);
    app.pipeline = 1;
    app.pipeline_layout = 2;
    app.descriptor_set = 3;
    app.sbt_buffer.buffer = 4;
    assert!(app.create_shader_binding_table(vec![0u8; 48]));
    let c = app.record_command_buffer();
    assert_eq!(c.len(), 8);
    assert_eq!(c[0], barrier(FrameImage::Offscreen, Access::Empty, Access::ShaderWrite, ImageLayout::Undefined, ImageLayout::General));
    assert_eq!(c[1], FrameCommand::BindPipeline { pipeline: 1 });
    assert_eq!(c[2], FrameCommand::BindDescriptorSet { layout: 2, set: 3 });
    match c[3] {
        FrameCommand::TraceRays { table_buffer, rays } => {
            assert_eq!(table_buffer, 4);
            assert_eq!((rays.hit_offset, rays.miss_offset, rays.width, rays.height), (16, 32, 1024, 768));
        }
        _ => panic!("expected a dispatch"),
    }
    assert_eq!(c[4], barrier(FrameImage::Presentable, Access::Empty, Access::TransferWrite, ImageLayout::Undefined, ImageLayout::TransferDst));
    assert_eq!(c[5], barrier(FrameImage::Offscreen, Access::ShaderWrite, Access::TransferRead, ImageLayout::General, ImageLayout::TransferSrc));
    assert_eq!(c[6], FrameCommand::CopyImage { width: 1024, height: 768, depth: 1 });
    assert_eq!(c[7], barrier(FrameImage::Presentable, Access::TransferWrite, Access::Empty, ImageLayout::TransferDst, ImageLayout::PresentSrc));
}

#[test]
fn frame_without_binding_table_skips_dispatch() {
    let mut app = RayTracingApp::new(16);
    assert!(!app.create_shader_binding_table(vec![0u8; 47]));
    assert!(app.record_ray_tracing().is_empty());
    let c = app.record_command_buffer();
    assert_eq!(c.len(), 5);
    assert_eq!(c[3], FrameCommand::CopyImage { width: 1024, height: 768, depth: 1 });
}

#[test]
fn offscreen_target_is_device_local_render_size() {
    let r = offscreen_target_request();
    assert_eq!((r.width, r.height, r.depth, r.memory_flags), (1024, 768, 1, 1));
}
