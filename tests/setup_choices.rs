use rt_core::descriptors::{
    descriptor_pool_sizes, descriptor_writes, layout_bindings, DescriptorKind, DescriptorTarget,
};
use rt_core::pipeline::{shader_files, shader_source, shader_stages, ModuleSlot, ShaderLanguage, ShaderSource, StageKind};
use rt_core::swapchain::{
    choose_present_mode, choose_surface_format, control_flow, desired_image_count,
    pre_transform, select_queue_family, surface_resolution, ControlFlow, Extent2D, LoopEvent,
    QueueFamily, SurfaceFormat,
};
use rt_core::accel::{host_memory_flags, structure_allocation};
use rt_core::memory::{MemoryProperties, MemoryRequirements};

#[test]
fn shader_source_toggles() {
    assert_eq!(shader_source(true, true), ShaderSource::Library);
    assert_eq!(shader_source(false, true), ShaderSource::Separate(ShaderLanguage::Hlsl));
    assert_eq!(shader_source(true, false), ShaderSource::Separate(ShaderLanguage::Glsl));
    assert_eq!(shader_files(ShaderSource::Library), vec!["shaders/triangle.hlsl_lib.spv".to_string()]);
    assert_eq!(
        shader_files(ShaderSource::Separate(ShaderLanguage::Hlsl)),
        vec!["shaders/triangle.hlsl_rgen.spv", "shaders/triangle.hlsl_rchit.spv", "shaders/triangle.hlsl_rmiss.spv"]
    );
    assert_eq!(shader_files(ShaderSource::Separate(ShaderLanguage::Glsl))[2], "shaders/triangle.glsl_rmiss.spv");
}

#[test]
fn shader_stages_per_source() {
    let s = shader_stages(ShaderSource::Library);
    assert_eq!(s.len(), 3);
    assert_eq!((s[0].stage, s[0].module, s[0].entry.as_str()), (StageKind::Raygen, ModuleSlot::Library, "rgen_main"));
    assert_eq!((s[1].stage, s[1].module, s[1].entry.as_str()), (StageKind::ClosestHit, ModuleSlot::Library, "rchit_main"));
    assert_eq!((s[2].stage, s[2].module, s[2].entry.as_str()), (StageKind::Miss, ModuleSlot::Library, "rmiss_main"));
    let s = shader_stages(ShaderSource::Separate(ShaderLanguage::Hlsl));
    assert_eq!((s[0].module, s[1].module, s[2].module), (ModuleSlot::Raygen, ModuleSlot::ClosestHit, ModuleSlot::Miss));
    assert!(s.iter().all(|x| x.entry == "main"));
}

#[test]
fn descriptor_layout_pool_and_writes() {
    let b = layout_bindings();
    assert_eq!((b[0].binding, b[0].kind, b[0].count), (0, DescriptorKind::AccelerationStructure, 1));
    assert_eq!((b[1].binding, b[1].kind, b[1].count), (1, DescriptorKind::StorageImage, 1));
    let p = descriptor_pool_sizes();
    assert_eq!(p.len(), 2);
    assert_eq!((p[0].kind, p[0].count), (DescriptorKind::AccelerationStructure, 1));
    let w = descriptor_writes(7, 8, 9);
    assert_eq!(w.len(), 2);
    assert_eq!((w[0].set, w[0].binding, w[0].count, w[0].target), (7, 0, 1, DescriptorTarget::AccelerationStructure(8)));
    assert_eq!((w[1].set, w[1].binding, w[1].count, w[1].target), (7, 1, 1, DescriptorTarget::StorageImageGeneral(9)));
}

#[test]
fn memory_flag_constants_match_ash() {
    let host = ash::vk::MemoryPropertyFlags::HOST_VISIBLE | ash::vk::MemoryPropertyFlags::HOST_COHERENT;
    assert_eq!(host_memory_flags(), host.as_raw());
    let req = MemoryRequirements { size: 64, alignment: 8, memory_type_bits: 0b111 };
    let props = MemoryProperties { type_flags: vec![0b110, 0b11, 0b1] };
    let a = structure_allocation(&req, &props).unwrap();
    assert_eq!((a.allocation_size, a.memory_type_index), (64, 2));
    let props = MemoryProperties { type_flags: vec![0b110] };
    assert!(structure_allocation(&req, &props).is_none());
}

fn fam(flags: u32, surface: bool) -> QueueFamily {
    QueueFamily { queue_flags: flags, surface_support: surface }
}

#[test]
fn queue_family_is_first_graphics_family_that_presents() {
    let devices = vec![
        vec![fam(0b1, false), fam(0b100, true)],
        vec![fam(0b110, true), fam(0b111, true), fam(0b1, true)],
    ];
    assert_eq!(select_queue_family(&devices), Some((1, 1)));
    assert_eq!(select_queue_family(&vec![vec![fam(0b10, true)], vec![]]), None);
    assert_eq!(select_queue_family(&vec![]), None);
}

#[test]
fn surface_format_choice() {
    let f = choose_surface_format(&vec![SurfaceFormat { format: 0, color_space: 3 }, SurfaceFormat { format: 44, color_space: 0 }]);
    assert_eq!(f, Some(SurfaceFormat { format: 30, color_space: 3 }));
    let f = choose_surface_format(&vec![SurfaceFormat { format: 44, color_space: 1 }]);
    assert_eq!(f, Some(SurfaceFormat { format: 44, color_space: 1 }));
    assert_eq!(choose_surface_format(&vec![]), None);
}

#[test]
fn swapchain_image_count_and_extent() {
    assert_eq!(desired_image_count(2, 0), 3);
    assert_eq!(desired_image_count(2, 8), 3);
    assert_eq!(desired_image_count(3, 3), 3);
    assert_eq!(surface_resolution(Extent2D { width: u32::MAX, height: 5 }, 1024, 768), Extent2D { width: 1024, height: 768 });
    assert_eq!(surface_resolution(Extent2D { width: 800, height: 600 }, 1024, 768), Extent2D { width: 800, height: 600 });
}

#[test]
fn transform_and_present_mode_choice() {
    assert_eq!(pre_transform(0b101, 0b100), 1);
    assert_eq!(pre_transform(0b110, 0b100), 0b100);
    assert_eq!(choose_present_mode(&vec![0, 2, 1]), 1);
    assert_eq!(choose_present_mode(&vec![0, 2, 3]), 2);
    assert_eq!(choose_present_mode(&vec![]), ash::vk::PresentModeKHR::FIFO.as_raw());
}

#[test]
fn loop_stops_on_escape_or_close() {
    assert_eq!(control_flow(LoopEvent::KeyboardInput { escape: true }), ControlFlow::Break);
    assert_eq!(control_flow(LoopEvent::KeyboardInput { escape: false }), ControlFlow::Continue);
    assert_eq!(control_flow(LoopEvent::CloseRequested), ControlFlow::Break);
    assert_eq!(control_flow(LoopEvent::OtherWindowEvent), ControlFlow::Continue);
    assert_eq!(control_flow(LoopEvent::OtherEvent), ControlFlow::Continue);
}
