use rt_core::pipeline::{shader_groups, GroupKind, GROUP_COUNT};
use rt_core::accel::BufferUsage;
use rt_core::sbt::{binding_table_request, table_size, ShaderBindingTable};

fn handles(h: usize) -> Vec<u8> {
    (0..3 * h).map(|i| (i / h) as u8 + 10).collect()
}

#[test]
fn table_is_three_handles_long() {
    assert_eq!(table_size(16), 48);
    assert_eq!(table_size(0), 0);
    assert_eq!(table_size(u32::MAX), 3 * u32::MAX as u64);
}

#[test]
fn table_keeps_group_order_and_regions() {
    let h = 32usize;
    let t = ShaderBindingTable::from_handles(h as u32, handles(h)).unwrap();
    assert_eq!(t.data().len(), 3 * h);
    assert!(t.data()[0..h].iter().all(|&b| b == 10));
    assert!(t.data()[h..2 * h].iter().all(|&b| b == 11));
    assert!(t.data()[2 * h..3 * h].iter().all(|&b| b == 12));
    let r = t.trace_rays(1024, 768);
    assert_eq!(r.raygen_offset, 0);
    assert_eq!(r.hit_offset, 32);
    assert_eq!(r.hit_stride, 32);
    assert_eq!(r.miss_offset, 64);
    assert_eq!(r.miss_stride, 32);
    assert_eq!(r.callable_offset, 0);
    assert_eq!(r.callable_stride, 0);
    assert_eq!((r.width, r.height, r.depth), (1024, 768, 1));
}

#[test]
fn wrong_handle_length_is_refused() {
    assert!(ShaderBindingTable::from_handles(16, vec![0u8; 47]).is_none());
    assert!(ShaderBindingTable::from_handles(16, vec![0u8; 49]).is_none());
    assert!(ShaderBindingTable::from_handles(0, vec![]).is_some());
}

#[test]
fn group_list_matches_table_order() {
    let g = shader_groups();
    assert_eq!(g.len() as u32, GROUP_COUNT);
    let none = u32::MAX;
    assert_eq!(none, ash::vk::SHADER_UNUSED_NV);
    assert_eq!(g[0].kind, GroupKind::General);
    assert_eq!(g[0].general_shader, 0);
    assert_eq!(g[0].closest_hit_shader, none);
    assert_eq!(g[1].kind, GroupKind::TrianglesHitGroup);
    assert_eq!(g[1].general_shader, none);
    assert_eq!(g[1].closest_hit_shader, 1);
    assert_eq!(g[2].kind, GroupKind::General);
    assert_eq!(g[2].general_shader, 2);
    assert_eq!(g[2].any_hit_shader, none);
    assert_eq!(g[2].intersection_shader, none);
}

#[test]
fn binding_table_buffer_is_host_visible() {
    let r = binding_table_request(32);
    assert_eq!(r.size, 96);
    assert_eq!(r.usage, BufferUsage::TransferSrc);
    assert_eq!(r.memory_flags, ash::vk::MemoryPropertyFlags::HOST_VISIBLE.as_raw());
}
