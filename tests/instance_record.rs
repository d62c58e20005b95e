use rt_core::accel::{identity_transform, scene_instance, F32_ONE, F32_ZERO};
use rt_core::instance::{halves_to_bytes, words_to_bytes, GeometryInstance};

#[test]
fn round_trip_of_packed_fields() {
    let t = [7u32; 12];
    let g = GeometryInstance::new(t, 0x00ab_cdef, 0x5a, 0x0012_3456, 0xc3, 0x1122_3344_5566_7788);
    assert_eq!(g.id(), 0x00ab_cdef);
    assert_eq!(g.mask(), 0x5a);
    assert_eq!(g.offset(), 0x0012_3456);
    assert_eq!(g.flags(), 0xc3);
    assert_eq!(g.instance_id_and_mask, 0x5aab_cdef);
    assert_eq!(g.instance_offset_and_flags, 0xc312_3456);
    assert_eq!(g.acceleration_handle, 0x1122_3344_5566_7788);
    assert_eq!(g.transform, t);
}

#[test]
fn wide_id_and_offset_are_truncated() {
    let g = GeometryInstance::new([0; 12], 0xff12_3456, 0x01, 0x0100_0002, 0x1ff, 0);
    assert_eq!(g.id(), 0x0012_3456);
    assert_eq!(g.mask(), 0x01);
    assert_eq!(g.offset(), 0x0000_0002);
    assert_eq!(g.flags(), 0xff);
}

#[test]
fn setters_or_into_fields() {
    let mut g = GeometryInstance::new([0; 12], 1, 0, 2, 0, 0);
    g.set_id(4);
    g.set_mask(0x80);
    g.set_offset(8);
    g.set_flags(0x3);
    assert_eq!(g.instance_id_and_mask, 0x8000_0005);
    assert_eq!(g.instance_offset_and_flags, 0x0300_000a);
}

#[test]
fn record_bytes_layout() {
    let mut t = [0u32; 12];
    t[0] = 0x0403_0201;
    t[11] = 0xddcc_bbaa;
    let g = GeometryInstance::new(t, 0x0003_0201, 0xff, 0x0006_0504, 0x01, 0x0807_0605_0403_0201);
    let b = g.to_bytes();
    assert_eq!(b.len(), 64);
    assert_eq!(&b[0..4], &[1, 2, 3, 4]);
    assert_eq!(&b[44..48], &[0xaa, 0xbb, 0xcc, 0xdd]);
    assert_eq!(&b[48..52], &[1, 2, 3, 0xff]);
    assert_eq!(&b[52..56], &[4, 5, 6, 1]);
    assert_eq!(&b[56..64], &[1, 2, 3, 4, 5, 6, 7, 8]);
}

#[test]
fn scene_instance_fields() {
    let g = scene_instance(0xabcd);
    assert_eq!(g.id(), 0);
    assert_eq!(g.mask(), 0xff);
    assert_eq!(g.offset(), 0);
    assert_eq!(g.flags() as u32, ash::vk::GeometryInstanceFlagsNV::TRIANGLE_CULL_DISABLE.as_raw());
    assert_eq!(g.flags(), 1);
    assert_eq!(g.acceleration_handle, 0xabcd);
    assert_eq!(g.transform, identity_transform());
    assert_eq!(identity_transform()[0], F32_ONE);
    assert_eq!(identity_transform()[0], 1.0f32.to_bits());
    assert_eq!(identity_transform()[5], 1.0f32.to_bits());
    assert_eq!(identity_transform()[10], 1.0f32.to_bits());
    assert_eq!(identity_transform()[3], F32_ZERO);
}

#[test]
fn word_encodings_are_little_endian() {
    assert_eq!(words_to_bytes(&vec![0x0102_0304, 0xa0b0_c0d0]), vec![4, 3, 2, 1, 0xd0, 0xc0, 0xb0, 0xa0]);
    assert_eq!(halves_to_bytes(&vec![0x0102, 0xff00]), vec![2, 1, 0, 0xff]);
    assert!(words_to_bytes(&vec![]).is_empty());
}
