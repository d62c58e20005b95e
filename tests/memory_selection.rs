use rt_core::memory::{find_memorytype_index, find_memorytype_index_f, MemoryProperties, MemoryRequirements};
use rt_core::resources::allocation_for;

fn req(bits: u32) -> MemoryRequirements {
    MemoryRequirements { size: 256, alignment: 16, memory_type_bits: bits }
}

fn props(flags: &[u32]) -> MemoryProperties {
    MemoryProperties { type_flags: flags.to_vec() }
}

#[test]
fn exact_match_preferred_over_earlier_superset() {
    // type 0: device-local | host-visible, type 1: device-local only
    let p = props(&[0b11, 0b1]);
    assert_eq!(find_memorytype_index(&req(0b11), &p, 0b1), Some(1));
}

#[test]
fn superset_used_when_no_exact_match() {
    let p = props(&[0b1, 0b110, 0b111]);
    assert_eq!(find_memorytype_index(&req(0b111), &p, 0b110), Some(1));
    assert_eq!(find_memorytype_index(&req(0b101), &p, 0b110), Some(2));
}

#[test]
fn disallowed_types_are_skipped() {
    let p = props(&[0b1, 0b1, 0b1]);
    assert_eq!(find_memorytype_index(&req(0b100), &p, 0b1), Some(2));
}

#[test]
fn no_suitable_type_gives_none() {
    let p = props(&[0b1, 0b10]);
    assert_eq!(find_memorytype_index(&req(0b11), &p, 0b100), None);
    assert_eq!(find_memorytype_index(&req(0), &p, 0b1), None);
    assert_eq!(find_memorytype_index(&req(0b11), &props(&[]), 0b1), None);
}

#[test]
fn types_past_the_mask_width_are_never_chosen() {
    let flags: Vec<u32> = vec![0b10; 40];
    let mut f = flags.clone();
    f[35] = 0b1;
    let p = MemoryProperties { type_flags: f };
    assert_eq!(find_memorytype_index(&req(u32::MAX), &p, 0b1), None);
    assert_eq!(find_memorytype_index(&req(1u32 << 31), &p, 0b10), Some(31));
}

#[test]
fn predicate_search_returns_first_hit() {
    let p = props(&[5, 9, 9, 12]);
    assert_eq!(find_memorytype_index_f(&req(0b1111), &p, 9, |a, b| a == b), Some(1));
    assert_eq!(find_memorytype_index_f(&req(0b1101), &p, 9, |a, b| a == b), Some(2));
    assert_eq!(find_memorytype_index_f(&req(0b1111), &p, 0, |a, _| a > 100), None);
}

#[test]
fn allocation_uses_requirement_size() {
    let p = props(&[0b110, 0b1]);
    let a = allocation_for(&req(0b11), &p, 0b1).unwrap();
    assert_eq!(a.allocation_size, 256);
    assert_eq!(a.memory_type_index, 1);
    assert!(allocation_for(&req(0b01), &p, 0b1).is_none());
}
