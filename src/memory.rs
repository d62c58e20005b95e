//! Choice of a device memory type for an allocation.
use vstd::prelude::*;

verus! {

/// What a resource needs from its backing memory.
pub struct MemoryRequirements {
    pub size: u64,
    pub alignment: u64,
    /// Bit `i` is set when memory type `i` can back the resource.
    pub memory_type_bits: u32,
}

/// The memory types that a physical device advertises, in device order.
pub struct MemoryProperties {
    /// Property flags of each memory type, as raw bits.
    pub type_flags: Vec<u32>,
}

/// Whether bit `i` of a memory-type mask is set.
pub open spec fn type_allowed(bits: u32, i: int) -> bool {
    0 <= i < 32 && (bits >> (i as u32)) & 1u32 == 1u32
}

/// Type `i` can back the resource and its flags equal the request.
pub open spec fn exact_at(bits: u32, types: Seq<u32>, flags: u32, i: int) -> bool {
    0 <= i < types.len() && type_allowed(bits, i) && types[i] == flags
}

/// Type `i` can back the resource and its flags hold every requested flag.
pub open spec fn superset_at(bits: u32, types: Seq<u32>, flags: u32, i: int) -> bool {
    0 <= i < types.len() && type_allowed(bits, i) && types[i] & flags == flags
}

/// Two-phase selection: the first exact match, else the first superset match.
pub open spec fn select_spec(bits: u32, types: Seq<u32>, flags: u32, r: Option<u32>) -> bool {
    match r {
        Some(i) => {
            (exact_at(bits, types, flags, i as int) && forall|j: int|
                0 <= j < i ==> !exact_at(bits, types, flags, j)) || ((forall|k: int|
                !exact_at(bits, types, flags, k)) && superset_at(bits, types, flags, i as int)
                && forall|j: int| 0 <= j < i ==> !superset_at(bits, types, flags, j))
        },
        None => forall|k: int| !superset_at(bits, types, flags, k),
    }
}

/// Whenever a memory type can back the request, the selection finds one; the
/// type it finds holds every requested flag; and when some allowed type
/// matches the request exactly, the one found does.
pub proof fn lemma_selection_suits(bits: u32, types: Seq<u32>, flags: u32, r: Option<u32>)
    requires
        select_spec(bits, types, flags, r),
    ensures
        (exists|k: int| superset_at(bits, types, flags, k)) ==> r.is_some(),
        r.is_some() ==> superset_at(bits, types, flags, r.unwrap() as int),
        (exists|k: int| exact_at(bits, types, flags, k)) ==> r.is_some() && exact_at(
            bits,
            types,
            flags,
            r.unwrap() as int,
        ),
{
    if r.is_some() {
        let i = r.unwrap() as int;
        if exact_at(bits, types, flags, i) {
            let v = types[i];
            assert(v & v == v) by (bit_vector);
        }
    }
    if exists|k: int| exact_at(bits, types, flags, k) {
        let k = choose|k: int| exact_at(bits, types, flags, k);
        let v = types[k];
        assert(v & v == v) by (bit_vector);
        assert(superset_at(bits, types, flags, k));
    }
}

proof fn lemma_shift_step(bits: u32, i: u32)
    requires
        i < 32,
    ensures
        i < 31 ==> (bits >> i) >> 1u32 == bits >> ((i + 1) as u32),
        i == 31 ==> (bits >> i) >> 1u32 == 0,
{
    assert(i < 31 ==> (bits >> i) >> 1u32 == bits >> ((i + 1) as u32)) by (bit_vector);
    assert(i == 31 ==> (bits >> i) >> 1u32 == 0) by (bit_vector);
}

/// Finds the first memory type that the requirements allow and for which
/// `f(type_flags, flags)` holds.
pub fn find_memorytype_index_f<F: Fn(u32, u32) -> bool>(
    memory_req: &MemoryRequirements,
    memory_prop: &MemoryProperties,
    flags: u32,
    f: F,
) -> (r: Option<u32>)
    requires
        forall|a: u32, b: u32| f.requires((a, b)),
    ensures
        match r {
            Some(i) => {
                &&& i < memory_prop.type_flags@.len()
                &&& type_allowed(memory_req.memory_type_bits, i as int)
                &&& f.ensures((memory_prop.type_flags@[i as int], flags), true)
                &&& forall|j: int|
                    0 <= j < i && type_allowed(memory_req.memory_type_bits, j) ==> f.ensures(
                        (memory_prop.type_flags@[j], flags),
                        false,
                    )
            },
            None => forall|j: int|
                0 <= j < memory_prop.type_flags@.len() && type_allowed(
                    memory_req.memory_type_bits,
                    j,
                ) ==> f.ensures((memory_prop.type_flags@[j], flags), false),
        },
{
    let bits = memory_req.memory_type_bits;
    let types = &memory_prop.type_flags;
    let mut memory_type_bits: u32 = bits;
    let mut index: usize = 0;
    assert(bits >> 0u32 == bits) by (bit_vector);
    while index < types.len()
        invariant
            index <= types@.len(),
            bits == memory_req.memory_type_bits,
            types@ == memory_prop.type_flags@,
            forall|a: u32, b: u32| f.requires((a, b)),
            index < 32 ==> memory_type_bits == bits >> (index as u32),
            index >= 32 ==> memory_type_bits == 0,
            forall|j: int|
                0 <= j < index && type_allowed(bits, j) ==> f.ensures((types@[j], flags), false),
        decreases types@.len() - index,
    {
        if index < 32 {
            proof {
                lemma_shift_step(bits, index as u32);
            }
        }
        proof {
            if index >= 32 {
                assert(0u32 & 1u32 == 0u32) by (bit_vector);
                assert(0u32 >> 1u32 == 0u32) by (bit_vector);
            }
        }
        if memory_type_bits & 1 == 1 {
            assert(index < 32);
            let t = types[index];
            if f(t, flags) {
                let i = index as u32;
                assert(i as int == index as int);
                assert(type_allowed(bits, i as int));
                return Some(i);
            }
        }
        memory_type_bits = memory_type_bits >> 1;
        index = index + 1;
    }
    None
}

/// Picks a memory type for `memory_req` whose flags hold `flags`, preferring
/// one whose flags are exactly `flags`.
pub fn find_memorytype_index(
    memory_req: &MemoryRequirements,
    memory_prop: &MemoryProperties,
    flags: u32,
) -> (r: Option<u32>)
    ensures
        select_spec(memory_req.memory_type_bits, memory_prop.type_flags@, flags, r),
{
    let bits = memory_req.memory_type_bits;
    let types = Ghost(memory_prop.type_flags@);
    let exact = |property_flags: u32, flags: u32| -> (b: bool)
        ensures
            b == (property_flags == flags),
        {
            property_flags == flags
        };
    let best = find_memorytype_index_f(memory_req, memory_prop, flags, exact);
    if best.is_some() {
        proof {
            let i = best.unwrap();
            assert(exact_at(bits, types@, flags, i as int));
            assert forall|k: int| exact_at(bits, types@, flags, k) implies k >= i by {}
        }
        return best;
    }
    let covers = |property_flags: u32, flags: u32| -> (b: bool)
        ensures
            b == (property_flags & flags == flags),
        {
            property_flags & flags == flags
        };
    let r = find_memorytype_index_f(memory_req, memory_prop, flags, covers);
    proof {
        assert forall|k: int| !exact_at(bits, types@, flags, k) by {
            if exact_at(bits, types@, flags, k) {
                let v = types@[k];
                assert(v & v == v) by (bit_vector);
            }
        }
    }
    r
}

} // verus!
