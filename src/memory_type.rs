use vstd::prelude::*;

verus! {

/// A device reports at most this many memory types.
pub const MAX_MEMORY_TYPES: usize = 32;

/// Memory type `index` may back the resource (its bit is set in
/// `memory_type_bits`) and has every property in `required`.
pub open spec fn memory_type_fits(memory_type_bits: u32, index: u32, property_flags: u32, required: u32) -> bool {
    &&& (1u32 << index) & memory_type_bits != 0
    &&& property_flags & required == required
}

/// The first memory type that fits: `property_flags[i]` holds the property
/// flags of memory type `i`, `memory_type_bits` the types that the resource
/// accepts, and `required` the properties that it needs. `None` when no
/// type fits.
pub fn find_memorytype_index(memory_type_bits: u32, property_flags: &[u32], required: u32) -> (r: Option<u32>)
    requires
        property_flags@.len() <= MAX_MEMORY_TYPES,
    ensures
        match r {
            Some(i) => {
                &&& i < property_flags@.len()
                &&& memory_type_fits(memory_type_bits, i, property_flags@[i as int], required)
                &&& forall|j: u32| j < i ==> !memory_type_fits(memory_type_bits, j, #[trigger] property_flags@[j as int], required)
            },
            None => forall|j: u32|
                j < property_flags@.len() ==> !memory_type_fits(memory_type_bits, j, #[trigger] property_flags@[j as int], required),
        },
{
    let mut index: usize = 0;
    while index < property_flags.len()
        invariant
            index <= property_flags@.len() <= MAX_MEMORY_TYPES,
            forall|j: u32| j < index ==> !memory_type_fits(memory_type_bits, j, #[trigger] property_flags@[j as int], required),
        decreases property_flags@.len() - index,
    {
        let i = index as u32;
        if (1u32 << i) & memory_type_bits != 0 && property_flags[index] & required == required {
            return Some(i);
        }
        index = index + 1;
    }
    None
}

} // verus!
