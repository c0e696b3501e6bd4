//! Selection of a device memory type for the probe's buffers.
//!
//! The device reports its memory types as an array of property-flag words
//! plus, per buffer, a bit mask of the types the buffer accepts.  The probe
//! wants the first type whose properties contain every required flag, and
//! checks each buffer's mask against the chosen type before binding.

use vstd::prelude::*;

verus! {

/// A memory type's property flags contain every required flag.
pub open spec fn flags_contain(flags: u32, required: u32) -> bool {
    flags & required == required
}

/// The first reported memory type whose property flags contain every
/// required flag, as the probe's buffers are all allocated from one such
/// type.
pub fn find_memory_type(property_flags: &Vec<u32>, required: u32) -> (r: Option<usize>)
    ensures
        r matches Some(ix) ==> ix < property_flags@.len() && flags_contain(
            property_flags@[ix as int],
            required,
        ) && (forall|j: int| 0 <= j < ix ==> !flags_contain(property_flags@[j], required)),
        r is None <==> (forall|j: int|
            0 <= j < property_flags@.len() ==> !flags_contain(property_flags@[j], required)),
{
    let n: usize = property_flags.len();
    let mut i: usize = 0;
    while i < n
        invariant
            n == property_flags@.len(),
            i <= n,
            forall|j: int| 0 <= j < i ==> !flags_contain(property_flags@[j], required),
        decreases n - i,
    {
        let f: u32 = property_flags[i];
        if f & required == required {
            return Some(i);
        }
        i = i + 1;
    }
    None
}

/// A buffer's memory-type mask admits the chosen type: bit `index` of the
/// mask is set.  The probe requires this of every buffer before binding
/// its memory.
pub fn memory_type_supported(memory_type_bits: u32, index: u32) -> (r: bool)
    requires
        index < 32,
    ensures
        r == (memory_type_bits & (1u32 << index) != 0),
{
    memory_type_bits & (1u32 << index) != 0
}

} // verus!
