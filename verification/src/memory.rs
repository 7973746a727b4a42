//! Choice of a device memory type for a resource.

use vstd::prelude::*;
use crate::vk::contains_all;

verus! {

/// One category of device memory, as the physical device reports it.
#[derive(Clone, Copy, Debug, PartialEq, Eq)]
pub struct MemoryType {
    /// `VkMemoryPropertyFlags` of this category.
    pub property_flags: u32,
    /// The heap that memory of this category is taken from.
    pub heap_index: u32,
}

/// What a resource asks of the memory bound to it.
#[derive(Clone, Copy, Debug, PartialEq, Eq)]
pub struct MemoryRequirements {
    /// Bytes to allocate.
    pub size: u64,
    /// Alignment of the binding offset, in bytes.
    pub alignment: u64,
    /// Bit `i` is set where memory type `i` may back the resource.
    pub memory_type_bits: u32,
}

/// Whether bit `index` of `mask` is set. The mask has 32 bits: no index from
/// 32 on is ever allowed.
pub open spec fn type_allowed(mask: u32, index: int) -> bool {
    0 <= index < 32 && mask & (1u32 << (index as u32)) != 0
}

/// Whether memory type `index` can back a resource that allows the types in
/// `mask` and needs every property in `flags`.
pub open spec fn qualifies(mask: u32, types: Seq<MemoryType>, flags: u32, index: int) -> bool {
    &&& 0 <= index < types.len()
    &&& type_allowed(mask, index)
    &&& contains_all(types[index].property_flags, flags)
}

/// The first memory type, in index order, that the requirement allows and
/// that has every property in `flags`; `None` where there is none.
pub fn find_memorytype_index(
    memory_req: &MemoryRequirements,
    memory_types: &Vec<MemoryType>,
    flags: u32,
) -> (found: Option<u32>)
    ensures
        match found {
            Some(index) => {
                &&& qualifies(memory_req.memory_type_bits, memory_types@, flags, index as int)
                &&& forall|earlier: int|
                    0 <= earlier < index ==> !qualifies(
                        memory_req.memory_type_bits,
                        memory_types@,
                        flags,
                        earlier,
                    )
            },
            None => forall|any: int|
                !qualifies(memory_req.memory_type_bits, memory_types@, flags, any),
        },
{
    let mask: u32 = memory_req.memory_type_bits;
    let mut index: u32 = 0;
    while index < 32 && (index as usize) < memory_types.len()
        invariant
            index <= 32,
            index <= memory_types.len(),
            mask == memory_req.memory_type_bits,
            forall|earlier: int|
                0 <= earlier < index ==> !qualifies(mask, memory_types@, flags, earlier),
        decreases 32 - index,
    {
        let allowed: bool = mask & (1u32 << index) != 0;
        let properties: u32 = memory_types[index as usize].property_flags;
        if allowed && properties & flags == flags {
            return Some(index);
        }
        index = index + 1;
    }
    None
}

} // verus!
