use render_bootstrap::depth::{depth_allocation, Allocation};
use render_bootstrap::error::RendererError;
use render_bootstrap::memory::{find_memorytype_index, MemoryRequirements, MemoryType};

fn types(flags: &[u32]) -> Vec<MemoryType> {
    flags.iter().map(|f| MemoryType { property_flags: *f, heap_index: 0 }).collect()
}

fn requirement(bits: u32) -> MemoryRequirements {
    MemoryRequirements { size: 4096, alignment: 256, memory_type_bits: bits }
}

#[test]
fn only_bit_two_and_only_type_two() {
    let found = find_memorytype_index(&requirement(0b100), &types(&[0, 0, 0x1, 0]), 0x1);
    assert_eq!(found, Some(2));
}

#[test]
fn not_found_when_the_allowed_type_lacks_the_flags() {
    // type 2 is allowed but has no flags; type 0 has them but is not allowed
    let found = find_memorytype_index(&requirement(0b100), &types(&[0x1, 0, 0, 0]), 0x1);
    assert_eq!(found, None);
}

#[test]
fn not_found_when_nothing_is_allowed() {
    assert_eq!(find_memorytype_index(&requirement(0), &types(&[0x1, 0x1]), 0x1), None);
}

#[test]
fn not_found_without_types() {
    assert_eq!(find_memorytype_index(&requirement(u32::MAX), &Vec::new(), 0x1), None);
}

#[test]
fn first_of_several_that_qualify() {
    let list = types(&[0x2, 0x1, 0x1, 0x1]);
    assert_eq!(find_memorytype_index(&requirement(0b1111), &list, 0x1), Some(1));
    assert_eq!(find_memorytype_index(&requirement(0b1100), &list, 0x1), Some(2));
    assert_eq!(find_memorytype_index(&requirement(0b1000), &list, 0x1), Some(3));
}

#[test]
fn every_required_flag_must_be_present() {
    // host visible and coherent wanted: 0x2 | 0x4
    let list = types(&[0x2, 0x4, 0x1 | 0x2 | 0x4, 0x6]);
    assert_eq!(find_memorytype_index(&requirement(0b1111), &list, 0x6), Some(2));
    assert_eq!(find_memorytype_index(&requirement(0b1011), &list, 0x6), Some(3));
    assert_eq!(find_memorytype_index(&requirement(0b0011), &list, 0x6), None);
}

#[test]
fn no_flag_wanted_takes_the_first_allowed() {
    let list = types(&[0, 0, 0]);
    assert_eq!(find_memorytype_index(&requirement(0b110), &list, 0), Some(1));
}

#[test]
fn the_last_of_thirty_two_types() {
    let mut flags = vec![0u32; 32];
    flags[31] = 0x1;
    assert_eq!(find_memorytype_index(&requirement(1 << 31), &types(&flags), 0x1), Some(31));
    assert_eq!(find_memorytype_index(&requirement(u32::MAX), &types(&flags), 0x1), Some(31));
}

#[test]
fn types_past_the_thirty_second_are_never_chosen() {
    let mut flags = vec![0u32; 40];
    flags[33] = 0x1;
    assert_eq!(find_memorytype_index(&requirement(u32::MAX), &types(&flags), 0x1), None);
}

#[test]
fn depth_memory_is_device_local_and_of_the_required_size() {
    let list = types(&[0x6, 0x1, 0x1]);
    let req = MemoryRequirements { size: 614_400, alignment: 64, memory_type_bits: 0b110 };
    assert_eq!(
        depth_allocation(&req, &list),
        Ok(Allocation { size: 614_400, memory_type_index: 1 })
    );
}

#[test]
fn depth_memory_fails_without_a_device_local_type() {
    let list = types(&[0x6, 0x2]);
    assert_eq!(
        depth_allocation(&requirement(0b11), &list),
        Err(RendererError::NoSuitableMemoryType)
    );
    // device-local memory exists but the image does not allow it
    let other = types(&[0x1, 0x2]);
    assert_eq!(
        depth_allocation(&requirement(0b10), &other),
        Err(RendererError::NoSuitableMemoryType)
    );
}
