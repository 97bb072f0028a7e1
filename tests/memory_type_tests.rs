use gpu_image4::memory_type::find_memorytype_index;

const DEVICE_LOCAL: u32 = 0x1;
const HOST_VISIBLE: u32 = 0x2;
const HOST_COHERENT: u32 = 0x4;

#[test]
fn first_accepted_type_with_required_properties() {
    let types = [DEVICE_LOCAL, HOST_VISIBLE | HOST_COHERENT, DEVICE_LOCAL | HOST_VISIBLE, HOST_VISIBLE];
    assert_eq!(find_memorytype_index(0b1111, &types, DEVICE_LOCAL), Some(0));
    assert_eq!(find_memorytype_index(0b1110, &types, DEVICE_LOCAL), Some(2));
    assert_eq!(find_memorytype_index(0b1111, &types, HOST_VISIBLE), Some(1));
    assert_eq!(find_memorytype_index(0b1000, &types, HOST_VISIBLE), Some(3));
    assert_eq!(find_memorytype_index(0b1111, &types, 0), Some(0));
}

#[test]
fn no_type_fits() {
    let types = [DEVICE_LOCAL, HOST_VISIBLE];
    assert_eq!(find_memorytype_index(0b01, &types, HOST_VISIBLE), None);
    assert_eq!(find_memorytype_index(0, &types, 0), None);
    assert_eq!(find_memorytype_index(0b11, &[], 0), None);
}

#[test]
fn all_thirty_two_types() {
    let mut types = [0u32; 32];
    types[31] = HOST_COHERENT;
    assert_eq!(find_memorytype_index(u32::MAX, &types, HOST_COHERENT), Some(31));
    assert_eq!(find_memorytype_index(1 << 31, &types, 0), Some(31));
}
