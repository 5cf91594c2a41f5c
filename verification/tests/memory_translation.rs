use tos_vm_runtime::memory::{
    address_is_aligned, translate_slice, translate_string, translate_u32, translate_u64,
    write_u32, MemoryMapping, MemoryRegion, MemoryTranslationError,
};

fn create_test_mapping(data: Vec<u8>) -> MemoryMapping {
    let region = MemoryRegion::new_writable(data, 0x100000000);
    MemoryMapping::new(vec![region])
}

#[test]
fn test_translate_type() {
    let data = vec![0x12, 0x34, 0x56, 0x78, 0x9A, 0xBC, 0xDE, 0xF0];
    let mapping = create_test_mapping(data);

    let result = translate_u32(&mapping, 0x100000000, true);
    assert!(result.is_ok());
    let value = result.unwrap();
    assert_eq!(value, 0x78563412); // Little-endian
}

#[test]
fn test_translate_slice() {
    let data = vec![1u8, 2, 3, 4, 5, 6, 7, 8];
    let mapping = create_test_mapping(data);

    let result = translate_slice(&mapping, 0x100000000, 4, false);
    assert!(result.is_ok());
    let slice = result.unwrap();
    assert_eq!(slice, vec![1, 2, 3, 4]);
}

#[test]
fn test_translate_empty_slice() {
    let data = vec![1u8, 2, 3, 4];
    let mapping = create_test_mapping(data);

    let result = translate_slice(&mapping, 0x100000000, 0, false);
    assert!(result.is_ok());
    let slice = result.unwrap();
    assert_eq!(slice.len(), 0);
}

#[test]
fn test_translate_empty_slice_invalid_address() {
    // A zero length never consults the mapping: even an unmapped address
    // yields an empty slice.
    let data = vec![1u8, 2, 3, 4];
    let mapping = create_test_mapping(data);

    let result = translate_slice(&mapping, 0xDEAD_BEEF, 0, false);
    assert!(result.is_ok());
    assert_eq!(result.unwrap().len(), 0);
}

#[test]
fn test_translate_string() {
    let data = b"Hello, TOS!".to_vec();
    let len = data.len() as u64;
    let mapping = create_test_mapping(data);

    let result = translate_string(&mapping, 0x100000000, len);
    assert!(result.is_ok());
    assert_eq!(result.unwrap(), "Hello, TOS!");
}

#[test]
fn test_translate_invalid_utf8() {
    let data = vec![0xFF, 0xFE, 0xFD];
    let mapping = create_test_mapping(data);

    let result = translate_string(&mapping, 0x100000000, 3);
    assert!(result.is_err());
    assert_eq!(result.unwrap_err(), MemoryTranslationError::InvalidString);
}

#[test]
fn test_address_alignment() {
    assert!(address_is_aligned(0x100000000, 4));
    assert!(address_is_aligned(0x100000004, 4));
    assert!(!address_is_aligned(0x100000001, 4));
    assert!(!address_is_aligned(0x100000002, 4));
}

#[test]
fn test_translate_type_mut() {
    let data = vec![0u8; 8];
    let mut mapping = create_test_mapping(data);

    let result = write_u32(&mut mapping, 0x100000000, 0x12345678, true);
    assert!(result.is_ok());
    let read_back = translate_u32(&mapping, 0x100000000, true);
    assert_eq!(read_back.unwrap(), 0x12345678);
    let bytes = translate_slice(&mapping, 0x100000000, 4, false).unwrap();
    assert_eq!(bytes, vec![0x78, 0x56, 0x34, 0x12]);
}

#[test]
fn test_translate_slice_mut() {
    let data = vec![1u8, 2, 3, 4, 5, 6, 7, 8];
    let mut mapping = create_test_mapping(data);

    let result = mapping.write_bytes(0x100000000, &[99, 88]);
    assert!(result.is_ok());
    let bytes = translate_slice(&mapping, 0x100000000, 8, false).unwrap();
    assert_eq!(bytes, vec![99, 88, 3, 4, 5, 6, 7, 8]);
}

#[test]
fn test_unaligned_access_with_check() {
    let data = vec![0u8; 16];
    let mapping = create_test_mapping(data);

    // Unaligned u32 access should fail with check_aligned=true
    let result = translate_u32(&mapping, 0x100000001, true);
    assert!(result.is_err());
    assert_eq!(result.unwrap_err(), MemoryTranslationError::UnalignedPointer);

    // But should succeed with check_aligned=false
    let result = translate_u32(&mapping, 0x100000001, false);
    assert!(result.is_ok());
}

#[test]
fn test_translate_u64() {
    let data = vec![1, 0, 0, 0, 0, 0, 0, 0];
    let mapping = create_test_mapping(data);

    assert_eq!(translate_u64(&mapping, 0x100000000, true).unwrap(), 1);
    assert_eq!(
        translate_u64(&mapping, 0x100000001, true).unwrap_err(),
        MemoryTranslationError::UnalignedPointer
    );
}

#[test]
fn test_unmapped_address_faults() {
    let data = vec![1u8, 2, 3, 4];
    let mapping = create_test_mapping(data);

    let result = translate_slice(&mapping, 0x100000000, 5, false);
    assert_eq!(
        result.unwrap_err(),
        MemoryTranslationError::AccessViolation { address: 0x100000000 }
    );
    let result = translate_slice(&mapping, 0x0, 1, false);
    assert!(result.is_err());
}

#[test]
fn test_readonly_region_refuses_store() {
    let region = MemoryRegion::new_readonly(vec![0u8; 4], 0x100000000);
    let mut mapping = MemoryMapping::new(vec![region]);

    assert!(mapping.write_bytes(0x100000000, &[1]).is_err());
    // Loads still succeed.
    assert!(translate_slice(&mapping, 0x100000000, 4, false).is_ok());
}

#[test]
fn test_translate_slice_length_overflow() {
    let data = vec![0u8; 4];
    let mapping = create_test_mapping(data);

    let result = translate_slice(&mapping, 0x100000000, u64::MAX, false);
    assert_eq!(result.unwrap_err(), MemoryTranslationError::InvalidLength);
}
