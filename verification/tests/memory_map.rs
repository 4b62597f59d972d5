use uefi_boot::memory_map::{
    descriptor_at, EfiMemoryDescriptor, EfiMemoryType, MemoryMapHolder, DESCRIPTOR_LEN,
    MEMORY_MAP_BUFFER_SIZE,
};

fn put_descriptor(buffer: &mut [u8], ofs: usize, code: u64, d: &EfiMemoryDescriptor) {
    buffer[ofs..ofs + 8].copy_from_slice(&code.to_le_bytes());
    buffer[ofs + 8..ofs + 16].copy_from_slice(&d.physical_start.to_le_bytes());
    buffer[ofs + 16..ofs + 24].copy_from_slice(&d.virtual_start.to_le_bytes());
    buffer[ofs + 24..ofs + 32].copy_from_slice(&d.number_of_pages.to_le_bytes());
    buffer[ofs + 32..ofs + 40].copy_from_slice(&d.attribute.to_le_bytes());
}

fn descriptor(t: EfiMemoryType, start: u64, pages: u64) -> EfiMemoryDescriptor {
    EfiMemoryDescriptor {
        memory_type: t,
        physical_start: start,
        virtual_start: start + 0x1000,
        number_of_pages: pages,
        attribute: 0xf,
    }
}

#[test]
fn descriptor_getters_return_fields() {
    let d = descriptor(EfiMemoryType::CONVENTIONAL_MEMORY, 0x0010_0000, 256);
    assert_eq!(d.memory_type(), EfiMemoryType::CONVENTIONAL_MEMORY);
    assert_eq!(d.physical_start(), 0x0010_0000);
    assert_eq!(d.number_of_pages(), 256);
}

#[test]
fn memory_type_codes() {
    assert_eq!(EfiMemoryType::from_code(0), Some(EfiMemoryType::RESERVED));
    assert_eq!(EfiMemoryType::from_code(7), Some(EfiMemoryType::CONVENTIONAL_MEMORY));
    assert_eq!(EfiMemoryType::from_code(14), Some(EfiMemoryType::PERSISTENT_MEMORY));
    assert_eq!(EfiMemoryType::from_code(15), None);
    assert_eq!(EfiMemoryType::from_code(u64::MAX), None);
}

#[test]
fn new_holder_is_empty_with_full_size() {
    let holder = MemoryMapHolder::new();
    assert_eq!(holder.memory_map_size(), MEMORY_MAP_BUFFER_SIZE);
    assert_eq!(holder.map_key(), 0);
    assert_eq!(holder.descriptor_size(), 0);
    assert_eq!(holder.descriptor_version(), 0);
    assert_eq!(holder.buffer().len(), 0x10000);
    assert!(holder.buffer().iter().all(|b| *b == 0));
}

#[test]
fn default_holder_equals_new() {
    let holder = MemoryMapHolder::default();
    assert_eq!(holder.memory_map_size(), MEMORY_MAP_BUFFER_SIZE);
    assert_eq!(holder.map_key(), 0);
    assert_eq!(holder.descriptor_size(), 0);
    assert!(holder.buffer().iter().all(|b| *b == 0));
}

#[test]
fn fresh_holder_iteration_does_not_advance() {
    let holder = MemoryMapHolder::new();
    let mut it = holder.iter();
    let zero = descriptor(EfiMemoryType::RESERVED, 0, 0);
    let zero = EfiMemoryDescriptor { virtual_start: 0, attribute: 0, ..zero };
    assert_eq!(it.next(), Some(zero));
    assert_eq!(it.next(), Some(zero));
}

#[test]
fn stored_map_is_walked_by_descriptor_size() {
    let mut buffer = vec![0u8; MEMORY_MAP_BUFFER_SIZE];
    let d0 = descriptor(EfiMemoryType::BOOT_SERVICES_CODE, 0x1000, 1);
    let d1 = descriptor(EfiMemoryType::CONVENTIONAL_MEMORY, 0x0010_0000, 256);
    let d2 = descriptor(EfiMemoryType::ACPI_RECLAIM_MEMORY, 0x2000_0000, 4096);
    put_descriptor(&mut buffer, 0, 3, &d0);
    put_descriptor(&mut buffer, 48, 7, &d1);
    put_descriptor(&mut buffer, 96, 9, &d2);
    let mut holder = MemoryMapHolder::new();
    holder.store(&buffer, 144, 0x55, 48, 1);
    assert_eq!(holder.memory_map_size(), 144);
    assert_eq!(holder.map_key(), 0x55);
    assert_eq!(holder.descriptor_size(), 48);
    assert_eq!(holder.descriptor_version(), 1);
    let mut it = holder.iter();
    assert_eq!(it.next(), Some(d0));
    assert_eq!(it.next(), Some(d1));
    assert_eq!(it.next(), Some(d2));
    assert_eq!(it.next(), None);
    assert_eq!(it.next(), None);
}

#[test]
fn iteration_stops_at_unknown_memory_type() {
    let mut buffer = vec![0u8; MEMORY_MAP_BUFFER_SIZE];
    let d0 = descriptor(EfiMemoryType::LOADER_DATA, 0x4000, 2);
    put_descriptor(&mut buffer, 0, 2, &d0);
    put_descriptor(&mut buffer, 40, 0x7000_0000, &d0);
    let mut holder = MemoryMapHolder::new();
    holder.store(&buffer, 120, 1, 40, 1);
    let mut it = holder.iter();
    assert_eq!(it.next(), Some(d0));
    assert_eq!(it.next(), None);
    assert_eq!(it.next(), None);
}

#[test]
fn descriptor_past_the_buffer_end_is_not_read() {
    let buffer = vec![0u8; MEMORY_MAP_BUFFER_SIZE];
    assert!(descriptor_at(&buffer, MEMORY_MAP_BUFFER_SIZE - DESCRIPTOR_LEN).is_some());
    assert_eq!(descriptor_at(&buffer, MEMORY_MAP_BUFFER_SIZE - DESCRIPTOR_LEN + 1), None);
    assert_eq!(descriptor_at(&buffer, usize::MAX), None);
}

#[test]
fn descriptor_is_read_back_at_any_offset() {
    let mut buffer = vec![0u8; 200];
    let d = EfiMemoryDescriptor {
        memory_type: EfiMemoryType::MEMORY_MAPPED_IO,
        physical_start: 0xfee0_0000,
        virtual_start: 0xffff_ffff_fee0_0000,
        number_of_pages: 1,
        attribute: 0x8000_0000_0000_0001,
    };
    put_descriptor(&mut buffer, 13, 11, &d);
    assert_eq!(descriptor_at(&buffer, 13), Some(d));
}

#[test]
fn map_size_bounds_the_walk() {
    let mut buffer = vec![0u8; MEMORY_MAP_BUFFER_SIZE];
    let d0 = descriptor(EfiMemoryType::CONVENTIONAL_MEMORY, 0, 160);
    put_descriptor(&mut buffer, 0, 7, &d0);
    put_descriptor(&mut buffer, 48, 7, &d0);
    let mut holder = MemoryMapHolder::new();
    holder.store(&buffer, 48, 2, 48, 1);
    let mut it = holder.iter();
    assert_eq!(it.next(), Some(d0));
    assert_eq!(it.next(), None);
}
