use kinitos::descriptor::{GateType, InterruptDescriptor};
use kinitos::table::{
    DescriptorTablePointer, InterruptDescriptorTable, DESCRIPTOR_BYTES, MAX_IDT_ENTRY,
    RESERVED_VECTORS, TABLE_BYTES,
};

#[test]
fn table_sizes() {
    assert_eq!(MAX_IDT_ENTRY, 256);
    assert_eq!(DESCRIPTOR_BYTES, 16);
    assert_eq!(TABLE_BYTES, MAX_IDT_ENTRY * DESCRIPTOR_BYTES);
    assert_eq!(RESERVED_VECTORS, 32);
}

#[test]
fn new_table_is_all_zero() {
    let table = InterruptDescriptorTable::new();
    assert_eq!(table.to_bytes(), [0u8; TABLE_BYTES]);
    for vector in 0..MAX_IDT_ENTRY {
        let descriptor = table.get(vector);
        assert!(!descriptor.is_present());
        assert_eq!(descriptor.to_bytes(), [0u8; 16]);
    }
}

#[test]
fn get_returns_what_set_stored_for_every_vector() {
    for vector in 0..MAX_IDT_ENTRY {
        let mut table = InterruptDescriptorTable::new();
        let descriptor = InterruptDescriptor::encode(
            vector as u8,
            0xFFFF_8000_0000_0000 + vector as u64,
            0x08,
            GateType::Interrupt,
            (vector % 8) as u8,
            (vector % 4) as u8,
        );
        table.set(vector, descriptor);
        assert_eq!(table.get(vector), descriptor);
    }
}

#[test]
fn set_leaves_the_other_vectors_alone() {
    let mut table = InterruptDescriptorTable::new();
    let first = InterruptDescriptor::encode(0, 0x1000, 0x08, GateType::Interrupt, 0, 0);
    let last = InterruptDescriptor::encode(255, 0x2000, 0x08, GateType::Trap, 0, 3);
    table.set(0, first);
    table.set(255, last);
    assert_eq!(table.get(0), first);
    assert_eq!(table.get(255), last);
    for vector in 1..255 {
        assert_eq!(table.get(vector), InterruptDescriptor::new());
    }
}

#[test]
fn set_twice_keeps_the_second_descriptor() {
    let mut table = InterruptDescriptorTable::new();
    let first = InterruptDescriptor::encode(14, 0x1000, 0x08, GateType::Interrupt, 0, 0);
    let second = InterruptDescriptor::encode(14, 0x2000, 0x08, GateType::Interrupt, 0, 0);
    table.set(14, first);
    table.set(14, second);
    assert_eq!(table.get(14).handler_address(), 0x2000);
}

#[test]
fn image_holds_each_descriptor_at_sixteen_times_its_vector() {
    let mut table = InterruptDescriptorTable::new();
    let descriptor =
        InterruptDescriptor::encode(14, 0x1122_3344_5566_7788, 0x08, GateType::Interrupt, 0, 0);
    table.set(14, descriptor);
    table.set(255, descriptor);
    let image = table.to_bytes();
    let expected =
        [0x88, 0x77, 0x08, 0x00, 0x00, 0x8E, 0x66, 0x55, 0x44, 0x33, 0x22, 0x11, 0, 0, 0, 0];
    assert_eq!(&image[14 * 16..15 * 16], &expected);
    assert_eq!(&image[255 * 16..], &expected);
    assert!(image[..14 * 16].iter().all(|byte| *byte == 0));
    assert!(image[15 * 16..255 * 16].iter().all(|byte| *byte == 0));
}

#[test]
fn pointer_limit_is_table_size_minus_one() {
    let table = InterruptDescriptorTable::new();
    let pointer = table.pointer(0xFFFF_8000_0010_0000);
    assert_eq!(pointer.limit, 4095);
    assert_eq!(pointer.base, 0xFFFF_8000_0010_0000);
}

#[test]
fn pointer_bytes_are_limit_then_base() {
    let pointer = DescriptorTablePointer { limit: 0x0FFF, base: 0x0102_0304_0506_0708 };
    assert_eq!(
        pointer.to_bytes(),
        [0xFF, 0x0F, 0x08, 0x07, 0x06, 0x05, 0x04, 0x03, 0x02, 0x01]
    );
}
