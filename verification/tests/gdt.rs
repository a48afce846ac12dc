use yorunix::arch::x86::cpu::gdt::{
    check, descriptor, kernel_gdt, GdtDescriptor, GdtEntry, ACCESS_CODE_READABLE,
    ACCESS_CODE_SEGMENT, ACCESS_DATA_SEGMENT, ACCESS_DATA_WRITEABLE, ACCESS_PRESENT, ACCESS_RING0,
    CODE_SEGMENT, DATA_SEGMENT, FLAG_32BIT, FLAG_GRANULARITY_4K,
};

fn fields(e: GdtEntry) -> (u16, u16, u8, u8, u8, u8) {
    (
        e.limit_low,
        e.base_low,
        e.base_middle,
        e.access,
        e.flags_limit_hi,
        e.base_high,
    )
}

#[test]
fn null_descriptor_is_zeroed() {
    assert_eq!(fields(GdtEntry::new(0, 0, 0, 0)), (0, 0, 0, 0, 0, 0));
}

#[test]
fn kernel_code_segment_encoding() {
    let e = GdtEntry::new(
        0,
        0xFFFFF,
        ACCESS_PRESENT | ACCESS_RING0 | ACCESS_CODE_SEGMENT | ACCESS_CODE_READABLE,
        FLAG_32BIT | FLAG_GRANULARITY_4K,
    );
    // access = 0x80 | 0x18 | 0x02 = 0x9A; high limit 0xF + flags 0xC0 = 0xCF.
    assert_eq!(fields(e), (0xFFFF, 0, 0, 0x9A, 0xCF, 0));
}

#[test]
fn kernel_data_segment_encoding() {
    let e = GdtEntry::new(
        0,
        0xFFFFF,
        ACCESS_PRESENT | ACCESS_RING0 | ACCESS_DATA_SEGMENT | ACCESS_DATA_WRITEABLE,
        FLAG_32BIT | FLAG_GRANULARITY_4K,
    );
    // access = 0x80 | 0x10 | 0x02 = 0x92.
    assert_eq!(fields(e), (0xFFFF, 0, 0, 0x92, 0xCF, 0));
}

#[test]
fn base_and_limit_fields_split_correctly() {
    let e = GdtEntry::new(0x12345678, 0xABCDE, 0, 0);
    assert_eq!(fields(e), (0xBCDE, 0x5678, 0x34, 0, 0x0A, 0x12));
}

#[test]
fn gdt_limit_above_20_bits_and_low_flag_bits_are_dropped() {
    let e = GdtEntry::new(0xFFFF_FFFF, 0xFFF1_2345, 0x9A, 0x0F);
    assert_eq!(fields(e), (0x2345, 0xFFFF, 0xFF, 0x9A, 0x01, 0xFF));
}

#[test]
fn gdt_entry_decodes_to_its_segment() {
    let (base, limit, access, flags) = (0xDEAD_BEEFu32, 0x000C_0FFEu32, 0x92u8, 0xC5u8);
    let e = GdtEntry::new(base, limit, access, flags);
    let decoded_base =
        e.base_low as u32 | (e.base_middle as u32) << 16 | (e.base_high as u32) << 24;
    let decoded_limit = e.limit_low as u32 | ((e.flags_limit_hi & 0x0F) as u32) << 16;
    assert_eq!(decoded_base, base);
    assert_eq!(decoded_limit, limit & 0xFFFFF);
    assert_eq!(e.access, access);
    assert_eq!(e.flags_limit_hi & 0xF0, flags & 0xF0);
}

#[test]
fn gdt_kernel_table_is_null_code_data() {
    let t = kernel_gdt();
    assert_eq!(fields(t[0]), (0, 0, 0, 0, 0, 0));
    assert_eq!(fields(t[1]), (0xFFFF, 0, 0, 0x9A, 0xCF, 0));
    assert_eq!(fields(t[2]), (0xFFFF, 0, 0, 0x92, 0xCF, 0));
    assert_eq!(CODE_SEGMENT >> 3, 1);
    assert_eq!(DATA_SEGMENT >> 3, 2);
}

#[test]
fn gdt_descriptor_and_check() {
    let d = descriptor(0x0010_2000);
    assert_eq!(d.limit, 23);
    assert_eq!(d.base, 0x0010_2000);
    assert!(check(&d, 0x0010_2000));
    assert!(!check(&d, 0x0010_2008));
    assert!(!check(
        &GdtDescriptor {
            limit: 15,
            base: 0x0010_2000
        },
        0x0010_2000
    ));
}
