//! GDT — Global Descriptor Table (32-bit, ring 0).
//!
//! Three descriptors: NULL, kernel code (selector `0x08`) and kernel data
//! (selector `0x10`), both ring 0, 32-bit, 4 KiB granularity: the flat
//! 4 GiB model. The encoding of an entry is pure and proved against its
//! decoding; loading the table (`lgdt`, the far return that reloads `CS`)
//! and reading it back (`sgdt`) are the caller's hardware work.

use vstd::prelude::*;

verus! {

pub const CODE_SEGMENT: u16 = 0x08;

pub const DATA_SEGMENT: u16 = 0x10;

// --- Access byte ---
pub const ACCESS_PRESENT: u8 = 0x80;

pub const ACCESS_RING0: u8 = 0x00;

pub const ACCESS_CODE_SEGMENT: u8 = 0x18;

pub const ACCESS_DATA_SEGMENT: u8 = 0x10;

pub const ACCESS_CODE_READABLE: u8 = 0x02;

pub const ACCESS_DATA_WRITEABLE: u8 = 0x02;

// --- Flags (high nibble of the byte that also holds limit bits 16..19) ---
pub const FLAG_32BIT: u8 = 0x40;

pub const FLAG_GRANULARITY_4K: u8 = 0x80;

/// Number of descriptors in the kernel table.
pub const GDT_ENTRIES: usize = 3;

/// Size in bytes of one descriptor as the CPU reads it.
pub const GDT_ENTRY_SIZE: usize = 8;

/// One 8-byte GDT descriptor, field by field in memory order.
#[derive(Clone, Copy, Debug, PartialEq, Eq, Structural)]
pub struct GdtEntry {
    pub limit_low: u16,
    pub base_low: u16,
    pub base_middle: u8,
    pub access: u8,
    pub flags_limit_hi: u8,
    pub base_high: u8,
}

/// The 6-byte GDTR image: table size minus one, and table address.
#[derive(Clone, Copy, Debug, PartialEq, Eq, Structural)]
pub struct GdtDescriptor {
    pub limit: u16,
    pub base: u32,
}

/// The descriptor that encodes a segment: base split over three fields,
/// the 20-bit limit over two, the flags in the high nibble.
pub open spec fn encode(base: u32, limit: u32, access: u8, flags: u8) -> GdtEntry {
    GdtEntry {
        limit_low: (limit % 0x10000) as u16,
        base_low: (base % 0x10000) as u16,
        base_middle: ((base / 0x10000) % 0x100) as u8,
        access,
        flags_limit_hi: ((limit / 0x10000) % 0x10 + (flags / 0x10) * 0x10) as u8,
        base_high: (base / 0x1000000) as u8,
    }
}

impl GdtEntry {
    /// The segment base the CPU reassembles from the three base fields.
    pub open spec fn base(self) -> nat {
        self.base_low as nat + self.base_middle as nat * 0x10000 + self.base_high as nat
            * 0x1000000
    }

    /// The 20-bit segment limit the CPU reassembles from the two limit fields.
    pub open spec fn limit(self) -> nat {
        self.limit_low as nat + (self.flags_limit_hi % 0x10) as nat * 0x10000
    }

    /// The flags nibble, in its byte position (`0x40`, `0x80`, ...).
    pub open spec fn flags(self) -> nat {
        (self.flags_limit_hi / 0x10) as nat * 0x10
    }

    /// Builds the descriptor for `base`, `limit` (bits 0..19 are kept),
    /// `access` and `flags` (its high nibble is kept).
    pub fn new(base: u32, limit: u32, access: u8, flags: u8) -> (e: Self)
        ensures
            e == encode(base, limit, access, flags),
    {
        let limit_low = (limit & 0xFFFF) as u16;
        let base_low = (base & 0xFFFF) as u16;
        let base_middle = ((base >> 16) & 0xFF) as u8;
        let limit_hi = ((limit >> 16) & 0x0F) as u8;
        let flags_hi = flags & 0xF0;
        let flags_limit_hi = limit_hi | flags_hi;
        let base_high = ((base >> 24) & 0xFF) as u8;
        assert(limit & 0xFFFF == limit % 0x10000) by (bit_vector);
        assert(base & 0xFFFF == base % 0x10000) by (bit_vector);
        assert((base >> 16) & 0xFF == (base / 0x10000) % 0x100) by (bit_vector);
        assert((limit >> 16) & 0x0F == (limit / 0x10000) % 0x10) by (bit_vector);
        assert((base >> 24) & 0xFF == base / 0x1000000) by (bit_vector);
        assert(limit_hi | flags_hi == limit_hi + (flags / 0x10) * 0x10) by (bit_vector)
            requires
                limit_hi < 0x10,
                flags_hi == flags & 0xF0,
        ;
        GdtEntry { limit_low, base_low, base_middle, access, flags_limit_hi, base_high }
    }
}

/// Encoding a segment and reading it back as the CPU does gives the base,
/// the limit cut to 20 bits, the access byte and the flags nibble.
pub proof fn lemma_entry_decodes(base: u32, limit: u32, access: u8, flags: u8)
    ensures
        encode(base, limit, access, flags).base() == base,
        encode(base, limit, access, flags).limit() == limit % 0x100000,
        encode(base, limit, access, flags).access == access,
        encode(base, limit, access, flags).flags() == (flags / 0x10) * 0x10,
{
    assert(base == base % 0x10000 + ((base / 0x10000) % 0x100) * 0x10000 + (base / 0x1000000)
        * 0x1000000) by (bit_vector);
    assert(limit % 0x100000 == limit % 0x10000 + ((limit / 0x10000) % 0x10) * 0x10000)
        by (bit_vector);
}

/// The kernel table: NULL, kernel code (access `0x9A`), kernel data
/// (access `0x92`), both with base 0, limit `0xFFFFF`, flags `0xC0`.
pub open spec fn kernel_table() -> Seq<GdtEntry> {
    seq![encode(0, 0, 0, 0), encode(0, 0xFFFFF, 0x9A, 0xC0), encode(0, 0xFFFFF, 0x92, 0xC0)]
}

/// Access byte: present bit, privilege level, code/data bit, executable bit,
/// readable (code) / writable (data) bit.
pub open spec fn access_present(access: u8) -> bool {
    access / 0x80 == 1
}

pub open spec fn access_privilege(access: u8) -> nat {
    ((access / 0x20) % 4) as nat
}

pub open spec fn access_code_or_data(access: u8) -> bool {
    (access / 0x10) % 2 == 1
}

pub open spec fn access_executable(access: u8) -> bool {
    (access / 0x08) % 2 == 1
}

pub open spec fn access_read_write(access: u8) -> bool {
    (access / 0x02) % 2 == 1
}

/// Builds the kernel table.
pub fn kernel_gdt() -> (t: [GdtEntry; 3])
    ensures
        t@ == kernel_table(),
{
    let code_access = ACCESS_PRESENT | ACCESS_RING0 | ACCESS_CODE_SEGMENT | ACCESS_CODE_READABLE;
    let data_access = ACCESS_PRESENT | ACCESS_RING0 | ACCESS_DATA_SEGMENT | ACCESS_DATA_WRITEABLE;
    let flags = FLAG_32BIT | FLAG_GRANULARITY_4K;
    assert(0x80u8 | 0x00u8 | 0x18u8 | 0x02u8 == 0x9Au8) by (bit_vector);
    assert(0x80u8 | 0x00u8 | 0x10u8 | 0x02u8 == 0x92u8) by (bit_vector);
    assert(0x40u8 | 0x80u8 == 0xC0u8) by (bit_vector);
    let t = [
        GdtEntry::new(0, 0, 0, 0),
        GdtEntry::new(0, 0xFFFFF, code_access, flags),
        GdtEntry::new(0, 0xFFFFF, data_access, flags),
    ];
    assert(t@ =~= kernel_table());
    t
}

/// The flat model: the code and data descriptors start at address 0 and,
/// with 4 KiB granularity and 32-bit operands, span `(limit + 1)` pages of
/// 4 KiB, exactly the 4 GiB address space.
pub proof fn lemma_kernel_table_is_flat()
    ensures
        forall|i: int|
            1 <= i < 3 ==> {
                &&& #[trigger] kernel_table()[i].base() == 0
                &&& (kernel_table()[i].limit() + 1) * 0x1000 == 0x1_0000_0000
                &&& kernel_table()[i].flags() == (FLAG_32BIT | FLAG_GRANULARITY_4K)
            },
{
    assert(0x40u8 | 0x80u8 == 0xC0u8) by (bit_vector);
}

/// The selectors name the right descriptors: `CODE_SEGMENT` is index 1, the
/// present, ring-0, readable code segment; `DATA_SEGMENT` is index 2, the
/// present, ring-0, writable data segment; index 0 is the NULL descriptor.
pub proof fn lemma_selectors_name_kernel_segments()
    ensures
        CODE_SEGMENT / 8 == 1,
        CODE_SEGMENT % 8 == 0,
        DATA_SEGMENT / 8 == 2,
        DATA_SEGMENT % 8 == 0,
        kernel_table()[0] == (GdtEntry {
            limit_low: 0,
            base_low: 0,
            base_middle: 0,
            access: 0,
            flags_limit_hi: 0,
            base_high: 0,
        }),
        access_present(kernel_table()[1].access),
        access_privilege(kernel_table()[1].access) == 0,
        access_code_or_data(kernel_table()[1].access),
        access_executable(kernel_table()[1].access),
        access_read_write(kernel_table()[1].access),
        access_present(kernel_table()[2].access),
        access_privilege(kernel_table()[2].access) == 0,
        access_code_or_data(kernel_table()[2].access),
        !access_executable(kernel_table()[2].access),
        access_read_write(kernel_table()[2].access),
{
}

/// Whether a GDTR image loads the kernel table placed at `table_base`: its
/// limit is the table size minus one and its base the table address.
pub open spec fn loads_kernel_table(d: GdtDescriptor, table_base: u32) -> bool {
    d.limit == GDT_ENTRIES * GDT_ENTRY_SIZE - 1 && d.base == table_base
}

/// The GDTR image for the kernel table placed at `table_base`.
pub fn descriptor(table_base: u32) -> (d: GdtDescriptor)
    ensures
        loads_kernel_table(d, table_base),
        d.limit == 23,
{
    GdtDescriptor { limit: (GDT_ENTRIES * GDT_ENTRY_SIZE - 1) as u16, base: table_base }
}

/// Whether a GDTR read back from the CPU is the one that loads the kernel
/// table placed at `table_base`.
pub fn check(loaded: &GdtDescriptor, table_base: u32) -> (ok: bool)
    ensures
        ok == loads_kernel_table(*loaded, table_base),
{
    let expected = descriptor(table_base);
    loaded.limit == expected.limit && loaded.base == expected.base
}

} // verus!
