//! IDT — Interrupt Descriptor Table (32-bit).
//!
//! 256 gates of 8 bytes; the first 32 (CPU exceptions) point at the
//! assembly stubs through kernel code selector `0x08` with attribute `0x8E`
//! (present, ring 0, 32-bit interrupt gate). Gate encoding is proved
//! against its decoding; `lidt` and the stubs themselves are the caller's
//! hardware work.

use crate::kernel::drivers::vga::{put_text, putstr, Screen, ScreenCell, VGA_CELLS};
use crate::kernel::interrupts::exceptions::{
    alignment_check,
    bound_range_exceeded,
    breakpoint,
    control_protection,
    coprocessor_segment_overrun,
    debug,
    device_not_available,
    divide_error,
    double_fault,
    dump_screen,
    floating_point_error,
    general_protection_fault,
    invalid_opcode,
    invalid_tss,
    machine_check,
    no_maskable_interrupt,
    overflow,
    page_fault,
    pushes_error_code,
    reserved,
    security_exception,
    segment_not_present,
    simd_floating_point,
    stack_segment_fault,
    vector_title,
    virtualization,
    InterruptOutcome,
};
use vstd::prelude::*;
use vstd::string::StringSliceAdditionalSpecFns;

verus! {

pub const PRESENT: u8 = 0x80;

pub const RING0: u8 = 0x00;

pub const TYPE_INTERRUPT_GATE: u8 = 0x0E;

pub const SELECTOR_KERNEL_CODE: u16 = 0x08;

/// Divide error vector (#DE).
pub const DIVIDE_VECTOR: u32 = 0;

/// Debug exception vector (#DB).
pub const DEBUG_VECTOR: u32 = 1;

/// Breakpoint exception vector (#BP).
pub const BREAKPOINT_VECTOR: u32 = 3;

/// Number of gates in the table.
pub const IDT_ENTRIES: usize = 256;

/// Size in bytes of one gate as the CPU reads it.
pub const IDT_ENTRY_SIZE: usize = 8;

/// Number of CPU exception vectors, wired to the assembly stubs.
pub const EXCEPTION_GATES: usize = 32;

/// One 8-byte interrupt gate, field by field in memory order.
#[derive(Clone, Copy, Debug, PartialEq, Eq, Structural)]
pub struct IdtEntry {
    pub base_low: u16,
    pub selector: u16,
    pub zero: u8,
    pub attr: u8,
    pub base_high: u16,
}

/// The 6-byte IDTR image: table size minus one, and table address.
#[derive(Clone, Copy, Debug, PartialEq, Eq, Structural)]
pub struct IdtDescriptor {
    pub limit: u16,
    pub base: u32,
}

/// The saved state the assembly trampoline hands to the handler: `pusha`
/// registers (EDI first), the vector number, the error code (a dummy 0 for
/// vectors without one), then what the CPU pushed.
#[derive(Clone, Copy, Debug, PartialEq, Eq, Structural)]
pub struct InterruptFrame {
    pub edi: u32,
    pub esi: u32,
    pub ebp: u32,
    pub esp_save: u32,
    pub ebx: u32,
    pub edx: u32,
    pub ecx: u32,
    pub eax: u32,
    pub int_num: u32,
    pub error_code: u32,
    pub eip: u32,
    pub cs: u32,
    pub eflags: u32,
}

/// The interrupt gate routing to handler address `base`: the address split into
/// its low and high halves around the selector, the reserved zero byte and
/// the attribute byte.
pub open spec fn gate(base: u32, selector: u16, attr: u8) -> IdtEntry {
    IdtEntry {
        base_low: (base % 0x10000) as u16,
        selector,
        zero: 0,
        attr,
        base_high: (base / 0x10000) as u16,
    }
}

/// The all-zero gate (not present).
pub open spec fn null_gate() -> IdtEntry {
    IdtEntry { base_low: 0, selector: 0, zero: 0, attr: 0, base_high: 0 }
}

impl IdtEntry {
    /// The handler address the CPU reassembles from the two halves.
    pub open spec fn offset(self) -> nat {
        self.base_low as nat + self.base_high as nat * 0x10000
    }
}

/// Builds an interrupt gate for handler `base`, code selector `selector`, attributes `attr`.
pub fn make_gate(base: u32, selector: u16, attr: u8) -> (g: IdtEntry)
    ensures
        g == gate(base, selector, attr),
{
    assert(base & 0xFFFF == base % 0x10000) by (bit_vector);
    assert((base >> 16) & 0xFFFF == base / 0x10000) by (bit_vector);
    IdtEntry {
        base_low: (base & 0xFFFF) as u16,
        selector,
        zero: 0,
        attr,
        base_high: ((base >> 16) & 0xFFFF) as u16,
    }
}

/// A gate routes to exactly the handler address it was built from: no bit
/// of the 32-bit address is lost.
pub proof fn lemma_gate_decodes(base: u32, selector: u16, attr: u8)
    ensures
        gate(base, selector, attr).offset() == base,
        gate(base, selector, attr).selector == selector,
        gate(base, selector, attr).attr == attr,
        gate(base, selector, attr).zero == 0,
{
    assert(base == base % 0x10000 + (base / 0x10000) * 0x10000) by (bit_vector);
}

/// The exception gates point at kernel code, present, ring 0, interrupt gate:
/// attribute `0x8E`, and the selector is the GDT's kernel code selector.
pub proof fn lemma_exception_gate_attributes()
    ensures
        (PRESENT | RING0 | TYPE_INTERRUPT_GATE) == 0x8E,
        SELECTOR_KERNEL_CODE == crate::arch::x86::cpu::gdt::CODE_SEGMENT,
{
    assert(0x80u8 | 0x00u8 | 0x0Eu8 == 0x8Eu8) by (bit_vector);
}

/// The interrupt descriptor table. Every table made by `new` has 256 gates
/// and the methods keep that size.
pub struct Idt {
    entries: [IdtEntry; 256],
}

impl View for Idt {
    type V = Seq<IdtEntry>;

    closed spec fn view(&self) -> Seq<IdtEntry> {
        self.entries@
    }
}

impl Idt {
    /// A table of 256 null gates.
    pub fn new() -> (t: Self)
        ensures
            t@ == Seq::new(IDT_ENTRIES as nat, |i: int| null_gate()),
    {
        let t = Idt {
            entries: [IdtEntry { base_low: 0, selector: 0, zero: 0, attr: 0, base_high: 0 }; 256],
        };
        assert(t@ =~= Seq::new(IDT_ENTRIES as nat, |i: int| null_gate()));
        t
    }

    /// The entry for vector `num`.
    pub fn entry(&self, num: usize) -> (g: IdtEntry)
        requires
            self@.len() == IDT_ENTRIES,
            num < IDT_ENTRIES,
        ensures
            g == self@[num as int],
    {
        self.entries[num]
    }

    /// Points vector `num` at handler `base`; every other gate is unchanged.
    pub fn set_gate(&mut self, num: usize, base: u32, selector: u16, attr: u8)
        requires
            old(self)@.len() == IDT_ENTRIES,
            num < IDT_ENTRIES,
        ensures
            final(self)@ == old(self)@.update(num as int, gate(base, selector, attr)),
    {
        let g = make_gate(base, selector, attr);
        self.entries[num] = g;
    }

    /// Wires the 32 exception vectors to the stub addresses `handlers`
    /// (kernel code selector, present ring-0 interrupt gates); vectors
    /// 32..255 are unchanged.
    pub fn install_exception_gates(&mut self, handlers: &[u32; 32])
        requires
            old(self)@.len() == IDT_ENTRIES,
        ensures
            final(self)@.len() == IDT_ENTRIES,
            forall|i: int|
                0 <= i < EXCEPTION_GATES ==> #[trigger] final(self)@[i] == gate(
                    handlers@[i],
                    SELECTOR_KERNEL_CODE,
                    0x8E,
                ),
            forall|i: int|
                EXCEPTION_GATES <= i < IDT_ENTRIES ==> #[trigger] final(self)@[i] == old(
                    self,
                )@[i],
    {
        let attr = PRESENT | RING0 | TYPE_INTERRUPT_GATE;
        assert(0x80u8 | 0x00u8 | 0x0Eu8 == 0x8Eu8) by (bit_vector);
        let ghost start = self@;
        let mut i: usize = 0;
        while i < EXCEPTION_GATES
            invariant
                i <= EXCEPTION_GATES,
                attr == 0x8E,
                self@.len() == IDT_ENTRIES,
                start.len() == IDT_ENTRIES,
                forall|k: int|
                    0 <= k < i ==> #[trigger] self@[k] == gate(
                        handlers@[k],
                        SELECTOR_KERNEL_CODE,
                        0x8E,
                    ),
                forall|k: int| i <= k < IDT_ENTRIES ==> #[trigger] self@[k] == start[k],
            decreases EXCEPTION_GATES - i,
        {
            self.set_gate(i, handlers[i], SELECTOR_KERNEL_CODE, attr);
            i = i + 1;
        }
    }
}

/// Whether an IDTR image loads a table of 256 gates placed at `table_base`.
pub open spec fn loads_idt(d: IdtDescriptor, table_base: u32) -> bool {
    d.limit == IDT_ENTRIES * IDT_ENTRY_SIZE - 1 && d.base == table_base
}

/// The IDTR image for the table placed at `table_base`.
pub fn descriptor(table_base: u32) -> (d: IdtDescriptor)
    ensures
        loads_idt(d, table_base),
        d.limit == 2047,
{
    IdtDescriptor { limit: (IDT_ENTRIES * IDT_ENTRY_SIZE - 1) as u16, base: table_base }
}

/// Whether an IDTR read back from the CPU loads the table placed at `table_base`.
pub fn check(loaded: &IdtDescriptor, table_base: u32) -> (ok: bool)
    ensures
        ok == loads_idt(*loaded, table_base),
{
    let expected = descriptor(table_base);
    loaded.limit == expected.limit && loaded.base == expected.base
}

/// Number of CPU exception vectors the handler knows (0..31).
pub const CPU_EXCEPTION_VECTORS: u32 = 32;

/// Whether the kernel may resume after vector `vector`: after the traps #DB
/// (1) and #BP (3), which return past the instruction, and after a vector of
/// 32 or more, which has no handler yet; every other CPU exception is fatal.
pub open spec fn handled_outcome(vector: u32) -> InterruptOutcome {
    if vector == DEBUG_VECTOR || vector == BREAKPOINT_VECTOR || vector >= CPU_EXCEPTION_VECTORS {
        InterruptOutcome::Resume
    } else {
        InterruptOutcome::Halt
    }
}

/// The screen after the handler for `frame`'s vector: for a CPU exception
/// (0..31), the dump of the frame under the vector's title, with the error
/// code for the vectors whose CPU pushes one; for a vector of 32 or more,
/// `not implemented yet` written from the top-left corner.
pub open spec fn handled_screen(cells: Seq<ScreenCell>, frame: InterruptFrame) -> Seq<ScreenCell> {
    if frame.int_num >= CPU_EXCEPTION_VECTORS {
        put_text(cells, "not implemented yet".spec_bytes())
    } else {
        dump_screen(vector_title(frame.int_num), frame, pushes_error_code(frame.int_num))
    }
}

/// Exactly the vectors 8, 10–14, 17 and 30 carry an error code from the
/// CPU; every other vector's error slot is the stub's dummy and is not shown.
pub proof fn lemma_error_code_vectors(vector: u32)
    ensures
        pushes_error_code(vector) <==> (vector == 8 || vector == 10 || vector == 11 || vector
            == 12 || vector == 13 || vector == 14 || vector == 17 || vector == 30),
{
}

/// The trap vectors show the same screen as their own handlers: #DB (1)
/// is `debug`'s dump and #BP (3) is `breakpoint`'s, both without an error
/// code row, and both resume.
pub proof fn lemma_trap_vectors_match_their_handlers(cells: Seq<ScreenCell>, f: InterruptFrame)
    ensures
        f.int_num == 1 ==> handled_screen(cells, f) == dump_screen(
            "Debug Exception (#DB)!".spec_bytes(),
            f,
            false,
        ) && handled_outcome(f.int_num) == InterruptOutcome::Resume,
        f.int_num == 3 ==> handled_screen(cells, f) == dump_screen(
            "Breakpoint Exception (#BP)!".spec_bytes(),
            f,
            false,
        ) && handled_outcome(f.int_num) == InterruptOutcome::Resume,
{
}

/// The generic handler the assembly trampoline calls with the saved frame
/// (`None` for a null frame pointer, which is ignored): dumps the frame for
/// a CPU exception vector, notes any other vector as not implemented, and
/// says whether the kernel may resume.
#[allow(non_snake_case)]
pub fn i686_ISR_handler(screen: &mut Screen, frame: Option<&InterruptFrame>) -> (o: InterruptOutcome)
    requires
        old(screen)@.len() == VGA_CELLS,
    ensures
        frame is None ==> final(screen)@ == old(screen)@ && o == InterruptOutcome::Resume,
        frame matches Some(f) ==> final(screen)@ == handled_screen(old(screen)@, *f) && o == handled_outcome(
            f.int_num,
        ),
        frame matches Some(f) ==> (f.int_num < 32 ==> final(screen)@ == dump_screen(
            vector_title(f.int_num),
            *f,
            f.int_num == 8 || (10 <= f.int_num <= 14) || f.int_num == 17 || f.int_num == 30,
        )),
        frame matches Some(f) ==> (f.int_num == 1 ==> final(screen)@ == dump_screen(
            "Debug Exception (#DB)!".spec_bytes(),
            *f,
            false,
        ) && o == InterruptOutcome::Resume),
        frame matches Some(f) ==> (f.int_num == 3 ==> final(screen)@ == dump_screen(
            "Breakpoint Exception (#BP)!".spec_bytes(),
            *f,
            false,
        ) && o == InterruptOutcome::Resume),
        frame matches Some(f) ==> (f.int_num < 32 && f.int_num != 1 && f.int_num != 3 ==> o
            == InterruptOutcome::Halt),
        frame matches Some(f) ==> (f.int_num >= 32 ==> final(screen)@ == put_text(
            old(screen)@,
            "not implemented yet".spec_bytes(),
        ) && o == InterruptOutcome::Resume),
{
    let f = match frame {
        None => {
            return InterruptOutcome::Resume;
        },
        Some(f) => f,
    };
    match f.int_num {
        0 => divide_error(screen, f),
        1 => debug(screen, f),
        2 => no_maskable_interrupt(screen, f),
        3 => breakpoint(screen, f),
        4 => overflow(screen, f),
        5 => bound_range_exceeded(screen, f),
        6 => invalid_opcode(screen, f),
        7 => device_not_available(screen, f),
        8 => double_fault(screen, f),
        9 => coprocessor_segment_overrun(screen, f),
        10 => invalid_tss(screen, f),
        11 => segment_not_present(screen, f),
        12 => stack_segment_fault(screen, f),
        13 => general_protection_fault(screen, f),
        14 => page_fault(screen, f),
        16 => floating_point_error(screen, f),
        17 => alignment_check(screen, f),
        18 => machine_check(screen, f),
        19 => simd_floating_point(screen, f),
        20 => virtualization(screen, f),
        21 => control_protection(screen, f),
        30 => security_exception(screen, f),
        15 | 22..=29 | 31 => reserved(screen, f),
        _ => {
            putstr(screen, "not implemented yet");
            InterruptOutcome::Resume
        },
    }
}

} // verus!
