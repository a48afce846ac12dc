use yorunix::arch::x86::cpu::idt::{
    check, descriptor, i686_ISR_handler, make_gate, Idt, IdtDescriptor, IdtEntry,
    InterruptFrame, BREAKPOINT_VECTOR, DEBUG_VECTOR, DIVIDE_VECTOR, PRESENT, RING0,
    SELECTOR_KERNEL_CODE, TYPE_INTERRUPT_GATE,
};
use yorunix::kernel::drivers::vga::Screen;
use yorunix::kernel::interrupts::exceptions::InterruptOutcome;

fn fields(g: IdtEntry) -> (u16, u16, u8, u8, u16) {
    (g.base_low, g.selector, g.zero, g.attr, g.base_high)
}

fn frame(int_num: u32) -> InterruptFrame {
    InterruptFrame {
        edi: 1,
        esi: 2,
        ebp: 3,
        esp_save: 4,
        ebx: 5,
        edx: 6,
        ecx: 7,
        eax: 8,
        int_num,
        error_code: 0x10,
        eip: 0x0010_1234,
        cs: 0x08,
        eflags: 0x202,
    }
}

fn screen_text(s: &Screen, start: usize, len: usize) -> String {
    (start..start + len).map(|i| s.cell(i).ascii as char).collect()
}

#[test]
fn idt_gate_splits_handler_address() {
    let g = make_gate(
        0x12345678,
        SELECTOR_KERNEL_CODE,
        PRESENT | RING0 | TYPE_INTERRUPT_GATE,
    );
    // attr = 0x80 | 0x0E = 0x8E; base 0x12345678 -> low 0x5678, high 0x1234.
    assert_eq!(fields(g), (0x5678, 0x08, 0, 0x8E, 0x1234));
}

#[test]
fn gate_splits_handler_address() {
    let g = make_gate(
        0x12345678,
        SELECTOR_KERNEL_CODE,
        PRESENT | RING0 | TYPE_INTERRUPT_GATE,
    );
    // attr = 0x80 | 0x0E = 0x8E; base 0x12345678 -> low 0x5678, high 0x1234.
    assert_eq!(fields(g), (0x5678, 0x08, 0, 0x8E, 0x1234));
}

#[test]
fn idt_null_gate_is_zeroed() {
    assert_eq!(fields(make_gate(0, 0, 0)), (0, 0, 0, 0, 0));
}

#[test]
fn null_gate_is_zeroed() {
    assert_eq!(fields(make_gate(0, 0, 0)), (0, 0, 0, 0, 0));
}

#[test]
fn idt_debug_vector_is_one() {
    assert_eq!(DEBUG_VECTOR, 1);
}

#[test]
fn debug_vector_is_one() {
    assert_eq!(DEBUG_VECTOR, 1);
}

#[test]
fn idt_divide_vector_is_zero() {
    assert_eq!(DIVIDE_VECTOR, 0);
}

#[test]
fn divide_vector_is_zero() {
    assert_eq!(DIVIDE_VECTOR, 0);
}

#[test]
fn idt_handler_ignores_null_frame() {
    let mut screen = Screen::blank();
    let before = screen_text(&screen, 0, 2000);
    let o = i686_ISR_handler(&mut screen, None);
    assert_eq!(o, InterruptOutcome::Resume);
    assert_eq!(screen_text(&screen, 0, 2000), before);
}

#[test]
fn handler_ignores_null_frame() {
    let mut screen = Screen::blank();
    let before = screen_text(&screen, 0, 2000);
    let o = i686_ISR_handler(&mut screen, None);
    assert_eq!(o, InterruptOutcome::Resume);
    assert_eq!(screen_text(&screen, 0, 2000), before);
}

#[test]
fn idt_breakpoint_vector_is_three() {
    assert_eq!(BREAKPOINT_VECTOR, 3);
}

#[test]
fn idt_gate_decodes_to_handler() {
    let g = make_gate(0xC010_0F00, 0x08, 0x8E);
    assert_eq!((g.base_low as u32) | ((g.base_high as u32) << 16), 0xC010_0F00);
}

#[test]
fn idt_install_exception_gates() {
    let mut idt = Idt::new();
    let mut handlers = [0u32; 32];
    for (i, h) in handlers.iter_mut().enumerate() {
        *h = 0x0010_0000 + 0x10 * i as u32;
    }
    idt.install_exception_gates(&handlers);
    for i in 0..32 {
        assert_eq!(
            fields(idt.entry(i)),
            (
                (0x0000 + 0x10 * i) as u16,
                0x08,
                0,
                0x8E,
                0x0010
            )
        );
    }
    for i in 32..256 {
        assert_eq!(fields(idt.entry(i)), (0, 0, 0, 0, 0));
    }
}

#[test]
fn idt_set_gate_changes_one_entry() {
    let mut idt = Idt::new();
    idt.set_gate(200, 0xABCD_1234, 0x08, 0x8E);
    assert_eq!(fields(idt.entry(200)), (0x1234, 0x08, 0, 0x8E, 0xABCD));
    assert_eq!(fields(idt.entry(199)), (0, 0, 0, 0, 0));
    assert_eq!(fields(idt.entry(201)), (0, 0, 0, 0, 0));
}

#[test]
fn idt_descriptor_and_check() {
    let d = descriptor(0x0010_8000);
    assert_eq!(d.limit, 2047);
    assert!(check(&d, 0x0010_8000));
    assert!(!check(
        &IdtDescriptor {
            limit: 2047,
            base: 0
        },
        0x0010_8000
    ));
}

#[test]
fn idt_divide_error_dumps_and_halts() {
    let mut screen = Screen::blank();
    let o = i686_ISR_handler(&mut screen, Some(&frame(0)));
    assert_eq!(o, InterruptOutcome::Halt);
    assert_eq!(screen_text(&screen, 0, 19), "Divide Error (#DE)!");
    assert_eq!(screen_text(&screen, 80, 14), "EIP=0x00101234");
    assert_eq!(screen_text(&screen, 160, 13), "CS=0x00000008");
    assert_eq!(screen_text(&screen, 240, 17), "EFLAGS=0x00000202");
    assert_eq!(screen_text(&screen, 320, 14), " ".repeat(14));
}

#[test]
fn idt_debug_and_breakpoint_resume() {
    let mut screen = Screen::blank();
    assert_eq!(
        i686_ISR_handler(&mut screen, Some(&frame(1))),
        InterruptOutcome::Resume
    );
    assert_eq!(screen_text(&screen, 0, 22), "Debug Exception (#DB)!");
    let mut screen = Screen::blank();
    assert_eq!(
        i686_ISR_handler(&mut screen, Some(&frame(3))),
        InterruptOutcome::Resume
    );
    assert_eq!(screen_text(&screen, 0, 27), "Breakpoint Exception (#BP)!");
}

#[test]
fn idt_control_protection_dumps_and_halts() {
    let mut screen = Screen::blank();
    assert_eq!(
        i686_ISR_handler(&mut screen, Some(&frame(21))),
        InterruptOutcome::Halt
    );
    assert_eq!(
        screen_text(&screen, 0, 35),
        "Control protection exception (#CP)!"
    );
}

#[test]
fn idt_fault_vectors_dump_and_halt() {
    let titles = [
        (2u32, "No maskable interrupt (NMI)!", false),
        (4, "Overflow (#OF)!", false),
        (5, "Bound range exceeded (#BR)!", false),
        (6, "Invalid opcode (#UD)!", false),
        (7, "Device not available (#NM)!", false),
        (8, "Double fault (#DF)!", true),
        (9, "Coprocessor segment overrun (#CSO)!", false),
        (10, "Invalid TSS (#TS)!", true),
        (11, "Segment not present (#NP)!", true),
        (12, "Stack segment fault (#SS)!", true),
        (13, "General protection fault (#GP)!", true),
        (14, "Page fault (#PF)!", true),
        (16, "Floating point error (#MF)!", false),
        (17, "Alignment check (#AC)!", true),
        (18, "Machine check (#MC)!", false),
        (19, "SIMD floating point exception (#XF)!", false),
        (20, "Virtualization exception (#VE)!", false),
        (30, "Security exception (#SX)!", true),
    ];
    for (v, title, err) in titles {
        let mut screen = Screen::blank();
        assert_eq!(
            i686_ISR_handler(&mut screen, Some(&frame(v))),
            InterruptOutcome::Halt
        );
        assert_eq!(screen_text(&screen, 0, title.len() + 1), format!("{} ", title));
        assert_eq!(screen_text(&screen, 80, 14), "EIP=0x00101234");
        assert_eq!(screen_text(&screen, 160, 13), "CS=0x00000008");
        assert_eq!(screen_text(&screen, 240, 17), "EFLAGS=0x00000202");
        if err {
            assert_eq!(screen_text(&screen, 320, 14), "ERR=0x00000010");
        } else {
            assert_eq!(screen_text(&screen, 320, 14), " ".repeat(14));
        }
    }
}

#[test]
fn idt_reserved_vectors_dump_and_halt() {
    for v in [15u32, 22, 29, 31] {
        let mut screen = Screen::blank();
        assert_eq!(
            i686_ISR_handler(&mut screen, Some(&frame(v))),
            InterruptOutcome::Halt
        );
        assert_eq!(screen_text(&screen, 0, 20), "Reserved exception! ");
        assert_eq!(screen_text(&screen, 80, 14), "EIP=0x00101234");
    }
}

#[test]
fn idt_vectors_past_exceptions_say_not_implemented() {
    for v in [32u32, 33, 255, 0xFFFF_FFFF] {
        let mut screen = Screen::blank();
        assert_eq!(
            i686_ISR_handler(&mut screen, Some(&frame(v))),
            InterruptOutcome::Resume
        );
        assert_eq!(screen_text(&screen, 0, 20), "not implemented yet ");
        assert_eq!(screen_text(&screen, 80, 14), " ".repeat(14));
    }
}
