use yorunix::arch::x86::cpu::idt::InterruptFrame;
use yorunix::kernel::drivers::vga::Screen;
use yorunix::kernel::interrupts::exceptions::{
    breakpoint, build_dump_text, debug, divide_error, dump_exception, general_protection_fault,
    no_maskable_interrupt, overflow, reserved, InterruptOutcome, COL_CS, COL_EFLAGS, COL_EIP,
    COL_ERR, DUMP_BUF_LEN,
};

fn text(title: &str, show_error_code: bool) -> String {
    let (buf, len) = build_dump_text(title, show_error_code);
    String::from_utf8_lossy(&buf[..len]).into_owned()
}

fn screen_text(s: &Screen, start: usize, len: usize) -> String {
    (start..start + len).map(|i| s.cell(i).ascii as char).collect()
}

fn frame() -> InterruptFrame {
    InterruptFrame {
        edi: 0,
        esi: 0,
        ebp: 0,
        esp_save: 0,
        ebx: 0,
        edx: 0,
        ecx: 0,
        eax: 0,
        int_num: 13,
        error_code: 0x18,
        eip: 0xC000_1000,
        cs: 0x08,
        eflags: 0x246,
    }
}

#[test]
fn dump_text_without_error_code() {
    assert_eq!(
        text("Divide Error (#DE)!", false),
        "Divide Error (#DE)!\nEIP=\nCS=\nEFLAGS=\n"
    );
}

#[test]
fn dump_text_with_error_code() {
    assert_eq!(
        text("General Protection Fault (#GP)!", true),
        "General Protection Fault (#GP)!\nEIP=\nCS=\nEFLAGS=\nERR=\n"
    );
}

#[test]
fn dump_text_truncates_overlong_title() {
    let (_, len) = build_dump_text(&"x".repeat(200), false);
    assert_eq!(len, DUMP_BUF_LEN);
}

#[test]
fn columns_match_label_lengths() {
    assert_eq!(COL_EIP, "EIP=".len());
    assert_eq!(COL_CS, "CS=".len());
    assert_eq!(COL_EFLAGS, "EFLAGS=".len());
    assert_eq!(COL_ERR, "ERR=".len());
}

#[test]
fn dump_text_rest_of_buffer_is_zero() {
    let (buf, len) = build_dump_text("T", true);
    assert_eq!(len, 1 + 1 + 22);
    assert!(buf[len..].iter().all(|&b| b == 0));
}

#[test]
fn dump_with_error_code_shows_err_row() {
    let mut s = Screen::blank();
    dump_exception(&mut s, "General Protection Fault (#GP)!", &frame(), true);
    assert_eq!(screen_text(&s, 0, 31), "General Protection Fault (#GP)!");
    assert_eq!(screen_text(&s, 80, 14), "EIP=0xC0001000");
    assert_eq!(screen_text(&s, 160, 13), "CS=0x00000008");
    assert_eq!(screen_text(&s, 240, 17), "EFLAGS=0x00000246");
    assert_eq!(screen_text(&s, 320, 14), "ERR=0x00000018");
}

#[test]
fn dump_cut_inside_a_character_falls_back_to_labels() {
    // 79 ASCII bytes then a two-byte character: the 80-byte cut splits it.
    let title = "t".repeat(79) + "é";
    let mut s = Screen::blank();
    dump_exception(&mut s, &title, &frame(), false);
    // The bare labels start on row 0, one row above the values.
    assert_eq!(screen_text(&s, 0, 14), "EIP=          ");
    assert_eq!(screen_text(&s, 80, 14), "CS= 0xC0001000");
    assert_eq!(screen_text(&s, 160, 13), "EFL0x00000008");
}

#[test]
fn dump_non_ascii_title_that_fits_is_shown() {
    let mut s = Screen::blank();
    dump_exception(&mut s, "é", &frame(), false);
    assert_eq!(s.cell(0).ascii, 0xC3);
    assert_eq!(s.cell(1).ascii, 0xA9);
}

#[test]
fn handlers_divide_debug_breakpoint() {
    let mut s = Screen::blank();
    assert_eq!(divide_error(&mut s, &frame()), InterruptOutcome::Halt);
    assert_eq!(screen_text(&s, 0, 19), "Divide Error (#DE)!");
    let mut s = Screen::blank();
    assert_eq!(debug(&mut s, &frame()), InterruptOutcome::Resume);
    assert_eq!(screen_text(&s, 80, 14), "EIP=0xC0001000");
    let mut s = Screen::blank();
    assert_eq!(breakpoint(&mut s, &frame()), InterruptOutcome::Resume);
    assert_eq!(screen_text(&s, 0, 27), "Breakpoint Exception (#BP)!");
}

#[test]
fn handlers_fatal_ones_dump_and_halt() {
    let mut s = Screen::blank();
    yorunix::kernel::drivers::vga::putstr(&mut s, "0123456789abcdefghijklmnop");
    assert_eq!(overflow(&mut s, &frame()), InterruptOutcome::Halt);
    assert_eq!(screen_text(&s, 0, 26), "Overflow (#OF)!           ");
    assert_eq!(screen_text(&s, 80, 14), "EIP=0xC0001000");
    let mut s = Screen::blank();
    assert_eq!(no_maskable_interrupt(&mut s, &frame()), InterruptOutcome::Halt);
    assert_eq!(screen_text(&s, 0, 28), "No maskable interrupt (NMI)!");
    assert_eq!(screen_text(&s, 320, 4), "    ");
    let mut s = Screen::blank();
    assert_eq!(general_protection_fault(&mut s, &frame()), InterruptOutcome::Halt);
    assert_eq!(screen_text(&s, 0, 31), "General protection fault (#GP)!");
    assert_eq!(screen_text(&s, 320, 14), "ERR=0x00000018");
    let mut s = Screen::blank();
    assert_eq!(reserved(&mut s, &frame()), InterruptOutcome::Halt);
    assert_eq!(screen_text(&s, 0, 19), "Reserved exception!");
}
