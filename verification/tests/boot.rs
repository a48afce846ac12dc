use yorunix::kernel::drivers::vga::Screen;
use yorunix::kernel::interrupts::exceptions::InterruptOutcome;
use yorunix::kernel::drivers::serial::write_str;
use yorunix::{boot_log, boot_status, build_boot_text, kernel_main, serial_log, BOOT_BUF_LEN};

fn screen_text(s: &Screen, start: usize, len: usize) -> String {
    (start..start + len).map(|i| s.cell(i).ascii as char).collect()
}

#[test]
fn boot_text_lists_status_then_banner() {
    let (buf, len) = build_boot_text(&[("gdt", true), ("idt", false)], "hi\n");
    let text = core::str::from_utf8(&buf[..len]).unwrap();
    assert_eq!(text, "[ OK ] gdt\n[FAIL] idt\nhi");
}

#[test]
fn boot_text_truncates_when_full() {
    let banner = "x".repeat(BOOT_BUF_LEN);
    let (buf, len) = build_boot_text(&[("gdt", true)], &banner);
    assert_eq!(len, BOOT_BUF_LEN);
    assert!(buf.starts_with(b"[ OK ] gdt\n"));
}

#[test]
fn boot_text_with_no_status_is_the_banner() {
    let (buf, len) = build_boot_text(&[], "banner");
    assert_eq!(&buf[..len], b"banner");
    assert!(buf[len..].iter().all(|&b| b == 0));
}

#[test]
fn boot_status_order_and_overall() {
    let s = boot_status(true, true, false);
    assert_eq!(
        s,
        [("gdt", true), ("idt", true), ("vga", false), ("kernel", false)]
    );
    assert_eq!(boot_status(true, true, true)[3], ("kernel", true));
}

fn send_all(parts: &[&str]) -> Vec<u8> {
    let mut sent = Vec::new();
    for part in parts {
        let mut tx = write_str(part);
        while !tx.is_done() {
            if let Some(w) = tx.on_line_status(0x20) {
                sent.push(w.value);
            }
        }
    }
    sent
}

#[test]
fn boot_serial_log_line() {
    assert_eq!(send_all(&serial_log("gdt", true)), b"[ OK ] gdt\r\n");
    assert_eq!(send_all(&serial_log("vga", false)), b"[FAIL] vga\r\n");
}

#[test]
fn boot_log_lists_every_check() {
    assert_eq!(
        send_all(&boot_log(true, true, true)),
        b"Yorunix boot OK (COM1)\r\n[ OK ] gdt\r\n[ OK ] idt\r\n[ OK ] vga\r\n[ OK ] kernel\r\n"
    );
    assert_eq!(
        send_all(&boot_log(true, false, true)),
        b"Yorunix boot OK (COM1)\r\n[ OK ] gdt\r\n[FAIL] idt\r\n[ OK ] vga\r\n[FAIL] kernel\r\n"
    );
}

#[test]
fn boot_kernel_main_success_screen() {
    let mut s = Screen::blank();
    assert_eq!(kernel_main(&mut s, true, true, true), InterruptOutcome::Halt);
    assert_eq!(screen_text(&s, 0, 10), "[ OK ] gdt");
    assert_eq!(screen_text(&s, 80, 10), "[ OK ] idt");
    assert_eq!(screen_text(&s, 160, 10), "[ OK ] vga");
    assert_eq!(screen_text(&s, 240, 13), "[ OK ] kernel");
    assert_eq!(screen_text(&s, 320, 21), "Bem-vindo ao Yorunix!");
    assert_eq!(
        screen_text(&s, 400, 34),
        "e magrao isso aqui ta funcionando!"
    );
}

#[test]
fn boot_kernel_main_failure_screen() {
    let mut s = Screen::blank();
    assert_eq!(kernel_main(&mut s, true, false, true), InterruptOutcome::Halt);
    assert_eq!(
        screen_text(&s, 0, 37),
        "Yorunix boot FAILED - see serial log "
    );
    assert_eq!(s.cell(80).ascii, b' ');
}
