//! YoRunix kernel core: the descriptor tables, the VGA text screen, the
//! serial transmitter, the exception handlers and the freestanding memory
//! routines, as verified logic over plain values. The hardware edges
//! (`lgdt`, `lidt`, port I/O, the memory-mapped framebuffer, `hlt`) belong
//! to the boot glue that drives this library.

pub mod arch;
pub mod kernel;

use crate::kernel::drivers::serial::joined;
use crate::kernel::drivers::vga::{
    clear_screen,
    cleared,
    put_text,
    putstr,
    putstr_bytes,
    Screen,
    ScreenCell,
    VGA_CELLS,
};
use crate::kernel::interrupts::exceptions::InterruptOutcome;
use crate::kernel::text::{append_truncated, holds, is_utf8, truncated};
use vstd::prelude::*;
use vstd::string::StringSliceAdditionalSpecFns;
use vstd::utf8::valid_utf8;

verus! {

/// Capacity of the boot screen text buffer.
pub const BOOT_BUF_LEN: usize = 160;

/// `[ OK ] ` or `[FAIL] `.
pub open spec fn status_tag(ok: bool) -> Seq<u8> {
    if ok {
        "[ OK ] ".spec_bytes()
    } else {
        "[FAIL] ".spec_bytes()
    }
}

/// One status line of the boot screen: the tag, the name, a newline.
pub open spec fn status_line(name: Seq<u8>, ok: bool) -> Seq<u8> {
    status_tag(ok) + name + seq![0x0Au8]
}

/// The status lines, in order.
pub open spec fn status_lines(status: Seq<(&str, bool)>) -> Seq<u8>
    decreases status.len(),
{
    if status.len() == 0 {
        Seq::empty()
    } else {
        status_lines(status.drop_last()) + status_line(
            status.last().0.spec_bytes(),
            status.last().1,
        )
    }
}

/// `text` without its final newline, if it ends with one.
pub open spec fn without_final_newline(text: Seq<u8>) -> Seq<u8> {
    if text.len() > 0 && text.last() == 0x0Au8 {
        text.drop_last()
    } else {
        text
    }
}

/// The boot screen text: the status lines, then the banner without a
/// final newline, cut to 160 bytes.
pub open spec fn boot_text(status: Seq<(&str, bool)>, banner: Seq<u8>) -> Seq<u8> {
    truncated(status_lines(status) + without_final_newline(banner), BOOT_BUF_LEN as int)
}

/// Composes the boot screen: one `[ OK ] name` / `[FAIL] name` line per
/// subsystem, then the banner (a final newline of the banner is left out:
/// the text ends where the banner's last line ends), dropping whatever does
/// not fit in 160 bytes. Returns the buffer and the number of bytes used; the rest of the
/// buffer is zero.
pub fn build_boot_text(status: &[(&str, bool)], banner: &str) -> (r: ([u8; 160], usize))
    ensures
        holds(r.0, r.1, boot_text(status@, banner.spec_bytes())),
{
    let mut buf: [u8; 160] = [0u8; 160];
    let mut len: usize = 0;
    let newline: [u8; 1] = [0x0Au8];
    proof {
        assert(buf@.take(0) =~= Seq::<u8>::empty());
        assert(truncated(Seq::<u8>::empty(), 160) =~= Seq::<u8>::empty());
        assert(status@.take(0) =~= Seq::<(&str, bool)>::empty());
        assert(newline@ =~= seq![0x0Au8]);
    }
    let mut i: usize = 0;
    while i < status.len()
        invariant
            i <= status@.len(),
            newline@ == seq![0x0Au8],
            holds(buf, len, truncated(status_lines(status@.take(i as int)), 160)),
        decreases status.len() - i,
    {
        let (name, ok) = status[i];
        let tag = if ok {
            "[ OK ] "
        } else {
            "[FAIL] "
        };
        let ghost before = status_lines(status@.take(i as int));
        append_truncated(&mut buf, &mut len, tag.as_bytes(), Ghost(before));
        append_truncated(&mut buf, &mut len, name.as_bytes(), Ghost(before + status_tag(ok)));
        append_truncated(
            &mut buf,
            &mut len,
            newline.as_slice(),
            Ghost(before + status_tag(ok) + name.spec_bytes()),
        );
        proof {
            assert(status@.take(i + 1).drop_last() =~= status@.take(i as int));
            assert(status@.take(i + 1).last() == (name, ok));
            assert(before + status_tag(ok) + name.spec_bytes() + seq![0x0Au8] =~= status_lines(
                status@.take(i + 1),
            ));
        }
        i = i + 1;
    }
    proof {
        assert(status@.take(status@.len() as int) =~= status@);
    }
    let banner_bytes = banner.as_bytes();
    let shown = if banner_bytes.len() > 0 && banner_bytes[banner_bytes.len() - 1] == 0x0Au8 {
        banner_bytes.len() - 1
    } else {
        banner_bytes.len()
    };
    let banner_part = &banner_bytes[0..shown];
    proof {
        assert(banner_part@ =~= without_final_newline(banner.spec_bytes()));
    }
    append_truncated(&mut buf, &mut len, banner_part, Ghost(status_lines(status@)));
    (buf, len)
}

/// The serial log line for one subsystem: the tag, the name, `\r\n`.
pub open spec fn serial_log_line(name: Seq<u8>, ok: bool) -> Seq<u8> {
    status_tag(ok) + name + "\r\n".spec_bytes()
}

/// One status line of the serial log (`[ OK ] name` or `[FAIL] name`, then
/// CR-LF for terminals), as the three strings sent one after the other.
pub fn serial_log<'a>(name: &'a str, ok: bool) -> (parts: [&'a str; 3])
    ensures
        joined(parts@) == serial_log_line(name.spec_bytes(), ok),
{
    let tag = if ok {
        "[ OK ] "
    } else {
        "[FAIL] "
    };
    let parts = [tag, name, "\r\n"];
    proof {
        lemma_joined_three(tag, name, "\r\n");
        assert(parts@ =~= seq![tag, name, "\r\n"]);
    }
    parts
}

/// The boot checks, in the order they are reported: the GDT, the IDT, the
/// VGA screen, and the kernel as a whole (all three passed).
pub fn boot_status(gdt_ok: bool, idt_ok: bool, vga_ok: bool) -> (s: [(&'static str, bool); 4])
    ensures
        s@.len() == 4,
        s@[0] == ("gdt", gdt_ok),
        s@[1] == ("idt", idt_ok),
        s@[2] == ("vga", vga_ok),
        s@[3] == ("kernel", gdt_ok && idt_ok && vga_ok),
{
    [("gdt", gdt_ok), ("idt", idt_ok), ("vga", vga_ok), ("kernel", gdt_ok && idt_ok && vga_ok)]
}

/// Everything the kernel sends on COM1 at boot: the boot marker, then one
/// status line per check (GDT, IDT, VGA) and one for the kernel as a whole.
pub open spec fn boot_log_text(gdt_ok: bool, idt_ok: bool, vga_ok: bool) -> Seq<u8> {
    "Yorunix boot OK (COM1)\r\n".spec_bytes() + serial_log_line("gdt".spec_bytes(), gdt_ok)
        + serial_log_line("idt".spec_bytes(), idt_ok) + serial_log_line("vga".spec_bytes(), vga_ok)
        + serial_log_line("kernel".spec_bytes(), gdt_ok && idt_ok && vga_ok)
}

/// Each line of the boot log carries its own check's result: the marker,
/// then `[ OK ]` or `[FAIL]` with `gdt`, `idt`, `vga` for the GDT, IDT and
/// VGA results in that order, then `kernel` with all three together, each
/// line ended by CR-LF; and the two tags differ, so a line says `[ OK ]`
/// exactly when its check passed.
pub proof fn lemma_boot_log_reports_each_check(gdt_ok: bool, idt_ok: bool, vga_ok: bool)
    ensures
        boot_log_text(gdt_ok, idt_ok, vga_ok) == "Yorunix boot OK (COM1)\r\n".spec_bytes() + status_tag(gdt_ok) + "gdt".spec_bytes()
            + "\r\n".spec_bytes() + status_tag(idt_ok) + "idt".spec_bytes() + "\r\n".spec_bytes()
            + status_tag(vga_ok) + "vga".spec_bytes() + "\r\n".spec_bytes() + status_tag(
            gdt_ok && idt_ok && vga_ok,
        ) + "kernel".spec_bytes() + "\r\n".spec_bytes(),
        status_tag(true) != status_tag(false),
{
    broadcast use vstd::string::is_ascii_spec_bytes;

    reveal_strlit("[ OK ] ");
    reveal_strlit("[FAIL] ");
    assert(vstd::string::is_ascii("[ OK ] "));
    assert(vstd::string::is_ascii("[FAIL] "));
    assert(status_tag(true)[1] != status_tag(false)[1]);
    assert(boot_log_text(gdt_ok, idt_ok, vga_ok) =~= "Yorunix boot OK (COM1)\r\n".spec_bytes() + status_tag(gdt_ok) + "gdt".spec_bytes()
            + "\r\n".spec_bytes() + status_tag(idt_ok) + "idt".spec_bytes() + "\r\n".spec_bytes()
            + status_tag(vga_ok) + "vga".spec_bytes() + "\r\n".spec_bytes() + status_tag(
            gdt_ok && idt_ok && vga_ok,
        ) + "kernel".spec_bytes() + "\r\n".spec_bytes());
}

/// The boot log for the results of the GDT, IDT and VGA checks, as the
/// strings to send one after the other once COM1 is set up.
pub fn boot_log(gdt_ok: bool, idt_ok: bool, vga_ok: bool) -> (parts: [&'static str; 13])
    ensures
        joined(parts@) == boot_log_text(gdt_ok, idt_ok, vga_ok),
        joined(parts@) == "Yorunix boot OK (COM1)\r\n".spec_bytes() + status_tag(gdt_ok) + "gdt".spec_bytes()
            + "\r\n".spec_bytes() + status_tag(idt_ok) + "idt".spec_bytes() + "\r\n".spec_bytes()
            + status_tag(vga_ok) + "vga".spec_bytes() + "\r\n".spec_bytes() + status_tag(
            gdt_ok && idt_ok && vga_ok,
        ) + "kernel".spec_bytes() + "\r\n".spec_bytes(),
{
    proof {
        lemma_boot_log_reports_each_check(gdt_ok, idt_ok, vga_ok);
    }
    let status = boot_status(gdt_ok, idt_ok, vga_ok);
    let l0 = serial_log(status[0].0, status[0].1);
    let l1 = serial_log(status[1].0, status[1].1);
    let l2 = serial_log(status[2].0, status[2].1);
    let l3 = serial_log(status[3].0, status[3].1);
    let parts = [
        "Yorunix boot OK (COM1)\r\n",
        l0[0],
        l0[1],
        l0[2],
        l1[0],
        l1[1],
        l1[2],
        l2[0],
        l2[1],
        l2[2],
        l3[0],
        l3[1],
        l3[2],
    ];
    proof {
        let p = parts@;
        lemma_joined_concat(seq!["Yorunix boot OK (COM1)\r\n"], l0@);
        lemma_joined_concat(seq!["Yorunix boot OK (COM1)\r\n"] + l0@, l1@);
        lemma_joined_concat(seq!["Yorunix boot OK (COM1)\r\n"] + l0@ + l1@, l2@);
        lemma_joined_concat(seq!["Yorunix boot OK (COM1)\r\n"] + l0@ + l1@ + l2@, l3@);
        lemma_joined_one("Yorunix boot OK (COM1)\r\n");
        assert(p =~= seq!["Yorunix boot OK (COM1)\r\n"] + l0@ + l1@ + l2@ + l3@);
    }
    parts
}

proof fn lemma_joined_one(a: &str)
    ensures
        joined(seq![a]) == a.spec_bytes(),
{
    assert(seq![a].drop_last() =~= Seq::<&str>::empty());
    assert(joined(Seq::<&str>::empty()) == Seq::<u8>::empty());
    assert(seq![a].last() == a);
    assert(Seq::<u8>::empty() + a.spec_bytes() =~= a.spec_bytes());
}

proof fn lemma_joined_three(a: &str, b: &str, c: &str)
    ensures
        joined(seq![a, b, c]) == a.spec_bytes() + b.spec_bytes() + c.spec_bytes(),
{
    lemma_joined_one(a);
    assert(seq![a, b, c].drop_last() =~= seq![a, b]);
    assert(seq![a, b].drop_last() =~= seq![a]);
    assert(seq![a, b].last() == b);
    assert(seq![a, b, c].last() == c);
    assert(joined(seq![a, b]) == a.spec_bytes() + b.spec_bytes());
}

/// Joining two lists of strings is joining each and appending.
proof fn lemma_joined_concat(a: Seq<&str>, b: Seq<&str>)
    ensures
        joined(a + b) == joined(a) + joined(b),
    decreases b.len(),
{
    if b.len() == 0 {
        assert(a + b =~= a);
        assert(joined(a) + joined(b) =~= joined(a));
    } else {
        lemma_joined_concat(a, b.drop_last());
        assert((a + b).drop_last() =~= a + b.drop_last());
        assert(joined(a) + joined(b) =~= joined(a) + joined(b.drop_last()) + b.last().spec_bytes());
    }
}

/// The welcome banner shown under the status lines.
pub open spec fn banner() -> Seq<u8> {
    "Bem-vindo ao Yorunix!\ne magrao isso aqui ta funcionando!".spec_bytes()
}

/// The screen after boot: cleared, then either the failure notice (when a
/// check failed) or the status lines and the banner (the bare `Yorunix`
/// line should the composed text not be UTF-8).
pub open spec fn boot_screen(status: Seq<(&str, bool)>, boot_ok: bool) -> Seq<ScreenCell> {
    if !boot_ok {
        put_text(cleared(), "Yorunix boot FAILED - see serial log\n".spec_bytes())
    } else if valid_utf8(boot_text(status, banner())) {
        put_text(cleared(), boot_text(status, banner()))
    } else {
        put_text(cleared(), "Yorunix\n".spec_bytes())
    }
}

/// The bytes of the boot screen's pieces.
proof fn lemma_boot_literals()
    ensures
        "[ OK ] ".spec_bytes().len() == 7,
        "gdt".spec_bytes().len() == 3,
        "idt".spec_bytes().len() == 3,
        "vga".spec_bytes().len() == 3,
        "kernel".spec_bytes().len() == 6,
        banner().len() == 56,
        banner().last() == 0x21u8,
{
    broadcast use vstd::string::is_ascii_spec_bytes;

    reveal_strlit("[ OK ] ");
    reveal_strlit("gdt");
    reveal_strlit("idt");
    reveal_strlit("vga");
    reveal_strlit("kernel");
    reveal_strlit("Bem-vindo ao Yorunix!\ne magrao isso aqui ta funcionando!");
    assert(vstd::string::is_ascii("[ OK ] "));
    assert(vstd::string::is_ascii("gdt"));
    assert(vstd::string::is_ascii("idt"));
    assert(vstd::string::is_ascii("vga"));
    assert(vstd::string::is_ascii("kernel"));
    assert(vstd::string::is_ascii("Bem-vindo ao Yorunix!\ne magrao isso aqui ta funcionando!"));
}

/// A status line is valid UTF-8 and its length is the tag, the name and
/// the newline.
proof fn lemma_status_line_valid(name: &str, ok: bool)
    ensures
        valid_utf8(status_line(name.spec_bytes(), ok)),
        status_line(name.spec_bytes(), ok).len() == status_tag(ok).len() + name.spec_bytes().len()
            + 1,
{
    broadcast use vstd::utf8::encode_utf8_valid_utf8;

    lemma_newline_valid();
    vstd::utf8::valid_utf8_concat(status_tag(ok), name.spec_bytes());
    vstd::utf8::valid_utf8_concat(status_tag(ok) + name.spec_bytes(), seq![0x0Au8]);
}

proof fn lemma_newline_valid()
    ensures
        valid_utf8(seq![0x0Au8]),
{
    broadcast use vstd::string::is_ascii_spec_bytes;
    broadcast use vstd::utf8::encode_utf8_valid_utf8;

    reveal_strlit("\n");
    assert(vstd::string::is_ascii("\n"));
    assert("\n".spec_bytes() =~= seq![0x0Au8]);
    assert(valid_utf8("\n".spec_bytes()));
}

/// The boot screen follows the three checks: the failure notice exactly
/// when one of them failed, and otherwise the four `[ OK ]` lines and the
/// banner (the composed text is always UTF-8, so the bare fallback line is
/// never shown).
pub proof fn lemma_boot_screen_cases(gdt_ok: bool, idt_ok: bool, vga_ok: bool)
    ensures
        !(gdt_ok && idt_ok && vga_ok) ==> boot_screen(
            seq![("gdt", gdt_ok), ("idt", idt_ok), ("vga", vga_ok), ("kernel", gdt_ok && idt_ok && vga_ok)],
            gdt_ok && idt_ok && vga_ok,
        ) == put_text(cleared(), "Yorunix boot FAILED - see serial log\n".spec_bytes()),
        gdt_ok && idt_ok && vga_ok ==> boot_screen(
            seq![("gdt", gdt_ok), ("idt", idt_ok), ("vga", vga_ok), ("kernel", gdt_ok && idt_ok && vga_ok)],
            gdt_ok && idt_ok && vga_ok,
        ) == put_text(
            cleared(),
            boot_text(
                seq![("gdt", true), ("idt", true), ("vga", true), ("kernel", true)],
                banner(),
            ),
        ),
{
    broadcast use vstd::utf8::encode_utf8_valid_utf8;

    if gdt_ok && idt_ok && vga_ok {
        let st = seq![("gdt", true), ("idt", true), ("vga", true), ("kernel", true)];
        lemma_boot_literals();
        lemma_status_line_valid("gdt", true);
        lemma_status_line_valid("idt", true);
        lemma_status_line_valid("vga", true);
        lemma_status_line_valid("kernel", true);
        assert(st.drop_last() =~= seq![("gdt", true), ("idt", true), ("vga", true)]);
        assert(st.drop_last().drop_last() =~= seq![("gdt", true), ("idt", true)]);
        assert(st.drop_last().drop_last().drop_last() =~= seq![("gdt", true)]);
        assert(seq![("gdt", true)].drop_last() =~= Seq::<(&str, bool)>::empty());
        let l1 = status_line("gdt".spec_bytes(), true);
        let l2 = status_line("idt".spec_bytes(), true);
        let l3 = status_line("vga".spec_bytes(), true);
        let l4 = status_line("kernel".spec_bytes(), true);
        assert(status_lines(Seq::<(&str, bool)>::empty()) == Seq::<u8>::empty());
        assert(seq![("gdt", true)].last() == ("gdt", true));
        assert(seq![("gdt", true), ("idt", true)].last() == ("idt", true));
        assert(seq![("gdt", true), ("idt", true), ("vga", true)].last() == ("vga", true));
        assert(st.last() == ("kernel", true));
        assert(status_lines(seq![("gdt", true)]) =~= l1);
        assert(status_lines(seq![("gdt", true), ("idt", true)]) =~= l1 + l2);
        assert(status_lines(seq![("gdt", true), ("idt", true), ("vga", true)]) =~= l1 + l2 + l3);
        assert(status_lines(st) =~= l1 + l2 + l3 + l4);
        vstd::utf8::valid_utf8_concat(l1, l2);
        vstd::utf8::valid_utf8_concat(l1 + l2, l3);
        vstd::utf8::valid_utf8_concat(l1 + l2 + l3, l4);
        let b = banner();
        assert(without_final_newline(b) == b);
        assert(valid_utf8(b));
        vstd::utf8::valid_utf8_concat(status_lines(st), b);
        assert(truncated(status_lines(st) + without_final_newline(b), BOOT_BUF_LEN as int)
            == status_lines(st) + b);
    }
}

/// The screen side of the kernel entry point, given the results of the
/// GDT, IDT and VGA checks: clears the screen and shows the failure notice
/// when a check failed, or the boot status lines and the welcome banner.
/// Either way the kernel has nothing left to run afterwards: the outcome
/// is always `Halt`, and the caller parks the CPU.
pub fn kernel_main(screen: &mut Screen, gdt_ok: bool, idt_ok: bool, vga_ok: bool) -> (o:
    InterruptOutcome)
    requires
        old(screen)@.len() == VGA_CELLS,
    ensures
        final(screen)@ == boot_screen(
            seq![("gdt", gdt_ok), ("idt", idt_ok), ("vga", vga_ok), ("kernel", gdt_ok && idt_ok && vga_ok)],
            gdt_ok && idt_ok && vga_ok,
        ),
        !(gdt_ok && idt_ok && vga_ok) ==> final(screen)@ == put_text(
            cleared(),
            "Yorunix boot FAILED - see serial log\n".spec_bytes(),
        ),
        gdt_ok && idt_ok && vga_ok ==> final(screen)@ == put_text(
            cleared(),
            boot_text(
                seq![("gdt", true), ("idt", true), ("vga", true), ("kernel", true)],
                banner(),
            ),
        ),
        o == InterruptOutcome::Halt,
{
    proof {
        lemma_boot_screen_cases(gdt_ok, idt_ok, vga_ok);
    }
    clear_screen(screen);
    let status = boot_status(gdt_ok, idt_ok, vga_ok);
    let boot_ok = gdt_ok && idt_ok && vga_ok;
    proof {
        assert(status@ =~= seq![("gdt", gdt_ok), ("idt", idt_ok), ("vga", vga_ok), ("kernel", boot_ok)]);
    }
    if !boot_ok {
        putstr(screen, "Yorunix boot FAILED - see serial log\n");
        return InterruptOutcome::Halt;
    }
    let (buf, len) = build_boot_text(
        status.as_slice(),
        "Bem-vindo ao Yorunix!\ne magrao isso aqui ta funcionando!",
    );
    let text = buf.as_slice();
    let used = &text[0..len];
    proof {
        assert(used@ =~= boot_text(status@, banner()));
    }
    if is_utf8(used) {
        putstr_bytes(screen, used);
    } else {
        putstr(screen, "Yorunix\n");
    }
    InterruptOutcome::Halt
}

} // verus!
