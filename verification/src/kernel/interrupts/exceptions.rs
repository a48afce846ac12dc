//! Exception handlers: what each CPU exception shows on the screen, and
//! whether the kernel may resume afterwards.
//!
//! Dumps go through `dump_exception`: the screen is cleared, the title is
//! written on row 0 with the labels `EIP=`, `CS=`, `EFLAGS=` (and `ERR=`
//! for vectors whose CPU pushes an error code) below it, and each value is
//! written as `0xXXXXXXXX` right after its label. Halting the CPU is the
//! caller's hardware work, requested through `InterruptOutcome::Halt`.

use crate::arch::x86::cpu::idt::InterruptFrame;
use crate::kernel::drivers::vga::{
    cells_with_text,
    clear_screen,
    cleared,
    hex_text,
    lemma_put_run_concat,
    lemma_put_run_newline,
    lemma_put_run_plain,
    no_newline,
    put_hex_at,
    put_hex_cells,
    put_text,
    putstr,
    putstr_bytes,
    row_text,
    shown_ascii,
    written_from,
    Screen,
    ScreenCell,
    VGA_CELLS,
};
use crate::kernel::text::{append_truncated, holds, is_utf8, truncated};
use vstd::prelude::*;
use vstd::string::StringSliceAdditionalSpecFns;
use vstd::utf8::valid_utf8;

verus! {

/// What the interrupted code may do once a handler is done.
#[derive(Clone, Copy, Debug, PartialEq, Eq, Structural)]
pub enum InterruptOutcome {
    /// Return with `iret` and carry on.
    Resume,
    /// Never return: mask interrupts and halt for good.
    Halt,
}

/// Column where each value starts: the length of its label.
pub const COL_EIP: usize = 4;

pub const COL_CS: usize = 3;

pub const COL_EFLAGS: usize = 7;

pub const COL_ERR: usize = 4;

/// Capacity of the dump's text buffer.
pub const DUMP_BUF_LEN: usize = 80;

/// The label rows of a dump: `ERR=` only for vectors with an error code.
pub open spec fn dump_labels(show_error_code: bool) -> Seq<u8> {
    if show_error_code {
        "EIP=\nCS=\nEFLAGS=\nERR=\n".spec_bytes()
    } else {
        "EIP=\nCS=\nEFLAGS=\n".spec_bytes()
    }
}

/// The dump's text: the title, a newline, the labels, cut to 80 bytes.
pub open spec fn dump_text(title: Seq<u8>, show_error_code: bool) -> Seq<u8> {
    truncated(title + seq![0x0Au8] + dump_labels(show_error_code), DUMP_BUF_LEN as int)
}

/// Composes the dump's text into a fixed buffer: `title`, `\n`, then the
/// labels (`ERR=` only when `show_error_code`), dropping whatever does not
/// fit in 80 bytes. Returns the buffer and the number of bytes used; the
/// rest of the buffer is zero.
pub fn build_dump_text(title: &str, show_error_code: bool) -> (r: ([u8; 80], usize))
    ensures
        holds(r.0, r.1, dump_text(title.spec_bytes(), show_error_code)),
{
    let labels = if show_error_code {
        "EIP=\nCS=\nEFLAGS=\nERR=\n"
    } else {
        "EIP=\nCS=\nEFLAGS=\n"
    };
    let mut buf: [u8; 80] = [0u8; 80];
    let mut len: usize = 0;
    proof {
        assert(buf@.take(0) =~= Seq::<u8>::empty());
        assert(truncated(Seq::<u8>::empty(), 80) =~= Seq::<u8>::empty());
    }
    append_truncated(&mut buf, &mut len, title.as_bytes(), Ghost(Seq::<u8>::empty()));
    let newline: [u8; 1] = [0x0Au8];
    proof {
        assert(Seq::<u8>::empty() + title.spec_bytes() =~= title.spec_bytes());
    }
    append_truncated(&mut buf, &mut len, newline.as_slice(), Ghost(title.spec_bytes()));
    proof {
        assert(newline@ =~= seq![0x0Au8]);
    }
    append_truncated(
        &mut buf,
        &mut len,
        labels.as_bytes(),
        Ghost(title.spec_bytes() + seq![0x0Au8]),
    );
    (buf, len)
}

/// The text a dump writes: its composed text, or the bare labels where the
/// cut left the title in the middle of a UTF-8 character.
pub open spec fn dump_payload(title: Seq<u8>, show_error_code: bool) -> Seq<u8> {
    if valid_utf8(dump_text(title, show_error_code)) {
        dump_text(title, show_error_code)
    } else {
        "EIP=\nCS=\nEFLAGS=\n".spec_bytes()
    }
}

/// The screen a dump leaves: cleared, the text from the top-left corner,
/// then `EIP` on row 1, `CS` on row 2, `EFLAGS` on row 3 and, with an error
/// code, `ERR` on row 4, each right after its label.
pub open spec fn dump_screen(title: Seq<u8>, frame: InterruptFrame, show_error_code: bool) -> Seq<
    ScreenCell,
> {
    let text = put_text(cleared(), dump_payload(title, show_error_code));
    let with_eip = put_hex_cells(text, frame.eip, 1, COL_EIP as int);
    let with_cs = put_hex_cells(with_eip, frame.cs, 2, COL_CS as int);
    let with_eflags = put_hex_cells(with_cs, frame.eflags, 3, COL_EFLAGS as int);
    if show_error_code {
        put_hex_cells(with_eflags, frame.error_code, 4, COL_ERR as int)
    } else {
        with_eflags
    }
}

/// The shared exception dump: clears the screen, writes `title` and the
/// labels, then the saved `EIP`, `CS`, `EFLAGS` (and the error code when
/// `show_error_code`) next to their labels.
pub fn dump_exception(screen: &mut Screen, title: &str, frame: &InterruptFrame, show_error_code: bool)
    requires
        old(screen)@.len() == VGA_CELLS,
    ensures
        final(screen)@ == dump_screen(title.spec_bytes(), *frame, show_error_code),
{
    let eip = frame.eip;
    let cs = frame.cs;
    let eflags = frame.eflags;
    let err = frame.error_code;
    clear_screen(screen);
    let (buf, len) = build_dump_text(title, show_error_code);
    let text = buf.as_slice();
    proof {
        assert(text@ == buf@);
    }
    let used = slice_prefix(text, len);
    if is_utf8(used) {
        putstr_bytes(screen, used);
    } else {
        putstr(screen, "EIP=\nCS=\nEFLAGS=\n");
    }
    put_hex_at(screen, eip, 1, COL_EIP);
    put_hex_at(screen, cs, 2, COL_CS);
    put_hex_at(screen, eflags, 3, COL_EFLAGS);
    if show_error_code {
        put_hex_at(screen, err, 4, COL_ERR);
    }
}

/// The first `len` bytes of `s`.
fn slice_prefix(s: &[u8], len: usize) -> (r: &[u8])
    requires
        len <= s@.len(),
    ensures
        r@ == s@.take(len as int),
{
    let r = &s[0..len];
    proof {
        assert(r@ =~= s@.take(len as int));
    }
    r
}

/// #DE — divide error, vector 0: no error code. Dumps the frame; the
/// kernel must then halt (returning would re-run the faulting code with
/// nothing fixed).
pub fn divide_error(screen: &mut Screen, frame: &InterruptFrame) -> (o: InterruptOutcome)
    requires
        old(screen)@.len() == VGA_CELLS,
    ensures
        final(screen)@ == dump_screen("Divide Error (#DE)!".spec_bytes(), *frame, false),
        o == InterruptOutcome::Halt,
{
    dump_exception(screen, "Divide Error (#DE)!", frame, false);
    InterruptOutcome::Halt
}

/// NMI — non-maskable interrupt, vector 2: no error code. Dumps the frame; the
/// kernel must then halt (returning would re-run the faulting code with
/// nothing fixed).
pub fn no_maskable_interrupt(screen: &mut Screen, frame: &InterruptFrame) -> (o: InterruptOutcome)
    requires
        old(screen)@.len() == VGA_CELLS,
    ensures
        final(screen)@ == dump_screen("No maskable interrupt (NMI)!".spec_bytes(), *frame, false),
        o == InterruptOutcome::Halt,
{
    dump_exception(screen, "No maskable interrupt (NMI)!", frame, false);
    InterruptOutcome::Halt
}

/// #OF — overflow, vector 4: no error code. Dumps the frame; the
/// kernel must then halt (returning would re-run the faulting code with
/// nothing fixed).
pub fn overflow(screen: &mut Screen, frame: &InterruptFrame) -> (o: InterruptOutcome)
    requires
        old(screen)@.len() == VGA_CELLS,
    ensures
        final(screen)@ == dump_screen("Overflow (#OF)!".spec_bytes(), *frame, false),
        o == InterruptOutcome::Halt,
{
    dump_exception(screen, "Overflow (#OF)!", frame, false);
    InterruptOutcome::Halt
}

/// #BR — bound range exceeded, vector 5: no error code. Dumps the frame; the
/// kernel must then halt (returning would re-run the faulting code with
/// nothing fixed).
pub fn bound_range_exceeded(screen: &mut Screen, frame: &InterruptFrame) -> (o: InterruptOutcome)
    requires
        old(screen)@.len() == VGA_CELLS,
    ensures
        final(screen)@ == dump_screen("Bound range exceeded (#BR)!".spec_bytes(), *frame, false),
        o == InterruptOutcome::Halt,
{
    dump_exception(screen, "Bound range exceeded (#BR)!", frame, false);
    InterruptOutcome::Halt
}

/// #UD — invalid opcode, vector 6: no error code. Dumps the frame; the
/// kernel must then halt (returning would re-run the faulting code with
/// nothing fixed).
pub fn invalid_opcode(screen: &mut Screen, frame: &InterruptFrame) -> (o: InterruptOutcome)
    requires
        old(screen)@.len() == VGA_CELLS,
    ensures
        final(screen)@ == dump_screen("Invalid opcode (#UD)!".spec_bytes(), *frame, false),
        o == InterruptOutcome::Halt,
{
    dump_exception(screen, "Invalid opcode (#UD)!", frame, false);
    InterruptOutcome::Halt
}

/// #NM — device not available, vector 7: no error code. Dumps the frame; the
/// kernel must then halt (returning would re-run the faulting code with
/// nothing fixed).
pub fn device_not_available(screen: &mut Screen, frame: &InterruptFrame) -> (o: InterruptOutcome)
    requires
        old(screen)@.len() == VGA_CELLS,
    ensures
        final(screen)@ == dump_screen("Device not available (#NM)!".spec_bytes(), *frame, false),
        o == InterruptOutcome::Halt,
{
    dump_exception(screen, "Device not available (#NM)!", frame, false);
    InterruptOutcome::Halt
}

/// #DF — double fault, vector 8: a fault whose CPU pushes an error code. Dumps the frame with its error code; the
/// kernel must then halt (returning would re-run the faulting code with
/// nothing fixed).
pub fn double_fault(screen: &mut Screen, frame: &InterruptFrame) -> (o: InterruptOutcome)
    requires
        old(screen)@.len() == VGA_CELLS,
    ensures
        final(screen)@ == dump_screen("Double fault (#DF)!".spec_bytes(), *frame, true),
        o == InterruptOutcome::Halt,
{
    dump_exception(screen, "Double fault (#DF)!", frame, true);
    InterruptOutcome::Halt
}

/// coprocessor segment overrun, vector 9: no error code. Dumps the frame; the
/// kernel must then halt (returning would re-run the faulting code with
/// nothing fixed).
pub fn coprocessor_segment_overrun(screen: &mut Screen, frame: &InterruptFrame) -> (o: InterruptOutcome)
    requires
        old(screen)@.len() == VGA_CELLS,
    ensures
        final(screen)@ == dump_screen("Coprocessor segment overrun (#CSO)!".spec_bytes(), *frame, false),
        o == InterruptOutcome::Halt,
{
    dump_exception(screen, "Coprocessor segment overrun (#CSO)!", frame, false);
    InterruptOutcome::Halt
}

/// #TS — invalid TSS, vector 10: a fault whose CPU pushes an error code. Dumps the frame with its error code; the
/// kernel must then halt (returning would re-run the faulting code with
/// nothing fixed).
pub fn invalid_tss(screen: &mut Screen, frame: &InterruptFrame) -> (o: InterruptOutcome)
    requires
        old(screen)@.len() == VGA_CELLS,
    ensures
        final(screen)@ == dump_screen("Invalid TSS (#TS)!".spec_bytes(), *frame, true),
        o == InterruptOutcome::Halt,
{
    dump_exception(screen, "Invalid TSS (#TS)!", frame, true);
    InterruptOutcome::Halt
}

/// #NP — segment not present, vector 11: a fault whose CPU pushes an error code. Dumps the frame with its error code; the
/// kernel must then halt (returning would re-run the faulting code with
/// nothing fixed).
pub fn segment_not_present(screen: &mut Screen, frame: &InterruptFrame) -> (o: InterruptOutcome)
    requires
        old(screen)@.len() == VGA_CELLS,
    ensures
        final(screen)@ == dump_screen("Segment not present (#NP)!".spec_bytes(), *frame, true),
        o == InterruptOutcome::Halt,
{
    dump_exception(screen, "Segment not present (#NP)!", frame, true);
    InterruptOutcome::Halt
}

/// #SS — stack segment fault, vector 12: a fault whose CPU pushes an error code. Dumps the frame with its error code; the
/// kernel must then halt (returning would re-run the faulting code with
/// nothing fixed).
pub fn stack_segment_fault(screen: &mut Screen, frame: &InterruptFrame) -> (o: InterruptOutcome)
    requires
        old(screen)@.len() == VGA_CELLS,
    ensures
        final(screen)@ == dump_screen("Stack segment fault (#SS)!".spec_bytes(), *frame, true),
        o == InterruptOutcome::Halt,
{
    dump_exception(screen, "Stack segment fault (#SS)!", frame, true);
    InterruptOutcome::Halt
}

/// #GP — general protection fault, vector 13: a fault whose CPU pushes an error code. Dumps the frame with its error code; the
/// kernel must then halt (returning would re-run the faulting code with
/// nothing fixed).
pub fn general_protection_fault(screen: &mut Screen, frame: &InterruptFrame) -> (o: InterruptOutcome)
    requires
        old(screen)@.len() == VGA_CELLS,
    ensures
        final(screen)@ == dump_screen("General protection fault (#GP)!".spec_bytes(), *frame, true),
        o == InterruptOutcome::Halt,
{
    dump_exception(screen, "General protection fault (#GP)!", frame, true);
    InterruptOutcome::Halt
}

/// #PF — page fault, vector 14: a fault whose CPU pushes an error code. Dumps the frame with its error code; the
/// kernel must then halt (returning would re-run the faulting code with
/// nothing fixed).
pub fn page_fault(screen: &mut Screen, frame: &InterruptFrame) -> (o: InterruptOutcome)
    requires
        old(screen)@.len() == VGA_CELLS,
    ensures
        final(screen)@ == dump_screen("Page fault (#PF)!".spec_bytes(), *frame, true),
        o == InterruptOutcome::Halt,
{
    dump_exception(screen, "Page fault (#PF)!", frame, true);
    InterruptOutcome::Halt
}

/// #MF — x87 floating point error, vector 16: no error code. Dumps the frame; the
/// kernel must then halt (returning would re-run the faulting code with
/// nothing fixed).
pub fn floating_point_error(screen: &mut Screen, frame: &InterruptFrame) -> (o: InterruptOutcome)
    requires
        old(screen)@.len() == VGA_CELLS,
    ensures
        final(screen)@ == dump_screen("Floating point error (#MF)!".spec_bytes(), *frame, false),
        o == InterruptOutcome::Halt,
{
    dump_exception(screen, "Floating point error (#MF)!", frame, false);
    InterruptOutcome::Halt
}

/// #AC — alignment check, vector 17: a fault whose CPU pushes an error code. Dumps the frame with its error code; the
/// kernel must then halt (returning would re-run the faulting code with
/// nothing fixed).
pub fn alignment_check(screen: &mut Screen, frame: &InterruptFrame) -> (o: InterruptOutcome)
    requires
        old(screen)@.len() == VGA_CELLS,
    ensures
        final(screen)@ == dump_screen("Alignment check (#AC)!".spec_bytes(), *frame, true),
        o == InterruptOutcome::Halt,
{
    dump_exception(screen, "Alignment check (#AC)!", frame, true);
    InterruptOutcome::Halt
}

/// #MC — machine check, vector 18: no error code. Dumps the frame; the
/// kernel must then halt (returning would re-run the faulting code with
/// nothing fixed).
pub fn machine_check(screen: &mut Screen, frame: &InterruptFrame) -> (o: InterruptOutcome)
    requires
        old(screen)@.len() == VGA_CELLS,
    ensures
        final(screen)@ == dump_screen("Machine check (#MC)!".spec_bytes(), *frame, false),
        o == InterruptOutcome::Halt,
{
    dump_exception(screen, "Machine check (#MC)!", frame, false);
    InterruptOutcome::Halt
}

/// #XM/#XF — SIMD floating point exception, vector 19: no error code. Dumps the frame; the
/// kernel must then halt (returning would re-run the faulting code with
/// nothing fixed).
pub fn simd_floating_point(screen: &mut Screen, frame: &InterruptFrame) -> (o: InterruptOutcome)
    requires
        old(screen)@.len() == VGA_CELLS,
    ensures
        final(screen)@ == dump_screen("SIMD floating point exception (#XF)!".spec_bytes(), *frame, false),
        o == InterruptOutcome::Halt,
{
    dump_exception(screen, "SIMD floating point exception (#XF)!", frame, false);
    InterruptOutcome::Halt
}

/// #VE — virtualization exception, vector 20: no error code. Dumps the frame; the
/// kernel must then halt (returning would re-run the faulting code with
/// nothing fixed).
pub fn virtualization(screen: &mut Screen, frame: &InterruptFrame) -> (o: InterruptOutcome)
    requires
        old(screen)@.len() == VGA_CELLS,
    ensures
        final(screen)@ == dump_screen("Virtualization exception (#VE)!".spec_bytes(), *frame, false),
        o == InterruptOutcome::Halt,
{
    dump_exception(screen, "Virtualization exception (#VE)!", frame, false);
    InterruptOutcome::Halt
}

/// #CP — control protection, vector 21: no error code. Dumps the frame; the
/// kernel must then halt (returning would re-run the faulting code with
/// nothing fixed).
pub fn control_protection(screen: &mut Screen, frame: &InterruptFrame) -> (o: InterruptOutcome)
    requires
        old(screen)@.len() == VGA_CELLS,
    ensures
        final(screen)@ == dump_screen("Control protection exception (#CP)!".spec_bytes(), *frame, false),
        o == InterruptOutcome::Halt,
{
    dump_exception(screen, "Control protection exception (#CP)!", frame, false);
    InterruptOutcome::Halt
}

/// #SX — security exception, vector 30: a fault whose CPU pushes an error code. Dumps the frame with its error code; the
/// kernel must then halt (returning would re-run the faulting code with
/// nothing fixed).
pub fn security_exception(screen: &mut Screen, frame: &InterruptFrame) -> (o: InterruptOutcome)
    requires
        old(screen)@.len() == VGA_CELLS,
    ensures
        final(screen)@ == dump_screen("Security exception (#SX)!".spec_bytes(), *frame, true),
        o == InterruptOutcome::Halt,
{
    dump_exception(screen, "Security exception (#SX)!", frame, true);
    InterruptOutcome::Halt
}

/// Reserved vectors (15, 22–29, 31): no error code. Dumps the frame; the
/// kernel must then halt (returning would re-run the faulting code with
/// nothing fixed).
pub fn reserved(screen: &mut Screen, frame: &InterruptFrame) -> (o: InterruptOutcome)
    requires
        old(screen)@.len() == VGA_CELLS,
    ensures
        final(screen)@ == dump_screen("Reserved exception!".spec_bytes(), *frame, false),
        o == InterruptOutcome::Halt,
{
    dump_exception(screen, "Reserved exception!", frame, false);
    InterruptOutcome::Halt
}

/// #DB — debug exception, vector 1: dumps the frame; resuming is safe
/// (single-step and hardware breakpoints keep running).
pub fn debug(screen: &mut Screen, frame: &InterruptFrame) -> (o: InterruptOutcome)
    requires
        old(screen)@.len() == VGA_CELLS,
    ensures
        final(screen)@ == dump_screen("Debug Exception (#DB)!".spec_bytes(), *frame, false),
        o == InterruptOutcome::Resume,
{
    dump_exception(screen, "Debug Exception (#DB)!", frame, false);
    InterruptOutcome::Resume
}

/// #BP — breakpoint, vector 3, raised by `int3`: dumps the frame; resuming
/// continues after the instruction.
pub fn breakpoint(screen: &mut Screen, frame: &InterruptFrame) -> (o: InterruptOutcome)
    requires
        old(screen)@.len() == VGA_CELLS,
    ensures
        final(screen)@ == dump_screen("Breakpoint Exception (#BP)!".spec_bytes(), *frame, false),
        o == InterruptOutcome::Resume,
{
    dump_exception(screen, "Breakpoint Exception (#BP)!", frame, false);
    InterruptOutcome::Resume
}

/// The vectors whose CPU pushes an error code: 8, 10–14, 17 and 30.
pub open spec fn pushes_error_code(vector: u32) -> bool {
    vector == 8 || (10 <= vector <= 14) || vector == 17 || vector == 30
}

/// The dump title for each vector.
pub open spec fn vector_title(vector: u32) -> Seq<u8> {
    if vector == 0 {
        "Divide Error (#DE)!".spec_bytes()
    } else if vector == 1 {
        "Debug Exception (#DB)!".spec_bytes()
    } else if vector == 3 {
        "Breakpoint Exception (#BP)!".spec_bytes()
    } else if vector == 2 {
        "No maskable interrupt (NMI)!".spec_bytes()
    } else if vector == 4 {
        "Overflow (#OF)!".spec_bytes()
    } else if vector == 5 {
        "Bound range exceeded (#BR)!".spec_bytes()
    } else if vector == 6 {
        "Invalid opcode (#UD)!".spec_bytes()
    } else if vector == 7 {
        "Device not available (#NM)!".spec_bytes()
    } else if vector == 8 {
        "Double fault (#DF)!".spec_bytes()
    } else if vector == 9 {
        "Coprocessor segment overrun (#CSO)!".spec_bytes()
    } else if vector == 10 {
        "Invalid TSS (#TS)!".spec_bytes()
    } else if vector == 11 {
        "Segment not present (#NP)!".spec_bytes()
    } else if vector == 12 {
        "Stack segment fault (#SS)!".spec_bytes()
    } else if vector == 13 {
        "General protection fault (#GP)!".spec_bytes()
    } else if vector == 14 {
        "Page fault (#PF)!".spec_bytes()
    } else if vector == 16 {
        "Floating point error (#MF)!".spec_bytes()
    } else if vector == 17 {
        "Alignment check (#AC)!".spec_bytes()
    } else if vector == 18 {
        "Machine check (#MC)!".spec_bytes()
    } else if vector == 19 {
        "SIMD floating point exception (#XF)!".spec_bytes()
    } else if vector == 20 {
        "Virtualization exception (#VE)!".spec_bytes()
    } else if vector == 21 {
        "Control protection exception (#CP)!".spec_bytes()
    } else if vector == 30 {
        "Security exception (#SX)!".spec_bytes()
    } else {
        "Reserved exception!".spec_bytes()
    }
}

proof fn lemma_bytes_newline()
    ensures
        "\n".spec_bytes() == seq![0x0Au8],
{
    broadcast use vstd::string::is_ascii_spec_bytes;

    reveal_strlit("\n");
    assert(vstd::string::is_ascii("\n"));
    assert("\n".spec_bytes() =~= seq![0x0Au8]);
}

proof fn lemma_bytes_eip()
    ensures
        "EIP=".spec_bytes() == seq![0x45u8, 0x49, 0x50, 0x3D],
{
    broadcast use vstd::string::is_ascii_spec_bytes;

    reveal_strlit("EIP=");
    assert(vstd::string::is_ascii("EIP="));
    assert("EIP=".spec_bytes() =~= seq![0x45u8, 0x49, 0x50, 0x3D]);
}

proof fn lemma_bytes_cs()
    ensures
        "CS=".spec_bytes() == seq![0x43u8, 0x53, 0x3D],
{
    broadcast use vstd::string::is_ascii_spec_bytes;

    reveal_strlit("CS=");
    assert(vstd::string::is_ascii("CS="));
    assert("CS=".spec_bytes() =~= seq![0x43u8, 0x53, 0x3D]);
}

proof fn lemma_bytes_eflags()
    ensures
        "EFLAGS=".spec_bytes() == seq![0x45u8, 0x46, 0x4C, 0x41, 0x47, 0x53, 0x3D],
{
    broadcast use vstd::string::is_ascii_spec_bytes;

    reveal_strlit("EFLAGS=");
    assert(vstd::string::is_ascii("EFLAGS="));
    assert("EFLAGS=".spec_bytes() =~= seq![0x45u8, 0x46, 0x4C, 0x41, 0x47, 0x53, 0x3D]);
}

proof fn lemma_bytes_err()
    ensures
        "ERR=".spec_bytes() == seq![0x45u8, 0x52, 0x52, 0x3D],
{
    broadcast use vstd::string::is_ascii_spec_bytes;

    reveal_strlit("ERR=");
    assert(vstd::string::is_ascii("ERR="));
    assert("ERR=".spec_bytes() =~= seq![0x45u8, 0x52, 0x52, 0x3D]);
}

proof fn lemma_bytes_labels()
    ensures
        "EIP=\nCS=\nEFLAGS=\n".spec_bytes() == seq![0x45u8, 0x49, 0x50, 0x3D, 0x0A, 0x43, 0x53, 0x3D, 0x0A, 0x45, 0x46, 0x4C, 0x41, 0x47, 0x53, 0x3D, 0x0A],
{
    broadcast use vstd::string::is_ascii_spec_bytes;

    reveal_strlit("EIP=\nCS=\nEFLAGS=\n");
    assert(vstd::string::is_ascii("EIP=\nCS=\nEFLAGS=\n"));
    assert("EIP=\nCS=\nEFLAGS=\n".spec_bytes() =~= seq![0x45u8, 0x49, 0x50, 0x3D, 0x0A, 0x43, 0x53, 0x3D, 0x0A, 0x45, 0x46, 0x4C, 0x41, 0x47, 0x53, 0x3D, 0x0A]);
}

proof fn lemma_bytes_labels_err()
    ensures
        "EIP=\nCS=\nEFLAGS=\nERR=\n".spec_bytes() == seq![0x45u8, 0x49, 0x50, 0x3D, 0x0A, 0x43, 0x53, 0x3D, 0x0A, 0x45, 0x46, 0x4C, 0x41, 0x47, 0x53, 0x3D, 0x0A, 0x45, 0x52, 0x52, 0x3D, 0x0A],
{
    broadcast use vstd::string::is_ascii_spec_bytes;

    reveal_strlit("EIP=\nCS=\nEFLAGS=\nERR=\n");
    assert(vstd::string::is_ascii("EIP=\nCS=\nEFLAGS=\nERR=\n"));
    assert("EIP=\nCS=\nEFLAGS=\nERR=\n".spec_bytes() =~= seq![0x45u8, 0x49, 0x50, 0x3D, 0x0A, 0x43, 0x53, 0x3D, 0x0A, 0x45, 0x46, 0x4C, 0x41, 0x47, 0x53, 0x3D, 0x0A, 0x45, 0x52, 0x52, 0x3D, 0x0A]);
}

/// The bytes of the newline and of the four labels.
proof fn lemma_dump_literals()
    ensures
        "\n".spec_bytes() == seq![0x0Au8],
        "EIP=".spec_bytes() == seq![0x45u8, 0x49, 0x50, 0x3D],
        "CS=".spec_bytes() == seq![0x43u8, 0x53, 0x3D],
        "EFLAGS=".spec_bytes() == seq![0x45u8, 0x46, 0x4C, 0x41, 0x47, 0x53, 0x3D],
        "ERR=".spec_bytes() == seq![0x45u8, 0x52, 0x52, 0x3D],
        dump_labels(false) == "EIP=".spec_bytes() + seq![0x0Au8] + "CS=".spec_bytes() + seq![
            0x0Au8,
        ] + "EFLAGS=".spec_bytes() + seq![0x0Au8],
        dump_labels(true) == "EIP=".spec_bytes() + seq![0x0Au8] + "CS=".spec_bytes() + seq![
            0x0Au8,
        ] + "EFLAGS=".spec_bytes() + seq![0x0Au8] + "ERR=".spec_bytes() + seq![0x0Au8],
        valid_utf8(seq![0x0Au8]),
        valid_utf8(dump_labels(false)),
        valid_utf8(dump_labels(true)),
{
    broadcast use vstd::utf8::encode_utf8_valid_utf8;

    lemma_bytes_newline();
    lemma_bytes_eip();
    lemma_bytes_cs();
    lemma_bytes_eflags();
    lemma_bytes_err();
    lemma_bytes_labels();
    lemma_bytes_labels_err();
    assert(dump_labels(false) =~= "EIP=".spec_bytes() + seq![0x0Au8] + "CS=".spec_bytes() + seq![
        0x0Au8,
    ] + "EFLAGS=".spec_bytes() + seq![0x0Au8]);
    assert(dump_labels(true) =~= "EIP=".spec_bytes() + seq![0x0Au8] + "CS=".spec_bytes() + seq![
        0x0Au8,
    ] + "EFLAGS=".spec_bytes() + seq![0x0Au8] + "ERR=".spec_bytes() + seq![0x0Au8]);
    assert(valid_utf8("\n".spec_bytes()));
    assert(valid_utf8("EIP=\nCS=\nEFLAGS=\n".spec_bytes()));
    assert(valid_utf8("EIP=\nCS=\nEFLAGS=\nERR=\n".spec_bytes()));
}

/// The dump layout: for a title without newlines short enough that the
/// whole text fits its buffer, the title is on row 0 and each value is
/// written as `0xXXXXXXXX` right after its label: `EIP=` on row 1, `CS=` on
/// row 2, `EFLAGS=` on row 3 and, for vectors with an error code, `ERR=` on
/// row 4; without an error code row 4 stays blank.
pub proof fn lemma_dump_layout(title: Seq<u8>, frame: InterruptFrame, show_error_code: bool)
    requires
        valid_utf8(title),
        no_newline(title),
        title.len() + 1 + dump_labels(show_error_code).len() <= DUMP_BUF_LEN,
    ensures
        ({
            let s = dump_screen(title, frame, show_error_code);
            &&& row_text(s, 0, 0, title.len() as int) == Seq::new(
                title.len(),
                |j: int| shown_ascii(title[j]),
            )
            &&& row_text(s, 1, 0, 14) == "EIP=".spec_bytes() + hex_text(frame.eip)
            &&& row_text(s, 2, 0, 13) == "CS=".spec_bytes() + hex_text(frame.cs)
            &&& row_text(s, 3, 0, 17) == "EFLAGS=".spec_bytes() + hex_text(frame.eflags)
            &&& show_error_code ==> row_text(s, 4, 0, 14) == "ERR=".spec_bytes() + hex_text(
                frame.error_code,
            )
            &&& !show_error_code ==> row_text(s, 4, 0, 14) == Seq::new(14, |j: int| 0x20u8)
        }),
{
    lemma_dump_literals();
    let nl = seq![0x0Au8];
    let e = "EIP=".spec_bytes();
    let c = "CS=".spec_bytes();
    let f = "EFLAGS=".spec_bytes();
    let r = "ERR=".spec_bytes();
    let labels = dump_labels(show_error_code);
    let text = title + nl + labels;
    assert(labels.len() == if show_error_code {
        22int
    } else {
        17int
    });
    assert(truncated(text, DUMP_BUF_LEN as int) == text);
    vstd::utf8::valid_utf8_concat(title, nl);
    vstd::utf8::valid_utf8_concat(title + nl, labels);
    assert(dump_payload(title, show_error_code) == text);
    // Writing the text piece by piece.
    let st0 = (cleared(), 0int, false);
    assert(no_newline(e) && no_newline(c) && no_newline(f) && no_newline(r));
    lemma_put_run_plain(st0, title);
    let w1 = written_from(cleared(), 0, title);
    let st1 = (w1, title.len() as int, false);
    lemma_put_run_newline(st1, 0);
    let st2 = (w1, 80int, false);
    lemma_put_run_plain(st2, e);
    let w2 = written_from(w1, 80, e);
    lemma_put_run_newline((w2, 84int, false), 1);
    lemma_put_run_plain((w2, 160int, false), c);
    let w3 = written_from(w2, 160, c);
    lemma_put_run_newline((w3, 163int, false), 2);
    lemma_put_run_plain((w3, 240int, false), f);
    let w4 = written_from(w3, 240, f);
    lemma_put_run_newline((w4, 247int, false), 3);
    lemma_put_run_plain((w4, 320int, false), r);
    let w5 = written_from(w4, 320, r);
    lemma_put_run_newline((w5, 324int, false), 4);
    lemma_put_run_concat(st0, title, nl);
    lemma_put_run_concat(st0, title + nl, e);
    lemma_put_run_concat(st0, title + nl + e, nl);
    lemma_put_run_concat(st0, title + nl + e + nl, c);
    lemma_put_run_concat(st0, title + nl + e + nl + c, nl);
    lemma_put_run_concat(st0, title + nl + e + nl + c + nl, f);
    lemma_put_run_concat(st0, title + nl + e + nl + c + nl + f, nl);
    lemma_put_run_concat(st0, title + nl + e + nl + c + nl + f + nl, r);
    lemma_put_run_concat(st0, title + nl + e + nl + c + nl + f + nl + r, nl);
    let shown = if show_error_code {
        w5
    } else {
        w4
    };
    if show_error_code {
        assert(text =~= title + nl + e + nl + c + nl + f + nl + r + nl);
    } else {
        assert(text =~= title + nl + e + nl + c + nl + f + nl);
    }
    assert(put_text(cleared(), text) == shown);
    let h1 = cells_with_text(shown, 84, hex_text(frame.eip), 10);
    let h2 = cells_with_text(h1, 163, hex_text(frame.cs), 10);
    let h3 = cells_with_text(h2, 247, hex_text(frame.eflags), 10);
    let h4 = cells_with_text(h3, 324, hex_text(frame.error_code), 10);
    let s = dump_screen(title, frame, show_error_code);
    assert(s == if show_error_code {
        h4
    } else {
        h3
    });
    assert(hex_text(frame.eip).len() == 10);
    assert(row_text(s, 0, 0, title.len() as int) =~= Seq::new(
        title.len(),
        |j: int| shown_ascii(title[j]),
    ));
    assert(row_text(s, 1, 0, 14) =~= e + hex_text(frame.eip));
    assert(row_text(s, 2, 0, 13) =~= c + hex_text(frame.cs));
    assert(row_text(s, 3, 0, 17) =~= f + hex_text(frame.eflags));
    if show_error_code {
        assert(row_text(s, 4, 0, 14) =~= r + hex_text(frame.error_code));
    } else {
        assert(row_text(s, 4, 0, 14) =~= Seq::new(14, |j: int| 0x20u8));
    }
}

} // verus!
