# yorunix

The core of the YoRunix 32-bit x86 microkernel as a verified library.

- `src/arch/x86/cpu/gdt.rs` — GDT descriptors, the flat kernel table, the
  GDTR image and its read-back check.
- `src/arch/x86/cpu/idt.rs` — interrupt gates, the 256-gate table, the IDTR
  image, the saved interrupt frame and the dispatch of exception vectors.
- `src/kernel/drivers/vga.rs` — the 80x25 text screen: clearing, `putstr`,
  positional hexadecimal values.
- `src/kernel/drivers/serial.rs` — COM1 configuration and transmission
  decisions.
- `src/kernel/interrupts/exceptions.rs` — what each exception shows and
  whether the kernel may resume.
- `src/kernel/support.rs` — `memcpy`, `memmove`, `memset`, `memcmp`, `bcmp`.
- `src/lib.rs` — the boot status screen and serial log lines.

`app/` is the machine-facing glue (descriptor-table loads, port I/O, the
memory-mapped framebuffer, `hlt`, the exported C symbols); it takes every
decision from the library.
