use yorunix::kernel::drivers::vga::{
    clear_screen, hex_digits, put_hex_at, putstr, Screen, ScreenCell, COLOR_WHITE_ON_BLACK,
    VGA_ADDR, VGA_HEIGHT, VGA_WIDTH,
};

fn screen_text(s: &Screen, start: usize, len: usize) -> String {
    (start..start + len).map(|i| s.cell(i).ascii as char).collect()
}

fn zeroed() -> Screen {
    Screen::from_cells([ScreenCell { ascii: 0, color: 0 }; 2000])
}

#[test]
fn vga_hex_digits_zero_is_padded() {
    assert_eq!(hex_digits(0x0000_0000), *b"00000000");
}

#[test]
fn hex_digits_zero_is_padded() {
    assert_eq!(hex_digits(0x0000_0000), *b"00000000");
}

#[test]
fn vga_hex_digits_typical_address() {
    assert_eq!(hex_digits(0x1234_ABCD), *b"1234ABCD");
}

#[test]
fn hex_digits_typical_address() {
    assert_eq!(hex_digits(0x1234_ABCD), *b"1234ABCD");
}

#[test]
fn vga_hex_digits_all_ones() {
    assert_eq!(hex_digits(0xFFFF_FFFF), *b"FFFFFFFF");
}

#[test]
fn hex_digits_all_ones() {
    assert_eq!(hex_digits(0xFFFF_FFFF), *b"FFFFFFFF");
}

#[test]
fn vga_hex_digits_preserves_leading_zeros() {
    assert_eq!(hex_digits(0x00F0_000A), *b"00F0000A");
}

#[test]
fn hex_digits_preserves_leading_zeros() {
    assert_eq!(hex_digits(0x00F0_000A), *b"00F0000A");
}

#[test]
fn vga_hex_digits_uses_uppercase() {
    assert_eq!(hex_digits(0x00AB_CDEF), *b"00ABCDEF");
}

#[test]
fn hex_digits_uses_uppercase() {
    assert_eq!(hex_digits(0x00AB_CDEF), *b"00ABCDEF");
}

#[test]
fn vga_hex_digits_read_back() {
    for v in [0u32, 1, 0xA, 0x8000_0000, 0xDEAD_BEEF, 0xFFFF_FFFF] {
        let d = hex_digits(v);
        let text = std::str::from_utf8(&d).unwrap();
        assert_eq!(u32::from_str_radix(text, 16).unwrap(), v);
    }
}

#[test]
fn vga_geometry() {
    assert_eq!((VGA_WIDTH, VGA_HEIGHT, VGA_ADDR), (80, 25, 0xB8000));
    assert_eq!(COLOR_WHITE_ON_BLACK, 0x0F);
}

#[test]
fn vga_from_cells_round_trip() {
    let mut cells = [ScreenCell { ascii: b'a', color: 0x1F }; 2000];
    cells[1999].ascii = b'z';
    let s = Screen::from_cells(cells);
    assert_eq!(s.cell(1999).ascii, b'z');
    assert_eq!(s.into_cells(), cells);
}

#[test]
fn vga_putstr_twice_is_once() {
    let mut cells = [ScreenCell { ascii: b'.', color: 0 }; 2000];
    cells[3].color = 0x4E;
    let mut once = Screen::from_cells(cells);
    putstr(&mut once, "ab\ncd\0e");
    let mut twice = Screen::from_cells(cells);
    putstr(&mut twice, "ab\ncd\0e");
    putstr(&mut twice, "ab\ncd\0e");
    assert_eq!(once.into_cells(), twice.into_cells());
}

#[test]
fn vga_clear_screen_blanks_every_cell() {
    let mut s = zeroed();
    clear_screen(&mut s);
    for i in 0..2000 {
        assert_eq!(s.cell(i), ScreenCell { ascii: b' ', color: 0x0F });
    }
}

#[test]
fn vga_putstr_newline_and_wrap() {
    let mut s = Screen::blank();
    putstr(&mut s, "ab\ncd");
    assert_eq!(screen_text(&s, 0, 3), "ab ");
    assert_eq!(screen_text(&s, 80, 3), "cd ");
    let mut s = Screen::blank();
    let long = "x".repeat(81);
    putstr(&mut s, &long);
    assert_eq!(s.cell(79).ascii, b'x');
    assert_eq!(s.cell(80).ascii, b'x');
    assert_eq!(s.cell(81).ascii, b' ');
}

#[test]
fn vga_putstr_keeps_color_and_shows_nul_as_space() {
    let mut cells = [ScreenCell { ascii: b'.', color: 0x1E }; 2000];
    cells[1].color = 0;
    let mut s = Screen::from_cells(cells);
    putstr(&mut s, "A\0B");
    assert_eq!(s.cell(0), ScreenCell { ascii: b'A', color: 0x1E });
    assert_eq!(s.cell(1), ScreenCell { ascii: b' ', color: 0x0F });
    assert_eq!(s.cell(2), ScreenCell { ascii: b'B', color: 0x1E });
    assert_eq!(s.cell(3), ScreenCell { ascii: b'.', color: 0x1E });
}

#[test]
fn vga_putstr_stops_at_bottom() {
    let mut s = Screen::blank();
    let long = "y".repeat(2100);
    putstr(&mut s, &long);
    assert_eq!(s.cell(1999).ascii, b'y');
    let mut s = Screen::blank();
    let lines = "\n".repeat(24) + "last" + "\nlost";
    putstr(&mut s, &lines);
    assert_eq!(screen_text(&s, 1920, 4), "last");
    assert_eq!(s.into_cells().len(), 2000);
}

#[test]
fn vga_put_hex_at_position_and_cut() {
    let mut s = Screen::blank();
    put_hex_at(&mut s, 0xCAFE_F00D, 2, 5);
    assert_eq!(screen_text(&s, 160, 16), "     0xCAFEF00D ");
    let mut s = Screen::blank();
    put_hex_at(&mut s, 0x1234_5678, 0, 75);
    assert_eq!(screen_text(&s, 75, 5), "0x123");
    assert_eq!(s.cell(80).ascii, b' ');
}

#[test]
fn vga_put_hex_at_off_screen_is_noop() {
    let mut s = zeroed();
    put_hex_at(&mut s, 0xFFFF_FFFF, 25, 0);
    put_hex_at(&mut s, 0xFFFF_FFFF, 0, 80);
    for i in 0..2000 {
        assert_eq!(s.cell(i), ScreenCell { ascii: 0, color: 0 });
    }
}

#[test]
fn vga_put_hex_at_fills_color() {
    let mut s = zeroed();
    put_hex_at(&mut s, 0, 24, 0);
    assert_eq!(s.cell(1920), ScreenCell { ascii: b'0', color: 0x0F });
    assert_eq!(s.cell(1921), ScreenCell { ascii: b'x', color: 0x0F });
    assert_eq!(s.cell(1930), ScreenCell { ascii: 0, color: 0 });
}
