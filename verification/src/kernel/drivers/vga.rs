//! VGA text mode: the 80x25 grid of (character, color) cells that the video
//! card maps at `0xB8000`.
//!
//! `Screen` holds the 2000 cells as plain values; the operations
//! (`clear_screen`, `putstr`, `put_hex_at`) are proved against a model of
//! the grid. Copying a `Screen` to and from the memory-mapped buffer with
//! volatile accesses is the caller's hardware work.

use vstd::prelude::*;
use vstd::string::StringSliceAdditionalSpecFns;

verus! {

pub const VGA_WIDTH: usize = 80;

pub const VGA_HEIGHT: usize = 25;

pub const VGA_ADDR: usize = 0xB8000;

/// Number of cells on the screen.
pub const VGA_CELLS: usize = 2000;

/// Bright white on black.
pub const COLOR_WHITE_ON_BLACK: u8 = 0x0F;

/// One screen cell: the character byte and its attribute byte.
#[derive(Clone, Copy, Debug, PartialEq, Eq, Structural)]
pub struct ScreenCell {
    pub ascii: u8,
    pub color: u8,
}

/// A space, white on black.
pub open spec fn blank_cell() -> ScreenCell {
    ScreenCell { ascii: 0x20, color: COLOR_WHITE_ON_BLACK }
}

/// The color a write keeps: the cell's own, or white on black where the
/// cell had none (0).
pub open spec fn shown_color(color: u8) -> u8 {
    if color == 0 {
        COLOR_WHITE_ON_BLACK
    } else {
        color
    }
}

/// The character a write shows: NUL is shown as a space.
pub open spec fn shown_ascii(b: u8) -> u8 {
    if b == 0 {
        0x20
    } else {
        b
    }
}

/// The cell that byte `b` leaves where `old` was.
pub open spec fn written_cell(old: ScreenCell, b: u8) -> ScreenCell {
    ScreenCell { ascii: shown_ascii(b), color: shown_color(old.color) }
}

/// The text screen: 2000 cells, row by row.
pub struct Screen {
    cells: [ScreenCell; 2000],
}

impl View for Screen {
    type V = Seq<ScreenCell>;

    closed spec fn view(&self) -> Seq<ScreenCell> {
        self.cells@
    }
}

impl Screen {
    /// A screen holding `cells` row by row.
    pub fn from_cells(cells: [ScreenCell; 2000]) -> (s: Self)
        ensures
            s@ == cells@,
            s@.len() == VGA_CELLS,
    {
        Screen { cells }
    }

    /// A screen of spaces, white on black.
    pub fn blank() -> (s: Self)
        ensures
            s@ == cleared(),
    {
        let s = Screen { cells: [ScreenCell { ascii: 0x20u8, color: COLOR_WHITE_ON_BLACK }; 2000] };
        assert(s@ =~= cleared());
        s
    }

    /// The cell at `index` (row-major).
    pub fn cell(&self, index: usize) -> (c: ScreenCell)
        requires
            index < self@.len(),
        ensures
            c == self@[index as int],
    {
        self.cells[index]
    }

    /// The cells, row by row.
    pub fn into_cells(self) -> (cells: [ScreenCell; 2000])
        ensures
            cells@ == self@,
    {
        self.cells
    }
}

/// Every cell a space, white on black.
pub open spec fn cleared() -> Seq<ScreenCell> {
    Seq::new(VGA_CELLS as nat, |i: int| blank_cell())
}

/// Clears the whole screen to spaces, white on black.
pub fn clear_screen(screen: &mut Screen)
    requires
        old(screen)@.len() == VGA_CELLS,
    ensures
        final(screen)@ == cleared(),
{
    let mut i: usize = 0;
    while i < VGA_CELLS
        invariant
            i <= VGA_CELLS,
            screen@.len() == VGA_CELLS,
            forall|k: int| 0 <= k < i ==> screen@[k] == blank_cell(),
        decreases VGA_CELLS - i,
    {
        screen.cells[i] = ScreenCell { ascii: 0x20u8, color: COLOR_WHITE_ON_BLACK };
        i = i + 1;
    }
    assert(screen@ =~= cleared());
}

/// One byte of `putstr`, from the state (cells, offset of the next cell,
/// whether writing has stopped at the bottom of the screen). A newline
/// moves to the start of the next row; any other byte fills the current
/// cell and moves one cell on; past the last cell writing stops.
pub open spec fn put_step(st: (Seq<ScreenCell>, int, bool), b: u8) -> (Seq<ScreenCell>, int, bool) {
    let (c, off, stopped) = st;
    if stopped {
        st
    } else if b == 0x0A {
        let next = (off / VGA_WIDTH as int + 1) * VGA_WIDTH as int;
        (c, next, next >= VGA_CELLS)
    } else if off >= VGA_CELLS {
        (c, off, true)
    } else {
        (c.update(off, written_cell(c[off], b)), off + 1, false)
    }
}

/// The bytes `s`, one after the other, from state `st`.
pub open spec fn put_run(st: (Seq<ScreenCell>, int, bool), s: Seq<u8>) -> (Seq<ScreenCell>, int, bool)
    decreases s.len(),
{
    if s.len() == 0 {
        st
    } else {
        put_step(put_run(st, s.drop_last()), s.last())
    }
}

/// Writing the bytes `s` from the top-left corner.
pub open spec fn put_bytes(cells: Seq<ScreenCell>, s: Seq<u8>) -> (Seq<ScreenCell>, int, bool) {
    put_run((cells, 0, false), s)
}

/// The screen after `putstr` of the bytes `s`.
pub open spec fn put_text(cells: Seq<ScreenCell>, s: Seq<u8>) -> Seq<ScreenCell> {
    put_bytes(cells, s).0
}

/// Writing never moves past the last cell, never changes the number of
/// cells, and once it has stopped it stays stopped.
proof fn lemma_put_run_bounds(st: (Seq<ScreenCell>, int, bool), s: Seq<u8>)
    requires
        st.0.len() == VGA_CELLS,
        !st.2 ==> 0 <= st.1 <= VGA_CELLS,
    ensures
        put_run(st, s).0.len() == VGA_CELLS,
        !put_run(st, s).2 ==> 0 <= put_run(st, s).1 <= VGA_CELLS,
    decreases s.len(),
{
    if s.len() > 0 {
        lemma_put_run_bounds(st, s.drop_last());
        let off = put_run(st, s.drop_last()).1;
        if !put_run(st, s.drop_last()).2 {
            assert((off / 80 + 1) * 80 <= 2080) by (nonlinear_arith)
                requires
                    0 <= off <= 2000,
            ;
            assert((off / 80 + 1) * 80 >= 0) by (nonlinear_arith)
                requires
                    0 <= off <= 2000,
            ;
        }
    }
}

proof fn lemma_put_bytes_bounds(cells: Seq<ScreenCell>, s: Seq<u8>)
    requires
        cells.len() == VGA_CELLS,
    ensures
        put_bytes(cells, s).0.len() == VGA_CELLS,
        !put_bytes(cells, s).2 ==> 0 <= put_bytes(cells, s).1 <= VGA_CELLS,
{
    lemma_put_run_bounds((cells, 0, false), s);
}

/// Writing keeps the screen's size.
pub proof fn lemma_put_text_len(cells: Seq<ScreenCell>, s: Seq<u8>)
    requires
        cells.len() == VGA_CELLS,
    ensures
        put_text(cells, s).len() == VGA_CELLS,
{
    lemma_put_bytes_bounds(cells, s);
}

/// Writing `a` then `b` is writing `a + b`.
pub proof fn lemma_put_run_concat(st: (Seq<ScreenCell>, int, bool), a: Seq<u8>, b: Seq<u8>)
    ensures
        put_run(st, a + b) == put_run(put_run(st, a), b),
    decreases b.len(),
{
    if b.len() == 0 {
        assert(a + b =~= a);
    } else {
        lemma_put_run_concat(st, a, b.drop_last());
        assert((a + b).drop_last() =~= a + b.drop_last());
        assert((a + b).last() == b.last());
    }
}

/// The cells after writing the bytes `s` one per cell from `off` on: each
/// shows its byte (NUL as a space) in its own color (white on black where it
/// had none); every other cell is unchanged.
pub open spec fn written_from(cells: Seq<ScreenCell>, off: int, s: Seq<u8>) -> Seq<ScreenCell> {
    Seq::new(
        cells.len(),
        |k: int|
            if off <= k < off + s.len() {
                written_cell(cells[k], s[k - off])
            } else {
                cells[k]
            },
    )
}

/// Whether `s` holds no newline.
pub open spec fn no_newline(s: Seq<u8>) -> bool {
    forall|i: int| 0 <= i < s.len() ==> s[i] != 0x0Au8
}

/// Text without newlines that fits before the last cell goes into the
/// cells one after the other, and writing carries on right after it.
pub proof fn lemma_put_run_plain(st: (Seq<ScreenCell>, int, bool), s: Seq<u8>)
    requires
        st.0.len() == VGA_CELLS,
        !st.2,
        0 <= st.1,
        st.1 + s.len() <= VGA_CELLS,
        no_newline(s),
    ensures
        put_run(st, s) == (written_from(st.0, st.1, s), st.1 + s.len(), false),
    decreases s.len(),
{
    if s.len() == 0 {
        assert(written_from(st.0, st.1, s) =~= st.0);
    } else {
        let prev = s.drop_last();
        assert(no_newline(prev)) by {
            assert forall|i: int| 0 <= i < prev.len() implies prev[i] != 0x0Au8 by {
                assert(prev[i] == s[i]);
            }
        }
        lemma_put_run_plain(st, prev);
        assert(s.last() == s[s.len() - 1]);
        let off = st.1 + prev.len();
        assert(written_from(st.0, st.1, prev)[off] == st.0[off]);
        assert(written_from(st.0, st.1, prev).update(off, written_cell(st.0[off], s.last()))
            =~= written_from(st.0, st.1, s));
    }
}

/// A newline before the last row moves to the start of the next row.
pub proof fn lemma_put_run_newline(st: (Seq<ScreenCell>, int, bool), row: int)
    requires
        !st.2,
        0 <= row < VGA_HEIGHT - 1,
        row * VGA_WIDTH <= st.1 < (row + 1) * VGA_WIDTH,
    ensures
        put_run(st, seq![0x0Au8]) == (st.0, (row + 1) * VGA_WIDTH, false),
{
    assert(seq![0x0Au8].drop_last() =~= Seq::<u8>::empty());
    assert(put_run(st, Seq::<u8>::empty()) == st);
    assert(seq![0x0Au8].last() == 0x0Au8);
    assert(st.1 / 80 == row) by (nonlinear_arith)
        requires
            row * 80 <= st.1 < (row + 1) * 80,
    ;
}

/// `putstr` of text without newlines that fits on the screen shows it in
/// the first cells, one byte per cell, and leaves the other cells alone.
pub proof fn lemma_putstr_plain_text(cells: Seq<ScreenCell>, s: Seq<u8>)
    requires
        cells.len() == VGA_CELLS,
        s.len() <= VGA_CELLS,
        no_newline(s),
    ensures
        put_text(cells, s) == written_from(cells, 0, s),
{
    lemma_put_run_plain((cells, 0, false), s);
}

/// Whether every cell of `after` has the color it had in `before`, or the
/// white-on-black a write gives a cell that had none.
pub open spec fn keeps_colors(before: Seq<ScreenCell>, after: Seq<ScreenCell>) -> bool {
    &&& after.len() == before.len()
    &&& forall|k: int|
        0 <= k < before.len() ==> #[trigger] after[k].color == before[k].color || after[k].color
            == shown_color(before[k].color)
}

proof fn lemma_put_run_colors(cells: Seq<ScreenCell>, st: (Seq<ScreenCell>, int, bool), s: Seq<u8>)
    requires
        st.0.len() == VGA_CELLS,
        !st.2 ==> 0 <= st.1 <= VGA_CELLS,
        keeps_colors(cells, st.0),
    ensures
        keeps_colors(cells, put_run(st, s).0),
    decreases s.len(),
{
    if s.len() > 0 {
        lemma_put_run_colors(cells, st, s.drop_last());
        lemma_put_run_bounds(st, s.drop_last());
    }
}

/// `putstr` changes no cell's color, except that a written cell without a
/// color (0) becomes white on black.
pub proof fn lemma_putstr_keeps_colors(cells: Seq<ScreenCell>, s: Seq<u8>)
    requires
        cells.len() == VGA_CELLS,
    ensures
        keeps_colors(cells, put_text(cells, s)),
{
    lemma_put_run_colors(cells, (cells, 0, false), s);
}

/// `put_hex_at` never wraps: it changes no cell outside row `row`, and
/// keeps colors as `putstr` does.
pub proof fn lemma_put_hex_stays_on_row(cells: Seq<ScreenCell>, v: u32, row: int, col: int)
    requires
        cells.len() == VGA_CELLS,
        0 <= row,
        0 <= col,
    ensures
        forall|k: int|
            0 <= k < VGA_CELLS && !(row * VGA_WIDTH <= k < (row + 1) * VGA_WIDTH) ==> #[trigger] put_hex_cells(
                cells,
                v,
                row,
                col,
            )[k] == cells[k],
        keeps_colors(cells, put_hex_cells(cells, v, row, col)),
{
}

/// Writing from a state never moves the offset back and never changes a
/// cell before the offset it starts from.
proof fn lemma_put_run_keeps_before(st: (Seq<ScreenCell>, int, bool), s: Seq<u8>)
    requires
        st.0.len() == VGA_CELLS,
        0 <= st.1 <= VGA_CELLS,
    ensures
        put_run(st, s).1 >= st.1,
        forall|k: int| 0 <= k < st.1 && k < VGA_CELLS ==> #[trigger] put_run(st, s).0[k] == st.0[k],
    decreases s.len(),
{
    if s.len() > 0 {
        lemma_put_run_keeps_before(st, s.drop_last());
        lemma_put_run_bounds(st, s.drop_last());
        let prev = put_run(st, s.drop_last());
        let off = prev.1;
        assert((off / 80 + 1) * 80 > off) by (nonlinear_arith)
            requires
                0 <= off,
        ;
        assert forall|k: int| 0 <= k < st.1 && k < VGA_CELLS implies #[trigger] put_run(
            st,
            s,
        ).0[k] == st.0[k] by {
            assert(prev.0[k] == st.0[k]);
        }
    }
}

/// Writing the same text again from the top-left, after it has been written
/// once, meets each cell's final contents and leaves them as they are.
proof fn lemma_put_again_prefix(c: Seq<ScreenCell>, s: Seq<u8>, i: int)
    requires
        c.len() == VGA_CELLS,
        0 <= i <= s.len(),
    ensures
        put_run((put_text(c, s), 0, false), s.take(i)) == (
            put_text(c, s),
            put_run((c, 0, false), s.take(i)).1,
            put_run((c, 0, false), s.take(i)).2,
        ),
    decreases i,
{
    let x = put_text(c, s);
    if i == 0 {
        assert(s.take(0) =~= Seq::<u8>::empty());
    } else {
        lemma_put_again_prefix(c, s, i - 1);
        let a = put_run((c, 0, false), s.take(i - 1));
        let b = s[i - 1];
        assert(s.take(i).drop_last() =~= s.take(i - 1));
        assert(s.take(i).last() == b);
        lemma_put_run_bounds((c, 0, false), s.take(i - 1));
        lemma_put_text_len(c, s);
        if !a.2 && b != 0x0Au8 && a.1 < VGA_CELLS {
            let next = put_step(a, b);
            lemma_put_run_concat((c, 0, false), s.take(i), s.skip(i));
            assert(s.take(i) + s.skip(i) =~= s);
            assert(put_run((c, 0, false), s.take(i)) == next);
            assert(put_run((c, 0, false), s) == put_run(next, s.skip(i)));
            lemma_put_run_keeps_before(next, s.skip(i));
            assert(x[a.1] == next.0[a.1]);
            assert(next.0[a.1] == written_cell(a.0[a.1], b));
            assert(x.update(a.1, written_cell(x[a.1], b)) =~= x);
        }
    }
}

/// Writing a text twice with `putstr` leaves the screen as writing it once.
pub proof fn lemma_putstr_idempotent(cells: Seq<ScreenCell>, s: Seq<u8>)
    requires
        cells.len() == VGA_CELLS,
    ensures
        put_text(put_text(cells, s), s) == put_text(cells, s),
{
    lemma_put_again_prefix(cells, s, s.len() as int);
    assert(s.take(s.len() as int) =~= s);
}

/// `n` characters of row `row` from column `col`.
pub open spec fn row_text(cells: Seq<ScreenCell>, row: int, col: int, n: int) -> Seq<u8> {
    Seq::new(n as nat, |j: int| cells[row * VGA_WIDTH + col + j].ascii)
}

/// Once writing has stopped, the remaining bytes change nothing.
proof fn lemma_put_bytes_stopped(cells: Seq<ScreenCell>, s: Seq<u8>, n: int)
    requires
        0 <= n <= s.len(),
        put_bytes(cells, s.take(n)).2,
    ensures
        put_bytes(cells, s) == put_bytes(cells, s.take(n)),
    decreases s.len() - n,
{
    if n < s.len() {
        assert(s.take(n + 1).drop_last() =~= s.take(n));
        lemma_put_bytes_stopped(cells, s, n + 1);
    } else {
        assert(s.take(n) =~= s);
    }
}

/// Writes `s` from the top-left corner: `\n` moves to the start of the
/// next row, other bytes fill cells left to right, wrapping at the end of a
/// row; writing stops at the bottom of the screen (no scrolling). Each cell
/// keeps its color (white on black where it had none); NUL shows as a space.
pub fn putstr(screen: &mut Screen, s: &str)
    requires
        old(screen)@.len() == VGA_CELLS,
    ensures
        final(screen)@ == put_text(old(screen)@, s.spec_bytes()),
        final(screen)@.len() == VGA_CELLS,
{
    putstr_bytes(screen, s.as_bytes());
}

/// `putstr` on the bytes of a text.
pub fn putstr_bytes(screen: &mut Screen, bytes: &[u8])
    requires
        old(screen)@.len() == VGA_CELLS,
    ensures
        final(screen)@ == put_text(old(screen)@, bytes@),
        final(screen)@.len() == VGA_CELLS,
{
    proof {
        lemma_put_bytes_bounds(screen@, bytes@);
    }
    let ghost start = screen@;
    let mut offset: usize = 0;
    let mut i: usize = 0;
    proof {
        assert(bytes@.take(0) =~= Seq::<u8>::empty());
        assert(bytes@.take(bytes@.len() as int) =~= bytes@);
    }
    while i < bytes.len()
        invariant_except_break
            i <= bytes.len(),
            screen@.len() == VGA_CELLS,
            offset <= VGA_CELLS,
            put_bytes(start, bytes@.take(i as int)) == (screen@, offset as int, false),
            bytes@.take(bytes@.len() as int) == bytes@,
        ensures
            screen@ == put_text(start, bytes@),
        decreases bytes.len() - i,
    {
        let b = bytes[i];
        proof {
            assert(bytes@.take(i + 1).drop_last() =~= bytes@.take(i as int));
            assert(bytes@.take(i + 1).last() == b);
        }
        if b == 0x0Au8 {
            let row = offset / VGA_WIDTH;
            offset = (row + 1) * VGA_WIDTH;
            if offset >= VGA_CELLS {
                proof {
                    lemma_put_bytes_stopped(start, bytes@, i + 1);
                }
                break;
            }
            i = i + 1;
            continue;
        }
        if offset >= VGA_CELLS {
            proof {
                lemma_put_bytes_stopped(start, bytes@, i + 1);
            }
            break;
        }
        let color = screen.cells[offset].color;
        let color = if color == 0 {
            COLOR_WHITE_ON_BLACK
        } else {
            color
        };
        let ascii = if b == 0 {
            0x20u8
        } else {
            b
        };
        screen.cells[offset] = ScreenCell { ascii, color };
        offset = offset + 1;
        i = i + 1;
    }
}

/// The hexadecimal digit for `n` (0..15): `0`..`9`, then uppercase `A`..`F`.
pub open spec fn hex_char(n: u32) -> u8 {
    if n < 10 {
        (0x30 + n) as u8
    } else {
        (0x41 + n - 10) as u8
    }
}

/// The value of a hexadecimal digit character.
pub open spec fn hex_char_value(c: u8) -> int {
    if 0x30 <= c <= 0x39 {
        c - 0x30
    } else if 0x41 <= c <= 0x46 {
        c - 0x41 + 10
    } else {
        0
    }
}

/// Whether `c` is `0`..`9` or `A`..`F`.
pub open spec fn is_upper_hex(c: u8) -> bool {
    (0x30 <= c <= 0x39) || (0x41 <= c <= 0x46)
}

/// Nibble `i` of `v`, counting from the most significant (0) to the least (7).
pub open spec fn nibble(v: u32, i: int) -> u32 {
    (v >> ((28 - 4 * i) as u32)) & 0xF
}

/// The 8 digits of `v`, most significant first, zero-padded.
pub open spec fn hex_digit_seq(v: u32) -> Seq<u8> {
    Seq::new(8, |i: int| hex_char(nibble(v, i)))
}

/// The number a string of hexadecimal digits denotes.
pub open spec fn hex_value(s: Seq<u8>) -> int
    decreases s.len(),
{
    if s.len() == 0 {
        0
    } else {
        hex_value(s.drop_last()) * 16 + hex_char_value(s.last())
    }
}

/// Converts `v` into 8 uppercase hexadecimal digits, most significant
/// first, always zero-padded.
pub fn hex_digits(v: u32) -> (out: [u8; 8])
    ensures
        out@ == hex_digit_seq(v),
{
    let mut out: [u8; 8] = [0x30u8; 8];
    let mut i: usize = 0;
    while i < 8
        invariant
            i <= 8,
            out@.len() == 8,
            forall|k: int| 0 <= k < i ==> out@[k] == hex_char(#[trigger] nibble(v, k)),
        decreases 8 - i,
    {
        let shift: u32 = 28 - (i as u32) * 4;
        let nib: u32 = (v >> shift) & 0xF;
        assert(nib < 16) by (bit_vector)
            requires
                nib == (v >> shift) & 0xF,
        ;
        assert(nib == nibble(v, i as int));
        let digit: u8 = if nib < 10 {
            0x30u8 + (nib as u8)
        } else {
            0x41u8 + ((nib - 10) as u8)
        };
        out[i] = digit;
        i = i + 1;
    }
    assert(out@ =~= hex_digit_seq(v));
    out
}

/// The digits are uppercase hexadecimal characters and denote `v` exactly:
/// reading them back gives `v`, so no two values share a dump.
pub proof fn lemma_hex_digits_denote(v: u32)
    ensures
        hex_digit_seq(v).len() == 8,
        forall|i: int| 0 <= i < 8 ==> is_upper_hex(#[trigger] hex_digit_seq(v)[i]),
        hex_value(hex_digit_seq(v)) == v,
{
    let d = hex_digit_seq(v);
    assert(forall|x: u32, sh: u32| #[trigger] ((x >> sh) & 0xF) < 16) by (bit_vector);
    assert forall|i: int| 0 <= i < 8 implies hex_char_value(#[trigger] d[i]) == nibble(v, i)
        && is_upper_hex(d[i]) by {
        assert(nibble(v, i) < 16);
    }
    let n0 = nibble(v, 0);
    let n1 = nibble(v, 1);
    let n2 = nibble(v, 2);
    let n3 = nibble(v, 3);
    let n4 = nibble(v, 4);
    let n5 = nibble(v, 5);
    let n6 = nibble(v, 6);
    let n7 = nibble(v, 7);
    assert(v == ((((((n0 as int * 16 + n1) * 16 + n2) * 16 + n3) * 16 + n4) * 16 + n5) * 16
        + n6) * 16 + n7) by (bit_vector)
        requires
            n0 == (v >> 28u32) & 0xF,
            n1 == (v >> 24u32) & 0xF,
            n2 == (v >> 20u32) & 0xF,
            n3 == (v >> 16u32) & 0xF,
            n4 == (v >> 12u32) & 0xF,
            n5 == (v >> 8u32) & 0xF,
            n6 == (v >> 4u32) & 0xF,
            n7 == (v >> 0u32) & 0xF,
    ;
    assert(d.take(0) =~= Seq::<u8>::empty());
    assert(d.take(8) =~= d);
    lemma_hex_value_step(d, 1);
    lemma_hex_value_step(d, 2);
    lemma_hex_value_step(d, 3);
    lemma_hex_value_step(d, 4);
    lemma_hex_value_step(d, 5);
    lemma_hex_value_step(d, 6);
    lemma_hex_value_step(d, 7);
    lemma_hex_value_step(d, 8);
    assert(hex_char_value(d[0]) == n0);
    assert(hex_char_value(d[1]) == n1);
    assert(hex_char_value(d[2]) == n2);
    assert(hex_char_value(d[3]) == n3);
    assert(hex_char_value(d[4]) == n4);
    assert(hex_char_value(d[5]) == n5);
    assert(hex_char_value(d[6]) == n6);
    assert(hex_char_value(d[7]) == n7);
}

/// Reading one more digit multiplies by 16 and adds it.
proof fn lemma_hex_value_step(d: Seq<u8>, k: int)
    requires
        1 <= k <= d.len(),
    ensures
        hex_value(d.take(k)) == hex_value(d.take(k - 1)) * 16 + hex_char_value(d[k - 1]),
{
    assert(d.take(k).drop_last() =~= d.take(k - 1));
}

/// The ten characters `0x` and the 8 digits of `v`.
pub open spec fn hex_text(v: u32) -> Seq<u8> {
    seq![0x30u8, 0x78u8] + hex_digit_seq(v)
}

/// The first `n` cells from `base` show `text`, each keeping its color
/// (white on black where it had none); every other cell is unchanged.
pub open spec fn cells_with_text(cells: Seq<ScreenCell>, base: int, text: Seq<u8>, n: int) -> Seq<
    ScreenCell,
> {
    Seq::new(
        cells.len(),
        |k: int|
            if base <= k < base + n {
                ScreenCell { ascii: text[k - base], color: shown_color(cells[k].color) }
            } else {
                cells[k]
            },
    )
}

/// The screen after `put_hex_at(v, row, col)`: `0x` and the 8 digits from
/// `(row, col)` rightwards, cut at the end of the row; nothing for an
/// origin off the screen.
pub open spec fn put_hex_cells(cells: Seq<ScreenCell>, v: u32, row: int, col: int) -> Seq<
    ScreenCell,
> {
    if row >= VGA_HEIGHT || col >= VGA_WIDTH {
        cells
    } else {
        let room = VGA_WIDTH - col;
        cells_with_text(cells, row * VGA_WIDTH + col, hex_text(v), if 10 < room { 10 } else { room })
    }
}

/// Writes `v` as `0xXXXXXXXX` (10 cells) starting at `(row, col)`, without
/// a cursor and without wrapping: past the end of the row it is cut off.
/// An origin off the screen (`row >= 25` or `col >= 80`) changes nothing.
/// Each cell keeps its color (white on black where it had none).
pub fn put_hex_at(screen: &mut Screen, v: u32, row: usize, col: usize)
    requires
        old(screen)@.len() == VGA_CELLS,
    ensures
        final(screen)@ == put_hex_cells(old(screen)@, v, row as int, col as int),
        final(screen)@.len() == VGA_CELLS,
{
    if row >= VGA_HEIGHT || col >= VGA_WIDTH {
        return;
    }
    let digits = hex_digits(v);
    let mut text: [u8; 10] = [0x30u8; 10];
    text[1] = 0x78u8;
    let mut j: usize = 0;
    while j < 8
        invariant
            j <= 8,
            text@.len() == 10,
            text@[0] == 0x30u8,
            text@[1] == 0x78u8,
            digits@ == hex_digit_seq(v),
            forall|k: int| 2 <= k < 2 + j ==> text@[k] == digits@[k - 2],
        decreases 8 - j,
    {
        text[2 + j] = digits[j];
        j = j + 1;
    }
    assert(text@ =~= hex_text(v));
    let base = row * VGA_WIDTH + col;
    let room = VGA_WIDTH - col;
    let len = if 10 < room {
        10
    } else {
        room
    };
    let ghost start = screen@;
    let mut i: usize = 0;
    while i < len
        invariant
            i <= len,
            len <= 10,
            base + len <= VGA_CELLS,
            text@ == hex_text(v),
            start.len() == VGA_CELLS,
            screen@ == cells_with_text(start, base as int, text@, i as int),
        decreases len - i,
    {
        let offset = base + i;
        let color = screen.cells[offset].color;
        let color = if color == 0 {
            COLOR_WHITE_ON_BLACK
        } else {
            color
        };
        screen.cells[offset] = ScreenCell { ascii: text[i], color };
        i = i + 1;
        assert(screen@ =~= cells_with_text(start, base as int, text@, i as int));
    }
}

} // verus!
