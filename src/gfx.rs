use vstd::prelude::*;

verus! {

/// Width of the display in pixels.
pub const WIDTH: usize = 64;

/// Height of the display in pixels.
pub const HEIGHT: usize = 32;

/// Number of pixels, row-major.
pub const SCREEN_BUFFER_LENGTH: usize = 2048;

/// Position of pixel `(x, y)` in the row-major pixel sequence.
pub open spec fn pixel_index(x: int, y: int) -> int {
    y * 64 + x
}

/// A screen with every pixel off.
pub open spec fn blank() -> Seq<bool> {
    Seq::new(2048, |k: int| false)
}

/// Whether column `d` of a sprite row is set; column 0 is the most
/// significant bit.
pub open spec fn sprite_bit(row: u8, d: int) -> bool {
    0 <= d < 8 && (row >> ((7 - d) as u8)) & 1u8 == 1u8
}

/// How many columns right of column `ox` pixel `k`'s column lies, wrapping
/// modulo 64.
pub open spec fn column_offset(ox: int, k: int) -> int {
    (k % 64 - ox) % 64
}

/// Whether the sprite row `row`, drawn with its left edge at column `ox`
/// on screen row `y`, has a set bit over pixel `k` (columns wrap modulo 64).
pub open spec fn row_hits(ox: int, y: int, row: u8, k: int) -> bool {
    k / 64 == y && sprite_bit(row, column_offset(ox, k))
}

/// The pixels after XOR-ing one sprite row onto `px`.
pub open spec fn draw_row(px: Seq<bool>, ox: int, y: int, row: u8) -> Seq<bool> {
    Seq::new(px.len(), |k: int| if row_hits(ox, y, row, k) { !px[k] } else { px[k] })
}

/// Whether XOR-ing one sprite row onto `px` turns some lit pixel off.
pub open spec fn row_collides(px: Seq<bool>, ox: int, y: int, row: u8) -> bool {
    exists|k: int| 0 <= k < px.len() && row_hits(ox, y, row, k) && #[trigger] px[k]
}

/// The pixels after drawing the sprite `rows` with its top-left corner at
/// `(ox, oy)`: row `j` goes to screen row `(oy + j) mod 32`, one row after
/// the other.
pub open spec fn draw_rows(px: Seq<bool>, ox: int, oy: int, rows: Seq<u8>) -> Seq<bool>
    decreases rows.len(),
{
    if rows.len() == 0 {
        px
    } else {
        draw_row(draw_rows(px, ox, oy, rows.drop_last()), ox, (oy + rows.len() - 1) % 32, rows.last())
    }
}

/// Whether drawing the sprite `rows` at `(ox, oy)` turns some lit pixel off.
pub open spec fn draw_collides(px: Seq<bool>, ox: int, oy: int, rows: Seq<u8>) -> bool
    decreases rows.len(),
{
    if rows.len() == 0 {
        false
    } else {
        draw_collides(px, ox, oy, rows.drop_last()) || row_collides(
            draw_rows(px, ox, oy, rows.drop_last()),
            ox,
            (oy + rows.len() - 1) % 32,
            rows.last(),
        )
    }
}

/// Column `i` of a row drawn from column `ox` lands on screen column
/// `(ox + i) mod 64`, and on no other.
proof fn lemma_column(ox: int, i: int, c: int)
    requires
        0 <= ox < 256,
        0 <= i < 64,
        0 <= c < 64,
    ensures
        ((ox + i) % 64 - ox) % 64 == i,
        (c - ox) % 64 == i ==> c == (ox + i) % 64,
{
    assert(((ox + i) % 64 - ox) % 64 == i) by (nonlinear_arith)
        requires 0 <= ox < 256, 0 <= i < 64;
    assert((c - ox) % 64 == i ==> c == (ox + i) % 64) by (nonlinear_arith)
        requires 0 <= ox < 256, 0 <= i < 64, 0 <= c < 64;
}

/// Pixel `y * 64 + c` lies on row `y`, column `c`.
proof fn lemma_index(y: int, c: int)
    requires
        0 <= y < 32,
        0 <= c < 64,
    ensures
        (y * 64 + c) / 64 == y,
        (y * 64 + c) % 64 == c,
        0 <= y * 64 + c < 2048,
{
    assert((y * 64 + c) / 64 == y && (y * 64 + c) % 64 == c) by (nonlinear_arith)
        requires 0 <= y < 32, 0 <= c < 64;
}

/// The 64x32 monochrome display.
pub struct Screen {
    pub data: [bool; 2048],
}

impl View for Screen {
    type V = Seq<bool>;

    /// The pixels, row-major: pixel `(x, y)` at `y * 64 + x`.
    open spec fn view(&self) -> Seq<bool> {
        self.data@
    }
}

impl Screen {
    /// A display with every pixel off.
    pub fn new() -> (r: Screen)
        ensures
            r@ == blank(),
    {
        let r = Screen { data: [false; 2048] };
        assert(r@ =~= blank());
        r
    }

    /// Whether pixel `(x, y)` is on.
    pub fn get_pixel(&self, x: u8, y: u8) -> (r: bool)
        requires
            x < WIDTH,
            y < HEIGHT,
        ensures
            r == self@[pixel_index(x as int, y as int)],
    {
        self.data[y as usize * 64 + x as usize]
    }

    /// Sets pixel `(x, y)` to `val`, leaving the others unchanged.
    pub fn set_pixel(&mut self, x: u8, y: u8, val: bool)
        requires
            x < WIDTH,
            y < HEIGHT,
        ensures
            final(self)@ == old(self)@.update(pixel_index(x as int, y as int), val),
    {
        self.data[y as usize * 64 + x as usize] = val;
    }

    /// Turns every pixel off.
    pub fn clear_screen(&mut self)
        ensures
            final(self)@ == blank(),
    {
        let mut i: usize = 0;
        while i < SCREEN_BUFFER_LENGTH
            invariant
                i <= 2048,
                forall|k: int| 0 <= k < i ==> !self@[k],
            decreases 2048 - i,
        {
            let ghost before = self@;
            self.data[i] = false;
            assert(self@ == before.update(i as int, false));
            i = i + 1;
        }
        assert(self@ =~= blank());
    }

    /// XORs one sprite row onto screen row `y` from column `x` on, and
    /// tells whether a lit pixel was turned off.
    fn draw_sprite_row(&mut self, x: u8, y: usize, row: u8) -> (collision: bool)
        requires
            y < HEIGHT,
        ensures
            final(self)@ == draw_row(old(self)@, x as int, y as int, row),
            collision == row_collides(old(self)@, x as int, y as int, row),
    {
        let ghost old_px = self@;
        let mut collision = false;
        let mut i: u8 = 0;
        while i < 8
            invariant
                i <= 8,
                y < 32,
                old_px.len() == 2048,
                forall|k: int|
                    0 <= k < 2048 ==> #[trigger] self@[k] == if row_hits(x as int, y as int, row, k)
                        && column_offset(x as int, k) < i {
                        !old_px[k]
                    } else {
                        old_px[k]
                    },
                collision == exists|k: int|
                    0 <= k < 2048 && row_hits(x as int, y as int, row, k) && column_offset(x as int, k) < i
                        && #[trigger] old_px[k],
            decreases 8 - i,
        {
            let c = (x as usize + i as usize) % 64;
            let idx = y * 64 + c;
            proof {
                lemma_column(x as int, i as int, c as int);
                lemma_index(y as int, c as int);
                assert forall|k: int| 0 <= k < 2048 && k / 64 == y && #[trigger] column_offset(x as int, k) == i implies k
                    == idx by {
                    lemma_column(x as int, i as int, k % 64);
                    assert(k == (k / 64) * 64 + k % 64) by (nonlinear_arith)
                        requires 0 <= k;
                };
            }
            if (row >> (7 - i)) & 1 == 1 {
                let prev = self.data[idx];
                if prev {
                    collision = true;
                }
                let ghost before = self@;
                self.data[idx] = !prev;
                assert(self@ == before.update(idx as int, !prev));
            }
            i = i + 1;
        }
        assert(self@ =~= draw_row(old_px, x as int, y as int, row));
        collision
    }

    /// Draws `sprite`, one byte per row with the most significant bit
    /// leftmost, with its top-left corner at `(x, y)`: each set bit flips
    /// the pixel under it, columns wrapping modulo 64 and rows modulo 32;
    /// clear bits leave their pixel alone. Returns whether some lit pixel
    /// was turned off.
    pub fn draw_sprite(&mut self, x: u8, y: u8, sprite: &[u8]) -> (collision: bool)
        ensures
            final(self)@ == draw_rows(old(self)@, x as int, y as int, sprite@),
            collision == draw_collides(old(self)@, x as int, y as int, sprite@),
    {
        let ghost old_px = self@;
        let mut collision = false;
        let mut j: usize = 0;
        while j < sprite.len()
            invariant
                j <= sprite@.len(),
                self@ == draw_rows(old_px, x as int, y as int, sprite@.subrange(0, j as int)),
                collision == draw_collides(old_px, x as int, y as int, sprite@.subrange(0, j as int)),
            decreases sprite@.len() - j,
        {
            let row_y = (y as usize + j % 32) % 32;
            proof {
                let rows = sprite@.subrange(0, j + 1);
                assert(rows.drop_last() =~= sprite@.subrange(0, j as int));
                assert(rows.last() == sprite@[j as int]);
                assert(row_y == (y + rows.len() - 1) % 32) by (nonlinear_arith)
                    requires row_y == (y as usize + j % 32) % 32, rows.len() == j + 1, 0 <= j;
            }
            let hit = self.draw_sprite_row(x, row_y, sprite[j]);
            collision = collision || hit;
            j = j + 1;
        }
        assert(sprite@.subrange(0, sprite@.len() as int) =~= sprite@);
        collision
    }
}

} // verus!

verus! {

/// Some column of a non-zero sprite row is set.
proof fn lemma_nonzero_row_has_bit(row: u8) -> (d: int)
    requires
        row != 0,
    ensures
        0 <= d < 8,
        sprite_bit(row, d),
{
    assert(row >> 7u8 & 1u8 == 1u8 || row >> 6u8 & 1u8 == 1u8 || row >> 5u8 & 1u8 == 1u8 || row >> 4u8
        & 1u8 == 1u8 || row >> 3u8 & 1u8 == 1u8 || row >> 2u8 & 1u8 == 1u8 || row >> 1u8 & 1u8 == 1u8
        || row >> 0u8 & 1u8 == 1u8) by (bit_vector)
        requires row != 0u8;
    if row >> 7u8 & 1u8 == 1u8 {
        0
    } else if row >> 6u8 & 1u8 == 1u8 {
        1
    } else if row >> 5u8 & 1u8 == 1u8 {
        2
    } else if row >> 4u8 & 1u8 == 1u8 {
        3
    } else if row >> 3u8 & 1u8 == 1u8 {
        4
    } else if row >> 2u8 & 1u8 == 1u8 {
        5
    } else if row >> 1u8 & 1u8 == 1u8 {
        6
    } else {
        7
    }
}

/// Drawing a one-row sprite twice at the same place gives back the
/// screen it started from; on a blank screen the first draw turns no lit
/// pixel off, and the second one does exactly when the row has a set bit.
pub proof fn lemma_draw_twice(px: Seq<bool>, ox: u8, oy: u8, row: u8)
    requires
        px.len() == 2048,
    ensures
        draw_rows(draw_rows(px, ox as int, oy as int, seq![row]), ox as int, oy as int, seq![row]) == px,
        !draw_collides(blank(), ox as int, oy as int, seq![row]),
        draw_collides(draw_rows(blank(), ox as int, oy as int, seq![row]), ox as int, oy as int, seq![row])
            == (row != 0),
{
    let rows = seq![row];
    let y = (oy + 0int) % 32;
    assert(rows.drop_last() =~= Seq::<u8>::empty());
    assert(rows.last() == row);
    assert(draw_rows(px, ox as int, oy as int, rows.drop_last()) == px);
    let once = draw_rows(px, ox as int, oy as int, rows);
    assert(once == draw_row(px, ox as int, y, row));
    assert(draw_rows(once, ox as int, oy as int, rows.drop_last()) == once);
    assert(draw_rows(once, ox as int, oy as int, rows) =~= px);
    assert(draw_rows(blank(), ox as int, oy as int, rows.drop_last()) == blank());
    assert(!draw_collides(blank(), ox as int, oy as int, rows.drop_last()));
    let lit = draw_rows(blank(), ox as int, oy as int, rows);
    assert(draw_rows(lit, ox as int, oy as int, rows.drop_last()) == lit);
    assert(!draw_collides(lit, ox as int, oy as int, rows.drop_last()));
    assert(lit == draw_row(blank(), ox as int, y, row));
    assert(!row_collides(blank(), ox as int, y, row));
    if row != 0 {
        let d = lemma_nonzero_row_has_bit(row);
        let c = (ox + d) % 64;
        lemma_column(ox as int, d, c);
        lemma_index(y, c);
        let k = y * 64 + c;
        assert(row_hits(ox as int, y, row, k));
        assert(lit[k]);
        assert(row_collides(lit, ox as int, y, row));
    } else {
        assert forall|d: int| 0 <= d < 8 implies !sprite_bit(0u8, d) by {
            let s = (7 - d) as u8;
            assert(0u8 >> s & 1u8 == 0u8) by (bit_vector);
        };
    }
}

} // verus!
