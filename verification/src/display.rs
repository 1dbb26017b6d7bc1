//! The 64x32 monochrome display and its dirty flag.

use vstd::prelude::*;

verus! {

/// Pixels in a row.
pub const WIDTH: usize = 64;

/// Rows on the display.
pub const HEIGHT: usize = 32;

/// The display as a value: 32 rows of 64 pixels, and whether anything has
/// changed since the last frame was consumed.
pub struct Screen {
    pub pixels: Seq<Seq<bool>>,
    pub dirty: bool,
}

impl Screen {
    /// The grid has 32 rows of 64 pixels.
    pub open spec fn wf(self) -> bool {
        &&& self.pixels.len() == 32
        &&& forall|y: int| 0 <= y < 32 ==> (#[trigger] self.pixels[y]).len() == 64
    }

    /// Whether the pixel in column `x` of row `y` is on.
    pub open spec fn lit(self, x: int, y: int) -> bool {
        self.pixels[y][x]
    }

    /// A grid with every pixel off.
    pub open spec fn blank() -> Seq<Seq<bool>> {
        Seq::new(32, |y: int| Seq::new(64, |x: int| false))
    }

    /// The screen after one pixel is written; the write marks it dirty.
    pub open spec fn plot(self, x: int, y: int, value: bool) -> Screen {
        Screen { pixels: self.pixels.update(y, self.pixels[y].update(x, value)), dirty: true }
    }
}

/// Whether bit `col` of a sprite row is set, `col` 0 being the leftmost.
pub open spec fn sprite_bit(row: u8, col: int) -> bool {
    row & (0x80u8 >> (col as u8)) != 0
}

/// Whether a sprite of at most 32 rows, drawn with its top left corner at
/// (`vx`, `vy`), has a set bit on the pixel (`x`, `y`). Columns wrap at 64
/// and rows at 32, so each pixel meets at most one bit of the sprite.
pub open spec fn sprite_covers(sprite: Seq<u8>, vx: int, vy: int, x: int, y: int) -> bool {
    let row = (y - vy) % 32;
    let col = (x - vx) % 64;
    row < sprite.len() && col < 8 && sprite_bit(sprite[row], col)
}

impl Screen {
    /// The screen after a sprite is XORed onto it: a pixel changes exactly
    /// where the sprite has a set bit. Drawing marks the screen dirty if
    /// it plots any pixel.
    pub open spec fn drawn(self, sprite: Seq<u8>, vx: int, vy: int) -> Screen {
        Screen {
            pixels: Seq::new(
                32,
                |y: int|
                    Seq::new(
                        64,
                        |x: int| self.pixels[y][x] != sprite_covers(sprite, vx, vy, x, y),
                    ),
            ),
            dirty: self.dirty || self.touched_by(sprite, vx, vy),
        }
    }

    /// Whether the sprite has a set bit on any pixel.
    pub open spec fn touched_by(self, sprite: Seq<u8>, vx: int, vy: int) -> bool {
        exists|x: int, y: int|
            0 <= x < 64 && 0 <= y < 32 && #[trigger] sprite_covers(sprite, vx, vy, x, y)
    }

    /// Whether drawing the sprite turns off a pixel that is on.
    pub open spec fn collides(self, sprite: Seq<u8>, vx: int, vy: int) -> bool {
        exists|x: int, y: int|
            0 <= x < 64 && 0 <= y < 32 && self.pixels[y][x] && #[trigger] sprite_covers(
                sprite,
                vx,
                vy,
                x,
                y,
            )
    }
}

/// Whether the sprite covers (`x`, `y`) with a bit that comes before bit
/// `col_limit` of row `row_limit`, rows taken top to bottom and bits left to
/// right.
spec fn sprite_covers_before(
    sprite: Seq<u8>,
    vx: int,
    vy: int,
    x: int,
    y: int,
    row_limit: int,
    col_limit: int,
) -> bool {
    let row = (y - vy) % 32;
    let col = (x - vx) % 64;
    sprite_covers(sprite, vx, vy, x, y) && (row < row_limit || (row == row_limit && col
        < col_limit))
}

impl Screen {
    /// The screen while a sprite is being drawn, with every bit before bit
    /// `col_limit` of row `row_limit` plotted.
    spec fn drawn_before(
        self,
        sprite: Seq<u8>,
        vx: int,
        vy: int,
        row_limit: int,
        col_limit: int,
    ) -> Screen {
        Screen {
            pixels: Seq::new(
                32,
                |y: int|
                    Seq::new(
                        64,
                        |x: int|
                            self.pixels[y][x] != sprite_covers_before(
                                sprite,
                                vx,
                                vy,
                                x,
                                y,
                                row_limit,
                                col_limit,
                            ),
                    ),
            ),
            dirty: self.dirty || self.touched_before(sprite, vx, vy, row_limit, col_limit),
        }
    }

    spec fn touched_before(
        self,
        sprite: Seq<u8>,
        vx: int,
        vy: int,
        row_limit: int,
        col_limit: int,
    ) -> bool {
        exists|x: int, y: int|
            0 <= x < 64 && 0 <= y < 32 && #[trigger] sprite_covers_before(
                sprite,
                vx,
                vy,
                x,
                y,
                row_limit,
                col_limit,
            )
    }

    spec fn collides_before(
        self,
        sprite: Seq<u8>,
        vx: int,
        vy: int,
        row_limit: int,
        col_limit: int,
    ) -> bool {
        exists|x: int, y: int|
            0 <= x < 64 && 0 <= y < 32 && self.pixels[y][x] && #[trigger] sprite_covers_before(
                sprite,
                vx,
                vy,
                x,
                y,
                row_limit,
                col_limit,
            )
    }
}

/// The pixel that bit `col` of row `row` lands on is met by no other bit.
proof fn lemma_landing(vx: int, vy: int, row: int, col: int, x: int, y: int)
    requires
        0 <= vx,
        0 <= vy,
        0 <= row < 32,
        0 <= col < 64,
        0 <= x < 64,
        0 <= y < 32,
    ensures
        ((y - vy) % 32 == row && (x - vx) % 64 == col) <==> (x == (vx + col) % 64 && y == (vy
            + row) % 32),
        0 <= (y - vy) % 32 < 32,
        0 <= (x - vx) % 64 < 64,
{
}

/// A sprite of at most 32 rows covers a pixel exactly when one of its set
/// bits lands there: bit `col` of row `row` lands on column
/// `(vx + col) % 64` of row `(vy + row) % 32`.
pub proof fn lemma_covered_is_landed_on(sprite: Seq<u8>, vx: int, vy: int, x: int, y: int)
    requires
        sprite.len() <= 32,
        0 <= vx,
        0 <= vy,
        0 <= x < 64,
        0 <= y < 32,
    ensures
        sprite_covers(sprite, vx, vy, x, y) <==> exists|row: int, col: int|
            0 <= row < sprite.len() && 0 <= col < 8 && #[trigger] sprite_bit(sprite[row], col)
                && x == (vx + col) % 64 && y == (vy + row) % 32,
{
    if sprite_covers(sprite, vx, vy, x, y) {
        let row = (y - vy) % 32;
        let col = (x - vx) % 64;
        lemma_landing(vx, vy, row, col, x, y);
        assert(sprite_bit(sprite[row], col));
    }
    assert forall|row: int, col: int|
        0 <= row < sprite.len() && 0 <= col < 8 && #[trigger] sprite_bit(sprite[row], col) && x
            == (vx + col) % 64 && y == (vy + row) % 32 implies sprite_covers(
        sprite,
        vx,
        vy,
        x,
        y,
    ) by {
        lemma_landing(vx, vy, row, col, x, y);
    }
}

/// Nothing is plotted before the first bit of the first row.
proof fn lemma_draw_start(before: Screen, sprite: Seq<u8>, vx: int, vy: int)
    requires
        before.wf(),
        0 <= vx,
        0 <= vy,
    ensures
        before.drawn_before(sprite, vx, vy, 0, 0) == before,
        !before.collides_before(sprite, vx, vy, 0, 0),
{
    assert forall|x: int, y: int| 0 <= x < 64 && 0 <= y < 32 implies !sprite_covers_before(
        sprite,
        vx,
        vy,
        x,
        y,
        0,
        0,
    ) by {
        lemma_landing(vx, vy, 0, 0, x, y);
    }
    assert(before.drawn_before(sprite, vx, vy, 0, 0).pixels =~~= before.pixels);
}

/// Past the last bit of a row is before the first bit of the next.
proof fn lemma_draw_next_row(before: Screen, sprite: Seq<u8>, vx: int, vy: int, row: int)
    requires
        before.wf(),
        0 <= vx,
        0 <= vy,
        0 <= row < 32,
    ensures
        before.drawn_before(sprite, vx, vy, row, 8) == before.drawn_before(
            sprite,
            vx,
            vy,
            row + 1,
            0,
        ),
        before.collides_before(sprite, vx, vy, row, 8) == before.collides_before(
            sprite,
            vx,
            vy,
            row + 1,
            0,
        ),
{
    assert forall|x: int, y: int|
        #![trigger sprite_covers_before(sprite, vx, vy, x, y, row, 8)]
        #![trigger sprite_covers_before(sprite, vx, vy, x, y, row + 1, 0)]
        0 <= x < 64 && 0 <= y < 32 implies sprite_covers_before(sprite, vx, vy, x, y, row, 8)
        == sprite_covers_before(sprite, vx, vy, x, y, row + 1, 0) by {
        lemma_landing(vx, vy, 0, 0, x, y);
    }
    assert(before.drawn_before(sprite, vx, vy, row, 8).pixels =~~= before.drawn_before(
        sprite,
        vx,
        vy,
        row + 1,
        0,
    ).pixels);
}

/// Before the row after the last one, the whole sprite is plotted.
proof fn lemma_draw_end(before: Screen, sprite: Seq<u8>, vx: int, vy: int)
    requires
        before.wf(),
        0 <= vx,
        0 <= vy,
    ensures
        before.drawn_before(sprite, vx, vy, sprite.len() as int, 0) == before.drawn(
            sprite,
            vx,
            vy,
        ),
        before.collides_before(sprite, vx, vy, sprite.len() as int, 0) == before.collides(
            sprite,
            vx,
            vy,
        ),
{
    assert forall|x: int, y: int|
        #![trigger sprite_covers_before(sprite, vx, vy, x, y, sprite.len() as int, 0)]
        #![trigger sprite_covers(sprite, vx, vy, x, y)]
        0 <= x < 64 && 0 <= y < 32 implies sprite_covers_before(
        sprite,
        vx,
        vy,
        x,
        y,
        sprite.len() as int,
        0,
    ) == sprite_covers(sprite, vx, vy, x, y) by {}
    assert(before.drawn_before(sprite, vx, vy, sprite.len() as int, 0).pixels =~~= before.drawn(
        sprite,
        vx,
        vy,
    ).pixels);
}

/// What one more bit adds: where the bit is set, its pixel is inverted and
/// a collision is recorded if that pixel was on; where it is clear, nothing
/// changes.
proof fn lemma_draw_bit(before: Screen, sprite: Seq<u8>, vx: int, vy: int, row: int, col: int)
    requires
        before.wf(),
        0 <= vx,
        0 <= vy,
        0 <= row < sprite.len() <= 32,
        0 <= col < 8,
    ensures
        ({
            let px = (vx + col) % 64;
            let py = (vy + row) % 32;
            let now = before.drawn_before(sprite, vx, vy, row, col);
            let then = before.drawn_before(sprite, vx, vy, row, col + 1);
            let hit_now = before.collides_before(sprite, vx, vy, row, col);
            let hit_then = before.collides_before(sprite, vx, vy, row, col + 1);
            &&& now.wf()
            &&& now.lit(px, py) == before.lit(px, py)
            &&& sprite_bit(sprite[row], col) ==> then == now.plot(px, py, !now.lit(px, py))
                && hit_then == (hit_now || before.lit(px, py))
            &&& !sprite_bit(sprite[row], col) ==> then == now && hit_then == hit_now
        }),
{
    let px = (vx + col) % 64;
    let py = (vy + row) % 32;
    let now = before.drawn_before(sprite, vx, vy, row, col);
    let then = before.drawn_before(sprite, vx, vy, row, col + 1);
    lemma_landing(vx, vy, row, col, px, py);
    assert(!sprite_covers_before(sprite, vx, vy, px, py, row, col));
    assert forall|x: int, y: int|
        #![trigger sprite_covers_before(sprite, vx, vy, x, y, row, col + 1)]
        #![trigger sprite_covers_before(sprite, vx, vy, x, y, row, col)]
        0 <= x < 64 && 0 <= y < 32 implies sprite_covers_before(
        sprite,
        vx,
        vy,
        x,
        y,
        row,
        col + 1,
    ) == (sprite_covers_before(sprite, vx, vy, x, y, row, col) || (x == px && y == py
        && sprite_bit(sprite[row], col))) by {
        lemma_landing(vx, vy, row, col, x, y);
    }
    if sprite_bit(sprite[row], col) {
        assert(sprite_covers_before(sprite, vx, vy, px, py, row, col + 1));
        assert(then.pixels =~~= now.plot(px, py, !now.lit(px, py)).pixels);
    } else {
        assert(then.pixels =~~= now.pixels);
    }
}

/// The display of the machine: a grid of pixels that are on or off, and a
/// flag that is raised by every write and lowered by whoever shows the
/// grid. The grid is a torus: a write to column `x` of row `y` goes to
/// column `x % 64` of row `y % 32`.
pub struct Display {
    buffer: [[bool; 64]; 32],
    needs_update: bool,
}

impl View for Display {
    type V = Screen;

    closed spec fn view(&self) -> Screen {
        Screen { pixels: Seq::new(32, |y: int| self.buffer@[y]@), dirty: self.needs_update }
    }
}

impl Display {
    /// The grid of every display is 32 rows of 64 pixels.
    pub proof fn lemma_shape(&self)
        ensures
            self@.wf(),
    {
    }

    /// A blank display that asks for no redraw.
    pub fn new() -> (display: Display)
        ensures
            display@.pixels == Screen::blank(),
            !display@.dirty,
    {
        let buffer = [[false; 64]; 32];
        let needs_update = false;
        let display = Display { buffer, needs_update };
        assert(display@.pixels =~~= Screen::blank());
        display
    }

    /// Reads a pixel; a coordinate off the grid reads as off.
    pub fn get_pixel(&self, x: usize, y: usize) -> (on: bool)
        ensures
            on == (x < 64 && y < 32 && self@.lit(x as int, y as int)),
    {
        if Self::bound(x, y) {
            self.buffer[y][x]
        } else {
            false
        }
    }

    /// Writes a pixel. The coordinates wrap: column `x % 64` of row
    /// `y % 32` is written, so no write falls off the grid.
    pub fn set_pixel(&mut self, x: usize, y: usize, value: bool)
        ensures
            final(self)@ == old(self)@.plot((x % 64) as int, (y % 32) as int, value),
    {
        let column: usize = x % WIDTH;
        let row: usize = y % HEIGHT;
        self.buffer[row][column] = value;
        self.needs_update = true;
        assert(self@.pixels =~~= old(self)@.plot((x % 64) as int, (y % 32) as int, value).pixels);
    }

    /// XORs a sprite of at most 32 rows onto the display with its top left
    /// corner at (`vx`, `vy`), wrapping at the edges, and reports whether
    /// any pixel that was on went off.
    pub fn draw_sprite(&mut self, sprite: &[u8], vx: u8, vy: u8) -> (collision: bool)
        requires
            sprite@.len() <= 32,
        ensures
            final(self)@ == old(self)@.drawn(sprite@, vx as int, vy as int),
            collision == old(self)@.collides(sprite@, vx as int, vy as int),
    {
        let ghost before = self@;
        proof {
            self.lemma_shape();
            lemma_draw_start(before, sprite@, vx as int, vy as int);
        }
        let mut collision = false;
        let mut row: usize = 0;
        while row < sprite.len()
            invariant
                before.wf(),
                sprite@.len() <= 32,
                row <= sprite@.len(),
                self@ == before.drawn_before(sprite@, vx as int, vy as int, row as int, 0),
                collision == before.collides_before(
                    sprite@,
                    vx as int,
                    vy as int,
                    row as int,
                    0,
                ),
            decreases sprite@.len() - row,
        {
            let sprite_byte = sprite[row];
            let y = (vy as usize + row) % 32;
            let mut bit_index: u8 = 0;
            while bit_index < 8
                invariant
                    before.wf(),
                    row < sprite@.len() <= 32,
                    sprite_byte == sprite@[row as int],
                    y == (vy + row) % 32,
                    bit_index <= 8,
                    self@ == before.drawn_before(
                        sprite@,
                        vx as int,
                        vy as int,
                        row as int,
                        bit_index as int,
                    ),
                    collision == before.collides_before(
                        sprite@,
                        vx as int,
                        vy as int,
                        row as int,
                        bit_index as int,
                    ),
                decreases 8 - bit_index,
            {
                let x = (vx as usize + bit_index as usize) % 64;
                proof {
                    lemma_draw_bit(
                        before,
                        sprite@,
                        vx as int,
                        vy as int,
                        row as int,
                        bit_index as int,
                    );
                }
                if sprite_byte & (0b1000_0000u8 >> bit_index) != 0 {
                    let was_on = self.get_pixel(x, y);
                    self.flip_pixel(x, y);
                    if was_on {
                        collision = true;
                    }
                }
                bit_index += 1;
            }
            proof {
                lemma_draw_next_row(before, sprite@, vx as int, vy as int, row as int);
            }
            row += 1;
        }
        proof {
            lemma_draw_end(before, sprite@, vx as int, vy as int);
        }
        collision
    }

    /// Inverts a pixel. The coordinates wrap: column `x % 64` of row
    /// `y % 32` is inverted, so no plot falls off the grid.
    pub fn flip_pixel(&mut self, x: usize, y: usize)
        ensures
            final(self)@ == old(self)@.plot(
                (x % 64) as int,
                (y % 32) as int,
                !old(self)@.lit((x % 64) as int, (y % 32) as int),
            ),
    {
        let column: usize = x % WIDTH;
        let row: usize = y % HEIGHT;
        self.buffer[row][column] = !self.buffer[row][column];
        self.needs_update = true;
        assert(self@.pixels =~~= old(self)@.plot(
            (x % 64) as int,
            (y % 32) as int,
            !old(self)@.lit((x % 64) as int, (y % 32) as int),
        ).pixels);
    }

    /// Whether (`x`, `y`) lies on the grid.
    fn bound(x: usize, y: usize) -> (inside: bool)
        ensures
            inside == (x < 64 && y < 32),
    {
        x < WIDTH && y < HEIGHT
    }

    /// Turns every pixel off.
    pub fn clear(&mut self)
        ensures
            final(self)@.pixels == Screen::blank(),
            final(self)@.dirty,
    {
        self.buffer = [[false; 64]; 32];
        self.needs_update = true;
        assert(self@.pixels =~~= Screen::blank());
    }

    /// Whether the grid was written since it was last shown.
    pub fn needs_update(&self) -> (dirty: bool)
        ensures
            dirty == self@.dirty,
    {
        self.needs_update
    }

    /// Raises or lowers the dirty flag.
    pub fn set_needs_update(&mut self, value: bool)
        ensures
            final(self)@ == (Screen { dirty: value, ..old(self)@ }),
    {
        self.needs_update = value;
    }

    /// The rows of the grid, top to bottom.
    pub fn get_buffer(&self) -> (rows: &[[bool; 64]])
        ensures
            rows@.len() == 32,
            forall|y: int| 0 <= y < 32 ==> (#[trigger] rows@[y])@ == self@.pixels[y],
    {
        self.buffer.as_slice()
    }
}

} // verus!
