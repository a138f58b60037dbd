//! A display of 64 x 32 pixels in two colours, for a host that shows a
//! buffer of colours.

use vstd::prelude::*;
use crate::sprite::{
    draw_collides, draw_rows, lemma_row_start, lemma_row_step, row_collides, xor_row,
};

verus! {

/// The pixels of a display, each 0 (off) or 1 (on), and the two colours in
/// which they are shown.
pub struct Display {
    /// The pixels, row by row: `pixels[y][x]` is the pixel in column `x` of
    /// row `y`.
    pub pixels: [[u32; 64]; 32],
    /// The colour of a pixel that is off.
    pub back_color: u32,
    /// The colour of a pixel that is on.
    pub fore_color: u32,
}

/// What a display stands for: its cells and its two colours.
pub struct Pixels {
    /// The 2048 cells of the frame buffer, row after row: the cell in column
    /// `x` of row `y` is `cells[x + 64 * y]`.
    pub cells: Seq<bool>,
    /// The colour of a cell that is off.
    pub back_color: u32,
    /// The colour of a cell that is on.
    pub fore_color: u32,
}

impl View for Display {
    type V = Pixels;

    open spec fn view(&self) -> Pixels {
        Pixels {
            cells: self.cells(),
            back_color: self.back_color,
            fore_color: self.fore_color,
        }
    }
}

/// The display row of a sprite row can be computed from the remainders.
proof fn lemma_wrapped_row(y: int, j: int)
    requires
        0 <= y,
        0 <= j,
    ensures
        (y % 32 + j % 32) % 32 == (y + j) % 32,
{
}

impl Display {
    /// Every pixel is 0 or 1. The model of such a display says what each
    /// pixel holds: 1 where the cell is on, 0 where it is off.
    pub open spec fn wf(&self) -> bool {
        forall|y: int, x: int|
            0 <= y < 32 && 0 <= x < 64 ==> {
                ||| (#[trigger] self.pixels@[y]@[x]) == 0
                ||| self.pixels@[y]@[x] == 1
            }
    }

    /// The pixels as a frame buffer of 2048 cells, row after row: a cell is
    /// on where the pixel is 1.
    pub open spec fn cells(&self) -> Seq<bool> {
        Seq::new(2048, |cell: int| self.pixels@[cell / 64]@[cell % 64] == 1)
    }

    /// A display with every pixel off.
    pub fn new(back_color: u32, fore_color: u32) -> (display: Display)
        ensures
            display.wf(),
            display@ == (Pixels {
                cells: Seq::new(2048, |cell: int| false),
                back_color,
                fore_color,
            }),
    {
        let display = Display { pixels: [[0u32; 64]; 32], back_color, fore_color };
        assert(display.cells() =~= Seq::new(2048, |cell: int| false));
        display
    }

    /// Switches every pixel off.
    pub fn clear(&mut self)
        ensures
            final(self).wf(),
            final(self)@ == (Pixels { cells: Seq::new(2048, |cell: int| false), ..old(self)@ }),
    {
        self.pixels = [[0u32; 64]; 32];
        assert(self.cells() =~= Seq::new(2048, |cell: int| false));
    }

    /// Draws a sprite with its top left corner at column `x`, row `y`: the
    /// pixels under the set pixels of the sprite are flipped, and columns and
    /// rows wrap around the edges of the display. Returns 1 if a pixel that
    /// was on was switched off, and 0 if not.
    pub fn draw(&mut self, x: usize, y: usize, sprite: &[u8]) -> (collision: u8)
        requires
            old(self).wf(),
        ensures
            final(self).wf(),
            final(self)@ == (Pixels {
                cells: draw_rows(old(self)@.cells, sprite@, x as int, y as int, sprite@.len()),
                ..old(self)@
            }),
            collision == (if draw_collides(
                old(self)@.cells,
                sprite@,
                x as int,
                y as int,
                sprite@.len(),
            ) {
                1u8
            } else {
                0u8
            }),
    {
        let mut collision: u8 = 0;
        let rows = sprite.len();
        for j in 0..rows
            invariant
                rows == sprite@.len(),
                self.wf(),
                self.cells() == draw_rows(old(self).cells(), sprite@, x as int, y as int, j as nat),
                collision == (if draw_collides(
                    old(self).cells(),
                    sprite@,
                    x as int,
                    y as int,
                    j as nat,
                ) {
                    1u8
                } else {
                    0u8
                }),
                self.back_color == old(self).back_color,
                self.fore_color == old(self).fore_color,
        {
            let yj = (y % 32 + j % 32) % 32;
            proof {
                lemma_wrapped_row(y as int, j as int);
            }
            let hit = self.draw_row(sprite[j], x, yj);
            if hit {
                collision = 1;
            }
        }
        collision
    }

    /// Flips the pixel in column `x` of row `y`. Returns whether it was on.
    fn flip(&mut self, x: usize, y: usize) -> (was_on: bool)
        requires
            old(self).wf(),
            x < 64,
            y < 32,
        ensures
            final(self).wf(),
            was_on == old(self).cells()[x + 64 * y],
            final(self).cells() == old(self).cells().update(x + 64 * y, !was_on),
            final(self).back_color == old(self).back_color,
            final(self).fore_color == old(self).fore_color,
    {
        let pixel = self.pixels[y][x];
        assert(pixel == 0 || pixel == 1);
        assert(pixel == 1 ==> pixel ^ 1 == 0) by (bit_vector);
        assert(pixel == 0 ==> pixel ^ 1 == 1) by (bit_vector);
        assert((x + 64 * y) / 64 == y && (x + 64 * y) % 64 == x);
        let mut row = self.pixels[y];
        row[x] = pixel ^ 1;
        self.pixels[y] = row;
        assert forall|r: int, c: int| 0 <= r < 32 && 0 <= c < 64 implies {
            ||| (#[trigger] self.pixels@[r]@[c]) == 0
            ||| self.pixels@[r]@[c] == 1
        } by {
            if r != y || c != x {
                assert(self.pixels@[r]@[c] == old(self).pixels@[r]@[c]);
            }
        }
        assert forall|cell: int| 0 <= cell < 2048 implies self.cells()[cell] == old(
            self,
        ).cells().update(x + 64 * y, pixel != 1)[cell] by {
            if cell != x + 64 * y {
                assert(cell / 64 != y || cell % 64 != x);
                assert(self.pixels@[cell / 64]@[cell % 64] == old(self).pixels@[cell / 64]@[cell
                    % 64]);
            }
        }
        assert(self.cells() =~= old(self).cells().update(x + 64 * y, pixel != 1));
        pixel == 1
    }

    /// Draws one row of a sprite on the row `y`, with its leftmost pixel in
    /// column `x`. Returns whether a pixel that was on was switched off.
    fn draw_row(&mut self, byte: u8, x: usize, y: usize) -> (collision: bool)
        requires
            old(self).wf(),
            y < 32,
        ensures
            final(self).wf(),
            final(self).cells() == xor_row(old(self).cells(), byte, x as int, y as int, 8),
            collision == row_collides(old(self).cells(), byte, x as int, y as int, 8),
            final(self).back_color == old(self).back_color,
            final(self).fore_color == old(self).fore_color,
    {
        let mut collision = false;
        let ghost before = self.cells();
        proof {
            lemma_row_start(before, byte, x as int, y as int);
        }
        for i in 0..8u8
            invariant
                y < 32,
                self.wf(),
                before == old(self).cells(),
                self.cells() == xor_row(before, byte, x as int, y as int, i as int),
                collision == row_collides(before, byte, x as int, y as int, i as int),
                self.back_color == old(self).back_color,
                self.fore_color == old(self).fore_color,
        {
            let xi = (x % 64 + i as usize) % 64;
            proof {
                lemma_row_step(before, byte, x as int, y as int, i);
                assert(xi == (x + i) % 64);
            }
            if byte & (0x80u8 >> i) != 0 {
                if self.flip(xi, y) {
                    collision = true;
                }
            }
        }
        collision
    }

    /// The colours of the pixels, row after row: what a host needs to show
    /// the display.
    pub fn frame_buffer(&self) -> (buffer: Vec<u32>)
        ensures
            buffer@ == Seq::new(
                2048,
                |cell: int|
                    if self@.cells[cell] {
                        self@.fore_color
                    } else {
                        self@.back_color
                    },
            ),
    {
        let mut buffer: Vec<u32> = Vec::new();
        for y in 0..32usize
            invariant
                buffer@.len() == 64 * y,
                forall|cell: int|
                    0 <= cell < 64 * y ==> buffer@[cell] == if self.cells()[cell] {
                        self.fore_color
                    } else {
                        self.back_color
                    },
        {
            for x in 0..64usize
                invariant
                    y < 32,
                    buffer@.len() == 64 * y + x,
                    forall|cell: int|
                        0 <= cell < 64 * y + x ==> buffer@[cell] == if self.cells()[cell] {
                            self.fore_color
                        } else {
                            self.back_color
                        },
            {
                let color = if self.pixels[y][x] == 1 {
                    self.fore_color
                } else {
                    self.back_color
                };
                assert((64 * y + x) / 64 == y && (64 * y + x) % 64 == x);
                buffer.push(color);
            }
        }
        assert(buffer@ =~= Seq::new(
            2048,
            |cell: int|
                if self.cells()[cell] {
                    self.fore_color
                } else {
                    self.back_color
                },
        ));
        buffer
    }
}

} // verus!
