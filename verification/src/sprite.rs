//! What drawing a sprite does to the frame buffer.
//!
//! The frame buffer is a sequence of 64 x 32 cells, row after row: the cell
//! in column `x` of row `y` has the index `x + 64 * y`. A sprite is a run of
//! bytes, one byte for each of its rows; the highest bit of a byte is the
//! leftmost of its eight pixels. Drawing flips the cells under the set pixels
//! of the sprite, and columns and rows wrap around the edges of the display.

use vstd::prelude::*;

verus! {

/// Whether the pixel in column `col` of the sprite row `byte` is set.
pub open spec fn sprite_bit(byte: u8, col: u8) -> bool {
    col < 8 && byte & (0x80u8 >> col) != 0
}

/// The column of a sprite row that lies over the cell `cell`, when the
/// leftmost pixel of the row is in the display column `left` (taken modulo
/// 64): a number from 0 to 63, of which 0 to 7 belong to the sprite.
pub open spec fn sprite_col(left: int, cell: int) -> int {
    (cell % 64 - left) % 64
}

/// Whether the sprite row `byte`, drawn on the display row `y` with its
/// leftmost pixel in column `left`, has one of its first `cols` pixels set
/// over the cell `cell`.
pub open spec fn row_covers(byte: u8, left: int, y: int, cols: int, cell: int) -> bool {
    &&& cell / 64 == y
    &&& sprite_col(left, cell) < cols
    &&& sprite_col(left, cell) < 8
    &&& sprite_bit(byte, sprite_col(left, cell) as u8)
}

/// The frame buffer after the first `cols` pixels of a sprite row are
/// drawn: each cell under a set pixel is flipped.
pub open spec fn xor_row(screen: Seq<bool>, byte: u8, left: int, y: int, cols: int) -> Seq<bool> {
    Seq::new(screen.len(), |cell: int| screen[cell] != row_covers(byte, left, y, cols, cell))
}

/// Whether drawing the first `cols` pixels of a sprite row switches off a
/// cell that is on.
pub open spec fn row_collides(screen: Seq<bool>, byte: u8, left: int, y: int, cols: int) -> bool {
    exists|cell: int|
        0 <= cell < screen.len() && screen[cell] && #[trigger] row_covers(
            byte,
            left,
            y,
            cols,
            cell,
        )
}

/// Drawing one more pixel of a sprite row: if the pixel in column `col` is
/// set, the cell in column `(left + col) % 64` of the row `y` is flipped,
/// which no earlier pixel of the row has touched, and there is a collision
/// if that cell was on.
pub proof fn lemma_row_step(screen: Seq<bool>, byte: u8, left: int, y: int, col: u8)
    requires
        screen.len() == 2048,
        0 <= y < 32,
        col < 8,
    ensures
        xor_row(screen, byte, left, y, col as int)[(left + col) % 64 + 64 * y] == screen[(left
            + col) % 64 + 64 * y],
        xor_row(screen, byte, left, y, col + 1) == (if sprite_bit(byte, col) {
            xor_row(screen, byte, left, y, col as int).update(
                (left + col) % 64 + 64 * y,
                !screen[(left + col) % 64 + 64 * y],
            )
        } else {
            xor_row(screen, byte, left, y, col as int)
        }),
        row_collides(screen, byte, left, y, col + 1) == (row_collides(
            screen,
            byte,
            left,
            y,
            col as int,
        ) || (sprite_bit(byte, col) && screen[(left + col) % 64 + 64 * y])),
{
    let idx = (left + col) % 64 + 64 * y;
    let so_far = xor_row(screen, byte, left, y, col as int);
    let next = xor_row(screen, byte, left, y, col + 1);
    assert(idx / 64 == y && sprite_col(left, idx) == col);
    assert(forall|cell: int|
        0 <= cell < 2048 && cell / 64 == y && sprite_col(left, cell) == col ==> cell == idx);
    assert forall|cell: int| 0 <= cell < 2048 implies (#[trigger] row_covers(
        byte,
        left,
        y,
        col + 1,
        cell,
    ) == (row_covers(byte, left, y, col as int, cell) || (cell == idx && sprite_bit(
        byte,
        col,
    )))) by {}
    if sprite_bit(byte, col) {
        assert(next =~= so_far.update(idx, !screen[idx]));
    } else {
        assert(next =~= so_far);
    }
    if row_collides(screen, byte, left, y, col + 1) {
        let cell = choose|cell: int|
            0 <= cell < screen.len() && screen[cell] && #[trigger] row_covers(
                byte,
                left,
                y,
                col + 1,
                cell,
            );
        if row_covers(byte, left, y, col as int, cell) {
            assert(row_collides(screen, byte, left, y, col as int));
        }
    }
    if row_collides(screen, byte, left, y, col as int) {
        let cell = choose|cell: int|
            0 <= cell < screen.len() && screen[cell] && #[trigger] row_covers(
                byte,
                left,
                y,
                col as int,
                cell,
            );
        assert(row_covers(byte, left, y, col + 1, cell));
    }
    if sprite_bit(byte, col) && screen[idx] {
        assert(row_covers(byte, left, y, col + 1, idx));
    }
}

/// Before any pixel of a sprite row is drawn the frame buffer is as it was,
/// and there is no collision.
pub proof fn lemma_row_start(screen: Seq<bool>, byte: u8, left: int, y: int)
    ensures
        xor_row(screen, byte, left, y, 0) == screen,
        !row_collides(screen, byte, left, y, 0),
{
    assert(xor_row(screen, byte, left, y, 0) =~= screen);
}

/// The frame buffer after the first `rows` rows of `sprite` are drawn, one
/// after the other, with the top left corner at column `left`, row `top`.
pub open spec fn draw_rows(
    screen: Seq<bool>,
    sprite: Seq<u8>,
    left: int,
    top: int,
    rows: nat,
) -> Seq<bool>
    decreases rows,
{
    if rows == 0 {
        screen
    } else {
        let row = rows - 1;
        xor_row(
            draw_rows(screen, sprite, left, top, row as nat),
            sprite[row],
            left,
            (top + row) % 32,
            8,
        )
    }
}

/// Whether drawing the first `rows` rows of `sprite`, one after the other,
/// switches off a cell that is on.
pub open spec fn draw_collides(
    screen: Seq<bool>,
    sprite: Seq<u8>,
    left: int,
    top: int,
    rows: nat,
) -> bool
    decreases rows,
{
    if rows == 0 {
        false
    } else {
        let row = rows - 1;
        draw_collides(screen, sprite, left, top, row as nat) || row_collides(
            draw_rows(screen, sprite, left, top, row as nat),
            sprite[row],
            left,
            (top + row) % 32,
            8,
        )
    }
}

/// Whether the first `rows` rows of `sprite`, drawn with the top left corner
/// at column `left`, row `top`, have a set pixel over the cell `cell`. This
/// reads a sprite of at most 32 rows, no two rows of which share a display
/// row.
pub open spec fn sprite_covers(
    sprite: Seq<u8>,
    left: int,
    top: int,
    rows: nat,
    cell: int,
) -> bool {
    let row = (cell / 64 - top) % 32;
    row < rows && row_covers(sprite[row], left, cell / 64, 8, cell)
}

/// Drawing keeps the size of the frame buffer.
pub proof fn lemma_draw_rows_len(
    screen: Seq<bool>,
    sprite: Seq<u8>,
    left: int,
    top: int,
    rows: nat,
)
    ensures
        draw_rows(screen, sprite, left, top, rows).len() == screen.len(),
    decreases rows,
{
    if rows > 0 {
        lemma_draw_rows_len(screen, sprite, left, top, (rows - 1) as nat);
    }
}

/// Of the 32 display rows, a sprite row lies on exactly one.
proof fn lemma_row_of(top: int, row: int, line: int)
    requires
        0 <= row < 32,
        0 <= line < 32,
    ensures
        line == (top + row) % 32 <==> (line - top) % 32 == row,
{
}

/// A sprite of at most 32 rows flips exactly the cells under its set pixels.
pub proof fn lemma_draw_rows_cells(
    screen: Seq<bool>,
    sprite: Seq<u8>,
    left: int,
    top: int,
    rows: nat,
)
    requires
        rows <= 32,
        screen.len() == 2048,
    ensures
        draw_rows(screen, sprite, left, top, rows) == Seq::new(
            2048,
            |cell: int| screen[cell] != sprite_covers(sprite, left, top, rows, cell),
        ),
    decreases rows,
{
    let after = draw_rows(screen, sprite, left, top, rows);
    let cells = Seq::new(
        2048,
        |cell: int| screen[cell] != sprite_covers(sprite, left, top, rows, cell),
    );
    lemma_draw_rows_len(screen, sprite, left, top, rows);
    if rows > 0 {
        let row = (rows - 1) as nat;
        lemma_draw_rows_cells(screen, sprite, left, top, row);
        lemma_draw_rows_len(screen, sprite, left, top, row);
        assert forall|cell: int| 0 <= cell < 2048 implies after[cell] == cells[cell] by {
            let before = draw_rows(screen, sprite, left, top, row);
            lemma_row_of(top, row as int, cell / 64);
            assert(before[cell] == (screen[cell] != sprite_covers(
                sprite,
                left,
                top,
                row,
                cell,
            )));
            assert(after[cell] == (before[cell] != row_covers(
                sprite[row as int],
                left,
                (top + row) % 32,
                8,
                cell,
            )));
        }
    }
    assert(after =~= cells);
}

/// Whether a cell that is on lies under a set pixel of the first `rows` rows
/// of `sprite`.
pub open spec fn sprite_collides(
    screen: Seq<bool>,
    sprite: Seq<u8>,
    left: int,
    top: int,
    rows: nat,
) -> bool {
    exists|cell: int|
        0 <= cell < screen.len() && screen[cell] && #[trigger] sprite_covers(
            sprite,
            left,
            top,
            rows,
            cell,
        )
}

/// Drawing a sprite of at most 32 rows switches a cell off exactly when a
/// cell that is on lies under one of its set pixels.
pub proof fn lemma_draw_collides_cells(
    screen: Seq<bool>,
    sprite: Seq<u8>,
    left: int,
    top: int,
    rows: nat,
)
    requires
        rows <= 32,
        screen.len() == 2048,
    ensures
        draw_collides(screen, sprite, left, top, rows) == sprite_collides(
            screen,
            sprite,
            left,
            top,
            rows,
        ),
    decreases rows,
{
    if rows > 0 {
        let row = (rows - 1) as nat;
        let y = (top + row) % 32;
        let before = draw_rows(screen, sprite, left, top, row);
        lemma_draw_collides_cells(screen, sprite, left, top, row);
        lemma_draw_rows_cells(screen, sprite, left, top, row);
        assert forall|cell: int| 0 <= cell < 2048 implies (#[trigger] sprite_covers(
            sprite,
            left,
            top,
            rows,
            cell,
        ) == (sprite_covers(sprite, left, top, row, cell) || row_covers(
            sprite[row as int],
            left,
            y,
            8,
            cell,
        ))) && (row_covers(sprite[row as int], left, y, 8, cell) ==> before[cell]
            == screen[cell]) by {
            lemma_row_of(top, row as int, cell / 64);
        }
        if draw_collides(screen, sprite, left, top, rows) {
            if sprite_collides(screen, sprite, left, top, row) {
                let cell = choose|cell: int|
                    0 <= cell < screen.len() && screen[cell] && #[trigger] sprite_covers(
                        sprite,
                        left,
                        top,
                        row,
                        cell,
                    );
                assert(sprite_covers(sprite, left, top, rows, cell));
            } else {
                let cell = choose|cell: int|
                    0 <= cell < before.len() && before[cell] && #[trigger] row_covers(
                        sprite[row as int],
                        left,
                        y,
                        8,
                        cell,
                    );
                assert(sprite_covers(sprite, left, top, rows, cell));
            }
        }
        if sprite_collides(screen, sprite, left, top, rows) {
            let cell = choose|cell: int|
                0 <= cell < screen.len() && screen[cell] && #[trigger] sprite_covers(
                    sprite,
                    left,
                    top,
                    rows,
                    cell,
                );
            if sprite_covers(sprite, left, top, row, cell) {
                assert(sprite_collides(screen, sprite, left, top, row));
            } else {
                assert(row_covers(sprite[row as int], left, y, 8, cell));
                assert(row_collides(before, sprite[row as int], left, y, 8));
            }
        }
    }
}

/// Whether the first `rows` rows of `sprite` flip the cell
/// `cell` an odd number of times. This does not depend on the frame buffer.
pub open spec fn sprite_mask(
    sprite: Seq<u8>,
    left: int,
    top: int,
    rows: nat,
    cell: int,
) -> bool
    decreases rows,
{
    if rows == 0 {
        false
    } else {
        let row = rows - 1;
        sprite_mask(sprite, left, top, row as nat, cell) != row_covers(
            sprite[row],
            left,
            (top + row) % 32,
            8,
            cell,
        )
    }
}

/// Drawing a sprite of any height flips exactly the cells of its mask.
pub proof fn lemma_draw_rows_mask(
    screen: Seq<bool>,
    sprite: Seq<u8>,
    left: int,
    top: int,
    rows: nat,
)
    ensures
        draw_rows(screen, sprite, left, top, rows) == Seq::new(
            screen.len(),
            |cell: int| screen[cell] != sprite_mask(sprite, left, top, rows, cell),
        ),
    decreases rows,
{
    let after = draw_rows(screen, sprite, left, top, rows);
    let cells = Seq::new(
        screen.len(),
        |cell: int| screen[cell] != sprite_mask(sprite, left, top, rows, cell),
    );
    if rows > 0 {
        lemma_draw_rows_mask(screen, sprite, left, top, (rows - 1) as nat);
    }
    assert(after =~= cells);
}

/// Drawing the same sprite at the same place twice in succession restores
/// the frame buffer, whatever the height of the sprite.
pub proof fn lemma_draw_rows_twice(
    screen: Seq<bool>,
    sprite: Seq<u8>,
    left: int,
    top: int,
    rows: nat,
)
    ensures
        draw_rows(
            draw_rows(screen, sprite, left, top, rows),
            sprite,
            left,
            top,
            rows,
        ) == screen,
{
    let once = draw_rows(screen, sprite, left, top, rows);
    let twice = draw_rows(once, sprite, left, top, rows);
    lemma_draw_rows_mask(screen, sprite, left, top, rows);
    lemma_draw_rows_mask(once, sprite, left, top, rows);
    assert(twice =~= screen);
}

/// Sprite coordinates wrap: in a sprite of at most 32 rows, the pixel in
/// column `col` of row `row` lies over the cell in column `(left + col) % 64`
/// of the display row `(top + row) % 32`, and over no other.
pub proof fn lemma_sprite_pixel_cell(
    sprite: Seq<u8>,
    left: int,
    top: int,
    rows: nat,
    row: int,
    col: u8,
)
    requires
        rows <= 32,
        0 <= row < rows,
        col < 8,
    ensures
        sprite_covers(sprite, left, top, rows, (left + col) % 64 + 64 * ((top + row) % 32))
            == sprite_bit(sprite[row], col),
        forall|cell: int|
            0 <= cell < 2048 && cell / 64 == (top + row) % 32 && sprite_col(left, cell) == col
                ==> cell == (left + col) % 64 + 64 * ((top + row) % 32),
{
    let cell = (left + col) % 64 + 64 * ((top + row) % 32);
    assert(cell / 64 == (top + row) % 32);
    assert(cell % 64 == (left + col) % 64);
    assert((cell / 64 - top) % 32 == row);
    assert(sprite_col(left, cell) == col);
}

} // verus!
