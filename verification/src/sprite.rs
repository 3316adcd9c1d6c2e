//! Sprites and what drawing one does to the frame buffer.

use vstd::prelude::*;

verus! {

/// The number of cells of the frame buffer: 64 columns by 32 rows.
pub const DISPLAY_SIZE: usize = 2048;

/// The cell that stands for every position past the end of the frame buffer.
pub open spec fn clamp_cell(position: int) -> int {
    if position >= DISPLAY_SIZE {
        DISPLAY_SIZE - 1
    } else {
        position
    }
}

/// Whether the pixel in column `col` (0 is leftmost) of a sprite row is set.
pub open spec fn sprite_bit(row: u8, col: u8) -> bool {
    row & (0x80u8 >> col) != 0
}

/// A cell after a sprite pixel has been drawn onto it.
pub open spec fn toggled(pixel: u8) -> u8 {
    pixel ^ 1
}

/// A sprite placed on the display: its rows, top row first, and the
/// coordinates of its top left corner.
pub struct Sprite {
    pub rows: Seq<u8>,
    pub x: u8,
    pub y: u8,
}

impl Sprite {
    /// The number of pixel positions of the sprite, set or not.
    pub open spec fn area(self) -> nat {
        8 * self.rows.len()
    }

    /// Whether pixel `k` of the sprite, counted row by row, is set.
    pub open spec fn lit(self, k: int) -> bool {
        sprite_bit(self.rows[k / 8], (k % 8) as u8)
    }

    /// The frame-buffer cell onto which pixel `k` of the sprite falls.
    pub open spec fn cell(self, k: int) -> int {
        clamp_cell(self.x + k % 8 + (self.y + k / 8) * 64)
    }

    /// The frame buffer after the first `k` pixels of the sprite were drawn
    /// onto `display`, and whether one of them found its cell equal to 1.
    pub open spec fn draw_prefix(self, display: Seq<u8>, k: nat) -> (Seq<u8>, bool)
        decreases k,
    {
        if k == 0 {
            (display, false)
        } else {
            let (before, collided) = self.draw_prefix(display, (k - 1) as nat);
            if self.lit(k - 1) {
                let c = self.cell(k - 1);
                (before.update(c, toggled(before[c])), collided || before[c] == 1)
            } else {
                (before, collided)
            }
        }
    }

    /// The frame buffer after the whole sprite was drawn onto `display`.
    pub open spec fn drawn(self, display: Seq<u8>) -> Seq<u8> {
        self.draw_prefix(display, self.area()).0
    }

    /// Whether drawing the sprite onto `display` turns a set pixel off.
    pub open spec fn collides(self, display: Seq<u8>) -> bool {
        self.draw_prefix(display, self.area()).1
    }

    /// How many of the first `k` pixels of the sprite are set and fall on `cell`.
    pub open spec fn hits(self, cell: int, k: nat) -> nat
        decreases k,
    {
        if k == 0 {
            0
        } else {
            let rest = self.hits(cell, (k - 1) as nat);
            if self.lit(k - 1) && self.cell(k - 1) == cell {
                rest + 1
            } else {
                rest
            }
        }
    }
}

/// Toggling a pixel twice restores it, and toggling never leaves it as it was.
pub proof fn lemma_toggled(pixel: u8)
    ensures
        toggled(toggled(pixel)) == pixel,
        toggled(pixel) != pixel,
        pixel == 0 ==> toggled(pixel) == 1,
        pixel == 1 ==> toggled(pixel) == 0,
{
    assert((pixel ^ 1) ^ 1 == pixel) by (bit_vector);
    assert(pixel ^ 1 != pixel) by (bit_vector);
    assert(0u8 ^ 1 == 1) by (bit_vector);
    assert(1u8 ^ 1 == 0) by (bit_vector);
}

/// Every pixel of a sprite falls on a cell of the frame buffer.
pub proof fn lemma_cell_in_range(sprite: Sprite, k: int)
    requires
        0 <= k,
    ensures
        0 <= sprite.cell(k) < DISPLAY_SIZE,
{
}

/// Drawing keeps the size of the frame buffer, and each cell ends as it
/// began if an even number of set pixels fell on it, toggled otherwise.
pub proof fn lemma_draw_prefix_cells(sprite: Sprite, display: Seq<u8>, k: nat)
    requires
        display.len() == DISPLAY_SIZE,
    ensures
        sprite.draw_prefix(display, k).0.len() == DISPLAY_SIZE,
        forall|c: int|
            0 <= c < DISPLAY_SIZE ==> #[trigger] sprite.draw_prefix(display, k).0[c] == (if sprite.hits(
                c,
                k,
            ) % 2 == 1 {
                toggled(display[c])
            } else {
                display[c]
            }),
    decreases k,
{
    if k > 0 {
        let j = (k - 1) as nat;
        lemma_draw_prefix_cells(sprite, display, j);
        lemma_cell_in_range(sprite, j as int);
        assert forall|c: int| 0 <= c < DISPLAY_SIZE implies #[trigger] sprite.draw_prefix(
            display,
            k,
        ).0[c] == (if sprite.hits(c, k) % 2 == 1 {
            toggled(display[c])
        } else {
            display[c]
        }) by {
            lemma_toggled(display[c]);
        }
    }
}

/// A set pixel that falls on a cell equal to 1 is reported as a collision.
pub proof fn lemma_hit_on_set_cell_collides(sprite: Sprite, display: Seq<u8>, k: nat, c: int)
    requires
        display.len() == DISPLAY_SIZE,
        0 <= c < DISPLAY_SIZE,
        display[c] == 1,
        sprite.hits(c, k) >= 1,
    ensures
        sprite.draw_prefix(display, k).1,
    decreases k,
{
    if k > 0 {
        let j = (k - 1) as nat;
        if sprite.hits(c, j) >= 1 {
            lemma_hit_on_set_cell_collides(sprite, display, j, c);
        } else {
            lemma_draw_prefix_cells(sprite, display, j);
        }
    }
}

/// Drawing a sprite twice onto a frame buffer restores the frame buffer.
pub proof fn lemma_drawn_twice(sprite: Sprite, display: Seq<u8>)
    requires
        display.len() == DISPLAY_SIZE,
    ensures
        sprite.drawn(sprite.drawn(display)) == display,
{
    let once = sprite.drawn(display);
    lemma_draw_prefix_cells(sprite, display, sprite.area());
    lemma_draw_prefix_cells(sprite, once, sprite.area());
    assert forall|c: int| 0 <= c < DISPLAY_SIZE implies sprite.drawn(once)[c] == display[c] by {
        lemma_toggled(display[c]);
    }
}

/// Where the first drawing of a sprite turned a cell from 0 to 1, a second
/// drawing of it collides.
pub proof fn lemma_second_draw_collides(sprite: Sprite, display: Seq<u8>, c: int)
    requires
        display.len() == DISPLAY_SIZE,
        0 <= c < DISPLAY_SIZE,
        display[c] == 0,
        sprite.drawn(display)[c] == 1,
    ensures
        sprite.collides(sprite.drawn(display)),
{
    let once = sprite.drawn(display);
    lemma_draw_prefix_cells(sprite, display, sprite.area());
    lemma_hit_on_set_cell_collides(sprite, once, sprite.area(), c);
}

} // verus!
