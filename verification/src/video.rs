//! The screen side of a front end: the frame buffer as an image.

use vstd::prelude::*;
use crate::sprite::DISPLAY_SIZE;

verus! {

/// The colour of a pixel that is on, as `0xRRGGBB`.
pub const COLOUR_ACTIVE: u32 = 0x729FCF;

/// The colour of a pixel that is off, as `0xRRGGBB`.
pub const COLOUR_INACTIVE: u32 = 0x001A21;

/// The number of screen pixels to a side of one pixel of the machine.
pub const RENDER_SCALE: u32 = 10;

/// The number of bytes of an image of the frame buffer: three to a pixel.
pub const FRAME_BYTES: usize = 6144;

/// The colour in which a cell of the frame buffer is shown.
pub open spec fn colour_of(pixel: u8) -> u32 {
    if pixel != 0 {
        COLOUR_ACTIVE
    } else {
        COLOUR_INACTIVE
    }
}

/// Channel `c` of a colour: 0 is red, 1 green, 2 blue.
pub open spec fn channel(colour: u32, c: int) -> u8 {
    if c == 0 {
        ((colour / 0x1_0000) % 256) as u8
    } else if c == 1 {
        ((colour / 0x100) % 256) as u8
    } else {
        (colour % 256) as u8
    }
}

/// The frame buffer as an image of 64 by 32 pixels, three bytes to a
/// pixel: red, green, blue.
pub fn frame_rgb(image: &[u8; 2048]) -> (frame: [u8; 6144])
    ensures
        forall|j: int|
            0 <= j < FRAME_BYTES ==> #[trigger] frame@[j] == channel(colour_of(image@[j / 3]), j % 3),
{
    let mut frame: [u8; 6144] = [0; 6144];
    let mut i: usize = 0;
    while i < DISPLAY_SIZE
        invariant
            i <= DISPLAY_SIZE,
            forall|j: int|
                0 <= j < 3 * i ==> #[trigger] frame@[j] == channel(
                    colour_of(image@[j / 3]),
                    j % 3,
                ),
        decreases DISPLAY_SIZE - i,
    {
        let colour: u32 = if image[i] != 0 {
            COLOUR_ACTIVE
        } else {
            COLOUR_INACTIVE
        };
        assert((colour & 0xFF_00_00) >> 16 == (colour / 0x1_0000) % 256) by (bit_vector);
        assert((colour & 0x00_FF_00) >> 8 == (colour / 0x100) % 256) by (bit_vector);
        assert(colour & 0x00_00_FF == colour % 256) by (bit_vector);
        frame[(i * 3) + 0] = ((colour & 0xFF_00_00) >> 16) as u8;
        frame[(i * 3) + 1] = ((colour & 0x00_FF_00) >> 8) as u8;
        frame[(i * 3) + 2] = (colour & 0x00_00_FF) as u8;
        i += 1;
    }
    frame
}

} // verus!
