//! The display as an RGBA frame for the host to show.

use crate::display::{Display, Screen};
use vstd::prelude::*;

verus! {

/// Colour of a pixel that is on.
pub const ON: [u8; 4] = [0xFF, 0xFF, 0xFF, 0xFF];

/// Colour of a pixel that is off.
pub const OFF: [u8; 4] = [0xC1, 0x72, 0x22, 0xFF];

/// Bytes in a frame: four for each of the 64 x 32 pixels.
pub const FRAME_BYTES: usize = 8192;

/// The frame that shows a grid: the pixels row by row, each as the four
/// bytes of its colour.
pub open spec fn frame_of(pixels: Seq<Seq<bool>>) -> Seq<u8> {
    Seq::new(
        8192,
        |k: int|
            if pixels[(k / 4) / 64][(k / 4) % 64] {
                ON@[k % 4]
            } else {
                OFF@[k % 4]
            },
    )
}

/// Renders the display as a frame.
pub fn render_frame(display: &Display) -> (frame: Vec<u8>)
    ensures
        frame@ == frame_of(display@.pixels),
{
    proof {
        display.lemma_shape();
    }
    let frame_buffer = display.get_buffer();
    let mut frame: Vec<u8> = Vec::with_capacity(FRAME_BYTES);
    let mut y: usize = 0;
    while y < 32
        invariant
            y <= 32,
            display@.wf(),
            frame_buffer@.len() == 32,
            forall|row: int| 0 <= row < 32 ==> (#[trigger] frame_buffer@[row])@ == display@.pixels[row],
            frame@ == frame_of(display@.pixels).take(y * 256),
        decreases 32 - y,
    {
        let mut x: usize = 0;
        while x < 64
            invariant
                y < 32,
                x <= 64,
                display@.wf(),
                frame_buffer@.len() == 32,
                forall|row: int|
                    0 <= row < 32 ==> (#[trigger] frame_buffer@[row])@ == display@.pixels[row],
                frame@ == frame_of(display@.pixels).take(y * 256 + x * 4),
            decreases 64 - x,
        {
            let pixel = frame_buffer[y][x];
            let ghost idx: int = (y * 64 + x) * 4;
            let colour = if pixel {
                ON
            } else {
                OFF
            };
            frame.push(colour[0]);
            frame.push(colour[1]);
            frame.push(colour[2]);
            frame.push(colour[3]);
            x += 1;
            assert(frame@ =~= frame_of(display@.pixels).take(y * 256 + x * 4)) by {
                assert(frame_buffer@[y as int]@ == display@.pixels[y as int]);
                assert(idx / 4 == y * 64 + (x - 1));
                assert((idx + 1) / 4 == y * 64 + (x - 1));
                assert((idx + 2) / 4 == y * 64 + (x - 1));
                assert((idx + 3) / 4 == y * 64 + (x - 1));
                assert((y * 64 + (x - 1)) / 64 == y);
                assert((y * 64 + (x - 1)) % 64 == x - 1);
            }
        }
        y += 1;
    }
    assert(frame_of(display@.pixels).take(8192) =~= frame_of(display@.pixels));
    frame
}

/// Renders the display as a frame and marks the display as shown: the
/// dirty flag is cleared, the grid stays as it is.
pub fn consume_frame(display: &mut Display) -> (frame: Vec<u8>)
    ensures
        frame@ == frame_of(old(display)@.pixels),
        final(display)@ == (Screen { dirty: false, ..old(display)@ }),
{
    let frame = render_frame(display);
    display.set_needs_update(false);
    frame
}

} // verus!
