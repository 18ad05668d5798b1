//! The tray icon's picture: a framed window split in four, the lower right
//! quarter highlighted.
use vstd::prelude::*;

verus! {

/// The icon is `ICON_SIZE` pixels wide and tall.
pub const ICON_SIZE: u32 = 32;

/// The colour of the pixel in column `x` and row `y`, as red, green, blue and
/// alpha: a dark frame four pixels wide, a light cross four pixels wide through
/// the middle, a blue lower-right quarter and grey elsewhere.
pub open spec fn pixel_color(x: int, y: int) -> (u8, u8, u8, u8) {
    let in_frame = !(4 <= x <= 27) || !(4 <= y <= 27);
    let in_split = (14 <= x <= 17) || (14 <= y <= 17);
    let accent = x > 17 && y > 17;
    if in_frame {
        (22, 25, 32, 255)
    } else if in_split {
        (245, 247, 250, 255)
    } else if accent {
        (43, 132, 210, 255)
    } else {
        (72, 80, 94, 255)
    }
}

/// Channel `c` (0 red, 1 green, 2 blue, 3 alpha) of a colour.
pub open spec fn channel(color: (u8, u8, u8, u8), c: int) -> u8 {
    if c == 0 {
        color.0
    } else if c == 1 {
        color.1
    } else if c == 2 {
        color.2
    } else {
        color.3
    }
}

/// The icon's pixels, row by row, four bytes (red, green, blue, alpha) each.
pub fn icon_rgba() -> (rgba: Vec<u8>)
    ensures
        rgba@.len() == 4 * ICON_SIZE * ICON_SIZE,
        forall|p: int, c: int|
            0 <= p < ICON_SIZE * ICON_SIZE && 0 <= c < 4 ==> #[trigger] rgba@[4 * p + c]
                == channel(pixel_color(p % ICON_SIZE as int, p / ICON_SIZE as int), c),
{
    let mut rgba: Vec<u8> = Vec::new();
    let mut p: u32 = 0;
    while p < ICON_SIZE * ICON_SIZE
        invariant
            p <= ICON_SIZE * ICON_SIZE,
            rgba@.len() == 4 * p,
            forall|q: int, c: int|
                0 <= q < p && 0 <= c < 4 ==> #[trigger] rgba@[4 * q + c] == channel(
                    pixel_color(q % ICON_SIZE as int, q / ICON_SIZE as int),
                    c,
                ),
        decreases ICON_SIZE * ICON_SIZE - p,
    {
        let x = p % ICON_SIZE;
        let y = p / ICON_SIZE;
        let in_frame = !(4 <= x && x <= 27) || !(4 <= y && y <= 27);
        let in_split = (14 <= x && x <= 17) || (14 <= y && y <= 17);
        let accent = x > 17 && y > 17;
        let (r, g, b, a): (u8, u8, u8, u8) = if in_frame {
            (22, 25, 32, 255)
        } else if in_split {
            (245, 247, 250, 255)
        } else if accent {
            (43, 132, 210, 255)
        } else {
            (72, 80, 94, 255)
        };
        assert((r, g, b, a) == pixel_color(p as int % ICON_SIZE as int, p as int / ICON_SIZE as int));
        let ghost before = rgba@;
        rgba.push(r);
        rgba.push(g);
        rgba.push(b);
        rgba.push(a);
        assert forall|q: int, c: int|
            0 <= q < p + 1 && 0 <= c < 4 implies #[trigger] rgba@[4 * q + c] == channel(
                pixel_color(q % ICON_SIZE as int, q / ICON_SIZE as int),
                c,
            ) by {
            if q < p {
                assert(rgba@[4 * q + c] == before[4 * q + c]);
            }
        }
        p = p + 1;
    }
    rgba
}

} // verus!
