//! Drawing: rounded rectangles, text in a bitmap font, and the grid of weeks as a whole.

use crate::canvas::Canvas;
use crate::config::{Palette, Theme, ThemeColors};
use crate::modes::{Week, WeekGrid, WeekStatus};
use vstd::arithmetic::div_mod::{
    lemma_div_by_multiple, lemma_div_is_ordered, lemma_div_nonincreasing, lemma_div_pos_is_pos,
};
use vstd::prelude::*;
use vstd::string::StrSliceExecFns;

verus! {

/// Whether the point (`x`, `y`) lies in the disc of radius `r` around (`cx`, `cy`).
pub open spec fn in_circle(x: int, y: int, cx: int, cy: int, r: int) -> bool {
    (x - cx) * (x - cx) + (y - cy) * (y - cy) <= r * r
}

/// The corner radius that a box of `width` by `height` allows: at most half of either
/// side.
pub open spec fn clamped_radius(width: int, height: int, radius: int) -> int {
    let by_width = if radius <= width / 2 {
        radius
    } else {
        width / 2
    };
    if by_width <= height / 2 {
        by_width
    } else {
        height / 2
    }
}

/// Whether the point (`dx`, `dy`) of a box of `width` by `height` lies in one of the four
/// corner squares of side `r`.
pub open spec fn in_corner_square(dx: int, dy: int, width: int, height: int, r: int) -> bool {
    (dx < r || dx >= width - r) && (dy < r || dy >= height - r)
}

/// Whether the point (`dx`, `dy`), counted from the top left of a box of `width` by
/// `height`, lies in the rounded rectangle that fills the box with corners of radius `r`:
/// in a corner square, the points within `r` of the centre of that corner's circle;
/// elsewhere in the box, every point.
pub open spec fn in_rounded_rect(dx: int, dy: int, width: int, height: int, r: int) -> bool {
    &&& 0 <= dx < width
    &&& 0 <= dy < height
    &&& if dx < r && dy < r {
        in_circle(dx, dy, r, r, r)
    } else if dx >= width - r && dy < r {
        in_circle(dx, dy, width - r - 1, r, r)
    } else if dx < r && dy >= height - r {
        in_circle(dx, dy, r, height - r - 1, r)
    } else if dx >= width - r && dy >= height - r {
        in_circle(dx, dy, width - r - 1, height - r - 1, r)
    } else {
        true
    }
}

/// Whether the point (`dx`, `dy`) of a box of `width` by `height` lies within `thickness`
/// of an edge of the box.
pub open spec fn on_edge_band(dx: int, dy: int, width: int, height: int, thickness: int) -> bool {
    dx < thickness || dx >= width - thickness || dy < thickness || dy >= height - thickness
}

/// A rounded rectangle to paint: the box, the corner radius as given, and the thickness
/// of the outline where only an outline is painted.
pub struct Shape {
    pub x: int,
    pub y: int,
    pub width: int,
    pub height: int,
    pub radius: int,
    pub outline: Option<int>,
}

impl Shape {
    /// Whether the shape covers the pixel in column `px` of row `py`.
    pub open spec fn covers(&self, px: int, py: int) -> bool {
        let r = clamped_radius(self.width, self.height, self.radius);
        &&& in_rounded_rect(px - self.x, py - self.y, self.width, self.height, r)
        &&& match self.outline {
            Some(thickness) => on_edge_band(
                px - self.x,
                py - self.y,
                self.width,
                self.height,
                thickness,
            ),
            None => true,
        }
    }
}

/// Whether `after` is `before` with the shape painted in `color`: the pixels that the
/// shape covers have the colour, and all others are as they were.
pub open spec fn is_painted(after: Canvas, before: Canvas, shape: Shape, color: [u8; 4]) -> bool {
    &&& after.wf()
    &&& after.same_size(&before)
    &&& forall|px: int, py: int|
        before.holds(px, py) ==> #[trigger] after.pixel_at(px, py) == (if shape.covers(px, py) {
            color
        } else {
            before.pixel_at(px, py)
        })
}

/// Whether the point (`x`, `y`) lies in the disc of radius `r` around (`cx`, `cy`).
pub fn is_in_circle(x: u32, y: u32, cx: u32, cy: u32, r: u32) -> (inside: bool)
    ensures
        inside == in_circle(x as int, y as int, cx as int, cy as int, r as int),
{
    within(x as i64, y as i64, cx as i64, cy as i64, r as i64)
}

/// The circle test on wider numbers.
fn within(x: i64, y: i64, cx: i64, cy: i64, r: i64) -> (inside: bool)
    requires
        -0x1_0000_0000_0000 <= x <= 0x1_0000_0000_0000,
        -0x1_0000_0000_0000 <= y <= 0x1_0000_0000_0000,
        -0x1_0000_0000_0000 <= cx <= 0x1_0000_0000_0000,
        -0x1_0000_0000_0000 <= cy <= 0x1_0000_0000_0000,
        0 <= r <= 0x1_0000_0000_0000,
    ensures
        inside == in_circle(x as int, y as int, cx as int, cy as int, r as int),
{
    let dx: i128 = (x - cx) as i128;
    let dy: i128 = (y - cy) as i128;
    let rr: i128 = r as i128;
    assert(dx * dx <= 0x2_0000_0000_0000 * 0x2_0000_0000_0000 && dx * dx >= 0)
        by (nonlinear_arith)
        requires
            -0x2_0000_0000_0000 <= dx <= 0x2_0000_0000_0000,
    ;
    assert(dy * dy <= 0x2_0000_0000_0000 * 0x2_0000_0000_0000 && dy * dy >= 0)
        by (nonlinear_arith)
        requires
            -0x2_0000_0000_0000 <= dy <= 0x2_0000_0000_0000,
    ;
    assert(rr * rr <= 0x2_0000_0000_0000 * 0x2_0000_0000_0000 && rr * rr >= 0)
        by (nonlinear_arith)
        requires
            0 <= rr <= 0x2_0000_0000_0000,
    ;
    dx * dx + dy * dy <= rr * rr
}

/// The largest coordinate and size that the painter takes.
pub const REACH: i64 = 0x1_0000_0000_0000;

/// Whether the point (`dx`, `dy`) of the box lies in the shape that is painted.
fn covered(dx: i64, dy: i64, width: i64, height: i64, r: i64, outline: Option<i64>) -> (inside:
    bool)
    requires
        0 <= dx < width <= REACH,
        0 <= dy < height <= REACH,
        0 <= r <= REACH,
        outline matches Some(t) ==> 0 <= t <= REACH,
    ensures
        inside == (in_rounded_rect(dx as int, dy as int, width as int, height as int, r as int)
            && match outline {
            Some(t) => on_edge_band(dx as int, dy as int, width as int, height as int, t as int),
            None => true,
        }),
{
    let on_edge = match outline {
        Some(t) => dx < t || dx >= width - t || dy < t || dy >= height - t,
        None => true,
    };
    if !on_edge {
        return false;
    }
    if dx < r && dy < r {
        within(dx, dy, r, r, r)
    } else if dx >= width - r && dy < r {
        within(dx, dy, width - r - 1, r, r)
    } else if dx < r && dy >= height - r {
        within(dx, dy, r, height - r - 1, r)
    } else if dx >= width - r && dy >= height - r {
        within(dx, dy, width - r - 1, height - r - 1, r)
    } else {
        true
    }
}

/// The smaller of two numbers.
fn least(a: i64, b: i64) -> (m: i64)
    ensures
        m == if a <= b {
            a
        } else {
            b
        },
{
    if a <= b {
        a
    } else {
        b
    }
}

/// Paints a rounded rectangle, or its outline, in `color`. What lies off the canvas is
/// left out.
fn paint(
    canvas: &mut Canvas,
    x: i64,
    y: i64,
    width: i64,
    height: i64,
    radius: i64,
    outline: Option<i64>,
    color: [u8; 4],
)
    requires
        old(canvas).wf(),
        0 <= x <= REACH,
        0 <= y <= REACH,
        0 <= width <= REACH,
        0 <= height <= REACH,
        0 <= radius <= REACH,
        outline matches Some(t) ==> 0 <= t <= REACH,
    ensures
        is_painted(
            *final(canvas),
            *old(canvas),
            (Shape {
                x: x as int,
                y: y as int,
                width: width as int,
                height: height as int,
                radius: radius as int,
                outline: match outline {
                    Some(t) => Some(t as int),
                    None => None,
                },
            }),
            color,
        ),
{
    let ghost before = *canvas;
    let ghost shape = Shape {
        x: x as int,
        y: y as int,
        width: width as int,
        height: height as int,
        radius: radius as int,
        outline: match outline {
            Some(t) => Some(t as int),
            None => None,
        },
    };
    let r = least(least(radius, width / 2), height / 2);
    let right = least(x + width, canvas.width() as i64);
    let bottom = least(y + height, canvas.height() as i64);
    let mut py: i64 = y;
    while py < bottom
        invariant
            canvas.wf(),
            canvas.same_size(&before),
            before.wf(),
            0 <= x <= REACH,
            0 <= y <= py,
            0 <= width <= REACH,
            0 <= height <= REACH,
            0 <= r <= REACH,
            outline matches Some(t) ==> 0 <= t <= REACH,
            r == clamped_radius(width as int, height as int, radius as int),
            right == if x + width <= before.width() {
                x + width
            } else {
                before.width() as int
            },
            bottom == if y + height <= before.height() {
                y + height
            } else {
                before.height() as int
            },
            shape.x == x && shape.y == y && shape.width == width && shape.height == height
                && shape.radius == radius,
            shape.outline == match outline {
                Some(t) => Some(t as int),
                None => None,
            },
            forall|qx: int, qy: int|
                before.holds(qx, qy) ==> #[trigger] canvas.pixel_at(qx, qy) == (if shape.covers(
                    qx,
                    qy,
                ) && qy < py {
                    color
                } else {
                    before.pixel_at(qx, qy)
                }),
        decreases bottom - py,
    {
        let mut px: i64 = x;
        while px < right
            invariant
                canvas.wf(),
                canvas.same_size(&before),
                before.wf(),
                0 <= x <= px,
                x <= REACH,
                0 <= y <= py < bottom,
                0 <= width <= REACH,
                0 <= height <= REACH,
                0 <= r <= REACH,
                outline matches Some(t) ==> 0 <= t <= REACH,
                r == clamped_radius(width as int, height as int, radius as int),
                right == if x + width <= before.width() {
                    x + width
                } else {
                    before.width() as int
                },
                bottom == if y + height <= before.height() {
                    y + height
                } else {
                    before.height() as int
                },
                shape.x == x && shape.y == y && shape.width == width && shape.height == height
                    && shape.radius == radius,
                shape.outline == match outline {
                    Some(t) => Some(t as int),
                    None => None,
                },
                forall|qx: int, qy: int|
                    before.holds(qx, qy) ==> #[trigger] canvas.pixel_at(qx, qy) == (if shape.covers(
                        qx,
                        qy,
                    ) && (qy < py || (qy == py && qx < px)) {
                        color
                    } else {
                        before.pixel_at(qx, qy)
                    }),
            decreases right - px,
        {
            if covered(px - x, py - y, width, height, r, outline) {
                canvas.set_pixel(px as u32, py as u32, color);
            }
            px = px + 1;
        }
        py = py + 1;
    }
}

/// Fills a rounded rectangle: the box of `width` by `height` with its top left at (`x`,
/// `y`), its corners rounded with `radius`, which is cut down to half the shorter side.
/// Pixels off the canvas are left out.
pub fn draw_rounded_rect(
    canvas: &mut Canvas,
    x: u32,
    y: u32,
    width: u32,
    height: u32,
    radius: u32,
    color: [u8; 4],
)
    requires
        old(canvas).wf(),
    ensures
        is_painted(
            *final(canvas),
            *old(canvas),
            (Shape {
                x: x as int,
                y: y as int,
                width: width as int,
                height: height as int,
                radius: radius as int,
                outline: None,
            }),
            color,
        ),
{
    paint(canvas, x as i64, y as i64, width as i64, height as i64, radius as i64, None, color);
}

/// Draws the outline of a rounded rectangle: of the pixels that [`draw_rounded_rect`]
/// fills, those within `thickness` of an edge of the box.
pub fn draw_rounded_rect_outline(
    canvas: &mut Canvas,
    x: u32,
    y: u32,
    width: u32,
    height: u32,
    radius: u32,
    color: [u8; 4],
    thickness: u32,
)
    requires
        old(canvas).wf(),
    ensures
        is_painted(
            *final(canvas),
            *old(canvas),
            (Shape {
                x: x as int,
                y: y as int,
                width: width as int,
                height: height as int,
                radius: radius as int,
                outline: Some(thickness as int),
            }),
            color,
        ),
{
    paint(
        canvas,
        x as i64,
        y as i64,
        width as i64,
        height as i64,
        radius as i64,
        Some(thickness as i64),
        color,
    );
}

/// A point of a box that lies in none of the four corner squares is in the rounded
/// rectangle, whatever the radius.
pub proof fn lemma_cross_is_inside(dx: int, dy: int, width: int, height: int, radius: int)
    requires
        0 <= dx < width,
        0 <= dy < height,
        !in_corner_square(
            dx,
            dy,
            width,
            height,
            clamped_radius(width, height, radius),
        ),
    ensures
        in_rounded_rect(dx, dy, width, height, clamped_radius(width, height, radius)),
{
}

/// The centre of a box is in the rounded rectangle, whatever the radius, where the box is
/// at least three pixels wide and high.
pub proof fn lemma_center_is_inside(width: int, height: int, radius: int)
    requires
        3 <= width,
        3 <= height,
        0 <= radius,
    ensures
        in_rounded_rect(
            width / 2,
            height / 2,
            width,
            height,
            clamped_radius(width, height, radius),
        ),
{
    let r = clamped_radius(width, height, radius);
    let dx = width / 2;
    let dy = height / 2;
    if in_corner_square(dx, dy, width, height, r) {
        assert(in_rounded_rect(dx, dy, width, height, r)) by (nonlinear_arith)
            requires
                r == clamped_radius(width, height, radius),
                dx == width / 2,
                dy == height / 2,
                3 <= width,
                3 <= height,
                0 <= radius,
                in_corner_square(dx, dy, width, height, r),
        ;
    }
}

/// The seven rows of a glyph, from the top, with an empty eighth row under them. Each row
/// has six pixels: its leftmost pixel is the bit of value 32.
pub open spec fn glyph_rows(a: u8, b: u8, c: u8, d: u8, e: u8, f: u8, g: u8) -> Seq<u8> {
    seq![a, b, c, d, e, f, g, 0u8]
}

/// The glyph of a character: eight rows of six pixels. Digits, letters of either case,
/// the hyphen, the parentheses and the percent sign have a glyph of their own; the space
/// and every other character have the blank one.
pub open spec fn glyph(c: char) -> Seq<u8> {
    if c == '0' {
        glyph_rows(0b011110, 0b110011, 0b110011, 0b110011, 0b110011, 0b110011, 0b011110)
    } else if c == '1' {
        glyph_rows(0b001100, 0b011100, 0b001100, 0b001100, 0b001100, 0b001100, 0b111111)
    } else if c == '2' {
        glyph_rows(0b011110, 0b110011, 0b000011, 0b000110, 0b001100, 0b011000, 0b111111)
    } else if c == '3' {
        glyph_rows(0b011110, 0b110011, 0b000011, 0b001110, 0b000011, 0b110011, 0b011110)
    } else if c == '4' {
        glyph_rows(0b000110, 0b001110, 0b011110, 0b110110, 0b111111, 0b000110, 0b000110)
    } else if c == '5' {
        glyph_rows(0b111111, 0b110000, 0b111110, 0b000011, 0b000011, 0b110011, 0b011110)
    } else if c == '6' {
        glyph_rows(0b011110, 0b110000, 0b111110, 0b110011, 0b110011, 0b110011, 0b011110)
    } else if c == '7' {
        glyph_rows(0b111111, 0b000011, 0b000110, 0b001100, 0b011000, 0b011000, 0b011000)
    } else if c == '8' {
        glyph_rows(0b011110, 0b110011, 0b110011, 0b011110, 0b110011, 0b110011, 0b011110)
    } else if c == '9' {
        glyph_rows(0b011110, 0b110011, 0b110011, 0b011111, 0b000011, 0b000011, 0b011110)
    } else if c == 'A' || c == 'a' {
        glyph_rows(0b001100, 0b011110, 0b110011, 0b110011, 0b111111, 0b110011, 0b110011)
    } else if c == 'B' || c == 'b' {
        glyph_rows(0b111110, 0b110011, 0b110011, 0b111110, 0b110011, 0b110011, 0b111110)
    } else if c == 'C' || c == 'c' {
        glyph_rows(0b011110, 0b110011, 0b110000, 0b110000, 0b110000, 0b110011, 0b011110)
    } else if c == 'D' || c == 'd' {
        glyph_rows(0b111100, 0b110110, 0b110011, 0b110011, 0b110011, 0b110110, 0b111100)
    } else if c == 'E' || c == 'e' {
        glyph_rows(0b111111, 0b110000, 0b110000, 0b111110, 0b110000, 0b110000, 0b111111)
    } else if c == 'F' || c == 'f' {
        glyph_rows(0b111111, 0b110000, 0b110000, 0b111110, 0b110000, 0b110000, 0b110000)
    } else if c == 'G' || c == 'g' {
        glyph_rows(0b011110, 0b110011, 0b110000, 0b110111, 0b110011, 0b110011, 0b011110)
    } else if c == 'H' || c == 'h' {
        glyph_rows(0b110011, 0b110011, 0b110011, 0b111111, 0b110011, 0b110011, 0b110011)
    } else if c == 'I' || c == 'i' {
        glyph_rows(0b111111, 0b001100, 0b001100, 0b001100, 0b001100, 0b001100, 0b111111)
    } else if c == 'J' || c == 'j' {
        glyph_rows(0b000111, 0b000011, 0b000011, 0b000011, 0b110011, 0b110011, 0b011110)
    } else if c == 'K' || c == 'k' {
        glyph_rows(0b110011, 0b110110, 0b111100, 0b111000, 0b111100, 0b110110, 0b110011)
    } else if c == 'L' || c == 'l' {
        glyph_rows(0b110000, 0b110000, 0b110000, 0b110000, 0b110000, 0b110000, 0b111111)
    } else if c == 'M' || c == 'm' {
        glyph_rows(0b110011, 0b111111, 0b111111, 0b110011, 0b110011, 0b110011, 0b110011)
    } else if c == 'N' || c == 'n' {
        glyph_rows(0b110011, 0b111011, 0b111111, 0b110111, 0b110011, 0b110011, 0b110011)
    } else if c == 'O' || c == 'o' {
        glyph_rows(0b011110, 0b110011, 0b110011, 0b110011, 0b110011, 0b110011, 0b011110)
    } else if c == 'P' || c == 'p' {
        glyph_rows(0b111110, 0b110011, 0b110011, 0b111110, 0b110000, 0b110000, 0b110000)
    } else if c == 'Q' || c == 'q' {
        glyph_rows(0b011110, 0b110011, 0b110011, 0b110011, 0b110111, 0b011110, 0b000011)
    } else if c == 'R' || c == 'r' {
        glyph_rows(0b111110, 0b110011, 0b110011, 0b111110, 0b111100, 0b110110, 0b110011)
    } else if c == 'S' || c == 's' {
        glyph_rows(0b011110, 0b110011, 0b110000, 0b011110, 0b000011, 0b110011, 0b011110)
    } else if c == 'T' || c == 't' {
        glyph_rows(0b111111, 0b001100, 0b001100, 0b001100, 0b001100, 0b001100, 0b001100)
    } else if c == 'U' || c == 'u' {
        glyph_rows(0b110011, 0b110011, 0b110011, 0b110011, 0b110011, 0b110011, 0b011110)
    } else if c == 'V' || c == 'v' {
        glyph_rows(0b110011, 0b110011, 0b110011, 0b110011, 0b011110, 0b001100, 0b001100)
    } else if c == 'W' || c == 'w' {
        glyph_rows(0b110011, 0b110011, 0b110011, 0b110011, 0b111111, 0b111111, 0b110011)
    } else if c == 'X' || c == 'x' {
        glyph_rows(0b110011, 0b110011, 0b011110, 0b001100, 0b011110, 0b110011, 0b110011)
    } else if c == 'Y' || c == 'y' {
        glyph_rows(0b110011, 0b110011, 0b011110, 0b001100, 0b001100, 0b001100, 0b001100)
    } else if c == 'Z' || c == 'z' {
        glyph_rows(0b111111, 0b000011, 0b000110, 0b001100, 0b011000, 0b110000, 0b111111)
    } else if c == '-' {
        glyph_rows(0b000000, 0b000000, 0b000000, 0b111111, 0b000000, 0b000000, 0b000000)
    } else if c == '(' {
        glyph_rows(0b000110, 0b001100, 0b011000, 0b011000, 0b011000, 0b001100, 0b000110)
    } else if c == ')' {
        glyph_rows(0b110000, 0b011000, 0b001100, 0b001100, 0b001100, 0b011000, 0b110000)
    } else if c == '%' {
        glyph_rows(0b110001, 0b110011, 0b000110, 0b001100, 0b011000, 0b110011, 0b100011)
    } else {
        glyph_rows(0, 0, 0, 0, 0, 0, 0)
    }
}

/// The seven rows of a glyph, with an empty eighth row under them.
fn rows(a: u8, b: u8, c: u8, d: u8, e: u8, f: u8, g: u8) -> (glyph: [u8; 8])
    ensures
        glyph@ == glyph_rows(a, b, c, d, e, f, g),
{
    let glyph: [u8; 8] = [a, b, c, d, e, f, g, 0];
    assert(glyph@ =~= glyph_rows(a, b, c, d, e, f, g));
    glyph
}

/// The glyph of a character: eight rows of six pixels.
pub fn get_char_bitmap(c: char) -> (bitmap: [u8; 8])
    ensures
        bitmap@ == glyph(c),
{
    match c {
        '0' => rows(0b011110, 0b110011, 0b110011, 0b110011, 0b110011, 0b110011, 0b011110),
        '1' => rows(0b001100, 0b011100, 0b001100, 0b001100, 0b001100, 0b001100, 0b111111),
        '2' => rows(0b011110, 0b110011, 0b000011, 0b000110, 0b001100, 0b011000, 0b111111),
        '3' => rows(0b011110, 0b110011, 0b000011, 0b001110, 0b000011, 0b110011, 0b011110),
        '4' => rows(0b000110, 0b001110, 0b011110, 0b110110, 0b111111, 0b000110, 0b000110),
        '5' => rows(0b111111, 0b110000, 0b111110, 0b000011, 0b000011, 0b110011, 0b011110),
        '6' => rows(0b011110, 0b110000, 0b111110, 0b110011, 0b110011, 0b110011, 0b011110),
        '7' => rows(0b111111, 0b000011, 0b000110, 0b001100, 0b011000, 0b011000, 0b011000),
        '8' => rows(0b011110, 0b110011, 0b110011, 0b011110, 0b110011, 0b110011, 0b011110),
        '9' => rows(0b011110, 0b110011, 0b110011, 0b011111, 0b000011, 0b000011, 0b011110),
        'A' | 'a' => rows(0b001100, 0b011110, 0b110011, 0b110011, 0b111111, 0b110011, 0b110011),
        'B' | 'b' => rows(0b111110, 0b110011, 0b110011, 0b111110, 0b110011, 0b110011, 0b111110),
        'C' | 'c' => rows(0b011110, 0b110011, 0b110000, 0b110000, 0b110000, 0b110011, 0b011110),
        'D' | 'd' => rows(0b111100, 0b110110, 0b110011, 0b110011, 0b110011, 0b110110, 0b111100),
        'E' | 'e' => rows(0b111111, 0b110000, 0b110000, 0b111110, 0b110000, 0b110000, 0b111111),
        'F' | 'f' => rows(0b111111, 0b110000, 0b110000, 0b111110, 0b110000, 0b110000, 0b110000),
        'G' | 'g' => rows(0b011110, 0b110011, 0b110000, 0b110111, 0b110011, 0b110011, 0b011110),
        'H' | 'h' => rows(0b110011, 0b110011, 0b110011, 0b111111, 0b110011, 0b110011, 0b110011),
        'I' | 'i' => rows(0b111111, 0b001100, 0b001100, 0b001100, 0b001100, 0b001100, 0b111111),
        'J' | 'j' => rows(0b000111, 0b000011, 0b000011, 0b000011, 0b110011, 0b110011, 0b011110),
        'K' | 'k' => rows(0b110011, 0b110110, 0b111100, 0b111000, 0b111100, 0b110110, 0b110011),
        'L' | 'l' => rows(0b110000, 0b110000, 0b110000, 0b110000, 0b110000, 0b110000, 0b111111),
        'M' | 'm' => rows(0b110011, 0b111111, 0b111111, 0b110011, 0b110011, 0b110011, 0b110011),
        'N' | 'n' => rows(0b110011, 0b111011, 0b111111, 0b110111, 0b110011, 0b110011, 0b110011),
        'O' | 'o' => rows(0b011110, 0b110011, 0b110011, 0b110011, 0b110011, 0b110011, 0b011110),
        'P' | 'p' => rows(0b111110, 0b110011, 0b110011, 0b111110, 0b110000, 0b110000, 0b110000),
        'Q' | 'q' => rows(0b011110, 0b110011, 0b110011, 0b110011, 0b110111, 0b011110, 0b000011),
        'R' | 'r' => rows(0b111110, 0b110011, 0b110011, 0b111110, 0b111100, 0b110110, 0b110011),
        'S' | 's' => rows(0b011110, 0b110011, 0b110000, 0b011110, 0b000011, 0b110011, 0b011110),
        'T' | 't' => rows(0b111111, 0b001100, 0b001100, 0b001100, 0b001100, 0b001100, 0b001100),
        'U' | 'u' => rows(0b110011, 0b110011, 0b110011, 0b110011, 0b110011, 0b110011, 0b011110),
        'V' | 'v' => rows(0b110011, 0b110011, 0b110011, 0b110011, 0b011110, 0b001100, 0b001100),
        'W' | 'w' => rows(0b110011, 0b110011, 0b110011, 0b110011, 0b111111, 0b111111, 0b110011),
        'X' | 'x' => rows(0b110011, 0b110011, 0b011110, 0b001100, 0b011110, 0b110011, 0b110011),
        'Y' | 'y' => rows(0b110011, 0b110011, 0b011110, 0b001100, 0b001100, 0b001100, 0b001100),
        'Z' | 'z' => rows(0b111111, 0b000011, 0b000110, 0b001100, 0b011000, 0b110000, 0b111111),
        '-' => rows(0b000000, 0b000000, 0b000000, 0b111111, 0b000000, 0b000000, 0b000000),
        '(' => rows(0b000110, 0b001100, 0b011000, 0b011000, 0b011000, 0b001100, 0b000110),
        ')' => rows(0b110000, 0b011000, 0b001100, 0b001100, 0b001100, 0b011000, 0b110000),
        '%' => rows(0b110001, 0b110011, 0b000110, 0b001100, 0b011000, 0b110011, 0b100011),
        _ => rows(0, 0, 0, 0, 0, 0, 0),
    }
}

/// Whether pixel `col` of a glyph row is set; pixel 0 is the leftmost of the six.
pub open spec fn row_bit(bits: u8, col: int) -> bool {
    (bits as int / (if col == 0 {
        32int
    } else if col == 1 {
        16
    } else if col == 2 {
        8
    } else if col == 3 {
        4
    } else if col == 4 {
        2
    } else {
        1
    })) % 2 == 1
}

/// The side of the square block that stands for one glyph pixel at font size `size`: an
/// eighth of the size, rounded up.
pub open spec fn block_size(size: int) -> int {
    (size + 7) / 8
}

/// Where the block of glyph pixel `index` of a row or a column begins at font size
/// `size`: `index` eighths of the size, rounded down.
pub open spec fn block_offset(index: int, size: int) -> int {
    index * size / 8
}

/// Whether the block of glyph pixel `cell` covers the point (`dx`, `dy`), counted from the
/// top left of the glyph. The pixels are numbered row by row, six to a row, and only a
/// pixel that is set has a block.
pub open spec fn glyph_cell_covers(rows: Seq<u8>, size: int, cell: int, dx: int, dy: int) -> bool {
    let row = cell / 6;
    let col = cell % 6;
    &&& row_bit(rows[row], col)
    &&& block_offset(col, size) <= dx < block_offset(col, size) + block_size(size)
    &&& block_offset(row, size) <= dy < block_offset(row, size) + block_size(size)
}

/// Whether the block of one of the first `cells` glyph pixels covers the point.
pub open spec fn glyph_covers_upto(rows: Seq<u8>, size: int, cells: int, dx: int, dy: int) -> bool
    decreases cells,
{
    cells > 0 && (glyph_cell_covers(rows, size, cells - 1, dx, dy) || glyph_covers_upto(
        rows,
        size,
        cells - 1,
        dx,
        dy,
    ))
}

/// Whether the glyph of `c` at font size `size` covers the point (`dx`, `dy`), counted
/// from the top left of the glyph.
pub open spec fn glyph_covers(c: char, size: int, dx: int, dy: int) -> bool {
    glyph_covers_upto(glyph(c), size, 48, dx, dy)
}

/// Whether `after` is `before` with the glyph of `c` drawn in `color` with its top left at
/// (`x`, `y`).
pub open spec fn is_glyph_drawn(
    after: Canvas,
    before: Canvas,
    c: char,
    x: int,
    y: int,
    size: int,
    color: [u8; 4],
) -> bool {
    &&& after.wf()
    &&& after.same_size(&before)
    &&& forall|px: int, py: int|
        before.holds(px, py) ==> #[trigger] after.pixel_at(px, py) == (if glyph_covers(
            c,
            size,
            px - x,
            py - y,
        ) {
            color
        } else {
            before.pixel_at(px, py)
        })
}

/// A glyph covers no point to the left of or above its top left.
pub proof fn lemma_glyph_covers_from_origin(rows: Seq<u8>, size: int, cells: int, dx: int, dy: int)
    requires
        0 <= size,
        0 <= cells,
        glyph_covers_upto(rows, size, cells, dx, dy),
    ensures
        0 <= dx,
        0 <= dy,
    decreases cells,
{
    if glyph_cell_covers(rows, size, cells - 1, dx, dy) {
        let row = (cells - 1) / 6;
        let col = (cells - 1) % 6;
        assert(0 <= col * size && 0 <= row * size) by (nonlinear_arith)
            requires
                0 <= col,
                0 <= row,
                0 <= size,
        ;
    } else {
        lemma_glyph_covers_from_origin(rows, size, cells - 1, dx, dy);
    }
}

/// Whether pixel `col` of a glyph row is set.
fn bit_is_set(bits: u8, col: u64) -> (set: bool)
    requires
        col < 6,
    ensures
        set == row_bit(bits, col as int),
{
    let weight: u8 = match col {
        0 => 32,
        1 => 16,
        2 => 8,
        3 => 4,
        4 => 2,
        _ => 1,
    };
    (bits / weight) % 2 == 1
}

/// Where the block of glyph pixel `index` of a row or a column begins.
fn offset_of(index: u64, size: u32) -> (offset: u64)
    requires
        index < 8,
    ensures
        offset == block_offset(index as int, size as int),
        offset <= 0xFFFF_FFFF,
{
    assert(index * size <= 7 * 0xFFFF_FFFF) by (nonlinear_arith)
        requires
            0 <= index <= 7,
            0 <= size <= 0xFFFF_FFFF,
    ;
    index * (size as u64) / 8
}

/// Draws the glyph of `c` at font size `size` with its top left at (`x`, `y`): a square
/// block for each glyph pixel that is set. Pixels off the canvas are left out.
pub fn draw_char(canvas: &mut Canvas, c: char, x: u32, y: u32, size: u32, color: [u8; 4])
    requires
        old(canvas).wf(),
    ensures
        is_glyph_drawn(*final(canvas), *old(canvas), c, x as int, y as int, size as int, color),
{
    let ghost before = *canvas;
    let bitmap = get_char_bitmap(c);
    let block: i64 = ((size as u64 + 7) / 8) as i64;
    let mut cell: u64 = 0;
    while cell < 48
        invariant
            cell <= 48,
            canvas.wf(),
            canvas.same_size(&before),
            bitmap@ == glyph(c),
            block == block_size(size as int),
            forall|px: int, py: int|
                before.holds(px, py) ==> #[trigger] canvas.pixel_at(px, py) == (
                if glyph_covers_upto(glyph(c), size as int, cell as int, px - x, py - y) {
                    color
                } else {
                    before.pixel_at(px, py)
                }),
        decreases 48 - cell,
    {
        let row = cell / 6;
        let col = cell % 6;
        if bit_is_set(bitmap[row as usize], col) {
            let left = x as i64 + offset_of(col, size) as i64;
            let top = y as i64 + offset_of(row, size) as i64;
            paint(canvas, left, top, block, block, 0, None, color);
        }
        cell = cell + 1;
    }
}

/// How far each character of a text lies from the one before it at font size `size`: six
/// tenths of the size, rounded to the nearest whole number.
pub open spec fn advance_width(size: int) -> int {
    (6 * size + 5) / 10
}

/// The left edge of a text of `count` characters centred on column `center_x`: half the
/// width of the text to the left of the centre, and no further left than column 0.
pub open spec fn text_left(center_x: int, count: int, size: int) -> int {
    let half = advance_width(size) * count / 2;
    if center_x >= half {
        center_x - half
    } else {
        0
    }
}

/// The top edge of a text centred on row `center_y`: half the font size above the centre,
/// and no higher than row 0.
pub open spec fn text_top(center_y: int, size: int) -> int {
    if center_y >= size / 2 {
        center_y - size / 2
    } else {
        0
    }
}

/// The left edge of the character at `index` of a text whose left edge is `left`.
pub open spec fn char_left(left: int, index: int, size: int) -> int {
    left + index * advance_width(size)
}

/// Whether one of the first `count` characters of a text covers the pixel in column `px`
/// of row `py`.
pub open spec fn text_covers_upto(
    chars: Seq<char>,
    count: int,
    left: int,
    top: int,
    size: int,
    px: int,
    py: int,
) -> bool
    decreases count,
{
    count > 0 && (glyph_covers(
        chars[count - 1],
        size,
        px - char_left(left, count - 1, size),
        py - top,
    ) || text_covers_upto(chars, count - 1, left, top, size, px, py))
}

/// Whether a text centred on (`center_x`, `center_y`) at font size `size` covers the pixel
/// in column `px` of row `py`.
pub open spec fn text_covers(
    chars: Seq<char>,
    center_x: int,
    center_y: int,
    size: int,
    px: int,
    py: int,
) -> bool {
    text_covers_upto(
        chars,
        chars.len() as int,
        text_left(center_x, chars.len() as int, size),
        text_top(center_y, size),
        size,
        px,
        py,
    )
}

/// Whether `after` is `before` with a text drawn in `color`, centred on (`center_x`,
/// `center_y`).
pub open spec fn is_text_drawn(
    after: Canvas,
    before: Canvas,
    chars: Seq<char>,
    center_x: int,
    center_y: int,
    size: int,
    color: [u8; 4],
) -> bool {
    &&& after.wf()
    &&& after.same_size(&before)
    &&& forall|px: int, py: int|
        before.holds(px, py) ==> #[trigger] after.pixel_at(px, py) == (if text_covers(
            chars,
            center_x,
            center_y,
            size,
            px,
            py,
        ) {
            color
        } else {
            before.pixel_at(px, py)
        })
}

/// The product of a count and a width.
fn times(count: usize, width: u64) -> (product: u128)
    requires
        width <= 0xFFFF_FFFF_FFFF,
    ensures
        product == count * width,
        product == width * count,
        product <= 0xFFFF_FFFF_FFFF_FFFF * 0xFFFF_FFFF_FFFF,
{
    assert(count * width <= 0xFFFF_FFFF_FFFF_FFFF * 0xFFFF_FFFF_FFFF && count * width == width
        * count) by (nonlinear_arith)
        requires
            0 <= count <= 0xFFFF_FFFF_FFFF_FFFF,
            0 <= width <= 0xFFFF_FFFF_FFFF,
    ;
    (count as u128) * (width as u128)
}

/// Draws `text` in the bitmap font at font size `font_size`, centred on (`center_x`,
/// `center_y`). A character without a glyph of its own leaves a gap.
pub fn draw_text_centered(
    canvas: &mut Canvas,
    text: &str,
    center_x: u32,
    center_y: u32,
    font_size: u32,
    color: [u8; 4],
)
    requires
        old(canvas).wf(),
    ensures
        is_text_drawn(
            *final(canvas),
            *old(canvas),
            text@,
            center_x as int,
            center_y as int,
            font_size as int,
            color,
        ),
{
    let ghost before = *canvas;
    let count = text.unicode_len();
    let char_width: u64 = (6 * (font_size as u64) + 5) / 10;
    let half: u128 = times(count, char_width) / 2;
    let start_x: u128 = if center_x as u128 >= half {
        center_x as u128 - half
    } else {
        0
    };
    let start_y: u32 = if center_y >= font_size / 2 {
        center_y - font_size / 2
    } else {
        0
    };
    let width = canvas.width();
    let mut i: usize = 0;
    while i < count
        invariant
            i <= count == text@.len(),
            canvas.wf(),
            canvas.same_size(&before),
            width == before.width(),
            before.wf(),
            char_width == advance_width(font_size as int),
            start_x == text_left(center_x as int, count as int, font_size as int),
            start_y == text_top(center_y as int, font_size as int),
            forall|px: int, py: int|
                before.holds(px, py) ==> #[trigger] canvas.pixel_at(px, py) == (if text_covers_upto(
                    text@,
                    i as int,
                    start_x as int,
                    start_y as int,
                    font_size as int,
                    px,
                    py,
                ) {
                    color
                } else {
                    before.pixel_at(px, py)
                }),
        decreases count - i,
    {
        let char_x: u128 = start_x + times(i, char_width);
        assert(char_x == char_left(start_x as int, i as int, font_size as int));
        let ghost c = text@[i as int];
        if char_x < width as u128 {
            draw_char(canvas, text.get_char(i), char_x as u32, start_y, font_size, color);
        } else {
            assert forall|px: int, py: int| before.holds(px, py) implies !glyph_covers(
                c,
                font_size as int,
                px - char_x,
                py - start_y,
            ) by {
                if glyph_covers(c, font_size as int, px - char_x, py - start_y) {
                    lemma_glyph_covers_from_origin(
                        glyph(c),
                        font_size as int,
                        48,
                        px - char_x,
                        py - start_y,
                    );
                }
            }
        }
        i = i + 1;
    }
}

/// The share of a side that is left free as padding: 8 percent, rounded down.
pub open spec fn padding(extent: int) -> int {
    extent * 8 / 100
}

/// The height of the band of the title: 6 percent of the height, rounded down.
pub open spec fn title_height(height: int) -> int {
    height * 6 / 100
}

/// The height of the band of the subtitle: 3 percent of the height, rounded down.
pub open spec fn subtitle_height(height: int) -> int {
    height * 3 / 100
}

/// The height of the header: title, subtitle, and half a padding between them and the
/// grid.
pub open spec fn header_height(height: int) -> int {
    title_height(height) + subtitle_height(height) + padding(height) / 2
}

/// The width of the area of the grid.
pub open spec fn grid_width(width: int) -> int {
    width - 2 * padding(width)
}

/// The height of the area of the grid.
pub open spec fn grid_height(height: int) -> int {
    height - 2 * padding(height) - header_height(height)
}

/// Where the cells of a grid lie on a canvas. The side of a cell is the fraction `num` /
/// `den`.
pub struct Layout {
    pub num: int,
    pub den: int,
    pub gap: int,
    pub drawn: int,
    pub radius: int,
    pub start_x: int,
    pub start_y: int,
    pub columns: int,
}

impl Layout {
    /// The length of `count` cells side by side, rounded down.
    pub open spec fn span(&self, count: int) -> int {
        self.num * count / self.den
    }

    /// The left edge of the cell at `index`.
    pub open spec fn cell_x(&self, index: int) -> int {
        self.start_x + self.span(index % self.columns) + self.gap / 2
    }

    /// The top edge of the cell at `index`.
    pub open spec fn cell_y(&self, index: int) -> int {
        self.start_y + self.span(index / self.columns) + self.gap / 2
    }

    /// The rounded square of the cell at `index`.
    pub open spec fn cell(&self, index: int) -> Shape {
        Shape {
            x: self.cell_x(index),
            y: self.cell_y(index),
            width: self.drawn,
            height: self.drawn,
            radius: self.radius,
            outline: None,
        }
    }

    /// The outline that marks the cell at `index` as the current week: two pixels thick,
    /// two pixels outside the cell, and no further left or up than the canvas goes.
    pub open spec fn mark(&self, index: int) -> Shape {
        Shape {
            x: if self.cell_x(index) >= 2 {
                self.cell_x(index) - 2
            } else {
                0
            },
            y: if self.cell_y(index) >= 2 {
                self.cell_y(index) - 2
            } else {
                0
            },
            width: self.drawn + 4,
            height: self.drawn + 4,
            radius: self.radius + 1,
            outline: Some(2int),
        }
    }
}

/// The layout of a grid of `columns` by `rows` cells on a canvas of `width` by `height`.
/// The cells are squares whose side is the smaller of the width of the grid's area
/// divided by the columns and its height divided by the rows. The gap between cells is 15
/// percent of the side, rounded to the nearest whole number; a cell is drawn with the
/// side less the gap, rounded down; its corner radius is 20 percent of that, rounded to
/// the nearest whole number. The grid is centred in its area.
pub open spec fn layout(width: int, height: int, columns: int, rows: int) -> Layout {
    let by_width = grid_width(width) * rows <= grid_height(height) * columns;
    let num = if by_width {
        grid_width(width)
    } else {
        grid_height(height)
    };
    let den = if by_width {
        columns
    } else {
        rows
    };
    let gap = (3 * num + 10 * den) / (20 * den);
    let drawn = if num / den >= gap {
        num / den - gap
    } else {
        0
    };
    Layout {
        num,
        den,
        gap,
        drawn,
        radius: (2 * drawn + 5) / 10,
        start_x: (width - num * columns / den) / 2,
        start_y: header_height(height) + (grid_height(height) - num * rows / den) / 2 + padding(
            height,
        ),
        columns,
    }
}

/// The grid fits the area that the layout leaves for it: the cells of a row are no wider
/// than the area, those of a column no higher, and the grid begins on the canvas.
pub proof fn lemma_layout_fits(width: int, height: int, columns: int, rows: int)
    requires
        0 <= width,
        0 <= height,
        1 <= columns,
        1 <= rows,
    ensures
        ({
            let l = layout(width, height, columns, rows);
            &&& 0 <= l.num <= width || 0 <= l.num <= height
            &&& (l.den == columns || l.den == rows)
            &&& 0 <= l.gap
            &&& 0 <= l.drawn <= l.num
            &&& 0 <= l.radius <= l.num
            &&& 0 <= l.span(columns) <= grid_width(width)
            &&& 0 <= l.span(rows) <= grid_height(height)
            &&& 0 <= l.start_x <= width
            &&& 0 <= l.start_y <= height
        }),
{
    let l = layout(width, height, columns, rows);
    let gw = grid_width(width);
    let gh = grid_height(height);
    assert(0 <= gw <= width && 0 <= gh <= height);
    assert(0 <= l.num * columns && 0 <= l.num * rows && 0 <= 3 * l.num + 10 * l.den && 0 < 20
        * l.den) by (nonlinear_arith)
        requires
            0 <= l.num,
            1 <= columns,
            1 <= rows,
            1 <= l.den,
    ;
    lemma_div_pos_is_pos(3 * l.num + 10 * l.den, 20 * l.den);
    lemma_div_pos_is_pos(l.num, l.den);
    lemma_div_nonincreasing(l.num, l.den);
    lemma_div_pos_is_pos(l.num * columns, l.den);
    lemma_div_pos_is_pos(l.num * rows, l.den);
    if gw * rows <= gh * columns {
        lemma_div_by_multiple(gw, columns);
        lemma_div_is_ordered(gw * rows, gh * columns, columns);
        lemma_div_by_multiple(gh, columns);
    } else {
        lemma_div_by_multiple(gh, rows);
        lemma_div_is_ordered(gh * columns, gw * rows, rows);
        lemma_div_by_multiple(gw, rows);
    }
}

/// A layout as numbers that can be computed with.
struct Geometry {
    num: u64,
    den: u64,
    gap: u64,
    drawn: u64,
    radius: u64,
    start_x: u64,
    start_y: u64,
}

impl Geometry {
    /// Whether the numbers are those of `layout`.
    spec fn is(&self, layout: Layout) -> bool {
        &&& self.num == layout.num
        &&& self.den == layout.den
        &&& self.gap == layout.gap
        &&& self.drawn == layout.drawn
        &&& self.radius == layout.radius
        &&& self.start_x == layout.start_x
        &&& self.start_y == layout.start_y
        &&& self.num <= 0xFFFF_FFFF
        &&& 1 <= self.den
        &&& self.gap <= 0x1_0000_0000
        &&& self.drawn <= 0xFFFF_FFFF
        &&& self.radius <= 0xFFFF_FFFF
        &&& self.start_x <= 0xFFFF_FFFF
        &&& self.start_y <= 0xFFFF_FFFF
    }
}

/// Computes the layout of a grid of `columns` by `rows` cells on a canvas of `width` by
/// `height`.
fn geometry(width: u32, height: u32, columns: usize, rows: usize) -> (g: Geometry)
    requires
        1 <= columns,
        1 <= rows,
    ensures
        g.is(layout(width as int, height as int, columns as int, rows as int)),
{
    let ghost l = layout(width as int, height as int, columns as int, rows as int);
    proof {
        lemma_layout_fits(width as int, height as int, columns as int, rows as int);
    }
    let w = width as u64;
    let h = height as u64;
    let padding_x = w * 8 / 100;
    let padding_y = h * 8 / 100;
    let header = h * 6 / 100 + h * 3 / 100 + padding_y / 2;
    let grid_w = w - 2 * padding_x;
    let grid_h = h - 2 * padding_y - header;
    let by_width = times(rows, grid_w) <= times(columns, grid_h);
    let num = if by_width {
        grid_w
    } else {
        grid_h
    };
    let den = if by_width {
        columns
    } else {
        rows
    };
    proof {
        let n = num as int;
        let d = den as int;
        assert(3 * n + 10 * d <= (n + 1) * (20 * d) && 0 < 20 * d) by (nonlinear_arith)
            requires
                0 <= n,
                1 <= d,
        ;
        lemma_div_is_ordered(3 * n + 10 * d, (n + 1) * (20 * d), 20 * d);
        lemma_div_by_multiple(n + 1, 20 * d);
    }
    let gap = ((3 * (num as u128) + 10 * (den as u128)) / (20 * (den as u128))) as u64;
    let whole = num / (den as u64);
    let drawn = if whole >= gap {
        whole - gap
    } else {
        0
    };
    let radius = (2 * drawn + 5) / 10;
    let span_columns = (times(columns, num) / (den as u128)) as u64;
    let span_rows = (times(rows, num) / (den as u128)) as u64;
    Geometry {
        num,
        den: den as u64,
        gap,
        drawn,
        radius,
        start_x: (w - span_columns) / 2,
        start_y: header + (grid_h - span_rows) / 2 + padding_y,
    }
}

/// The colour of a week's cell: it goes by the status of the week.
pub open spec fn status_color(palette: Palette, status: WeekStatus) -> Seq<u8> {
    match status {
        WeekStatus::Past => palette.past_week,
        WeekStatus::Current => palette.current_week,
        WeekStatus::Future => palette.future_week,
    }
}

/// The colour of the pixel in column `px` of row `py` once the cells of the first `count`
/// weeks are drawn over a pixel of colour `base`. The cells are drawn in the order of the
/// weeks, each over what was drawn before it: the cell in the colour of its status, and
/// over the cell of a current week its mark in the accent colour.
pub open spec fn cells_pixel(
    weeks: Seq<Week>,
    layout: Layout,
    palette: Palette,
    count: int,
    px: int,
    py: int,
    base: Seq<u8>,
) -> Seq<u8>
    decreases count,
{
    if count <= 0 {
        base
    } else {
        let week = weeks[count - 1];
        if week.status == WeekStatus::Current && layout.mark(count - 1).covers(px, py) {
            palette.accent
        } else if layout.cell(count - 1).covers(px, py) {
            status_color(palette, week.status)
        } else {
            cells_pixel(weeks, layout, palette, count - 1, px, py, base)
        }
    }
}

/// The centre row of the title.
pub open spec fn title_center(height: int) -> int {
    padding(height) + title_height(height) / 2
}

/// The centre row of the subtitle.
pub open spec fn subtitle_center(height: int) -> int {
    padding(height) + title_height(height) + subtitle_height(height) / 2
}

/// The colour of the pixel in column `px` of row `py` of the wallpaper of a grid on a
/// canvas of `width` by `height`: the colour of the text where the title or the subtitle
/// covers the pixel, else that of the cell or mark drawn last over it, else that of the
/// background. Title and subtitle are centred on the middle column, at font sizes of half
/// the height of their bands.
pub open spec fn wallpaper_pixel(
    grid: WeekGrid,
    palette: Palette,
    width: int,
    height: int,
    px: int,
    py: int,
) -> Seq<u8> {
    if text_covers(
        grid.title@,
        width / 2,
        title_center(height),
        title_height(height) / 2,
        px,
        py,
    ) || text_covers(
        grid.subtitle@,
        width / 2,
        subtitle_center(height),
        subtitle_height(height) / 2,
        px,
        py,
    ) {
        palette.text
    } else {
        cells_pixel(
            grid.weeks@,
            layout(width, height, grid.columns as int, grid.rows as int),
            palette,
            grid.weeks@.len() as int,
            px,
            py,
            palette.background,
        )
    }
}

/// Whether `canvas` is the wallpaper of `grid` in the colours of `palette`.
pub open spec fn is_wallpaper(
    canvas: Canvas,
    grid: WeekGrid,
    palette: Palette,
    width: int,
    height: int,
) -> bool {
    &&& canvas.wf()
    &&& canvas.width() == width
    &&& canvas.height() == height
    &&& forall|px: int, py: int|
        canvas.holds(px, py) ==> (#[trigger] canvas.pixel_at(px, py))@ == wallpaper_pixel(
            grid,
            palette,
            width,
            height,
            px,
            py,
        )
}

/// Draws the cells of the weeks, and the mark of the current week, in the order of the
/// weeks.
fn draw_cells(
    canvas: &mut Canvas,
    weeks: &Vec<Week>,
    g: &Geometry,
    columns: usize,
    colors: &ThemeColors,
    Ghost(layout): Ghost<Layout>,
)
    requires
        old(canvas).wf(),
        g.is(layout),
        layout.columns == columns,
        1 <= columns,
    ensures
        final(canvas).wf(),
        final(canvas).same_size(old(canvas)),
        forall|px: int, py: int|
            old(canvas).holds(px, py) ==> (#[trigger] final(canvas).pixel_at(px, py))@
                == cells_pixel(
                weeks@,
                layout,
                colors@,
                weeks@.len() as int,
                px,
                py,
                old(canvas).pixel_at(px, py)@,
            ),
{
    let ghost before = *canvas;
    let width = canvas.width() as u128;
    let height = canvas.height() as u128;
    let mut i: usize = 0;
    while i < weeks.len()
        invariant
            i <= weeks@.len(),
            canvas.wf(),
            canvas.same_size(&before),
            before.wf(),
            width == before.width(),
            height == before.height(),
            g.is(layout),
            layout.columns == columns,
            1 <= columns,
            forall|px: int, py: int|
                before.holds(px, py) ==> (#[trigger] canvas.pixel_at(px, py))@ == cells_pixel(
                    weeks@,
                    layout,
                    colors@,
                    i as int,
                    px,
                    py,
                    before.pixel_at(px, py)@,
                ),
        decreases weeks@.len() - i,
    {
        let ghost earlier = *canvas;
        let x: u128 = g.start_x as u128 + times(i % columns, g.num) / (g.den as u128) + (g.gap
            / 2) as u128;
        let y: u128 = g.start_y as u128 + times(i / columns, g.num) / (g.den as u128) + (g.gap
            / 2) as u128;
        assert(x == layout.cell_x(i as int) && y == layout.cell_y(i as int));
        let status = weeks[i].status;
        let color = match status {
            WeekStatus::Past => colors.past_week,
            WeekStatus::Current => colors.current_week,
            WeekStatus::Future => colors.future_week,
        };
        assert(color@ == status_color(colors@, status));
        if x < width && y < height {
            paint(
                canvas,
                x as i64,
                y as i64,
                g.drawn as i64,
                g.drawn as i64,
                g.radius as i64,
                None,
                color,
            );
        }
        let ghost filled = *canvas;
        assert forall|px: int, py: int| before.holds(px, py) implies (#[trigger] filled.pixel_at(
            px,
            py,
        )) == (if layout.cell(i as int).covers(px, py) {
            color
        } else {
            earlier.pixel_at(px, py)
        }) by {}
        if status == WeekStatus::Current {
            let mark_x: u128 = if x >= 2 {
                x - 2
            } else {
                0
            };
            let mark_y: u128 = if y >= 2 {
                y - 2
            } else {
                0
            };
            if mark_x < width && mark_y < height {
                paint(
                    canvas,
                    mark_x as i64,
                    mark_y as i64,
                    g.drawn as i64 + 4,
                    g.drawn as i64 + 4,
                    g.radius as i64 + 1,
                    Some(2),
                    colors.accent,
                );
            }
            assert forall|px: int, py: int| before.holds(px, py) implies (
            #[trigger] canvas.pixel_at(px, py)) == (if layout.mark(i as int).covers(px, py) {
                colors.accent
            } else {
                filled.pixel_at(px, py)
            }) by {}
        }
        i = i + 1;
    }
}

/// Draws the wallpaper of `grid` in the colours `colors` on a canvas of `width` by
/// `height`.
pub fn render_with_colors(grid: &WeekGrid, colors: &ThemeColors, width: u32, height: u32) -> (canvas:
    Canvas)
    requires
        grid.columns >= 1,
        grid.rows >= 1,
        4 * width * height <= isize::MAX,
    ensures
        is_wallpaper(canvas, *grid, colors@, width as int, height as int),
{
    let mut canvas = Canvas::new(width, height, colors.background);
    let g = geometry(width, height, grid.columns, grid.rows);
    let ghost layout = layout(width as int, height as int, grid.columns as int, grid.rows as int);
    draw_cells(&mut canvas, &grid.weeks, &g, grid.columns, colors, Ghost(layout));
    let padding_y = (height as u64 * 8 / 100) as u32;
    let title_height = (height as u64 * 6 / 100) as u32;
    let subtitle_height = (height as u64 * 3 / 100) as u32;
    draw_text_centered(
        &mut canvas,
        grid.title.as_str(),
        width / 2,
        padding_y + title_height / 2,
        title_height / 2,
        colors.text,
    );
    draw_text_centered(
        &mut canvas,
        grid.subtitle.as_str(),
        width / 2,
        padding_y + title_height + subtitle_height / 2,
        subtitle_height / 2,
        colors.text,
    );
    canvas
}

/// Draws the wallpaper of `grid` in the colours of `theme` on a canvas of `width` by
/// `height`.
pub fn render_grid(grid: &WeekGrid, theme: &Theme, width: u32, height: u32) -> (canvas: Canvas)
    requires
        grid.columns >= 1,
        grid.rows >= 1,
        4 * width * height <= isize::MAX,
    ensures
        is_wallpaper(canvas, *grid, theme.palette(), width as int, height as int),
{
    let colors = theme.colors();
    render_with_colors(grid, &colors, width, height)
}

} // verus!
