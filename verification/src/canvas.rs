//! The pixel buffer that is drawn on: an RGBA image of the `image` crate.
//!
//! The verifier does not look into the image. What it holds has three names, its width,
//! its height and its pixels, and the private functions at the end of this file say what
//! is assumed of the methods of the `image` crate in terms of them.

use crate::text::owned;
use image::{ImageBuffer, Rgba, RgbaImage};
use vstd::prelude::*;
use vstd::string::StringExecFns;

verus! {

/// An image of 8-bit red, green, blue and alpha, held as an `image::RgbaImage`.
#[verifier::external_body]
pub struct Canvas {
    image: RgbaImage,
}

/// The width of a canvas, in pixels.
pub uninterp spec fn canvas_width(canvas: Canvas) -> nat;

/// The height of a canvas, in pixels.
pub uninterp spec fn canvas_height(canvas: Canvas) -> nat;

/// The pixels of a canvas, row by row from the top, each row from the left.
pub uninterp spec fn canvas_pixels(canvas: Canvas) -> Seq<[u8; 4]>;

/// The place of the pixel in column `x` of row `y` among the pixels of an image `width`
/// pixels wide.
pub open spec fn pixel_index(width: int, x: int, y: int) -> int {
    y * width + x
}

/// Two pixels of an image have the same place only if they are the same pixel, and a
/// pixel inside the image has its place among the image's pixels.
pub proof fn lemma_pixel_index(width: int, height: int, x: int, y: int, px: int, py: int)
    by (nonlinear_arith)
    requires
        0 <= x < width,
        0 <= px < width,
        0 <= y < height,
        0 <= py,
    ensures
        0 <= pixel_index(width, x, y) < width * height,
        pixel_index(width, x, y) == pixel_index(width, px, py) ==> x == px && y == py,
{
}

impl Canvas {
    /// The width, in pixels.
    pub open spec fn spec_width(&self) -> u32 {
        canvas_width(*self) as u32
    }

    /// The height, in pixels.
    pub open spec fn spec_height(&self) -> u32 {
        canvas_height(*self) as u32
    }

    /// A canvas holds one pixel for each column of each row.
    pub open spec fn wf(&self) -> bool {
        &&& canvas_width(*self) <= u32::MAX
        &&& canvas_height(*self) <= u32::MAX
        &&& canvas_pixels(*self).len() == canvas_width(*self) * canvas_height(*self)
    }

    /// Whether column `x` of row `y` lies on the canvas.
    pub open spec fn holds(&self, x: int, y: int) -> bool {
        0 <= x < canvas_width(*self) && 0 <= y < canvas_height(*self)
    }

    /// The colour of the pixel in column `x` of row `y`.
    pub open spec fn pixel_at(&self, x: int, y: int) -> [u8; 4] {
        canvas_pixels(*self)[pixel_index(canvas_width(*self) as int, x, y)]
    }

    /// Whether this canvas has the size of `other`.
    pub open spec fn same_size(&self, other: &Canvas) -> bool {
        canvas_width(*self) == canvas_width(*other) && canvas_height(*self) == canvas_height(
            *other,
        )
    }

    /// Whether a canvas of `width` by `height` is small enough to be held.
    pub fn fits(width: u32, height: u32) -> (small: bool)
        ensures
            small == (4 * width * height <= isize::MAX),
    {
        assert(4 * width * height <= 4 * 0xFFFF_FFFF * 0xFFFF_FFFF && 4 * width * height == 4 * (
        width * height)) by (nonlinear_arith)
            requires
                0 <= width <= 0xFFFF_FFFF,
                0 <= height <= 0xFFFF_FFFF,
        ;
        4 * ((width as u128) * (height as u128)) <= isize::MAX as u128
    }

    /// A canvas of the given size whose pixels all have the colour `color`.
    pub fn new(width: u32, height: u32, color: [u8; 4]) -> (canvas: Canvas)
        requires
            4 * width * height <= isize::MAX,
        ensures
            canvas.wf(),
            canvas.width() == width,
            canvas.height() == height,
            forall|x: int, y: int| canvas.holds(x, y) ==> #[trigger] canvas.pixel_at(x, y) == color,
    {
        let canvas = filled(width, height, color);
        proof {
            assert forall|x: int, y: int| canvas.holds(x, y) implies #[trigger] canvas.pixel_at(
                x,
                y,
            ) == color by {
                lemma_pixel_index(width as int, height as int, x, y, x, y);
            }
        }
        canvas
    }

    /// The width, in pixels.
    #[verifier::when_used_as_spec(spec_width)]
    pub fn width(&self) -> (width: u32)
        ensures
            width == canvas_width(*self),
            self.wf() ==> width == self.spec_width(),
    {
        dimensions(self).0
    }

    /// The height, in pixels.
    #[verifier::when_used_as_spec(spec_height)]
    pub fn height(&self) -> (height: u32)
        ensures
            height == canvas_height(*self),
            self.wf() ==> height == self.spec_height(),
    {
        dimensions(self).1
    }

    /// The colour of the pixel in column `x` of row `y`, if the canvas has that pixel.
    pub fn get_pixel(&self, x: u32, y: u32) -> (color: Option<[u8; 4]>)
        ensures
            color is Some <==> self.holds(x as int, y as int),
            color matches Some(c) ==> c == self.pixel_at(x as int, y as int),
    {
        let (width, height) = dimensions(self);
        if x < width && y < height {
            Some(get_pixel(self, x, y))
        } else {
            None
        }
    }

    /// Gives the pixel in column `x` of row `y` the colour `color`.
    pub fn set_pixel(&mut self, x: u32, y: u32, color: [u8; 4])
        requires
            old(self).wf(),
            old(self).holds(x as int, y as int),
        ensures
            final(self).wf(),
            final(self).same_size(old(self)),
            forall|px: int, py: int|
                old(self).holds(px, py) ==> #[trigger] final(self).pixel_at(px, py) == (if px == x
                    && py == y {
                    color
                } else {
                    old(self).pixel_at(px, py)
                }),
    {
        let ghost width = canvas_width(*self) as int;
        let ghost height = canvas_height(*self) as int;
        put_pixel(self, x, y, color);
        proof {
            lemma_pixel_index(width, height, x as int, y as int, x as int, y as int);
            assert forall|px: int, py: int| old(self).holds(px, py) implies #[trigger] self.pixel_at(
                px,
                py,
            ) == (if px == x && py == y {
                color
            } else {
                old(self).pixel_at(px, py)
            }) by {
                lemma_pixel_index(width, height, px, py, x as int, y as int);
            }
        }
    }

    /// The bytes of the image, row by row, four for each pixel: red, green, blue, alpha.
    pub fn into_bytes(self) -> (bytes: Vec<u8>)
        ensures
            bytes@.len() == 4 * canvas_pixels(self).len(),
            forall|i: int, c: int|
                0 <= i < canvas_pixels(self).len() && 0 <= c < 4 ==> #[trigger] bytes@[4 * i + c]
                    == canvas_pixels(self)[i]@[c],
    {
        into_raw(self)
    }
}

/// The PNG file of an image of `width` by `height` with the pixels `pixels`, as the
/// `image` crate writes it; none where it writes none.
pub uninterp spec fn png_of(width: nat, height: nat, pixels: Seq<[u8; 4]>) -> Option<Seq<u8>>;

#[verifier::external_type_specification]
#[verifier::external_body]
pub struct ExImageError(image::ImageError);

/// What is said where an image cannot be written as a PNG file, before the words of the
/// `image` crate.
pub const PNG_FAILED: &'static str = "Failed to encode image: ";

impl Canvas {
    /// The image as a PNG file. Fails with [`PNG_FAILED`] and the words of the `image`
    /// crate where it writes none.
    pub fn to_png(&self) -> (file: Result<Vec<u8>, String>)
        ensures
            match file {
                Ok(bytes) => png_of(
                    canvas_width(*self),
                    canvas_height(*self),
                    canvas_pixels(*self),
                ) == Some(bytes@),
                Err(message) => {
                    &&& png_of(canvas_width(*self), canvas_height(*self), canvas_pixels(*self))
                        is None
                    &&& message@.len() >= PNG_FAILED@.len()
                    &&& message@.subrange(0, PNG_FAILED@.len() as int) == PNG_FAILED@
                },
            },
    {
        match write_png(self) {
            Ok(bytes) => Ok(bytes),
            Err(error) => {
                let detail = describe(&error);
                let mut message = owned(PNG_FAILED);
                message.append(detail.as_str());
                assert(message@.subrange(0, PNG_FAILED@.len() as int) =~= PNG_FAILED@);
                Err(message)
            },
        }
    }
}

/// `ImageBuffer::write_to` with `ImageFormat::Png`, into a vector of bytes. Assumed:
/// whether a file is written, and which, depends on the size and the pixels alone.
#[verifier::external_body]
fn write_png(canvas: &Canvas) -> (file: Result<Vec<u8>, image::ImageError>)
    ensures
        match file {
            Ok(bytes) => png_of(
                canvas_width(*canvas),
                canvas_height(*canvas),
                canvas_pixels(*canvas),
            ) == Some(bytes@),
            Err(_) => png_of(canvas_width(*canvas), canvas_height(*canvas), canvas_pixels(*canvas))
                is None,
        },
{
    let mut file = std::io::Cursor::new(Vec::new());
    match canvas.image.write_to(&mut file, image::ImageFormat::Png) {
        Ok(()) => Ok(file.into_inner()),
        Err(error) => Err(error),
    }
}

/// The words of an `image::ImageError`, as its `Display` gives them. Nothing is assumed
/// of them.
#[verifier::external_body]
fn describe(error: &image::ImageError) -> String {
    format!("{}", error)
}

/// `ImageBuffer::get_pixel`: the colour of the pixel in column `x` of row `y`. It panics
/// outside the image, which `requires` leaves out.
#[verifier::external_body]
fn get_pixel(canvas: &Canvas, x: u32, y: u32) -> (color: [u8; 4])
    requires
        x < canvas_width(*canvas),
        y < canvas_height(*canvas),
    ensures
        color == canvas_pixels(*canvas)[y * canvas_width(*canvas) + x],
{
    canvas.image.get_pixel(x, y).0
}

/// `ImageBuffer::into_raw`: the bytes of the image, four for each pixel in the order of
/// the pixels: red, green, blue, alpha.
#[verifier::external_body]
fn into_raw(canvas: Canvas) -> (bytes: Vec<u8>)
    ensures
        bytes@.len() == 4 * canvas_pixels(canvas).len(),
        forall|i: int, c: int|
            0 <= i < canvas_pixels(canvas).len() && 0 <= c < 4 ==> #[trigger] bytes@[4 * i + c]
                == canvas_pixels(canvas)[i]@[c],
{
    canvas.image.into_raw()
}

/// `ImageBuffer::dimensions`: the width and the height.
#[verifier::external_body]
fn dimensions(canvas: &Canvas) -> (size: (u32, u32))
    ensures
        size.0 == canvas_width(*canvas),
        size.1 == canvas_height(*canvas),
{
    canvas.image.dimensions()
}

/// `ImageBuffer::from_pixel`: an image of the given size whose pixels all have one colour.
/// It panics where the buffer would be larger than a vector can be, which `requires`
/// leaves out.
#[verifier::external_body]
fn filled(width: u32, height: u32, color: [u8; 4]) -> (canvas: Canvas)
    requires
        4 * width * height <= isize::MAX,
    ensures
        canvas_width(canvas) == width,
        canvas_height(canvas) == height,
        canvas_pixels(canvas) == Seq::new((width * height) as nat, |i: int| color),
{
    Canvas { image: ImageBuffer::from_pixel(width, height, Rgba(color)) }
}

/// `ImageBuffer::put_pixel`: the pixel in column `x` of row `y` takes the colour, and
/// nothing else changes. It panics outside the image, which `requires` leaves out.
#[verifier::external_body]
fn put_pixel(canvas: &mut Canvas, x: u32, y: u32, color: [u8; 4])
    requires
        x < canvas_width(*old(canvas)),
        y < canvas_height(*old(canvas)),
    ensures
        canvas_width(*final(canvas)) == canvas_width(*old(canvas)),
        canvas_height(*final(canvas)) == canvas_height(*old(canvas)),
        canvas_pixels(*final(canvas)) == canvas_pixels(*old(canvas)).update(
            y * canvas_width(*old(canvas)) + x,
            color,
        ),
{
    canvas.image.put_pixel(x, y, Rgba(color))
}

} // verus!
