use vstd::prelude::*;

verus! {

/// A colour with its opacity, one byte per channel.
#[derive(Clone, Copy, Debug, PartialEq, Eq, Structural)]
pub struct Color {
    pub red: u8,
    pub green: u8,
    pub blue: u8,
    pub alpha: u8,
}

impl Color {
    /// The four bytes of the colour in the order in which a pixel stores
    /// them.
    pub open spec fn channels(self) -> Seq<u8> {
        seq![self.red, self.green, self.blue, self.alpha]
    }
}

/// Where the four bytes of pixel `(x, y)` start in an image of the given
/// width, stored row by row.
pub open spec fn pixel_offset(width: int, x: int, y: int) -> int {
    4 * (y * width + x)
}

/// The colour that `bytes` hold for pixel `(x, y)`.
pub open spec fn pixel_at(bytes: Seq<u8>, width: int, x: int, y: int) -> Color {
    let at = pixel_offset(width, x, y);
    Color { red: bytes[at], green: bytes[at + 1], blue: bytes[at + 2], alpha: bytes[at + 3] }
}

/// `bytes` with the four bytes of pixel `(x, y)` replaced by `color`.
pub open spec fn with_pixel(bytes: Seq<u8>, width: int, x: int, y: int, color: Color) -> Seq<u8> {
    let at = pixel_offset(width, x, y);
    Seq::new(
        bytes.len(),
        |i: int|
            if at <= i < at + 4 {
                color.channels()[i - at]
            } else {
                bytes[i]
            },
    )
}

/// A drawing surface of RGBA pixels: an `image::RgbaImage`.
#[verifier::external_body]
pub struct Canvas {
    image: image::RgbaImage,
}

/// Width and height of a canvas, in pixels.
pub uninterp spec fn canvas_size(canvas: Canvas) -> (u32, u32);

/// The bytes of a canvas: four for each pixel, row by row from the top.
pub uninterp spec fn canvas_bytes(canvas: Canvas) -> Seq<u8>;

/// What `imageproc::drawing::draw_filled_circle_mut` makes of the bytes of an
/// image of this width and height.
pub uninterp spec fn filled_circle(
    bytes: Seq<u8>,
    width: u32,
    height: u32,
    center_x: int,
    center_y: int,
    radius: int,
    color: Seq<u8>,
) -> Seq<u8>;

/// What `imageproc::drawing::draw_text_mut` makes of the bytes of an image of
/// this width and height, with the font that `font` holds, at a uniform scale.
pub uninterp spec fn drawn_text(
    bytes: Seq<u8>,
    width: u32,
    height: u32,
    color: Seq<u8>,
    x: int,
    y: int,
    scale: int,
    font: Seq<u8>,
    text: Seq<char>,
) -> Seq<u8>;

/// `ab_glyph::FontRef`: a font, parsed, that borrows its bytes. Opaque here.
#[verifier::external_type_specification]
#[verifier::external_body]
pub struct ExFontRef<'font>(ab_glyph::FontRef<'font>);

/// `ab_glyph::InvalidFont`: the error of a font that does not parse.
#[verifier::external_type_specification]
#[verifier::external_body]
pub struct ExInvalidFont(ab_glyph::InvalidFont);

/// Whether `ab_glyph::FontRef::try_from_slice` accepts these bytes.
pub uninterp spec fn is_font(data: Seq<u8>) -> bool;

/// The bytes that a font was parsed from.
pub uninterp spec fn font_bytes(font: ab_glyph::FontRef) -> Seq<u8>;

/// The distance from the lowest to the highest line of the font in these
/// bytes, in the font's own units: the bit pattern of the single-precision
/// number that `ab_glyph::Font::height_unscaled` returns.
pub uninterp spec fn line_height_bits(data: Seq<u8>) -> u32;

impl Canvas {
    /// `image::ImageBuffer::new` makes an image of the given size in which
    /// every byte is zero. It panics where the bytes of a row, or of all
    /// rows, are more than a vector can hold.
    #[verifier::external_body]
    pub(crate) fn blank(width: u32, height: u32) -> (canvas: Canvas)
        requires
            4 * width <= isize::MAX,
            4 * (width * height) <= isize::MAX,
        ensures
            canvas_size(canvas) == (width, height),
            canvas_bytes(canvas) == Seq::new((4 * (width * height)) as nat, |i: int| 0u8),
    {
        Canvas { image: image::ImageBuffer::new(width, height) }
    }

    /// `image::ImageBuffer::put_pixel` writes the four bytes of one pixel and
    /// nothing else. It panics for a pixel outside the image.
    #[verifier::external_body]
    pub(crate) fn put_pixel(&mut self, x: u32, y: u32, color: Color)
        requires
            x < canvas_size(*old(self)).0,
            y < canvas_size(*old(self)).1,
        ensures
            canvas_size(*final(self)) == canvas_size(*old(self)),
            canvas_bytes(*final(self)) == with_pixel(
                canvas_bytes(*old(self)),
                canvas_size(*old(self)).0 as int,
                x as int,
                y as int,
                color,
            ),
    {
        self.image.put_pixel(x, y, image::Rgba([color.red, color.green, color.blue, color.alpha]));
    }

    /// `imageproc::drawing::draw_filled_circle_mut` draws as much of the disc
    /// as lies inside the image. The image keeps its size and its number of
    /// bytes. Centre and radius are kept small enough for the arithmetic on
    /// them.
    #[verifier::external_body]
    pub(crate) fn fill_circle(&mut self, center_x: i32, center_y: i32, radius: i32, color: Color)
        requires
            -0x10_0000 <= center_x <= 0x10_0000,
            -0x10_0000 <= center_y <= 0x10_0000,
            0 <= radius <= 0x10_0000,
        ensures
            canvas_size(*final(self)) == canvas_size(*old(self)),
            canvas_bytes(*final(self)).len() == canvas_bytes(*old(self)).len(),
            canvas_bytes(*final(self)) == filled_circle(
                canvas_bytes(*old(self)),
                canvas_size(*old(self)).0,
                canvas_size(*old(self)).1,
                center_x as int,
                center_y as int,
                radius as int,
                color.channels(),
            ),
    {
        let color = image::Rgba([color.red, color.green, color.blue, color.alpha]);
        imageproc::drawing::draw_filled_circle_mut(
            &mut self.image,
            (center_x, center_y),
            radius,
            color,
        );
    }

    /// `imageproc::drawing::draw_text_mut` blends the glyphs of `text` into
    /// the image, scaled so that the font's line height takes `scale` pixels.
    /// The image keeps its size and its number of bytes.
    ///
    /// The rasterizer behind it adds columns to row starts without a check
    /// for columns more than two to the left of a glyph's box, and an outline
    /// may leave its box by a part of a font unit. So the contract is claimed
    /// only where a font unit takes at most two pixels: for a line height
    /// that is a positive number of at least half the scale. Position, scale
    /// and length of the text are kept small as well, so that no coordinate
    /// comes near the range of the arithmetic on it.
    #[verifier::external_body]
    pub(crate) fn draw_text(
        &mut self,
        color: Color,
        x: i32,
        y: i32,
        scale: u16,
        font: &ab_glyph::FontRef,
        text: &str,
    )
        requires
            -0x10_0000 <= x <= 0x10_0000,
            -0x10_0000 <= y <= 0x10_0000,
            scale <= 1024,
            text@.len() <= 8,
            has_line_height(line_height_bits(font_bytes(*font)), scale as int),
        ensures
            canvas_size(*final(self)) == canvas_size(*old(self)),
            canvas_bytes(*final(self)).len() == canvas_bytes(*old(self)).len(),
            canvas_bytes(*final(self)) == drawn_text(
                canvas_bytes(*old(self)),
                canvas_size(*old(self)).0,
                canvas_size(*old(self)).1,
                color.channels(),
                x as int,
                y as int,
                scale as int,
                font_bytes(*font),
                text@,
            ),
    {
        let color = image::Rgba([color.red, color.green, color.blue, color.alpha]);
        let scale = ab_glyph::PxScale { x: scale.into(), y: scale.into() };
        imageproc::drawing::draw_text_mut(&mut self.image, color, x, y, scale, font, text);
    }

    /// `image::ImageBuffer::dimensions` returns width and height.
    #[verifier::external_body]
    pub(crate) fn dimensions(&self) -> (size: (u32, u32))
        ensures
            size == canvas_size(*self),
    {
        self.image.dimensions()
    }

    /// `image::ImageBuffer::into_raw` gives the bytes out.
    #[verifier::external_body]
    pub(crate) fn into_raw(self) -> (bytes: Vec<u8>)
        ensures
            bytes@ == canvas_bytes(self),
    {
        self.image.into_raw()
    }
}

/// Twice a line height, in whole font units, where the line height is a
/// positive number given as its bit pattern; 2048 stands for every value from
/// 2048 on.
///
/// A number with exponent field `e` and fraction field `f` is
/// `(2^23 + f) * 2^(e - 150)`, so twice the number, cut to a whole number, is
/// `(2^23 + f) / 2^(149 - e)`. The divisors are written out for the exponents
/// from 126, where twice the number reaches one, to 136.
pub open spec fn doubled_line_height(bits: u32) -> int {
    let e = bits as int / 0x80_0000;
    let significand = 0x80_0000 + bits as int % 0x80_0000;
    if e < 126 {
        0
    } else if e == 126 {
        significand / 0x80_0000
    } else if e == 127 {
        significand / 0x40_0000
    } else if e == 128 {
        significand / 0x20_0000
    } else if e == 129 {
        significand / 0x10_0000
    } else if e == 130 {
        significand / 0x8_0000
    } else if e == 131 {
        significand / 0x4_0000
    } else if e == 132 {
        significand / 0x2_0000
    } else if e == 133 {
        significand / 0x1_0000
    } else if e == 134 {
        significand / 0x8000
    } else if e == 135 {
        significand / 0x4000
    } else if e == 136 {
        significand / 0x2000
    } else {
        2048
    }
}

/// A line height that text can be scaled to `scale` pixels with: a positive
/// number (not infinite, not "not a number"), given as its bit pattern, of
/// at least half the scale, so that a font unit takes at most two pixels.
/// Scales above 2048 are never met.
pub open spec fn has_line_height(bits: u32, scale: int) -> bool {
    0 < bits < 0x7f80_0000 && scale <= doubled_line_height(bits)
}

/// `ab_glyph::FontRef::try_from_slice` parses a font out of `data` and keeps
/// a reference to those bytes.
#[verifier::external_body]
pub(crate) fn parse_font<'font>(data: &'font [u8]) -> (parsed: Result<
    ab_glyph::FontRef<'font>,
    ab_glyph::InvalidFont,
>)
    ensures
        parsed is Ok <==> is_font(data@),
        parsed matches Ok(font) ==> font_bytes(font) == data@,
{
    ab_glyph::FontRef::try_from_slice(data)
}

/// `ab_glyph::Font::height_unscaled` returns the font's line height in its
/// own units. The number is handed on as its bit pattern (`to_bits`).
#[verifier::external_body]
pub(crate) fn line_height(font: &ab_glyph::FontRef) -> (bits: u32)
    ensures
        bits == line_height_bits(font_bytes(*font)),
{
    ab_glyph::Font::height_unscaled(font).to_bits()
}

} // verus!
