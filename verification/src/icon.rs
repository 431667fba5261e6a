use crate::canvas::{
    canvas_bytes, canvas_size, drawn_text, filled_circle, font_bytes, has_line_height, is_font,
    line_height, line_height_bits, parse_font, pixel_at, pixel_offset, Canvas, Color,
};
use vstd::arithmetic::div_mod::lemma_fundamental_div_mod_converse;
use vstd::arithmetic::power2::lemma2_to64;
use vstd::bits::lemma_u32_shr_is_div;
use vstd::prelude::*;

verus! {

/// Height of every icon, in pixels.
pub const ICON_HEIGHT: u32 = 128;

/// Radius of the icon's rounded corners, in pixels.
pub const CORNER_RADIUS: u32 = 40;

/// Where the severity circle has its centre, from the left edge.
pub const CIRCLE_CENTER_X: i32 = 60;

/// Radius of the severity circle, in pixels.
pub const CIRCLE_RADIUS: i32 = 40;

/// Where the text starts, from the left edge.
pub const TEXT_X: i32 = 130;

/// Where the text starts, from the top edge.
pub const TEXT_Y: i32 = 4;

/// Line height of the text, in pixels.
pub const TEXT_SCALE: u16 = 120;

/// Lowest temperature that is shown as warm.
pub const WARM_FROM: u8 = 75;

/// Lowest temperature that is shown as hot.
pub const HOT_FROM: u8 = 90;

/// The colour of the icon's background: white, slightly translucent.
pub open spec fn background_color() -> Color {
    Color { red: 255, green: 255, blue: 255, alpha: 230 }
}

/// The colour of a pixel that nothing was painted on.
pub open spec fn transparent() -> Color {
    Color { red: 0, green: 0, blue: 0, alpha: 0 }
}

/// The colour of the severity circle: green below `WARM_FROM`, orange from
/// there to below `HOT_FROM`, red from there on.
pub open spec fn severity_color_of(temp: u8) -> Color {
    if temp < WARM_FROM {
        Color { red: 0, green: 205, blue: 0, alpha: 255 }
    } else if temp < HOT_FROM {
        Color { red: 255, green: 165, blue: 0, alpha: 255 }
    } else {
        Color { red: 235, green: 0, blue: 0, alpha: 255 }
    }
}

/// Number of decimal digits of `value`.
pub open spec fn digit_count_of(value: u8) -> int {
    if value < 10 {
        1
    } else if value < 100 {
        2
    } else {
        3
    }
}

/// Width of the icon for `temp`: margins, the circle, and 60 pixels for each
/// digit of the number.
pub open spec fn icon_width_of(temp: u8) -> int {
    20 + 80 + 20 + digit_count_of(temp) * 60 + 40 + 20
}

/// The centre of the arc that rounds the corner in whose square `(x, y)`
/// lies, in an image of the given size; `None` for a pixel in no corner
/// square. The squares have the radius as their side.
pub open spec fn corner_center(x: int, y: int, width: int, height: int) -> Option<(int, int)> {
    let r = CORNER_RADIUS as int;
    if x < r && y < r {
        Some((r, r))
    } else if x >= width - r && y < r {
        Some((width - r, r))
    } else if x < r && y >= height - r {
        Some((r, height - r))
    } else if x >= width - r && y >= height - r {
        Some((width - r, height - r))
    } else {
        None
    }
}

/// Whether the background covers pixel `(x, y)`: outside the corner squares
/// always, inside one only as far as the radius reaches from the centre of
/// its arc.
pub open spec fn is_painted(x: int, y: int, width: int, height: int) -> bool {
    match corner_center(x, y, width, height) {
        Some((cx, cy)) => (x - cx) * (x - cx) + (y - cy) * (y - cy) <= CORNER_RADIUS
            * CORNER_RADIUS,
        None => true,
    }
}

/// The colour of pixel `(x, y)` of the background.
pub open spec fn background_pixel(x: int, y: int, width: int, height: int) -> Color {
    if is_painted(x, y, width, height) {
        background_color()
    } else {
        transparent()
    }
}

/// Byte `i` of the background of an image of the given size.
pub open spec fn background_byte(i: int, width: int, height: int) -> u8 {
    let pixel = i / 4;
    background_pixel(pixel % width, pixel / width, width, height).channels()[i % 4]
}

/// The bytes of the background: a white rectangle with rounded corners on
/// transparent ground.
pub open spec fn background_bytes(width: int, height: int) -> Seq<u8> {
    Seq::new((4 * (width * height)) as nat, |i: int| background_byte(i, width, height))
}

/// Counts the decimal digits of `value`.
pub fn digit_count(value: u8) -> (count: u32)
    ensures
        count == digit_count_of(value),
{
    if value < 10 {
        1
    } else if value < 100 {
        2
    } else {
        3
    }
}

/// Computes the width of the icon for `temp`.
pub fn icon_width(temp: u8) -> (width: u32)
    ensures
        width == icon_width_of(temp),
        width == 180 + 60 * digit_count_of(temp),
{
    20 + 80 + 20 + digit_count(temp) * 60 + 40 + 20
}

/// Picks the colour of the severity circle.
pub fn severity_color(temp: u8) -> (color: Color)
    ensures
        color == severity_color_of(temp),
{
    if temp < WARM_FROM {
        Color { red: 0, green: 205, blue: 0, alpha: 255 }
    } else if temp < HOT_FROM {
        Color { red: 255, green: 165, blue: 0, alpha: 255 }
    } else {
        Color { red: 235, green: 0, blue: 0, alpha: 255 }
    }
}

/// Whether `(dx, dy)`, the way from the centre of an arc to a pixel, stays
/// within the corner radius.
fn within_radius(dx: i64, dy: i64) -> (within: bool)
    ensures
        within == (dx * dx + dy * dy <= CORNER_RADIUS * CORNER_RADIUS),
{
    let r: i64 = CORNER_RADIUS as i64;
    if dx < -r || dx > r || dy < -r || dy > r {
        assert(dx * dx + dy * dy > 1600) by (nonlinear_arith)
            requires
                dx < -40 || dx > 40 || dy < -40 || dy > 40,
        ;
        false
    } else {
        assert(0 <= dx * dx <= 1600 && 0 <= dy * dy <= 1600) by (nonlinear_arith)
            requires
                -40 <= dx <= 40,
                -40 <= dy <= 40,
        ;
        dx * dx + dy * dy <= r * r
    }
}

/// Decides whether the background covers pixel `(x, y)` of an image of the
/// given size.
pub fn in_rounded_rect(x: u32, y: u32, width: u32, height: u32) -> (painted: bool)
    ensures
        painted == is_painted(x as int, y as int, width as int, height as int),
{
    let r: i64 = CORNER_RADIUS as i64;
    let px: i64 = x as i64;
    let py: i64 = y as i64;
    let right: i64 = width as i64 - r;
    let bottom: i64 = height as i64 - r;
    if px < r && py < r {
        within_radius(px - r, py - r)
    } else if px >= right && py < r {
        within_radius(px - right, py - r)
    } else if px < r && py >= bottom {
        within_radius(px - r, py - bottom)
    } else if px >= right && py >= bottom {
        within_radius(px - right, py - bottom)
    } else {
        true
    }
}

/// Pixel `(x, y)` of an image `width` pixels wide occupies four bytes that
/// belong to no other pixel, and they lie inside an image that has row `y`.
proof fn lemma_pixel_bytes(width: int, height: int, x: int, y: int)
    requires
        0 <= x < width,
        0 <= y < height,
    ensures
        0 <= pixel_offset(width, x, y),
        pixel_offset(width, x, y) + 4 <= 4 * (width * height),
        (y * width + x) / width == y,
        (y * width + x) % width == x,
        pixel_offset(width, x, y) + 4 == if x + 1 < width {
            pixel_offset(width, x + 1, y)
        } else {
            pixel_offset(width, 0, y + 1)
        },
{
    assert(0 <= y * width && (y + 1) * width <= height * width && (y + 1) * width == y * width
        + width && width * height == height * width) by (nonlinear_arith)
        requires
            0 <= y < height,
            0 < width,
    ;
    lemma_fundamental_div_mod_converse(y * width + x, width, y, x);
}

/// Paints the background: an image of the given size, transparent, with a
/// white rectangle with rounded corners over all of it. The bytes of a row,
/// and of the whole image, must not be more than a vector can hold.
pub fn paint_background(width: u32, height: u32) -> (canvas: Canvas)
    requires
        4 * width <= isize::MAX,
        4 * (width * height) <= isize::MAX,
    ensures
        canvas_size(canvas) == (width, height),
        canvas_bytes(canvas) == background_bytes(width as int, height as int),
{
    let ghost w = width as int;
    let ghost h = height as int;
    let ghost total = 4 * (w * h);
    let white = Color { red: 255, green: 255, blue: 255, alpha: 230 };
    let mut canvas = Canvas::blank(width, height);
    let mut y: u32 = 0;
    while y < height
        invariant
            y <= height,
            w == width,
            h == height,
            total == 4 * (w * h),
            white == background_color(),
            canvas_size(canvas) == (width, height),
            canvas_bytes(canvas).len() == total,
            forall|i: int|
                0 <= i < total ==> #[trigger] canvas_bytes(canvas)[i] == if i < pixel_offset(
                    w,
                    0,
                    y as int,
                ) {
                    background_byte(i, w, h)
                } else {
                    0u8
                },
        decreases height - y,
    {
        let mut x: u32 = 0;
        while x < width
            invariant
                x <= width,
                y < height,
                w == width,
                h == height,
                total == 4 * (w * h),
                white == background_color(),
                canvas_size(canvas) == (width, height),
                canvas_bytes(canvas).len() == total,
                forall|i: int|
                    0 <= i < total ==> #[trigger] canvas_bytes(canvas)[i] == if i < pixel_offset(
                        w,
                        x as int,
                        y as int,
                    ) {
                        background_byte(i, w, h)
                    } else {
                        0u8
                    },
            decreases width - x,
        {
            let ghost before = canvas_bytes(canvas);
            let ghost at = pixel_offset(w, x as int, y as int);
            let painted = in_rounded_rect(x, y, width, height);
            if painted {
                canvas.put_pixel(x, y, white);
            }
            proof {
                lemma_pixel_bytes(w, h, x as int, y as int);
                let after = canvas_bytes(canvas);
                assert forall|i: int| 0 <= i < total implies #[trigger] after[i] == if i < at + 4 {
                    background_byte(i, w, h)
                } else {
                    0u8
                } by {
                    if at <= i < at + 4 {
                        assert(i / 4 == y * w + x);
                        assert(i % 4 == i - at);
                        if !painted {
                            assert(after[i] == before[i]);
                        }
                    } else {
                        assert(after[i] == before[i]);
                    }
                }
            }
            x += 1;
        }
        proof {
            if width > 0 {
                lemma_pixel_bytes(w, h, w - 1, y as int);
            } else {
                assert(pixel_offset(w, 0, y as int) == pixel_offset(w, 0, y + 1));
            }
        }
        y += 1;
    }
    proof {
        assert(pixel_offset(w, 0, h) == total) by (nonlinear_arith)
            requires
                total == 4 * (w * h),
        ;
        assert(canvas_bytes(canvas) =~= background_bytes(w, h));
    }
    canvas
}

/// The character for digit `d`.
pub open spec fn digit_char(d: int) -> char {
    "0123456789"@[d]
}

/// `value` in decimal notation.
pub open spec fn decimal(value: u8) -> Seq<char> {
    let v = value as int;
    if v < 10 {
        seq![digit_char(v)]
    } else if v < 100 {
        seq![digit_char(v / 10), digit_char(v % 10)]
    } else {
        seq![digit_char(v / 100), digit_char(v / 10 % 10), digit_char(v % 10)]
    }
}

/// The text on the icon: the temperature in decimal notation and a degree
/// sign.
pub open spec fn label_text(temp: u8) -> Seq<char> {
    decimal(temp) + "\u{b0}"@
}

/// The colour of the text: black, slightly translucent.
pub open spec fn text_color() -> Color {
    Color { red: 0, green: 0, blue: 0, alpha: 215 }
}

/// The bytes of the icon before the text is drawn: the background with the
/// severity circle on it.
pub open spec fn badge_bytes(temp: u8) -> Seq<u8> {
    filled_circle(
        background_bytes(icon_width_of(temp), ICON_HEIGHT as int),
        icon_width_of(temp) as u32,
        ICON_HEIGHT,
        CIRCLE_CENTER_X as int,
        ICON_HEIGHT as int / 2,
        CIRCLE_RADIUS as int,
        severity_color_of(temp).channels(),
    )
}

/// The bytes of the finished icon, drawn with the font in `font`.
pub open spec fn icon_bytes(temp: u8, font: Seq<u8>) -> Seq<u8> {
    drawn_text(
        badge_bytes(temp),
        icon_width_of(temp) as u32,
        ICON_HEIGHT,
        text_color().channels(),
        TEXT_X as int,
        TEXT_Y as int,
        TEXT_SCALE as int,
        font,
        label_text(temp),
    )
}

/// An image as it is handed to the platform: its size, and four bytes (red,
/// green, blue, opacity) for each pixel, row by row from the top.
#[derive(Debug)]
pub struct Bitmap {
    pub width: u32,
    pub height: u32,
    pub rgba: Vec<u8>,
}

/// What a `Bitmap` stands for.
pub struct Picture {
    pub width: int,
    pub height: int,
    pub bytes: Seq<u8>,
}

impl View for Bitmap {
    type V = Picture;

    open spec fn view(&self) -> Picture {
        Picture { width: self.width as int, height: self.height as int, bytes: self.rgba@ }
    }
}

/// Why no icon could be made.
#[derive(Clone, Copy, Debug, PartialEq, Eq, Structural)]
pub enum IconError {
    /// The bytes given as the font are not a font.
    InvalidFont,
    /// The font's line height is not a positive number of at least half the
    /// scale of the text, so the text cannot be scaled to it.
    UnusableLineHeight,
}

/// The icon for `temp` with the font in `font`, or the reason why there is
/// none.
pub open spec fn icon_for(temp: u8, font: Seq<u8>) -> Result<Picture, IconError> {
    if !is_font(font) {
        Err(IconError::InvalidFont)
    } else if !has_line_height(line_height_bits(font), TEXT_SCALE as int) {
        Err(IconError::UnusableLineHeight)
    } else {
        Ok(
            Picture {
                width: icon_width_of(temp),
                height: ICON_HEIGHT as int,
                bytes: icon_bytes(temp, font),
            },
        )
    }
}

/// What the outcome of making an icon stands for.
pub open spec fn rendering(icon: Result<Bitmap, IconError>) -> Result<Picture, IconError> {
    match icon {
        Ok(bitmap) => Ok(bitmap@),
        Err(error) => Err(error),
    }
}

/// The one-character text for digit `d`.
fn digit_text(d: u8) -> (text: &'static str)
    requires
        d < 10,
    ensures
        text@ == seq![digit_char(d as int)],
{
    proof {
        reveal_strlit("0123456789");
        reveal_strlit("0");
        reveal_strlit("1");
        reveal_strlit("2");
        reveal_strlit("3");
        reveal_strlit("4");
        reveal_strlit("5");
        reveal_strlit("6");
        reveal_strlit("7");
        reveal_strlit("8");
        reveal_strlit("9");
    }
    let text = if d == 0 {
        "0"
    } else if d == 1 {
        "1"
    } else if d == 2 {
        "2"
    } else if d == 3 {
        "3"
    } else if d == 4 {
        "4"
    } else if d == 5 {
        "5"
    } else if d == 6 {
        "6"
    } else if d == 7 {
        "7"
    } else if d == 8 {
        "8"
    } else {
        "9"
    };
    assert(text@ =~= seq![digit_char(d as int)]);
    text
}

/// Writes the text that the icon shows for `temp`.
pub fn label_for(temp: u8) -> (text: String)
    ensures
        text@ == label_text(temp),
        text@.len() == digit_count_of(temp) + 1,
{
    let mut text = String::new();
    if temp >= 100 {
        text.append(digit_text(temp / 100));
    }
    if temp >= 10 {
        text.append(digit_text(temp / 10 % 10));
    }
    text.append(digit_text(temp % 10));
    text.append("\u{b0}");
    proof {
        reveal_strlit("\u{b0}");
        assert(text@ =~= label_text(temp));
    }
    text
}

/// Draws the severity circle for `temp` onto `canvas`.
pub fn draw_severity_circle(canvas: &mut Canvas, temp: u8)
    ensures
        canvas_size(*final(canvas)) == canvas_size(*old(canvas)),
        canvas_bytes(*final(canvas)).len() == canvas_bytes(*old(canvas)).len(),
        canvas_bytes(*final(canvas)) == filled_circle(
            canvas_bytes(*old(canvas)),
            canvas_size(*old(canvas)).0,
            canvas_size(*old(canvas)).1,
            CIRCLE_CENTER_X as int,
            ICON_HEIGHT as int / 2,
            CIRCLE_RADIUS as int,
            severity_color_of(temp).channels(),
        ),
{
    let center_y: i32 = (ICON_HEIGHT / 2) as i32;
    canvas.fill_circle(CIRCLE_CENTER_X, center_y, CIRCLE_RADIUS, severity_color(temp));
}

/// Draws the text for `temp` onto `canvas`, with a font whose line height
/// is a positive number of at least half the scale of the text.
pub fn draw_label(canvas: &mut Canvas, temp: u8, font: &ab_glyph::FontRef)
    requires
        has_line_height(line_height_bits(font_bytes(*font)), TEXT_SCALE as int),
    ensures
        canvas_size(*final(canvas)) == canvas_size(*old(canvas)),
        canvas_bytes(*final(canvas)).len() == canvas_bytes(*old(canvas)).len(),
        canvas_bytes(*final(canvas)) == drawn_text(
            canvas_bytes(*old(canvas)),
            canvas_size(*old(canvas)).0,
            canvas_size(*old(canvas)).1,
            text_color().channels(),
            TEXT_X as int,
            TEXT_Y as int,
            TEXT_SCALE as int,
            font_bytes(*font),
            label_text(temp),
        ),
{
    let text = label_for(temp);
    let black = Color { red: 0, green: 0, blue: 0, alpha: 215 };
    canvas.draw_text(black, TEXT_X, TEXT_Y, TEXT_SCALE, font, text.as_str());
}

/// Whether `bits` is the pattern of a line height that text can be scaled
/// to `scale` pixels with.
pub fn usable_line_height(bits: u32, scale: u16) -> (usable: bool)
    ensures
        usable == has_line_height(bits, scale as int),
{
    if bits == 0 || bits >= 0x7f80_0000 {
        return false;
    }
    let exponent: u32 = bits / 0x80_0000;
    if exponent < 126 {
        return scale == 0;
    }
    if exponent > 136 {
        return scale <= 2048;
    }
    let significand: u32 = 0x80_0000 + bits % 0x80_0000;
    let shift: u32 = 149 - exponent;
    let doubled: u32 = significand >> shift;
    proof {
        lemma_u32_shr_is_div(significand, shift);
        lemma2_to64();
    }
    scale as u32 <= doubled
}

/// Takes the image off the canvas.
pub fn into_bitmap(canvas: Canvas) -> (bitmap: Bitmap)
    ensures
        bitmap.width == canvas_size(canvas).0,
        bitmap.height == canvas_size(canvas).1,
        bitmap.rgba@ == canvas_bytes(canvas),
{
    let (width, height) = canvas.dimensions();
    Bitmap { width, height, rgba: canvas.into_raw() }
}

/// Makes the icon for a temperature: the background, the severity circle in
/// the colour for `temp`, and the number with a degree sign, set in the font
/// that `font_data` holds.
pub fn create_icon_with_text(temp: u8, font_data: &[u8]) -> (icon: Result<Bitmap, IconError>)
    ensures
        rendering(icon) == icon_for(temp, font_data@),
        icon matches Ok(bitmap) ==> {
            &&& bitmap.height == 128
            &&& bitmap.width == 180 + digit_count_of(temp) * 60
            &&& bitmap.rgba@.len() == 4 * (bitmap.width * bitmap.height)
        },
{
    let width = icon_width(temp);
    let mut canvas = paint_background(width, ICON_HEIGHT);
    let font = match parse_font(font_data) {
        Ok(font) => font,
        Err(_) => {
            return Err(IconError::InvalidFont);
        },
    };
    if !usable_line_height(line_height(&font), TEXT_SCALE) {
        return Err(IconError::UnusableLineHeight);
    }
    draw_severity_circle(&mut canvas, temp);
    draw_label(&mut canvas, temp, &font);
    Ok(into_bitmap(canvas))
}

/// Every icon is 128 pixels high and `180 + 60 * digits` pixels wide, where
/// `digits` is the number of decimal digits of the temperature.
pub proof fn lemma_icon_size(temp: u8, font: Seq<u8>)
    ensures
        icon_for(temp, font) matches Ok(picture) ==> {
            &&& picture.height == 128
            &&& picture.width == 180 + decimal(temp).len() * 60
            &&& picture.width == 240 || picture.width == 300 || picture.width == 360
        },
{
}

/// The outcome of making an icon depends on the temperature and the font
/// alone: two outcomes for the same two are the same error, or images of
/// the same size with the same bytes.
pub proof fn lemma_same_input_same_icon(
    temp: u8,
    font: Seq<u8>,
    first: Result<Bitmap, IconError>,
    second: Result<Bitmap, IconError>,
)
    requires
        rendering(first) == icon_for(temp, font),
        rendering(second) == icon_for(temp, font),
    ensures
        first is Ok <==> second is Ok,
        first matches Err(error) ==> second == Err::<Bitmap, IconError>(error),
        first matches Ok(a) ==> second matches Ok(b) && a.width == b.width && a.height
            == b.height && a.rgba@ == b.rgba@,
{
}

/// Each pixel of the background has the colour that the rounding rule gives
/// it.
pub proof fn lemma_background_shows(width: int, height: int, x: int, y: int)
    requires
        0 <= x < width,
        0 <= y < height,
    ensures
        pixel_at(background_bytes(width, height), width, x, y) == background_pixel(
            x,
            y,
            width,
            height,
        ),
{
    lemma_pixel_bytes(width, height, x, y);
    let at = pixel_offset(width, x, y);
    assert(at / 4 == y * width + x);
    assert((at + 1) / 4 == y * width + x);
    assert((at + 2) / 4 == y * width + x);
    assert((at + 3) / 4 == y * width + x);
}

/// The background leaves a pixel of a corner square transparent exactly
/// where it lies farther from the centre of the corner's arc than the
/// radius, and covers every pixel outside the corner squares.
pub proof fn lemma_background_rounding(width: int, height: int, x: int, y: int)
    requires
        0 <= x < width,
        0 <= y < height,
    ensures
        corner_center(x, y, width, height) is None ==> pixel_at(
            background_bytes(width, height),
            width,
            x,
            y,
        ) == background_color(),
        corner_center(x, y, width, height) matches Some((cx, cy)) ==> (pixel_at(
            background_bytes(width, height),
            width,
            x,
            y,
        ) == transparent() <==> (x - cx) * (x - cx) + (y - cy) * (y - cy) > CORNER_RADIUS
            * CORNER_RADIUS),
{
    lemma_background_shows(width, height, x, y);
}

/// In the background of every icon the pixels in the four corners stay
/// transparent, and the pixels in the middle of the four edges are covered.
pub proof fn lemma_icon_corners_and_edges(temp: u8)
    ensures
        ({
            let w = icon_width_of(temp);
            let h = ICON_HEIGHT as int;
            let bytes = background_bytes(w, h);
            &&& pixel_at(bytes, w, 0, 0) == transparent()
            &&& pixel_at(bytes, w, w - 1, 0) == transparent()
            &&& pixel_at(bytes, w, 0, h - 1) == transparent()
            &&& pixel_at(bytes, w, w - 1, h - 1) == transparent()
            &&& pixel_at(bytes, w, w / 2, 0) == background_color()
            &&& pixel_at(bytes, w, w / 2, h - 1) == background_color()
            &&& pixel_at(bytes, w, 0, h / 2) == background_color()
            &&& pixel_at(bytes, w, w - 1, h / 2) == background_color()
        }),
{
    let w = icon_width_of(temp);
    let h = ICON_HEIGHT as int;
    lemma_background_shows(w, h, 0, 0);
    lemma_background_shows(w, h, w - 1, 0);
    lemma_background_shows(w, h, 0, h - 1);
    lemma_background_shows(w, h, w - 1, h - 1);
    lemma_background_shows(w, h, w / 2, 0);
    lemma_background_shows(w, h, w / 2, h - 1);
    lemma_background_shows(w, h, 0, h / 2);
    lemma_background_shows(w, h, w - 1, h / 2);
    assert(w == 240 || w == 300 || w == 360);
    assert(CORNER_RADIUS * CORNER_RADIUS == 1600);
    assert(!is_painted(0, 0, w, h)) by {
        assert(corner_center(0, 0, w, h) == Some((40int, 40int)));
        assert((0 - 40) * (0 - 40) == 1600) by (nonlinear_arith);
    }
    assert(!is_painted(w - 1, 0, w, h)) by {
        assert(corner_center(w - 1, 0, w, h) == Some((w - 40, 40int)));
        assert((w - 1 - (w - 40)) * (w - 1 - (w - 40)) == 1521) by (nonlinear_arith);
        assert((0 - 40) * (0 - 40) == 1600) by (nonlinear_arith);
    }
    assert(!is_painted(0, h - 1, w, h)) by {
        assert(corner_center(0, h - 1, w, h) == Some((40int, 88int)));
        assert((0 - 40) * (0 - 40) == 1600) by (nonlinear_arith);
        assert((h - 1 - 88) * (h - 1 - 88) == 1521) by (nonlinear_arith)
            requires
                h == 128,
        ;
    }
    assert(!is_painted(w - 1, h - 1, w, h)) by {
        assert(corner_center(w - 1, h - 1, w, h) == Some((w - 40, 88int)));
        assert((w - 1 - (w - 40)) * (w - 1 - (w - 40)) == 1521) by (nonlinear_arith);
        assert((h - 1 - 88) * (h - 1 - 88) == 1521) by (nonlinear_arith)
            requires
                h == 128,
        ;
    }
    assert(corner_center(w / 2, 0, w, h) is None);
    assert(corner_center(w / 2, h - 1, w, h) is None);
    assert(corner_center(0, h / 2, w, h) is None);
    assert(corner_center(w - 1, h / 2, w, h) is None);
}

/// For the text of the icon the line heights that can be used are the
/// numbers from 60 on: the bit patterns from that of 60 up to, but not
/// including, that of infinity.
pub proof fn lemma_line_height_for_text(bits: u32)
    ensures
        has_line_height(bits, TEXT_SCALE as int) <==> 0x4270_0000 <= bits < 0x7f80_0000,
{
}

} // verus!
