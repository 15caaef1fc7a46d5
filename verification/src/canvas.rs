//! Trusted boundary to the raster, text and randomness crates.
//!
//! Everything the chart engine decides — label runs, tick positions,
//! projections, marker weights — is computed in verified code as plain
//! integers; the items here only carry those values across to the outside
//! crates that allocate pixel buffers, rasterize primitives and glyphs, and
//! draw random colors. Each item's body holds one outside call and the
//! conversions of its arguments, nothing more.
//!
//! What a canvas holds is abstracted as its draw trace: the sequence of
//! [`DrawOp`]s performed on it, named by the uninterpreted [`canvas_ops`].
//! A fresh canvas's trace is empty and each drawing wrapper appends exactly
//! its own op, so a renderer's contract can say which primitives were drawn,
//! with which arguments, in which order — the pixels themselves stay with
//! the outside crates.

use rand::Rng;
use vstd::prelude::*;

verus! {

/// The raster canvas capability: an RGB buffer of the image crate, held
/// opaquely. The buffer type's own generics carry a trait bound Verus does
/// not take, so the buffer lives in a hidden field; the drawing wrappers
/// below are its only verified surface.
#[verifier::external_body]
pub struct Canvas {
    /// The underlying image-crate buffer. Unverified callers take it to
    /// encode or persist the composed image; verified code never reads it.
    pub buffer: image::RgbImage,
}

/// One primitive drawing effect recorded against a canvas.
pub enum DrawOp {
    /// Every sample set to one value.
    Fill(u8),
    /// An axis-aligned filled rectangle.
    Rect { x: i32, y: i32, width: u32, height: u32, color: (u8, u8, u8) },
    /// A text run rasterized with its layout origin at `(x, y)`.
    Text { x: i32, y: i32, scale: u16, text: Seq<char>, color: (u8, u8, u8) },
    /// Another buffer composited on with its top-left at the given offsets.
    Overlay { dx: i64, dy: i64 },
    /// A filled circle.
    Disc { x: i32, y: i32, radius: i32, color: (u8, u8, u8) },
}

/// The draw trace of a canvas: every drawing op performed on it, oldest
/// first. A fresh canvas's trace is empty; each wrapper below appends the one
/// op it performs.
pub uninterp spec fn canvas_ops(c: Canvas) -> Seq<DrawOp>;

/// The decimal rendering of an integer, as the standard formatter writes it —
/// a function of the value alone.
pub uninterp spec fn decimal_of(value: int) -> Seq<char>;

/// The three channel values an RGB color of the image crate holds.
pub uninterp spec fn rgb_channels(c: image::Rgb<u8>) -> (u8, u8, u8);

/// The four channel values an RGB-with-alpha color of the image crate holds.
pub uninterp spec fn rgba_channels(c: image::Rgba<u8>) -> (u8, u8, u8, u8);

/// An opaque RGB color of the image crate.
#[verifier::external_type_specification]
#[verifier::external_body]
#[verifier::reject_recursive_types(T)]
pub struct ExRgb<T>(image::Rgb<T>);

/// An opaque RGB-with-alpha color of the image crate.
#[verifier::external_type_specification]
#[verifier::external_body]
#[verifier::reject_recursive_types(T)]
pub struct ExRgba<T>(image::Rgba<T>);

/// An opaque parsed font of the rusttype crate. Loading font assets is the
/// caller's business; the engine only hands the font to the text calls.
#[verifier::external_type_specification]
#[verifier::external_body]
pub struct ExFont<'a>(rusttype::Font<'a>);

/// Relies on image::RgbImage::new: a freshly allocated canvas of the given
/// dimensions. The bound keeps the buffer length far from overflowing, which
/// is the one input `new` panics on.
#[verifier::external_body]
pub(crate) fn new_canvas(width: u32, height: u32) -> (r: Canvas)
    requires
        width <= 100_000,
        height <= 100_000,
    ensures
        canvas_ops(r) == Seq::<DrawOp>::empty(),
{
    Canvas { buffer: image::RgbImage::new(width, height) }
}

/// Relies on `<[u8]>::fill` reached through the buffer's `DerefMut`: every
/// sample of the canvas is set to `value`.
#[verifier::external_body]
pub(crate) fn fill_canvas(canvas: &mut Canvas, value: u8)
    ensures
        canvas_ops(*final(canvas)) == canvas_ops(*old(canvas)).push(DrawOp::Fill(value)),
{
    canvas.buffer.fill(value);
}

/// Relies on imageproc::drawing::draw_filled_rect_mut: fills the axis-aligned
/// rectangle with its top-left at `(x, y)`, clipped to the canvas. The engine
/// draws its axis lines and tick marks with one-pixel-wide rectangles. The
/// bounds keep the crate's internal intersection arithmetic in range; a zero
/// width or height is the one input `Rect::of_size` panics on.
#[verifier::external_body]
pub(crate) fn draw_filled_rect(
    canvas: &mut Canvas,
    x: i32,
    y: i32,
    width: u32,
    height: u32,
    color: (u8, u8, u8),
)
    requires
        -100_000 <= x <= 100_000,
        -100_000 <= y <= 100_000,
        1 <= width <= 100_000,
        1 <= height <= 100_000,
    ensures
        canvas_ops(*final(canvas)) == canvas_ops(*old(canvas)).push(
            DrawOp::Rect { x, y, width, height, color },
        ),
{
    imageproc::drawing::draw_filled_rect_mut(
        &mut canvas.buffer,
        imageproc::rect::Rect::at(x, y).of_size(width, height),
        image::Rgb([color.0, color.1, color.2]),
    );
}

/// Relies on imageproc::drawing::text_size: the extents of the pixel bounding
/// box of `text` laid out in `font` at the given uniform scale. Both extents
/// start at zero and only grow while glyph boxes are folded in, so neither is
/// ever negative.
#[verifier::external_body]
pub(crate) fn measure_text<'a>(scale: u16, font: &rusttype::Font<'a>, text: &str) -> (r: (
    i32,
    i32,
))
    ensures
        r.0 >= 0,
        r.1 >= 0,
{
    let s = rusttype::Scale { x: scale.into(), y: scale.into() };
    imageproc::drawing::text_size(s, font, text)
}

/// Relies on imageproc::drawing::draw_text_mut: rasterizes `text` in `font`
/// at the given uniform scale with its layout origin at `(x, y)`, clipping to
/// the canvas. The bounds keep the crate's per-glyph coordinate sums in
/// range.
#[verifier::external_body]
pub(crate) fn draw_text<'a>(
    canvas: &mut Canvas,
    color: (u8, u8, u8),
    x: i32,
    y: i32,
    scale: u16,
    font: &rusttype::Font<'a>,
    text: &str,
)
    requires
        -1_000_000 <= x <= 1_000_000,
        -1_000_000 <= y <= 1_000_000,
    ensures
        canvas_ops(*final(canvas)) == canvas_ops(*old(canvas)).push(
            DrawOp::Text { x, y, scale, text: text@, color },
        ),
{
    let s = rusttype::Scale { x: scale.into(), y: scale.into() };
    imageproc::drawing::draw_text_mut(
        &mut canvas.buffer,
        image::Rgb([color.0, color.1, color.2]),
        x,
        y,
        s,
        font,
        text,
    );
}

/// Relies on image::imageops::rotate270: a new buffer holding the image
/// rotated 270 degrees clockwise, its dimensions swapped.
#[verifier::external_body]
pub(crate) fn rotate_270(image: &Canvas) -> Canvas {
    Canvas { buffer: image::imageops::rotate270(&image.buffer) }
}

/// Relies on image::imageops::overlay: composites `top` onto `bottom` with
/// its top-left corner at `(x, y)`, clipping to `bottom`'s bounds.
#[verifier::external_body]
pub(crate) fn overlay_at(bottom: &mut Canvas, top: &Canvas, x: i64, y: i64)
    ensures
        canvas_ops(*final(bottom)) == canvas_ops(*old(bottom)).push(
            DrawOp::Overlay { dx: x, dy: y },
        ),
{
    image::imageops::overlay(&mut bottom.buffer, &top.buffer, x, y);
}

/// Relies on imageproc::drawing::draw_filled_circle_mut: fills the circle of
/// the given center and radius, clipped to the canvas. The bounds keep the
/// crate's internal midpoint-circle arithmetic in i32: its running error
/// term stays within twice the radius plus five, and each plotted
/// coordinate within the center bound plus the radius.
#[verifier::external_body]
pub(crate) fn draw_disc(
    canvas: &mut Canvas,
    cx: i32,
    cy: i32,
    radius: i32,
    color: (u8, u8, u8),
)
    requires
        -2_000_000 <= cx <= 2_000_000,
        -2_000_000 <= cy <= 2_000_000,
        0 <= radius <= 400_000_000,
    ensures
        canvas_ops(*final(canvas)) == canvas_ops(*old(canvas)).push(
            DrawOp::Disc { x: cx, y: cy, radius, color },
        ),
{
    imageproc::drawing::draw_filled_circle_mut(
        &mut canvas.buffer,
        (cx, cy),
        radius,
        image::Rgb([color.0, color.1, color.2]),
    );
}

/// Relies on rand::thread_rng and rand::Rng::gen_range: three channel values
/// drawn independently from `0..255`, so each is strictly below 255. Nothing
/// more can be said of a random draw.
#[verifier::external_body]
pub(crate) fn random_channels() -> (r: (u8, u8, u8))
    ensures
        r.0 < 255,
        r.1 < 255,
        r.2 < 255,
{
    let mut rng = rand::thread_rng();
    (rng.gen_range(0..255), rng.gen_range(0..255), rng.gen_range(0..255))
}

/// Relies on the image crate's `Rgb` tuple constructor: packs the three
/// channel values into a color, one for one.
#[verifier::external_body]
pub(crate) fn rgb_from_channels(c: (u8, u8, u8)) -> (r: image::Rgb<u8>)
    ensures
        rgb_channels(r) == c,
{
    image::Rgb([c.0, c.1, c.2])
}

/// Relies on the image crate's `Rgba` tuple constructor: packs the three
/// channel values and the alpha value into a color, one for one.
#[verifier::external_body]
pub(crate) fn rgba_from_channels(c: (u8, u8, u8), alpha: u8) -> (r: image::Rgba<u8>)
    ensures
        rgba_channels(r) == (c.0, c.1, c.2, alpha),
{
    image::Rgba([c.0, c.1, c.2, alpha])
}

/// Relies on the standard formatting machinery: the decimal rendering of a
/// label value, used as the label's tick text — a function of the value
/// alone.
#[verifier::external_body]
pub(crate) fn label_text(value: i64) -> (r: String)
    ensures
        r@ == decimal_of(value as int),
{
    format!("{}", value)
}

} // verus!
