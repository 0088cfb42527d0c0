//! The pixel buffers of the `image` crate, as the compositor sees them.
use vstd::prelude::*;

verus! {

/// An RGB image with eight bits per channel, held in the `image` crate's buffer.
#[verifier::external_body]
pub struct Raster {
    img: image::RgbImage,
}

/// Width in pixels of an RGB image.
pub uninterp spec fn rgb_width(img: Raster) -> nat;

/// Height in pixels of an RGB image.
pub uninterp spec fn rgb_height(img: Raster) -> nat;

/// The pixels of an RGB image, row after row.
pub uninterp spec fn rgb_pixels(img: Raster) -> Seq<(u8, u8, u8)>;

/// Relies on `ImageBuffer::new`: a zero-filled (black) buffer of the given size.
#[verifier::external_body]
pub(crate) fn blank_image(width: u32, height: u32) -> (r: Raster)
    requires
        3 * (width as int) * (height as int) <= usize::MAX,
    ensures
        rgb_width(r) == width,
        rgb_height(r) == height,
        rgb_pixels(r) == Seq::new((width * height) as nat, |i: int| (0u8, 0u8, 0u8)),
{
    Raster { img: image::RgbImage::new(width, height) }
}

/// The pixel at column `x`, row `y` of a row-major buffer `width` pixels wide.
pub open spec fn pixel_at(pixels: Seq<(u8, u8, u8)>, width: nat, x: int, y: int) -> (u8, u8, u8) {
    pixels[y * width + x]
}

/// The pixels of `bottom` after `top` is laid over it opaquely with its
/// top-left corner at `(x, y)`; what falls outside `bottom` is cut off.
pub open spec fn overlaid(
    bottom: Seq<(u8, u8, u8)>,
    bottom_width: nat,
    top: Seq<(u8, u8, u8)>,
    top_width: nat,
    top_height: nat,
    x: int,
    y: int,
) -> Seq<(u8, u8, u8)> {
    Seq::new(
        bottom.len(),
        |i: int|
            {
                let px = i % bottom_width as int;
                let py = i / bottom_width as int;
                if x <= px < x + top_width && y <= py < y + top_height {
                    pixel_at(top, top_width, px - x, py - y)
                } else {
                    bottom[i]
                }
            },
    )
}

/// What nearest-neighbour resampling makes of a `width` by `height` image
/// when it is scaled to `new_width` by `new_height`.
pub uninterp spec fn nearest_resized(
    pixels: Seq<(u8, u8, u8)>,
    width: nat,
    height: nat,
    new_width: nat,
    new_height: nat,
) -> Seq<(u8, u8, u8)>;

/// The image that a byte string decodes to, in RGB, as width, height and
/// pixels; `None` where the bytes are no image of a known format.
pub uninterp spec fn decoded_rgb(bytes: Seq<u8>) -> Option<(nat, nat, Seq<(u8, u8, u8)>)>;

/// The bytes of an image encoded as WebP (`webp`) or else as PNG; `None`
/// where the encoder refuses it.
pub uninterp spec fn encoded_image(
    width: nat,
    height: nat,
    pixels: Seq<(u8, u8, u8)>,
    webp: bool,
) -> Option<Seq<u8>>;

/// A raster's width, height and pixels.
pub open spec fn raster_view(r: Raster) -> (nat, nat, Seq<(u8, u8, u8)>) {
    (rgb_width(r), rgb_height(r), rgb_pixels(r))
}

impl Raster {
    /// Relies on `ImageBuffer::width`.
    #[verifier::external_body]
    pub fn width(&self) -> (r: u32)
        ensures
            r == rgb_width(*self),
    {
        self.img.width()
    }

    /// Relies on `ImageBuffer::height`.
    #[verifier::external_body]
    pub fn height(&self) -> (r: u32)
        ensures
            r == rgb_height(*self),
    {
        self.img.height()
    }

    /// Relies on `image::load_from_memory` and `DynamicImage::to_rgb8`: the
    /// format is guessed from the bytes, and the decoded image converted to RGB.
    #[verifier::external_body]
    pub fn decode(bytes: &[u8]) -> (r: Option<Raster>)
        ensures
            r is None <==> decoded_rgb(bytes@) is None,
            r matches Some(img) ==> decoded_rgb(bytes@) == Some(raster_view(img)),
    {
        match image::load_from_memory(bytes) {
            Ok(img) => Some(Raster { img: img.to_rgb8() }),
            Err(_) => None,
        }
    }

    /// Relies on `DynamicImage::write_to` with `ImageFormat::WebP` or
    /// `ImageFormat::Png`, writing into memory.
    #[verifier::external_body]
    pub(crate) fn encode(&self, webp: bool) -> (r: Option<Vec<u8>>)
        ensures
            r is None <==> encoded_image(rgb_width(*self), rgb_height(*self), rgb_pixels(*self), webp) is None,
            r matches Some(b) ==> encoded_image(rgb_width(*self), rgb_height(*self), rgb_pixels(*self), webp) == Some(b@),
    {
        let format = if webp { image::ImageFormat::WebP } else { image::ImageFormat::Png };
        let mut out = std::io::Cursor::new(Vec::new());
        let img = image::DynamicImage::ImageRgb8(self.img.clone());
        match img.write_to(&mut out, format) {
            Ok(()) => Some(out.into_inner()),
            Err(_) => None,
        }
    }
}

/// Relies on `imageops::resize` with `FilterType::Nearest`, which panics on an
/// empty source image.
#[verifier::external_body]
pub(crate) fn resize_nearest(img: &Raster, width: u32, height: u32) -> (r: Raster)
    requires
        rgb_width(*img) > 0,
        rgb_height(*img) > 0,
        3 * (width as int) * (height as int) <= usize::MAX,
    ensures
        rgb_width(r) == width,
        rgb_height(r) == height,
        rgb_pixels(r) == nearest_resized(rgb_pixels(*img), rgb_width(*img), rgb_height(*img), width as nat, height as nat),
{
    Raster { img: image::imageops::resize(&img.img, width, height, image::imageops::FilterType::Nearest) }
}

/// Relies on `imageops::overlay`: for RGB pixels, blending replaces the pixel
/// below, so every pixel of `top` that lands inside `bottom` is copied over.
#[verifier::external_body]
pub(crate) fn overlay(bottom: &mut Raster, top: &Raster, x: i64, y: i64)
    requires
        x >= 0,
        y >= 0,
    ensures
        rgb_width(*final(bottom)) == rgb_width(*old(bottom)),
        rgb_height(*final(bottom)) == rgb_height(*old(bottom)),
        rgb_pixels(*final(bottom)) == overlaid(
            rgb_pixels(*old(bottom)),
            rgb_width(*old(bottom)),
            rgb_pixels(*top),
            rgb_width(*top),
            rgb_height(*top),
            x as int,
            y as int,
        ),
{
    image::imageops::overlay(&mut bottom.img, &top.img, x, y)
}

/// The pixels of a `width` by `height` image after `text` is drawn on it in
/// `colour`, starting at `(x, y)`, with the TrueType font held in `font` at
/// `size` pixels; the image unchanged where `font` holds no font.
pub uninterp spec fn text_drawn(
    pixels: Seq<(u8, u8, u8)>,
    width: nat,
    height: nat,
    colour: (u8, u8, u8),
    x: int,
    y: int,
    text: Seq<char>,
    font: Seq<u8>,
    size: nat,
) -> Seq<(u8, u8, u8)>;

/// Relies on `rusttype::Font::try_from_bytes` and
/// `imageproc::drawing::draw_text_mut`: the glyphs are blended into the canvas
/// where they fall inside it, the canvas keeps its size, and an empty text
/// draws nothing. imageproc adds glyph offsets to `x` and `y` in `i32`; the
/// bounds on position, size and length keep that sum in range.
#[verifier::external_body]
pub(crate) fn draw_text_mut(
    canvas: &mut Raster,
    colour: (u8, u8, u8),
    x: i32,
    y: i32,
    font: &[u8],
    size: u16,
    text: &str,
)
    requires
        -0x100_0000 <= x <= 0x100_0000,
        -0x100_0000 <= y <= 0x100_0000,
        size <= 32,
        text@.len() <= 4096,
    ensures
        rgb_width(*final(canvas)) == rgb_width(*old(canvas)),
        rgb_height(*final(canvas)) == rgb_height(*old(canvas)),
        rgb_pixels(*final(canvas)) == text_drawn(
            rgb_pixels(*old(canvas)),
            rgb_width(*old(canvas)),
            rgb_height(*old(canvas)),
            colour,
            x as int,
            y as int,
            text@,
            font@,
            size as nat,
        ),
        text@.len() == 0 ==> rgb_pixels(*final(canvas)) == rgb_pixels(*old(canvas)),
{
    if let Some(face) = rusttype::Font::try_from_bytes(font) {
        let pixel = image::Rgb([colour.0, colour.1, colour.2]);
        let scale = rusttype::Scale::uniform(size.into());
        imageproc::drawing::draw_text_mut(&mut canvas.img, pixel, x, y, scale, &face, text)
    }
}

} // verus!
