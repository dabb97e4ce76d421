//! Raster images as plain values, and the imaging library's work on them.

use vstd::prelude::*;
use crate::format::OutputFormat;
use crate::request::{CropBox, ProcessingParameters};

verus! {

/// An image of 8-bit RGBA pixels, row by row from the top left. All work of
/// this library is on such images: an upload of another depth or layout is
/// turned into 8-bit RGBA when it is decoded, and PNG and WebP files are
/// written with an alpha channel.
#[derive(Debug)]
pub struct Raster {
    pub width: u32,
    pub height: u32,
    pub pixels: Vec<u8>,
}

/// The mathematical value of a raster: width, height and the pixel bytes.
pub type RasterView = (u32, u32, Seq<u8>);

impl View for Raster {
    type V = RasterView;

    open spec fn view(&self) -> RasterView {
        (self.width, self.height, self.pixels@)
    }
}

/// Whether a raster value holds four bytes for each of its pixels.
pub open spec fn well_formed(image: RasterView) -> bool {
    image.2.len() == image.0 * image.1 * 4
}

/// Whether the buffers for an output of `height` rows, made from a source
/// `source_width` wide into a result `width` wide, can be allocated: sixteen
/// bytes for each pixel of the intermediate image, which has the source's
/// width and the result's height, and four for each pixel of the result.
pub open spec fn buffers_fit(source_width: u32, width: u32, height: u32) -> bool {
    &&& source_width * height * 16 <= isize::MAX
    &&& width * height * 4 <= isize::MAX
}

/// The pixels without their alpha channel: of every four bytes the first
/// three, in order.
pub open spec fn opaque_pixels(pixels: Seq<u8>) -> Seq<u8> {
    Seq::new((pixels.len() / 4 * 3) as nat, |k: int| pixels[(k / 3) * 4 + k % 3])
}

/// The bytes of the rectangle of `image` that has its top left corner at
/// (`x`, `y`) and is `width` by `height` pixels large.
pub open spec fn cropped_pixels(image: RasterView, x: u32, y: u32, width: u32, height: u32) -> Seq<
    u8,
> {
    Seq::new(
        (width * height * 4) as nat,
        |k: int| image.2[((y + (k / 4) / (width as int)) * image.0 + x + (k / 4) % (width as int)) * 4 + k % 4],
    )
}

/// What the imaging library decodes from the bytes of an image file: the
/// image as 8-bit RGBA, or the text of its error. This is the library's own
/// decoding: it holds in a process that registers no decoding hooks with
/// the imaging library.
pub uninterp spec fn decoded_image(bytes: Seq<u8>) -> Result<RasterView, Seq<char>>;


/// The PNG file that the imaging library writes for `image`.
pub uninterp spec fn png_encoding(image: RasterView) -> Result<Seq<u8>, Seq<char>>;

/// The WebP file that the imaging library writes for `image`.
pub uninterp spec fn webp_encoding(image: RasterView) -> Result<Seq<u8>, Seq<char>>;

/// The JPEG file that the imaging library writes, at the given quality, for
/// an image of the given size whose pixels are the given 8-bit RGB bytes.
pub uninterp spec fn jpeg_encoding(width: u32, height: u32, rgb: Seq<u8>, quality: u8) -> Result<
    Seq<u8>,
    Seq<char>,
>;

/// The BMP file that the imaging library writes for an image of the given
/// size whose pixels are the given 8-bit RGB bytes.
pub uninterp spec fn bmp_encoding(width: u32, height: u32, rgb: Seq<u8>) -> Result<
    Seq<u8>,
    Seq<char>,
>;

/// The views of an encoder's result.
pub open spec fn bytes_result_view(r: Result<Vec<u8>, String>) -> Result<Seq<u8>, Seq<char>> {
    match r {
        Ok(bytes) => Ok(bytes@),
        Err(text) => Err(text@),
    }
}

/// The views of a decoder's result.
pub open spec fn raster_result_view(r: Result<Raster, String>) -> Result<RasterView, Seq<char>> {
    match r {
        Ok(image) => Ok(image@),
        Err(text) => Err(text@),
    }
}

/// Calls `image::load_from_memory` and `DynamicImage::into_rgba8`. Trusted:
/// the outcome depends on the bytes alone, and a decoded image holds four
/// bytes for each pixel. The imaging library looks up decoding hooks in a
/// registry of the process; the claim is for a process that registers none,
/// and this library registers none.
#[verifier::external_body]
fn load_rgba(bytes: &[u8]) -> (r: Result<Raster, String>)
    ensures
        raster_result_view(r) == decoded_image(bytes@),
        r matches Ok(image) ==> well_formed(image@),
{
    match image::load_from_memory(bytes) {
        Ok(decoded) => {
            let rgba = decoded.into_rgba8();
            Ok(Raster { width: rgba.width(), height: rgba.height(), pixels: rgba.into_raw() })
        },
        Err(e) => Err(e.to_string()),
    }
}

/// Calls `DynamicImage::crop_imm`. Trusted: for a rectangle inside the
/// image, the result has the rectangle's size and holds the source's pixels
/// at the rectangle's places.
#[verifier::external_body]
fn crop_rgba(source: &Raster, x: u32, y: u32, width: u32, height: u32) -> (r: Raster)
    requires
        well_formed(source@),
        x + width <= source.width,
        y + height <= source.height,
    ensures
        r.width == width,
        r.height == height,
        r.pixels@ == cropped_pixels(source@, x, y, width, height),
{
    let buffer = image::RgbaImage::from_raw(source.width, source.height, source.pixels.clone());
    let cut = image::DynamicImage::ImageRgba8(buffer.unwrap()).crop_imm(x, y, width, height);
    let rgba = cut.into_rgba8();
    Raster { width: rgba.width(), height: rgba.height(), pixels: rgba.into_raw() }
}

/// Calls `DynamicImage::resize_exact` with `FilterType::Lanczos3`. Trusted:
/// for sizes that are positive and whose buffers can be allocated, the
/// result has exactly the size asked for and four bytes for each pixel.
/// Nothing is claimed of the pixel values: the filter's weights come from
/// floating-point routines whose last bits may differ between machines.
#[verifier::external_body]
fn resize_rgba(source: &Raster, width: u32, height: u32) -> (r: Raster)
    requires
        well_formed(source@),
        source.width > 0,
        source.height > 0,
        width > 0,
        height > 0,
        buffers_fit(source.width, width, height),
    ensures
        r.width == width,
        r.height == height,
        well_formed(r@),
{
    let buffer = image::RgbaImage::from_raw(source.width, source.height, source.pixels.clone());
    let sized = image::DynamicImage::ImageRgba8(buffer.unwrap()).resize_exact(
        width,
        height,
        image::imageops::FilterType::Lanczos3,
    );
    let rgba = sized.into_rgba8();
    Raster { width: rgba.width(), height: rgba.height(), pixels: rgba.into_raw() }
}

/// Calls `DynamicImage::write_to` with `ImageFormat::Png`. Trusted: the
/// file or the error's text depends on the image alone.
#[verifier::external_body]
fn write_png(source: &Raster) -> (r: Result<Vec<u8>, String>)
    requires
        well_formed(source@),
    ensures
        bytes_result_view(r) == png_encoding(source@),
{
    let buffer = image::RgbaImage::from_raw(source.width, source.height, source.pixels.clone());
    let picture = image::DynamicImage::ImageRgba8(buffer.unwrap());
    let mut out = std::io::Cursor::new(Vec::new());
    match picture.write_to(&mut out, image::ImageFormat::Png) {
        Ok(()) => Ok(out.into_inner()),
        Err(e) => Err(e.to_string()),
    }
}

/// Calls `DynamicImage::write_to` with `ImageFormat::WebP`. Trusted: the
/// file or the error's text depends on the image alone.
#[verifier::external_body]
fn write_webp(source: &Raster) -> (r: Result<Vec<u8>, String>)
    requires
        well_formed(source@),
    ensures
        bytes_result_view(r) == webp_encoding(source@),
{
    let buffer = image::RgbaImage::from_raw(source.width, source.height, source.pixels.clone());
    let picture = image::DynamicImage::ImageRgba8(buffer.unwrap());
    let mut out = std::io::Cursor::new(Vec::new());
    match picture.write_to(&mut out, image::ImageFormat::WebP) {
        Ok(()) => Ok(out.into_inner()),
        Err(e) => Err(e.to_string()),
    }
}

/// Calls `DynamicImage::to_rgb8`. Trusted: of each pixel the result holds
/// the red, green and blue bytes, unchanged and in order, and not the alpha
/// byte.
#[verifier::external_body]
fn rgb_bytes(source: &Raster) -> (r: Vec<u8>)
    requires
        well_formed(source@),
    ensures
        r@ == opaque_pixels(source.pixels@),
{
    let buffer = image::RgbaImage::from_raw(source.width, source.height, source.pixels.clone());
    image::DynamicImage::ImageRgba8(buffer.unwrap()).to_rgb8().into_raw()
}

/// Calls `JpegEncoder::new_with_quality` and `DynamicImage::write_with_encoder`
/// on an image of 8-bit RGB pixels. Trusted: the file or the error's text
/// depends on the size, the pixels and the quality alone.
#[verifier::external_body]
fn write_jpeg(width: u32, height: u32, rgb: &Vec<u8>, quality: u8) -> (r: Result<Vec<u8>, String>)
    requires
        rgb@.len() == width * height * 3,
        1 <= quality <= 100,
    ensures
        bytes_result_view(r) == jpeg_encoding(width, height, rgb@, quality),
{
    let picture = image::RgbImage::from_raw(width, height, rgb.clone());
    let mut out = Vec::new();
    let encoder = image::codecs::jpeg::JpegEncoder::new_with_quality(&mut out, quality);
    match image::DynamicImage::ImageRgb8(picture.unwrap()).write_with_encoder(encoder) {
        Ok(()) => Ok(out),
        Err(e) => Err(e.to_string()),
    }
}

/// Calls `DynamicImage::write_to` with `ImageFormat::Bmp` on an image of
/// 8-bit RGB pixels. Trusted: the file or the error's text depends on the
/// size and the pixels alone.
#[verifier::external_body]
fn write_bmp(width: u32, height: u32, rgb: &Vec<u8>) -> (r: Result<Vec<u8>, String>)
    requires
        rgb@.len() == width * height * 3,
    ensures
        bytes_result_view(r) == bmp_encoding(width, height, rgb@),
{
    let picture = image::RgbImage::from_raw(width, height, rgb.clone());
    let mut out = std::io::Cursor::new(Vec::new());
    match image::DynamicImage::ImageRgb8(picture.unwrap()).write_to(&mut out, image::ImageFormat::Bmp) {
        Ok(()) => Ok(out.into_inner()),
        Err(e) => Err(e.to_string()),
    }
}

/// The rectangle `area` of `image`, as an image of its own.
pub open spec fn cropped(image: RasterView, area: CropBox) -> RasterView {
    (
        area.width,
        area.height,
        cropped_pixels(image, area.x, area.y, area.width, area.height),
    )
}

/// The quality at which JPEG files are written.
pub open spec fn jpeg_quality() -> u8 {
    95
}

/// The bytes that the imaging library writes of `image` for a format: the
/// file itself for a raster format, the bitmap that the tracer reads for a
/// vector format. JPEG files and bitmaps are written of the pixels without
/// their alpha channel.
pub open spec fn rendered(image: RasterView, format: OutputFormat) -> Result<Seq<u8>, Seq<char>> {
    match format {
        OutputFormat::Jpeg => jpeg_encoding(
            image.0,
            image.1,
            opaque_pixels(image.2),
            jpeg_quality(),
        ),
        OutputFormat::Png => png_encoding(image),
        OutputFormat::Webp => webp_encoding(image),
        OutputFormat::Svg => bmp_encoding(image.0, image.1, opaque_pixels(image.2)),
        OutputFormat::Eps => bmp_encoding(image.0, image.1, opaque_pixels(image.2)),
    }
}

impl Raster {
    /// A raster of the given size over the given bytes, where they are four
    /// for each pixel.
    pub fn new(width: u32, height: u32, pixels: Vec<u8>) -> (r: Option<Raster>)
        ensures
            r is Some <==> pixels@.len() == width * height * 4,
            r matches Some(image) ==> image@ == (width, height, pixels@),
    {
        assert(width * height <= 0xffff_ffff * 0xffff_ffff) by (nonlinear_arith)
            requires
                width <= 0xffff_ffff,
                height <= 0xffff_ffff,
        ;
        let area: u64 = width as u64 * height as u64;
        if (pixels.len() as u64) % 4 == 0 && (pixels.len() as u64) / 4 == area {
            Some(Raster { width, height, pixels })
        } else {
            None
        }
    }
}

/// Tests whether the working buffers of a transformation can be allocated.
pub fn buffers_available(source_width: u32, width: u32, height: u32) -> (r: bool)
    ensures
        r == buffers_fit(source_width, width, height),
{
    let between: u64 = (isize::MAX as u64) / 16;
    let result: u64 = (isize::MAX as u64) / 4;
    assert(source_width * height <= 0xffff_ffff * 0xffff_ffff) by (nonlinear_arith)
        requires
            source_width <= 0xffff_ffff,
            height <= 0xffff_ffff,
    ;
    assert(width * height <= 0xffff_ffff * 0xffff_ffff) by (nonlinear_arith)
        requires
            width <= 0xffff_ffff,
            height <= 0xffff_ffff,
    ;
    let tall: u64 = source_width as u64 * height as u64;
    let wide: u64 = width as u64 * height as u64;
    tall <= between && wide <= result
}

/// Decodes an image file into a raster.
pub fn decode(bytes: &[u8]) -> (r: Result<Raster, String>)
    ensures
        raster_result_view(r) == decoded_image(bytes@),
        r matches Ok(image) ==> well_formed(image@),
{
    load_rgba(bytes)
}

/// Cuts the rectangle `area` out of the source.
pub fn crop(source: &Raster, area: CropBox) -> (r: Raster)
    requires
        well_formed(source@),
        area.within(source.width, source.height),
    ensures
        r@ == cropped(source@, area),
        well_formed(r@),
{
    crop_rgba(source, area.x, area.y, area.width, area.height)
}

/// Crops the source to the rectangle of the parameters and resizes the
/// result to exactly the target size with the Lanczos filter of window 3.
/// The crop is that of `crop`; of the resized pixels only their number is
/// stated.
pub fn transform(source: &Raster, p: &ProcessingParameters) -> (r: Raster)
    requires
        well_formed(source@),
        p.valid_for(source.width, source.height),
        buffers_fit(p.crop.width, p.target_width, p.target_height),
    ensures
        r.width == p.target_width,
        r.height == p.target_height,
        well_formed(r@),
{
    let cut = crop(source, p.crop);
    resize_rgba(&cut, p.target_width, p.target_height)
}

/// The pixels of a raster without their alpha channel, as 8-bit RGB.
pub fn without_alpha(image: &Raster) -> (r: Vec<u8>)
    requires
        well_formed(image@),
    ensures
        r@ == opaque_pixels(image.pixels@),
        r@.len() == image.width * image.height * 3,
{
    rgb_bytes(image)
}

/// Writes a raster for a format: the file for a raster format, and for a
/// vector format the bitmap that the tracer reads.
pub fn render(image: &Raster, format: OutputFormat) -> (r: Result<Vec<u8>, String>)
    requires
        well_formed(image@),
    ensures
        bytes_result_view(r) == rendered(image@, format),
{
    match format {
        OutputFormat::Jpeg => {
            let rgb = without_alpha(image);
            write_jpeg(image.width, image.height, &rgb, 95)
        },
        OutputFormat::Png => write_png(image),
        OutputFormat::Webp => write_webp(image),
        OutputFormat::Svg => {
            let rgb = without_alpha(image);
            write_bmp(image.width, image.height, &rgb)
        },
        OutputFormat::Eps => {
            let rgb = without_alpha(image);
            write_bmp(image.width, image.height, &rgb)
        },
    }
}

} // verus!
