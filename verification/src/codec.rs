use vstd::prelude::*;

use image::codecs::pnm::{PnmSubtype, SampleEncoding};

use crate::input::{OutputMode, PnmKind, SampleKind};
use crate::save::route_of;

verus! {

/// The codec library's tag for a target raster encoding.
#[verifier::external_type_specification]
#[verifier::external_body]
pub struct ExImageOutputFormat(image::ImageOutputFormat);

/// What an encoded image stream decodes to: its dimensions and its 8-bit RGBA
/// samples in row-major order, or nothing when the stream is malformed or
/// beyond the codec's default decode limits. The decoding of a byte stream is
/// fixed by the image formats and that fixed allocation cap, so this is a
/// function of the bytes alone.
pub uninterp spec fn decode_result(bytes: Seq<u8>) -> Option<(u32, u32, Seq<u8>)>;

/// What the codec's encoder produces for a raster target: the encoded stream,
/// or nothing when that encoder refuses the samples or dimensions. The
/// encoders compute from the samples, dimensions and mode parameters alone,
/// so this is a function of those arguments.
pub uninterp spec fn encode_result(mode: OutputMode, width: u32, height: u32, data: Seq<u8>) -> Option<Seq<u8>>;

/// Whether the lossless PNG optimizer accepts a byte stream: its own parser
/// must read it as a PNG, and the default options set no time limit, so
/// success is a function of the bytes alone.
pub uninterp spec fn optimize_ok(bytes: Seq<u8>) -> bool;

/// A decoded raster image: 8-bit RGBA samples in row-major order.
pub struct Raster {
    /// Width in pixels.
    pub width: u32,
    /// Height in pixels.
    pub height: u32,
    /// Samples, four bytes per pixel.
    pub data: Vec<u8>,
}

impl Raster {
    /// The sample buffer holds exactly four bytes for every pixel.
    pub open spec fn wf(&self) -> bool {
        self.data@.len() == 4 * (self.width as int) * (self.height as int)
    }
}

/// Relies on image::load_from_memory: it decodes a byte stream in any of the
/// codec library's formats, deterministically from the bytes alone; the result
/// is converted to 8-bit RGBA row-major samples, four bytes per pixel.
#[verifier::external_body]
pub(crate) fn convert_bytes_to_image(bytes: &[u8]) -> (r: Result<Raster, String>)
    ensures
        r is Ok <==> decode_result(bytes@) is Some,
        r matches Ok(img) ==> decode_result(bytes@) == Some((img.width, img.height, img.data@)),
        r matches Ok(img) ==> img.wf(),
{
    match image::load_from_memory(bytes) {
        Ok(img) => {
            let buf = img.to_rgba8();
            let (width, height) = (buf.width(), buf.height());
            Ok(Raster { width, height, data: buf.into_raw() })
        },
        Err(e) => Err(e.to_string()),
    }
}

/// Relies on image's PNG encoder: PNG is a lossless format, so the encoded
/// stream decodes back to exactly the given dimensions and samples, and
/// writing to an in-memory buffer succeeds for every well-formed buffer whose
/// dimensions the format admits. The pixel count is bounded so that the
/// decoded buffer stays within the codec's default decode allocation cap and
/// the round trip really holds.
#[verifier::external_body]
pub(crate) fn encode_png(img: &Raster) -> (r: Result<Vec<u8>, String>)
    requires
        img.wf(),
        1 <= img.width <= 0x7fff_ffff,
        1 <= img.height <= 0x7fff_ffff,
        (img.width as int) * (img.height as int) <= 0x0800_0000,
    ensures
        r is Ok,
        r matches Ok(b) ==> decode_result(b@) == Some((img.width, img.height, img.data@)),
{
    let buf = match image::RgbaImage::from_raw(img.width, img.height, img.data.clone()) {
        Some(b) => b,
        None => return Err("buffer does not match the dimensions".to_string()),
    };
    let mut out = std::io::Cursor::new(Vec::new());
    match image::DynamicImage::ImageRgba8(buf).write_to(&mut out, image::ImageOutputFormat::Png) {
        Ok(()) => Ok(out.into_inner()),
        Err(e) => Err(e.to_string()),
    }
}

/// Relies on oxipng::optimize_from_memory with the default options: the
/// rewrite is lossless, so the result decodes exactly as the input does, and
/// the input stream itself is returned whenever no smaller equivalent was
/// found, so the result is never larger. It succeeds exactly when the
/// optimizer's parser accepts the stream, which depends on the bytes alone.
#[verifier::external_body]
pub(crate) fn optimize_png(bytes: &Vec<u8>) -> (r: Result<Vec<u8>, String>)
    ensures
        r is Ok <==> optimize_ok(bytes@),
        r matches Ok(o) ==> decode_result(o@) == decode_result(bytes@) && o@.len()
            <= bytes@.len(),
{
    match oxipng::optimize_from_memory(bytes, &oxipng::Options::default()) {
        Ok(o) => Ok(o),
        Err(e) => Err(e.to_string()),
    }
}

/// Relies on the image codec library's format tags: maps each parameterless
/// raster target to its tag; this is the argument-conversion step of
/// `export_image`, factored out of its body. The AVIF encoder is optional in
/// the codec library and not enabled, so that target maps to the codec's
/// unsupported marker and the encoder reports it.
#[verifier::external_body]
pub(crate) fn to_image_format(mode: &OutputMode) -> image::ImageOutputFormat
    requires
        route_of(*mode) is Reencode,
        !(*mode is Pnm),
{
    match mode {
        OutputMode::Jpeg(q) => image::ImageOutputFormat::Jpeg(*q),
        OutputMode::Ico => image::ImageOutputFormat::Ico,
        OutputMode::Bmp => image::ImageOutputFormat::Bmp,
        OutputMode::Farbfeld => image::ImageOutputFormat::Farbfeld,
        OutputMode::Tga => image::ImageOutputFormat::Tga,
        OutputMode::OpenExr => image::ImageOutputFormat::OpenExr,
        OutputMode::Tiff => image::ImageOutputFormat::Tiff,
        OutputMode::Qoi => image::ImageOutputFormat::Qoi,
        OutputMode::WebP => image::ImageOutputFormat::WebP,
        _ => image::ImageOutputFormat::Unsupported("avif".to_string()),
    }
}

/// Relies on the image codec library's PNM tags: maps each PNM container and
/// sample encoding to the codec's tag for it; this is the argument-conversion
/// step of `export_image`, factored out of its body.
#[verifier::external_body]
pub(crate) fn pnm_output_format(kind: &PnmKind) -> image::ImageOutputFormat
{
    image::ImageOutputFormat::Pnm(match kind {
        PnmKind::Bitmap(SampleKind::Binary) => PnmSubtype::Bitmap(SampleEncoding::Binary),
        PnmKind::Bitmap(SampleKind::Ascii) => PnmSubtype::Bitmap(SampleEncoding::Ascii),
        PnmKind::Graymap(SampleKind::Binary) => PnmSubtype::Graymap(SampleEncoding::Binary),
        PnmKind::Graymap(SampleKind::Ascii) => PnmSubtype::Graymap(SampleEncoding::Ascii),
        PnmKind::Pixmap(SampleKind::Binary) => PnmSubtype::Pixmap(SampleEncoding::Binary),
        PnmKind::Pixmap(SampleKind::Ascii) => PnmSubtype::Pixmap(SampleEncoding::Ascii),
        PnmKind::ArbitraryMap => PnmSubtype::ArbitraryMap,
    })
}

/// Relies on image::DynamicImage::write_to: encodes the raster into the
/// requested target encoding in memory. Each encoder decides its own
/// failures, for example when it does not support 8-bit RGBA samples or the
/// dimensions; all of them compute from their arguments alone, so the whole
/// call is exactly the named encoder result.
#[verifier::external_body]
pub fn export_image(image: &Raster, format: &OutputMode) -> (r: Result<Vec<u8>, String>)
    requires
        image.wf(),
        route_of(*format) is Reencode,
    ensures
        r is Ok <==> encode_result(*format, image.width, image.height, image.data@) is Some,
        r matches Ok(b) ==> b@ == encode_result(
            *format,
            image.width,
            image.height,
            image.data@,
        )->Some_0,
{
    let buf = match image::RgbaImage::from_raw(image.width, image.height, image.data.clone()) {
        Some(b) => b,
        None => return Err("buffer does not match the dimensions".to_string()),
    };
    let tag = match format {
        OutputMode::Pnm(kind) => pnm_output_format(kind),
        _ => to_image_format(format),
    };
    let mut out = std::io::Cursor::new(Vec::new());
    match image::DynamicImage::ImageRgba8(buf).write_to(&mut out, tag) {
        Ok(()) => Ok(out.into_inner()),
        Err(e) => Err(e.to_string()),
    }
}

/// Decodes an encoded image stream and re-encodes it as PNG. For any stream
/// the codec can decode, with nonzero dimensions within the PNG limits, the
/// result is a PNG that decodes to exactly the same dimensions and samples as
/// the input did.
pub fn reencode_png(bytes: &Vec<u8>) -> (r: Result<Vec<u8>, String>)
    ensures
        r is Ok <==> (decode_result(bytes@) matches Some(d) && 1 <= d.0 <= 0x7fff_ffffu32 && 1
            <= d.1 <= 0x7fff_ffffu32 && (d.0 as int) * (d.1 as int) <= 0x0800_0000),
        r matches Ok(o) ==> decode_result(o@) == decode_result(bytes@),
{
    let img = match convert_bytes_to_image(bytes.as_slice()) {
        Ok(i) => i,
        Err(e) => {
            return Err(e);
        },
    };
    if 1 <= img.width && img.width <= 0x7fff_ffff && 1 <= img.height && img.height
        <= 0x7fff_ffff {
        let w: u64 = img.width as u64;
        let h: u64 = img.height as u64;
        proof {
            assert(w * h <= 0x7fff_ffffu64 * 0x7fff_ffffu64) by (nonlinear_arith)
                requires
                    w <= 0x7fff_ffff,
                    h <= 0x7fff_ffff,
            ;
        }
        if w * h <= 0x0800_0000 {
            encode_png(&img)
        } else {
            Err("the dimensions do not fit the target format".to_owned())
        }
    } else {
        Err("the dimensions do not fit the target format".to_owned())
    }
}

} // verus!
