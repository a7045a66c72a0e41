use vstd::prelude::*;

use crate::codec::{
    convert_bytes_to_image, decode_result, encode_result, export_image, optimize_png, optimize_ok,
};
use crate::input::OutputMode;

verus! {

/// Appends the given char to the end of this String (std's documented
/// behavior of String::push).
pub assume_specification[ String::push ](s: &mut String, ch: char)
    ensures
        final(s)@ == old(s)@.push(ch),
;

/// Appends a given string slice onto the end of this String (std's documented
/// behavior of String::push_str).
pub assume_specification[ String::push_str ](s: &mut String, string: &str)
    ensures
        final(s)@ == old(s)@ + string@,
;

/// The failures of the export stage, one variant per kind, each carrying the
/// underlying library's message.
#[derive(Debug, PartialEq, Eq)]
pub enum OutputError {
    /// Destination path failures during extension synthesis.
    Custom(String),
    /// Underlying write failures.
    Io(String),
    /// Decode or re-encode failures of the image codec.
    ImageError(String),
    /// Failures of the lossless PNG optimizer.
    CompressionError(String),
}

/// What the export stage decided to do with the finalized surface bytes.
#[derive(Debug, PartialEq, Eq)]
pub enum OutputAction {
    /// Write these bytes to the destination.
    Write(Vec<u8>),
    /// Return these bytes to the caller; nothing is written.
    Return(Vec<u8>),
}

/// How one output mode is serialized once the surface is finalized.
#[derive(Clone, Copy, Debug, PartialEq, Eq, Structural)]
pub enum Route {
    /// The serialized surface is the output: write it byte for byte.
    Direct,
    /// The serialized surface is a PNG; the lossless optimizer rewrites it.
    Optimize,
    /// The serialized surface is handed back to the caller in memory.
    ReturnBuffer,
    /// The serialized surface is decoded and re-encoded into a raster target.
    Reencode,
}

/// The route each output mode takes: the vector streams and plain PNG are
/// written directly, optimized PNG goes through the optimizer, the in-memory
/// document mode returns its buffer, and every other raster target is decoded
/// and re-encoded.
pub open spec fn route_of(mode: OutputMode) -> Route {
    match mode {
        OutputMode::Svg => Route::Direct,
        OutputMode::Ps => Route::Direct,
        OutputMode::Png(optimized) => if optimized {
            Route::Optimize
        } else {
            Route::Direct
        },
        OutputMode::Pdf(in_memory) => if in_memory {
            Route::ReturnBuffer
        } else {
            Route::Direct
        },
        _ => Route::Reencode,
    }
}

/// The canonical filename extension of each output mode.
pub open spec fn extension_spec(mode: OutputMode) -> Seq<char> {
    match mode {
        OutputMode::Pdf(_) => "pdf"@,
        OutputMode::Png(_) => "png"@,
        OutputMode::Svg => "svg"@,
        OutputMode::Ps => "ps"@,
        OutputMode::Jpeg(_) => "jpeg"@,
        OutputMode::Pnm(_) => "pnm"@,
        OutputMode::Ico => "ico"@,
        OutputMode::Bmp => "bmp"@,
        OutputMode::Farbfeld => "farbfeld"@,
        OutputMode::Tga => "tga"@,
        OutputMode::OpenExr => "openexr"@,
        OutputMode::Tiff => "tiff"@,
        OutputMode::Avif => "avif"@,
        OutputMode::Qoi => "qoi"@,
        OutputMode::WebP => "webp"@,
    }
}

/// The route the export stage takes for this mode.
pub fn route(mode: &OutputMode) -> (r: Route)
    ensures
        r == route_of(*mode),
{
    match mode {
        OutputMode::Svg => Route::Direct,
        OutputMode::Ps => Route::Direct,
        OutputMode::Png(optimized) => if *optimized {
            Route::Optimize
        } else {
            Route::Direct
        },
        OutputMode::Pdf(in_memory) => if *in_memory {
            Route::ReturnBuffer
        } else {
            Route::Direct
        },
        _ => Route::Reencode,
    }
}

/// The canonical filename extension of this mode.
fn extension(mode: &OutputMode) -> (r: &'static str)
    ensures
        r@ == extension_spec(*mode),
{
    match mode {
        OutputMode::Pdf(_) => "pdf",
        OutputMode::Png(_) => "png",
        OutputMode::Svg => "svg",
        OutputMode::Ps => "ps",
        OutputMode::Jpeg(_) => "jpeg",
        OutputMode::Pnm(_) => "pnm",
        OutputMode::Ico => "ico",
        OutputMode::Bmp => "bmp",
        OutputMode::Farbfeld => "farbfeld",
        OutputMode::Tga => "tga",
        OutputMode::OpenExr => "openexr",
        OutputMode::Tiff => "tiff",
        OutputMode::Avif => "avif",
        OutputMode::Qoi => "qoi",
        OutputMode::WebP => "webp",
    }
}

/// Synthesizes a filename extension: the given ending is appended to the last
/// path segment, after a dot; a path without segments has no file name and is
/// rejected.
pub fn add_ending(path: Vec<String>, ending: &str) -> (r: Result<Vec<String>, String>)
    ensures
        path@.len() == 0 ==> (r matches Err(e) && e@ == "No file name"@),
        path@.len() > 0 ==> (r matches Ok(p) && p@.len() == path@.len() && (forall|i: int|
            0 <= i < path@.len() - 1 ==> p@[i] == path@[i]) && p@[path@.len() - 1]@ == path@[
            path@.len() - 1]@.push('.') + ending@),
{
    let mut segments = path;
    match segments.pop() {
        None => Err("No file name".to_owned()),
        Some(last) => {
            let mut name = last;
            name.push('.');
            name.push_str(ending);
            segments.push(name);
            Ok(segments)
        },
    }
}

/// The destination path the export stage resolves: unchanged without
/// extension synthesis, otherwise the mode's canonical extension appended to
/// the last segment.
pub open spec fn resolved_path(
    filename: Seq<String>,
    mode: OutputMode,
    add_ext: bool,
    p: Seq<String>,
) -> bool {
    if add_ext {
        &&& filename.len() > 0
        &&& p.len() == filename.len()
        &&& forall|i: int| 0 <= i < filename.len() - 1 ==> p[i] == filename[i]
        &&& p[filename.len() - 1]@ == filename[filename.len() - 1]@.push('.') + extension_spec(
            mode,
        )
    } else {
        p == filename
    }
}

/// Whether extension synthesis can resolve a path at all.
pub open spec fn path_ok(filename: Seq<String>, add_ext: bool) -> bool {
    !add_ext || filename.len() > 0
}

/// The export and format-conversion stage for one finalized surface, already
/// serialized to bytes. Resolves the destination path, then per route: the
/// direct modes pass the surface bytes through unchanged; the optimized PNG
/// mode rewrites them losslessly and never grows them, succeeding exactly
/// when the optimizer accepts the stream; the in-memory document mode returns
/// them to the caller; every other raster target is decoded and re-encoded,
/// the written bytes being exactly the named encoder's output for the decoded
/// surface, and a surface that does not decode is an image error.
pub fn output(output_format: OutputMode, filename: Vec<String>, surface: Vec<u8>, add_ext: bool)
    -> (r: Result<(Vec<String>, OutputAction), OutputError>)
    ensures
        r matches Ok(a) ==> resolved_path(filename@, output_format, add_ext, a.0@),
        !path_ok(filename@, add_ext) <==> (r matches Err(e) && e is Custom),
        r matches Err(OutputError::Custom(m)) ==> m@ == "No file name"@,
        route_of(output_format) is Direct && path_ok(filename@, add_ext) ==> (r matches Ok(a)
            && a.1 matches OutputAction::Write(b) && b == surface),
        route_of(output_format) is ReturnBuffer && path_ok(filename@, add_ext) ==> (r matches Ok(
            a,
        ) && a.1 matches OutputAction::Return(b) && b == surface),
        route_of(output_format) is Optimize && path_ok(filename@, add_ext) ==> (r is Ok
            <==> optimize_ok(surface@)),
        route_of(output_format) is Optimize ==> (r matches Ok(a) ==> a.1 matches
            OutputAction::Write(b) && decode_result(b@) == decode_result(surface@) && b@.len()
            <= surface@.len()),
        route_of(output_format) is Optimize && path_ok(filename@, add_ext) ==> (r matches Err(e)
            ==> e is CompressionError),
        route_of(output_format) is Reencode && path_ok(filename@, add_ext) ==> (r matches Err(e)
            ==> e is ImageError) && (decode_result(surface@) is None ==> r is Err),
        route_of(output_format) is Reencode && path_ok(filename@, add_ext) ==> (decode_result(
            surface@,
        ) matches Some(d) ==> (r is Ok <==> encode_result(output_format, d.0, d.1, d.2) is Some)),
        route_of(output_format) is Reencode ==> (decode_result(surface@) matches Some(d) ==> (
        r matches Ok(a) ==> (a.1 matches OutputAction::Write(b) && b@ == encode_result(
            output_format,
            d.0,
            d.1,
            d.2,
        )->Some_0))),
{
    let filepath: Vec<String> = if add_ext {
        match add_ending(filename, extension(&output_format)) {
            Ok(p) => p,
            Err(e) => {
                return Err(OutputError::Custom(e));
            },
        }
    } else {
        filename
    };
    match route(&output_format) {
        Route::Direct => Ok((filepath, OutputAction::Write(surface))),
        Route::ReturnBuffer => Ok((filepath, OutputAction::Return(surface))),
        Route::Optimize => match optimize_png(&surface) {
            Ok(b) => Ok((filepath, OutputAction::Write(b))),
            Err(m) => Err(OutputError::CompressionError(m)),
        },
        Route::Reencode => {
            let img = match convert_bytes_to_image(surface.as_slice()) {
                Ok(i) => i,
                Err(m) => {
                    return Err(OutputError::ImageError(m));
                },
            };
            match export_image(&img, &output_format) {
                Ok(b) => Ok((filepath, OutputAction::Write(b))),
                Err(m) => Err(OutputError::ImageError(m)),
            }
        },
    }
}

} // verus!
