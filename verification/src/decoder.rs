//! From the bytes of a file to a raster in memory.

use crate::codec::{decode_parts, decoded_image, describe};
use crate::error::ConvertError;
use crate::raster::{buffer_len, dimensions_fit, ColorModel, DecodedRaster};
use image::ImageError;
use vstd::prelude::*;
use vstd::string::*;

verus! {

/// Whether the contents of a file decode to a raster: the codec decodes
/// them, the library has a model of the colour type, and the dimensions fit.
pub open spec fn decodes(contents: Seq<u8>) -> bool {
    &&& decoded_image(contents) matches Some(named)
    &&& named.0 is Some
    &&& dimensions_fit(named.1, named.2)
}

/// Whether a raster is what the codec decodes from the contents of a file:
/// its model and dimensions, and its samples where each is one byte.
pub open spec fn is_decoding_of(raster: DecodedRaster, contents: Seq<u8>) -> bool {
    &&& decoded_image(contents) matches Some(named)
    &&& named.0 == Some(raster.spec_model())
    &&& named.1 == raster.spec_width()
    &&& named.2 == raster.spec_height()
    &&& raster.spec_model().spec_is_narrow() ==> named.3 == raster.spec_samples()
}

/// Whether these parts make a raster: the model is known, the dimensions
/// fit, and the samples are exactly one buffer of these dimensions.
pub open spec fn parts_fit(model: Option<ColorModel>, width: u32, height: u32, samples: Seq<u8>)
    -> bool {
    &&& model matches Some(m)
    &&& dimensions_fit(width, height)
    &&& samples.len() == buffer_len(width, height, m.spec_bytes_per_pixel())
}

/// The error of a file that the codec could not decode.
pub fn decode_failure(path: &str, error: &ImageError) -> (failure: ConvertError)
    ensures
        failure is Decode,
        failure.spec_subject() == path@,
{
    ConvertError::Decode { path: String::from_str(path), reason: describe(error) }
}

/// A raster out of what a decoder handed over, for the file at `path`.
///
/// It fails with `Decode` where the model is unknown, where a dimension is
/// zero, where the samples are not exactly one buffer of these dimensions, or
/// where the raster is too large to be laid out with four bytes per pixel.
pub fn raster_from_parts(
    path: &str,
    model: Option<ColorModel>,
    width: u32,
    height: u32,
    samples: Vec<u8>,
) -> (made: Result<DecodedRaster, ConvertError>)
    ensures
        made is Ok <==> parts_fit(model, width, height, samples@),
        made matches Ok(r) ==> model == Some(r.spec_model()) && r.spec_width() == width
            && r.spec_height() == height && r.spec_samples() == samples@,
        made matches Err(e) ==> e is Decode && e.spec_subject() == path@,
{
    let known = match model {
        Some(known) => known,
        None => {
            return Err(
                ConvertError::Decode {
                    path: String::from_str(path),
                    reason: String::from_str("the colour type of the image is not supported"),
                },
            );
        },
    };
    match DecodedRaster::new(width, height, known, samples) {
        Some(raster) => Ok(raster),
        None => Err(
            ConvertError::Decode {
                path: String::from_str(path),
                reason: String::from_str("the decoded raster is empty, torn or too large"),
            },
        ),
    }
}

/// What becomes of a decoder's outcome for the file at `path`: the raster
/// of the parts it handed over, where they make one, and a `Decode` error
/// about `path` where they make none or where the decoder failed.
pub fn decoded(path: &str, outcome: Result<(Option<ColorModel>, u32, u32, Vec<u8>), ImageError>)
    -> (made: Result<DecodedRaster, ConvertError>)
    ensures
        match outcome {
            Ok(parts) => {
                &&& made is Ok <==> parts_fit(parts.0, parts.1, parts.2, parts.3@)
                &&& made matches Ok(r) ==> parts.0 == Some(r.spec_model()) && r.spec_width()
                    == parts.1 && r.spec_height() == parts.2 && r.spec_samples() == parts.3@
            },
            Err(_) => made is Err,
        },
        made matches Err(e) ==> e is Decode && e.spec_subject() == path@,
{
    match outcome {
        Ok((model, width, height, samples)) => raster_from_parts(
            path,
            model,
            width,
            height,
            samples,
        ),
        Err(error) => Err(decode_failure(path, &error)),
    }
}

/// Decodes the contents of the file at `path`. The container is told by the
/// contents, never by the name of the file.
///
/// It succeeds exactly where the codec decodes the contents to an image whose
/// colour type the library has a model of and whose dimensions fit; the raster
/// is then that image. Whatever goes wrong is a `Decode` error about `path`;
/// contents of no bytes always fail. Decoding is all or nothing.
pub fn decode(path: &str, contents: &[u8]) -> (made: Result<DecodedRaster, ConvertError>)
    ensures
        made is Ok <==> decodes(contents@),
        made matches Ok(raster) ==> is_decoding_of(raster, contents@),
        made matches Err(e) ==> e is Decode && e.spec_subject() == path@,
        contents@.len() == 0 ==> made is Err,
{
    decoded(path, decode_parts(contents))
}

} // verus!
