//! From a decoded raster to the bytes of the output file: the layout that
//! the target format takes, then the encoding.

use crate::codec::{
    describe, encode_buffer, encoded_file, is_portable, rgb8_from_narrow, rgb8_from_wide, rgb8_of,
    rgba8_from_narrow, rgba8_from_wide, rgba8_of,
};
use crate::error::ConvertError;
use crate::format::{ChannelLayout, Format};
use crate::raster::{buffer_len, ColorModel, DecodedRaster, EncodableRaster};
use image::ImageError;
use vstd::prelude::*;
use vstd::string::*;

verus! {

/// One-byte samples in a layout that an encoder takes: of each pixel its red,
/// green and blue, or its luminance three times, and for the layout with
/// alpha its alpha, or 255 where it has none.
pub open spec fn normalized_samples(model: ColorModel, samples: Seq<u8>, layout: ChannelLayout)
    -> Seq<u8> {
    match layout {
        ChannelLayout::Rgb8 => rgb8_of(model, samples),
        ChannelLayout::Rgba8 => rgba8_of(model, samples),
    }
}

/// Whether a raster of this model is in this layout already.
pub open spec fn is_normal(model: ColorModel, layout: ChannelLayout) -> bool {
    ||| model is Rgb8 && layout is Rgb8
    ||| model is Rgba8 && layout is Rgba8
}

/// Samples that are in the layout already are their own normal form.
pub proof fn lemma_normal_samples_stay(model: ColorModel, samples: Seq<u8>, layout: ChannelLayout)
    requires
        is_normal(model, layout),
        samples.len() % model.spec_bytes_per_pixel() == 0,
    ensures
        normalized_samples(model, samples, layout) == samples,
{
    assert(normalized_samples(model, samples, layout) =~= samples);
}

/// One-byte samples in a layout take as many bytes for each pixel as the
/// layout has channels.
pub proof fn lemma_normalized_len(
    model: ColorModel,
    width: u32,
    height: u32,
    samples: Seq<u8>,
    layout: ChannelLayout,
)
    requires
        model.spec_is_narrow(),
        samples.len() == buffer_len(width, height, model.spec_bytes_per_pixel()),
    ensures
        normalized_samples(model, samples, layout).len() == buffer_len(
            width,
            height,
            layout.spec_channels(),
        ),
{
    let pixels = (width as nat) * (height as nat);
    let step = model.spec_bytes_per_pixel();
    assert(samples.len() == pixels * step);
    assert((pixels * step) / step == pixels) by (nonlinear_arith)
        requires
            step > 0,
    ;
}

/// Brings a raster into the layout that the target format takes: three
/// channels without alpha for JPEG, four channels with alpha for every other
/// format.
///
/// The codec converts the samples. Where each sample is one byte, a pixel
/// keeps its red, green and blue, or gets its luminance three times; for JPEG
/// its alpha is dropped, for the other formats it is kept, or is 255 where the
/// raster has none. A raster that is in the layout already keeps its samples.
/// Of wider samples, which come in the byte order of the machine, only the
/// length of the outcome is stated.
pub fn normalize(raster: &DecodedRaster, format: Format) -> (out: EncodableRaster)
    ensures
        out.spec_width() == raster.spec_width(),
        out.spec_height() == raster.spec_height(),
        out.spec_layout() == format.spec_layout(),
        raster.spec_model().spec_is_narrow() ==> out.spec_data() == normalized_samples(
            raster.spec_model(),
            raster.spec_samples(),
            format.spec_layout(),
        ),
        is_normal(raster.spec_model(), format.spec_layout()) ==> out.spec_data()
            == raster.spec_samples(),
        format is Jpg ==> !out.spec_layout().spec_has_alpha() && out.spec_data().len()
            == raster.spec_width() * raster.spec_height() * 3,
        !(format is Jpg) ==> out.spec_layout().spec_has_alpha() && out.spec_data().len()
            == raster.spec_width() * raster.spec_height() * 4,
{
    let width = raster.width();
    let height = raster.height();
    let model = raster.model();
    let samples = raster.samples();
    let layout = format.layout();
    proof {
        assert(buffer_len(width, height, 3) <= buffer_len(width, height, 4)) by (nonlinear_arith);
        if model.spec_is_narrow() {
            lemma_normalized_len(model, width, height, samples@, layout);
        }
        if is_normal(model, layout) {
            assert(samples@.len() % model.spec_bytes_per_pixel() == 0) by (nonlinear_arith)
                requires
                    samples@.len() == (width as nat) * (height as nat)
                        * model.spec_bytes_per_pixel(),
                    model.spec_bytes_per_pixel() > 0,
            ;
            lemma_normal_samples_stay(model, samples@, layout);
        }
    }
    let converted = match layout {
        ChannelLayout::Rgb8 => if model.is_narrow() {
            rgb8_from_narrow(model, width, height, samples)
        } else {
            rgb8_from_wide(model, width, height, samples)
        },
        ChannelLayout::Rgba8 => if model.is_narrow() {
            rgba8_from_narrow(model, width, height, samples)
        } else {
            rgba8_from_wide(model, width, height, samples)
        },
    };
    EncodableRaster::new(width, height, layout, converted.unwrap()).unwrap()
}

/// The error of an output that the codec could not encode.
pub fn save_failure(output_path: &str, error: &ImageError) -> (failure: ConvertError)
    ensures
        failure is Save,
        failure.spec_subject() == output_path@,
{
    ConvertError::Save { path: String::from_str(output_path), reason: describe(error) }
}

/// What becomes of an encoder's outcome: the bytes it wrote, or a `Save`
/// error about the output path.
pub fn encoded(output_path: &str, written: Result<Vec<u8>, ImageError>) -> (outcome: Result<
    Vec<u8>,
    ConvertError,
>)
    ensures
        written is Ok <==> outcome is Ok,
        written matches Ok(bytes) ==> outcome == Ok::<Vec<u8>, ConvertError>(bytes),
        outcome matches Err(e) ==> e is Save && e.spec_subject() == output_path@,
{
    match written {
        Ok(bytes) => Ok(bytes),
        Err(error) => Err(save_failure(output_path, &error)),
    }
}

/// Whether an outcome is what the codec makes of a buffer: the file that it
/// writes, or a failure where it refuses.
pub open spec fn is_encoding_of(
    outcome: Result<Vec<u8>, ConvertError>,
    format: Format,
    layout: ChannelLayout,
    width: u32,
    height: u32,
    data: Seq<u8>,
) -> bool {
    match outcome {
        Ok(bytes) => encoded_file(format, layout, width as nat, height as nat, data) == Some(
            bytes@,
        ),
        Err(_) => encoded_file(format, layout, width as nat, height as nat, data) is None,
    }
}

/// Encodes a raster that is in an encoder's layout as a file of the target
/// format: hands its bytes, dimensions and layout to the codec and returns the
/// file that the codec writes. Whatever goes wrong is a `Save` error about
/// `output_path`. JPEG takes no alpha and no dimension above 65535, so such a
/// raster always fails. For JPEG, PNG and WEBP the outcome is the codec's
/// named file; what is written as TIFF or AVIF varies with the machine.
pub fn encode_normalized(raster: &EncodableRaster, format: Format, output_path: &str) -> (outcome:
    Result<Vec<u8>, ConvertError>)
    ensures
        outcome matches Err(e) ==> e is Save && e.spec_subject() == output_path@,
        is_portable(format) ==> is_encoding_of(
            outcome,
            format,
            raster.spec_layout(),
            raster.spec_width(),
            raster.spec_height(),
            raster.spec_data(),
        ),
        format is Jpg && (raster.spec_layout() is Rgba8 || raster.spec_width() > 65535
            || raster.spec_height() > 65535) ==> outcome is Err,
{
    let written = encode_buffer(
        raster.data(),
        raster.width(),
        raster.height(),
        raster.layout(),
        format,
    );
    encoded(output_path, written)
}

/// Encodes a decoded raster as a file of the target format: brings it into
/// the layout that the format takes, hands that to the codec and returns the
/// file that the codec writes, which is the file to write at `output_path`.
/// Whatever goes wrong is a `Save` error about that path; a raster with a
/// dimension above 65535 always fails for JPEG. For JPEG, PNG and WEBP, and a
/// raster of one-byte samples, the outcome is the codec's named file of the
/// normalized samples.
pub fn encode(raster: &DecodedRaster, format: Format, output_path: &str) -> (outcome: Result<
    Vec<u8>,
    ConvertError,
>)
    ensures
        outcome matches Err(e) ==> e is Save && e.spec_subject() == output_path@,
        is_portable(format) && raster.spec_model().spec_is_narrow() ==> is_encoding_of(
            outcome,
            format,
            format.spec_layout(),
            raster.spec_width(),
            raster.spec_height(),
            normalized_samples(
                raster.spec_model(),
                raster.spec_samples(),
                format.spec_layout(),
            ),
        ),
        format is Jpg && (raster.spec_width() > 65535 || raster.spec_height() > 65535)
            ==> outcome is Err,
{
    let normal = normalize(raster, format);
    encode_normalized(&normal, format, output_path)
}

} // verus!
