//! The codec collaborator: everything the library has from the `image`
//! crate. Nothing here is proved; each item says what it takes on trust.

use crate::format::{ChannelLayout, Format};
use crate::raster::{buffer_len, ColorModel};
use bytemuck::pod_collect_to_vec;
use image::{ColorType, DynamicImage, ImageBuffer, ImageError, ImageFormat};
use std::io::Cursor;
use vstd::prelude::*;

verus! {

/// `image::ImageError`: why the codec failed, opaque to the verifier.
#[verifier::external_type_specification]
#[verifier::external_body]
pub struct ExImageError(ImageError);

/// A container as the codec names it: one of the five that the catalog
/// holds, or another one that the codec knows.
#[derive(Debug, Clone, Copy, PartialEq, Eq, Structural, Hash)]
pub enum Container {
    Jpeg,
    Png,
    Tiff,
    WebP,
    Avif,
    Other,
}

/// The lower-case form of an ASCII capital; any other character itself.
pub open spec fn ascii_lower(c: char) -> char {
    if 'A' <= c && c <= 'Z' {
        ((c as u8) + 32) as char
    } else {
        c
    }
}

/// `text` with its ASCII capitals in lower case.
pub open spec fn ascii_lowercase(text: Seq<char>) -> Seq<char> {
    Seq::new(text.len(), |i: int| ascii_lower(text[i]))
}

/// The extensions, in lower case, of the containers that the codec knows
/// and the catalog does not hold.
pub open spec fn is_other_extension(e: Seq<char>) -> bool {
    ||| e == seq!['g', 'i', 'f']
    ||| e == seq!['t', 'g', 'a']
    ||| e == seq!['d', 'd', 's']
    ||| e == seq!['b', 'm', 'p']
    ||| e == seq!['i', 'c', 'o']
    ||| e == seq!['h', 'd', 'r']
    ||| e == seq!['e', 'x', 'r']
    ||| e == seq!['p', 'b', 'm']
    ||| e == seq!['p', 'a', 'm']
    ||| e == seq!['p', 'p', 'm']
    ||| e == seq!['p', 'g', 'm']
    ||| e == seq!['p', 'n', 'm']
    ||| e == seq!['f', 'f']
    ||| e == seq!['q', 'o', 'i']
}

/// The container that the codec tells by an extension, whatever its case.
pub open spec fn container_of_extension(ext: Seq<char>) -> Option<Container> {
    let e = ascii_lowercase(ext);
    if e == seq!['a', 'v', 'i', 'f'] {
        Some(Container::Avif)
    } else if e == seq!['j', 'p', 'g'] || e == seq!['j', 'p', 'e', 'g'] || e == seq![
        'j',
        'f',
        'i',
        'f',
    ] {
        Some(Container::Jpeg)
    } else if e == seq!['p', 'n', 'g'] || e == seq!['a', 'p', 'n', 'g'] {
        Some(Container::Png)
    } else if e == seq!['w', 'e', 'b', 'p'] {
        Some(Container::WebP)
    } else if e == seq!['t', 'i', 'f'] || e == seq!['t', 'i', 'f', 'f'] {
        Some(Container::Tiff)
    } else if is_other_extension(e) {
        Some(Container::Other)
    } else {
        None
    }
}

/// `ImageFormat::from_extension`. The codec puts the extension in ASCII
/// lower case and looks it up in a fixed table; the contract is that table.
#[verifier::external_body]
pub(crate) fn lookup_extension(ext: &str) -> (found: Option<Container>)
    ensures
        found == container_of_extension(ext@),
{
    match ImageFormat::from_extension(ext) {
        Some(ImageFormat::Jpeg) => Some(Container::Jpeg),
        Some(ImageFormat::Png) => Some(Container::Png),
        Some(ImageFormat::Tiff) => Some(Container::Tiff),
        Some(ImageFormat::WebP) => Some(Container::WebP),
        Some(ImageFormat::Avif) => Some(Container::Avif),
        Some(_) => Some(Container::Other),
        None => None,
    }
}

/// What the codec decodes from the contents of a file: the colour model
/// (`None` where the library has no model of the image's colour type), the
/// width, the height and the samples; `None` where it does not decode them.
pub uninterp spec fn decoded_image(contents: Seq<u8>) -> Option<(Option<ColorModel>, u32, u32, Seq<u8>)>;

/// `image::guess_format`, then `image::load_from_memory_with_format`, and the
/// decoded image taken apart by `DynamicImage::color`, `width`, `height` and
/// `into_bytes`.
///
/// The container is told by the first bytes, and every signature has at
/// least one byte, so no bytes never decode. Whether the contents decode, and
/// to which model and dimensions, is the named result. A decoded image holds
/// exactly one buffer of its dimensions. Its samples are the named ones where
/// each is one byte; wider samples come in the byte order of the machine, and
/// nothing is claimed of them.
#[verifier::external_body]
pub(crate) fn decode_parts(contents: &[u8]) -> (parts: Result<
    (Option<ColorModel>, u32, u32, Vec<u8>),
    ImageError,
>)
    ensures
        contents@.len() == 0 ==> parts is Err,
        match parts {
            Ok((model, width, height, samples)) => {
                &&& decoded_image(contents@) matches Some(named)
                &&& named.0 == model
                &&& named.1 == width
                &&& named.2 == height
                &&& model is Some ==> samples@.len() == buffer_len(
                    width,
                    height,
                    model->0.spec_bytes_per_pixel(),
                )
                &&& model is Some && model->0.spec_is_narrow() ==> named.3 == samples@
            },
            Err(_) => decoded_image(contents@) is None,
        },
{
    let image = image::load_from_memory_with_format(contents, image::guess_format(contents)?)?;
    let model = match image.color() {
        ColorType::L8 => Some(ColorModel::L8),
        ColorType::La8 => Some(ColorModel::La8),
        ColorType::Rgb8 => Some(ColorModel::Rgb8),
        ColorType::Rgba8 => Some(ColorModel::Rgba8),
        ColorType::L16 => Some(ColorModel::L16),
        ColorType::La16 => Some(ColorModel::La16),
        ColorType::Rgb16 => Some(ColorModel::Rgb16),
        ColorType::Rgba16 => Some(ColorModel::Rgba16),
        ColorType::Rgb32F => Some(ColorModel::Rgb32F),
        ColorType::Rgba32F => Some(ColorModel::Rgba32F),
        _ => None,
    };
    Ok((model, image.width(), image.height(), image.into_bytes()))
}

/// `ImageError`'s `to_string`. Nothing is claimed of the text.
#[verifier::external_body]
pub(crate) fn describe(error: &ImageError) -> (text: String) {
    error.to_string()
}

/// The red, green or blue of a pixel of one-byte samples: the luminance
/// where the model has no colour, else the channel itself.
pub open spec fn narrow_colour(model: ColorModel, samples: Seq<u8>, pixel: int, channel: int) -> u8 {
    let step = model.spec_bytes_per_pixel() as int;
    if model is L8 || model is La8 {
        samples[pixel * step]
    } else {
        samples[pixel * step + channel]
    }
}

/// The alpha of a pixel of one-byte samples: its own where the model has
/// one, else 255.
pub open spec fn narrow_alpha(model: ColorModel, samples: Seq<u8>, pixel: int) -> u8 {
    let step = model.spec_bytes_per_pixel() as int;
    if model.spec_has_alpha() {
        samples[pixel * step + step - 1]
    } else {
        255u8
    }
}

/// One-byte samples as RGB: of each pixel its colour, and no alpha.
pub open spec fn rgb8_of(model: ColorModel, samples: Seq<u8>) -> Seq<u8> {
    let step = model.spec_bytes_per_pixel() as int;
    Seq::new(
        (samples.len() as int / step * 3) as nat,
        |i: int| narrow_colour(model, samples, i / 3, i % 3),
    )
}

/// One-byte samples as RGBA: of each pixel its colour and its alpha, which is
/// 255 where the model has none.
pub open spec fn rgba8_of(model: ColorModel, samples: Seq<u8>) -> Seq<u8> {
    let step = model.spec_bytes_per_pixel() as int;
    Seq::new(
        (samples.len() as int / step * 4) as nat,
        |i: int|
            if i % 4 == 3 {
                narrow_alpha(model, samples, i / 4)
            } else {
                narrow_colour(model, samples, i / 4, i % 4)
            },
    )
}

/// `DynamicImage::to_rgb8` on an image of one-byte samples, `None` for any
/// other model. Each pixel keeps its red, green and blue, or gets its
/// luminance three times; its alpha is dropped.
#[verifier::external_body]
pub(crate) fn rgb8_from_narrow(model: ColorModel, width: u32, height: u32, samples: &[u8]) -> (out:
    Option<Vec<u8>>)
    requires
        samples@.len() == buffer_len(width, height, model.spec_bytes_per_pixel()),
        buffer_len(width, height, 3) <= isize::MAX,
    ensures
        model.spec_is_narrow() <==> out is Some,
        out matches Some(data) ==> data@ == rgb8_of(model, samples@),
{
    let image = match model {
        ColorModel::L8 => DynamicImage::ImageLuma8(ImageBuffer::from_raw(width, height, samples.to_vec())?),
        ColorModel::La8 => DynamicImage::ImageLumaA8(ImageBuffer::from_raw(width, height, samples.to_vec())?),
        ColorModel::Rgb8 => DynamicImage::ImageRgb8(ImageBuffer::from_raw(width, height, samples.to_vec())?),
        ColorModel::Rgba8 => DynamicImage::ImageRgba8(ImageBuffer::from_raw(width, height, samples.to_vec())?),
        _ => return None,
    };
    Some(image.to_rgb8().into_raw())
}

/// `DynamicImage::to_rgb8` on an image of wider samples, `None` for a model
/// of one-byte samples. The result has three bytes for each pixel. The
/// samples are read in the byte order of the machine, so nothing is claimed
/// of the bytes that come out.
#[verifier::external_body]
pub(crate) fn rgb8_from_wide(model: ColorModel, width: u32, height: u32, samples: &[u8]) -> (out:
    Option<Vec<u8>>)
    requires
        samples@.len() == buffer_len(width, height, model.spec_bytes_per_pixel()),
        buffer_len(width, height, 3) <= isize::MAX,
    ensures
        !model.spec_is_narrow() <==> out is Some,
        out matches Some(data) ==> data@.len() == buffer_len(width, height, 3),
{
    let image = match model {
        ColorModel::L16 => DynamicImage::ImageLuma16(ImageBuffer::from_raw(width, height, pod_collect_to_vec(samples))?),
        ColorModel::La16 => DynamicImage::ImageLumaA16(ImageBuffer::from_raw(width, height, pod_collect_to_vec(samples))?),
        ColorModel::Rgb16 => DynamicImage::ImageRgb16(ImageBuffer::from_raw(width, height, pod_collect_to_vec(samples))?),
        ColorModel::Rgba16 => DynamicImage::ImageRgba16(ImageBuffer::from_raw(width, height, pod_collect_to_vec(samples))?),
        ColorModel::Rgb32F => DynamicImage::ImageRgb32F(ImageBuffer::from_raw(width, height, pod_collect_to_vec(samples))?),
        ColorModel::Rgba32F => DynamicImage::ImageRgba32F(ImageBuffer::from_raw(width, height, pod_collect_to_vec(samples))?),
        _ => return None,
    };
    Some(image.to_rgb8().into_raw())
}

/// `DynamicImage::to_rgba8` on an image of one-byte samples, `None` for any
/// other model. Each pixel keeps its red, green and blue, or gets its
/// luminance three times; it keeps its alpha, or gets 255 where it has none.
#[verifier::external_body]
pub(crate) fn rgba8_from_narrow(model: ColorModel, width: u32, height: u32, samples: &[u8]) -> (out:
    Option<Vec<u8>>)
    requires
        samples@.len() == buffer_len(width, height, model.spec_bytes_per_pixel()),
        buffer_len(width, height, 4) <= isize::MAX,
    ensures
        model.spec_is_narrow() <==> out is Some,
        out matches Some(data) ==> data@ == rgba8_of(model, samples@),
{
    let image = match model {
        ColorModel::L8 => DynamicImage::ImageLuma8(ImageBuffer::from_raw(width, height, samples.to_vec())?),
        ColorModel::La8 => DynamicImage::ImageLumaA8(ImageBuffer::from_raw(width, height, samples.to_vec())?),
        ColorModel::Rgb8 => DynamicImage::ImageRgb8(ImageBuffer::from_raw(width, height, samples.to_vec())?),
        ColorModel::Rgba8 => DynamicImage::ImageRgba8(ImageBuffer::from_raw(width, height, samples.to_vec())?),
        _ => return None,
    };
    Some(image.to_rgba8().into_raw())
}

/// `DynamicImage::to_rgba8` on an image of wider samples, `None` for a model
/// of one-byte samples. The result has four bytes for each pixel. The
/// samples are read in the byte order of the machine, so nothing is claimed
/// of the bytes that come out.
#[verifier::external_body]
pub(crate) fn rgba8_from_wide(model: ColorModel, width: u32, height: u32, samples: &[u8]) -> (out:
    Option<Vec<u8>>)
    requires
        samples@.len() == buffer_len(width, height, model.spec_bytes_per_pixel()),
        buffer_len(width, height, 4) <= isize::MAX,
    ensures
        !model.spec_is_narrow() <==> out is Some,
        out matches Some(data) ==> data@.len() == buffer_len(width, height, 4),
{
    let image = match model {
        ColorModel::L16 => DynamicImage::ImageLuma16(ImageBuffer::from_raw(width, height, pod_collect_to_vec(samples))?),
        ColorModel::La16 => DynamicImage::ImageLumaA16(ImageBuffer::from_raw(width, height, pod_collect_to_vec(samples))?),
        ColorModel::Rgb16 => DynamicImage::ImageRgb16(ImageBuffer::from_raw(width, height, pod_collect_to_vec(samples))?),
        ColorModel::Rgba16 => DynamicImage::ImageRgba16(ImageBuffer::from_raw(width, height, pod_collect_to_vec(samples))?),
        ColorModel::Rgb32F => DynamicImage::ImageRgb32F(ImageBuffer::from_raw(width, height, pod_collect_to_vec(samples))?),
        ColorModel::Rgba32F => DynamicImage::ImageRgba32F(ImageBuffer::from_raw(width, height, pod_collect_to_vec(samples))?),
        _ => return None,
    };
    Some(image.to_rgba8().into_raw())
}

/// Whether the codec writes the same file for the same raster on every
/// machine. It does not for TIFF, which it writes in the byte order of the
/// machine, nor for AVIF, which it writes in as many tiles as the machine has
/// threads.
pub open spec fn is_portable(format: Format) -> bool {
    format is Jpg || format is Png || format is Webp
}

/// The file that `image::write_buffer_with_format` writes for a buffer of
/// these dimensions in this layout, in a format that it writes alike on every
/// machine; `None` where it refuses.
pub uninterp spec fn encoded_file(format: Format, layout: ChannelLayout, width: nat, height: nat, data: Seq<u8>) -> Option<Seq<u8>>;

/// `image::write_buffer_with_format` into memory. The encoders refuse a
/// buffer of any other length than the dimensions ask for. For JPEG, PNG and
/// WEBP the outcome is the named file. The JPEG encoder takes no alpha and no
/// dimension above 65535. Nothing else is claimed: what is written as TIFF or
/// AVIF varies with the machine.
#[verifier::external_body]
pub(crate) fn encode_buffer(
    data: &[u8],
    width: u32,
    height: u32,
    layout: ChannelLayout,
    format: Format,
) -> (written: Result<Vec<u8>, ImageError>)
    requires
        data@.len() == buffer_len(width, height, layout.spec_channels()),
    ensures
        is_portable(format) ==> match written {
            Ok(bytes) => encoded_file(format, layout, width as nat, height as nat, data@) == Some(
                bytes@,
            ),
            Err(_) => encoded_file(format, layout, width as nat, height as nat, data@) is None,
        },
        format is Jpg && (layout is Rgba8 || width > 65535 || height > 65535) ==> written is Err,
{
    let color = match layout {
        ChannelLayout::Rgb8 => ColorType::Rgb8,
        ChannelLayout::Rgba8 => ColorType::Rgba8,
    };
    let target = match format {
        Format::Jpg => ImageFormat::Jpeg,
        Format::Png => ImageFormat::Png,
        Format::Tiff => ImageFormat::Tiff,
        Format::Webp => ImageFormat::WebP,
        Format::Avif => ImageFormat::Avif,
    };
    let mut sink = Cursor::new(Vec::new());
    image::write_buffer_with_format(&mut sink, data, width, height, color, target)?;
    Ok(sink.into_inner())
}

} // verus!
