//! Rasters in memory: what a decoder hands over, and what an encoder takes.

use crate::format::ChannelLayout;
use vstd::prelude::*;

verus! {

/// The colour model of a decoded raster: which channels a pixel has and how
/// wide each sample is.
#[derive(Debug, Clone, Copy, PartialEq, Eq, Structural, Hash)]
pub enum ColorModel {
    /// Luminance, one byte.
    L8,
    /// Luminance and alpha, one byte each.
    La8,
    /// Red, green, blue, one byte each.
    Rgb8,
    /// Red, green, blue, alpha, one byte each.
    Rgba8,
    /// Luminance, two bytes.
    L16,
    /// Luminance and alpha, two bytes each.
    La16,
    /// Red, green, blue, two bytes each.
    Rgb16,
    /// Red, green, blue, alpha, two bytes each.
    Rgba16,
    /// Red, green, blue, four bytes each.
    Rgb32F,
    /// Red, green, blue, alpha, four bytes each.
    Rgba32F,
}

impl ColorModel {
    pub open spec fn spec_bytes_per_pixel(self) -> nat {
        match self {
            ColorModel::L8 => 1,
            ColorModel::La8 => 2,
            ColorModel::Rgb8 => 3,
            ColorModel::Rgba8 => 4,
            ColorModel::L16 => 2,
            ColorModel::La16 => 4,
            ColorModel::Rgb16 => 6,
            ColorModel::Rgba16 => 8,
            ColorModel::Rgb32F => 12,
            ColorModel::Rgba32F => 16,
        }
    }

    /// Whether every sample is one byte wide.
    pub open spec fn spec_is_narrow(self) -> bool {
        self is L8 || self is La8 || self is Rgb8 || self is Rgba8
    }

    pub open spec fn spec_has_alpha(self) -> bool {
        self is La8 || self is Rgba8 || self is La16 || self is Rgba16 || self is Rgba32F
    }

    /// The number of bytes that one pixel takes.
    pub fn bytes_per_pixel(&self) -> (n: u8)
        ensures
            n == self.spec_bytes_per_pixel(),
    {
        match self {
            ColorModel::L8 => 1,
            ColorModel::La8 => 2,
            ColorModel::Rgb8 => 3,
            ColorModel::Rgba8 => 4,
            ColorModel::L16 => 2,
            ColorModel::La16 => 4,
            ColorModel::Rgb16 => 6,
            ColorModel::Rgba16 => 8,
            ColorModel::Rgb32F => 12,
            ColorModel::Rgba32F => 16,
        }
    }

    /// Whether every sample is one byte wide.
    pub fn is_narrow(&self) -> (narrow: bool)
        ensures
            narrow == self.spec_is_narrow(),
    {
        match self {
            ColorModel::L8 | ColorModel::La8 | ColorModel::Rgb8 | ColorModel::Rgba8 => true,
            _ => false,
        }
    }

    /// Whether a pixel has an alpha channel.
    pub fn has_alpha(&self) -> (alpha: bool)
        ensures
            alpha == self.spec_has_alpha(),
    {
        match self {
            ColorModel::La8
            | ColorModel::Rgba8
            | ColorModel::La16
            | ColorModel::Rgba16
            | ColorModel::Rgba32F => true,
            _ => false,
        }
    }
}

/// The number of bytes in a buffer of `width` by `height` pixels.
pub open spec fn buffer_len(width: u32, height: u32, bytes_per_pixel: nat) -> nat {
    (width as nat) * (height as nat) * bytes_per_pixel
}

/// Whether a raster of these dimensions can be held in either layout that an
/// encoder takes: neither dimension is zero, and four bytes per pixel can be
/// allocated.
pub open spec fn dimensions_fit(width: u32, height: u32) -> bool {
    width > 0 && height > 0 && buffer_len(width, height, 4) <= isize::MAX
}

/// Whether `len` bytes are exactly a buffer of `width` by `height` pixels.
fn is_buffer_len(len: usize, width: u32, height: u32, bytes_per_pixel: u8) -> (exact: bool)
    ensures
        exact == (len == buffer_len(width, height, bytes_per_pixel as nat)),
{
    let pixels: u64 = match (width as u64).checked_mul(height as u64) {
        Some(n) => n,
        None => {
            assert(false) by {
                assert((width as int) * (height as int) <= 0xffff_ffff * 0xffff_ffff)
                    by (nonlinear_arith)
                    requires
                        0 <= width <= 0xffff_ffff,
                        0 <= height <= 0xffff_ffff,
                ;
            }
            0
        },
    };
    assert((pixels as int) * (bytes_per_pixel as int) <= 0xffff_ffff_ffff_ffff * 0xff)
        by (nonlinear_arith)
        requires
            0 <= pixels <= 0xffff_ffff_ffff_ffff,
            0 <= bytes_per_pixel <= 0xff,
    ;
    let want: u128 = pixels as u128 * bytes_per_pixel as u128;
    len as u128 == want
}

/// Whether a raster of these dimensions can be held in either encoder layout.
fn check_dimensions(width: u32, height: u32) -> (fit: bool)
    ensures
        fit == dimensions_fit(width, height),
{
    if width == 0 || height == 0 {
        return false;
    }
    assert((width as int) * (height as int) <= 0xffff_ffff * 0xffff_ffff) by (nonlinear_arith)
        requires
            0 <= width <= 0xffff_ffff,
            0 <= height <= 0xffff_ffff,
    ;
    let pixels: u128 = width as u128 * height as u128;
    pixels * 4 <= isize::MAX as u128
}

/// A decoded image: its dimensions, its colour model, and its samples row by
/// row, each sample in the byte order of the machine.
#[derive(Debug, PartialEq, Eq)]
pub struct DecodedRaster {
    width: u32,
    height: u32,
    model: ColorModel,
    samples: Vec<u8>,
}

impl DecodedRaster {
    #[verifier::type_invariant]
    spec fn well_formed(self) -> bool {
        &&& dimensions_fit(self.width, self.height)
        &&& self.samples@.len() == buffer_len(
            self.width,
            self.height,
            self.model.spec_bytes_per_pixel(),
        )
    }

    pub closed spec fn spec_width(self) -> u32 {
        self.width
    }

    pub closed spec fn spec_height(self) -> u32 {
        self.height
    }

    pub closed spec fn spec_model(self) -> ColorModel {
        self.model
    }

    pub closed spec fn spec_samples(self) -> Seq<u8> {
        self.samples@
    }

    /// A raster of `width` by `height` pixels over `samples`. `None` where a
    /// dimension is zero, where the samples are not exactly one buffer of
    /// these dimensions, or where four bytes per pixel could not be allocated.
    pub fn new(width: u32, height: u32, model: ColorModel, samples: Vec<u8>) -> (raster: Option<
        DecodedRaster,
    >)
        ensures
            raster is Some <==> dimensions_fit(width, height) && samples@.len() == buffer_len(
                width,
                height,
                model.spec_bytes_per_pixel(),
            ),
            raster matches Some(r) ==> r.spec_width() == width && r.spec_height() == height
                && r.spec_model() == model && r.spec_samples() == samples@,
    {
        if check_dimensions(width, height) && is_buffer_len(
            samples.len(),
            width,
            height,
            model.bytes_per_pixel(),
        ) {
            Some(DecodedRaster { width, height, model, samples })
        } else {
            None
        }
    }

    /// Width in pixels; never zero.
    pub fn width(&self) -> (width: u32)
        ensures
            width == self.spec_width(),
            width > 0,
    {
        proof {
            use_type_invariant(self);
        }
        self.width
    }

    /// Height in pixels; never zero.
    pub fn height(&self) -> (height: u32)
        ensures
            height == self.spec_height(),
            height > 0,
    {
        proof {
            use_type_invariant(self);
        }
        self.height
    }

    /// The colour model of the samples.
    pub fn model(&self) -> (model: ColorModel)
        ensures
            model == self.spec_model(),
    {
        self.model
    }

    /// The samples: exactly one buffer of the raster's dimensions.
    pub fn samples(&self) -> (samples: &[u8])
        ensures
            samples@ == self.spec_samples(),
            samples@.len() == buffer_len(
                self.spec_width(),
                self.spec_height(),
                self.spec_model().spec_bytes_per_pixel(),
            ),
            dimensions_fit(self.spec_width(), self.spec_height()),
    {
        proof {
            use_type_invariant(self);
        }
        self.samples.as_slice()
    }
}

/// A raster as an encoder takes it: one byte per channel, three or four
/// channels per pixel, and exactly one buffer of its dimensions.
#[derive(Debug, PartialEq, Eq)]
pub struct EncodableRaster {
    width: u32,
    height: u32,
    layout: ChannelLayout,
    data: Vec<u8>,
}

impl EncodableRaster {
    #[verifier::type_invariant]
    spec fn well_formed(self) -> bool {
        &&& self.width > 0
        &&& self.height > 0
        &&& self.data@.len() == buffer_len(self.width, self.height, self.layout.spec_channels())
    }

    pub closed spec fn spec_width(self) -> u32 {
        self.width
    }

    pub closed spec fn spec_height(self) -> u32 {
        self.height
    }

    pub closed spec fn spec_layout(self) -> ChannelLayout {
        self.layout
    }

    pub closed spec fn spec_data(self) -> Seq<u8> {
        self.data@
    }

    /// A raster of `width` by `height` pixels over `data`. `None` where a
    /// dimension is zero or `data` is not exactly one buffer of these
    /// dimensions in this layout.
    pub fn new(width: u32, height: u32, layout: ChannelLayout, data: Vec<u8>) -> (raster: Option<
        EncodableRaster,
    >)
        ensures
            raster is Some <==> width > 0 && height > 0 && data@.len() == buffer_len(
                width,
                height,
                layout.spec_channels(),
            ),
            raster matches Some(r) ==> r.spec_width() == width && r.spec_height() == height
                && r.spec_layout() == layout && r.spec_data() == data@,
    {
        if width > 0 && height > 0 && is_buffer_len(data.len(), width, height, layout.channels()) {
            Some(EncodableRaster { width, height, layout, data })
        } else {
            None
        }
    }

    /// Width in pixels; never zero.
    pub fn width(&self) -> (width: u32)
        ensures
            width == self.spec_width(),
            width > 0,
    {
        proof {
            use_type_invariant(self);
        }
        self.width
    }

    /// Height in pixels; never zero.
    pub fn height(&self) -> (height: u32)
        ensures
            height == self.spec_height(),
            height > 0,
    {
        proof {
            use_type_invariant(self);
        }
        self.height
    }

    /// The layout of the pixels.
    pub fn layout(&self) -> (layout: ChannelLayout)
        ensures
            layout == self.spec_layout(),
    {
        self.layout
    }

    /// The bytes of the pixels, row by row: width times height times the
    /// number of channels.
    pub fn data(&self) -> (data: &[u8])
        ensures
            data@ == self.spec_data(),
            data@.len() == buffer_len(
                self.spec_width(),
                self.spec_height(),
                self.spec_layout().spec_channels(),
            ),
    {
        proof {
            use_type_invariant(self);
        }
        self.data.as_slice()
    }
}

} // verus!
