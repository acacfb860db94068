//! The closed catalog of target formats: canonical extensions and the pixel
//! layout each format is written in.

use vstd::prelude::*;

verus! {

/// A target container format.
#[derive(Debug, Clone, Copy, PartialEq, Eq, Structural, PartialOrd, Ord, Hash)]
pub enum Format {
    Jpg,
    Png,
    Tiff,
    Webp,
    Avif,
}

/// The pixel layout handed to an encoder: eight bits per channel, with or
/// without an alpha channel.
#[derive(Debug, Clone, Copy, PartialEq, Eq, Structural, Hash)]
pub enum ChannelLayout {
    /// Red, green, blue.
    Rgb8,
    /// Red, green, blue, alpha.
    Rgba8,
}

impl ChannelLayout {
    /// Number of channels, which is also the number of bytes per pixel.
    pub open spec fn spec_channels(self) -> nat {
        match self {
            ChannelLayout::Rgb8 => 3,
            ChannelLayout::Rgba8 => 4,
        }
    }

    pub open spec fn spec_has_alpha(self) -> bool {
        self == ChannelLayout::Rgba8
    }

    /// Number of channels, which is also the number of bytes per pixel.
    pub fn channels(&self) -> (n: u8)
        ensures
            n == self.spec_channels(),
    {
        match self {
            ChannelLayout::Rgb8 => 3,
            ChannelLayout::Rgba8 => 4,
        }
    }

    /// Whether the layout carries an alpha channel.
    pub fn has_alpha(&self) -> (alpha: bool)
        ensures
            alpha == self.spec_has_alpha(),
    {
        match self {
            ChannelLayout::Rgb8 => false,
            ChannelLayout::Rgba8 => true,
        }
    }
}

impl Format {
    /// The canonical lower-case extension, as a sequence of characters.
    pub open spec fn spec_extension(self) -> Seq<char> {
        match self {
            Format::Jpg => seq!['j', 'p', 'g'],
            Format::Png => seq!['p', 'n', 'g'],
            Format::Tiff => seq!['t', 'i', 'f', 'f'],
            Format::Webp => seq!['w', 'e', 'b', 'p'],
            Format::Avif => seq!['a', 'v', 'i', 'f'],
        }
    }

    /// The layout a raster must have to be written in this format: JPEG has
    /// no alpha channel, every other format keeps one.
    pub open spec fn spec_layout(self) -> ChannelLayout {
        match self {
            Format::Jpg => ChannelLayout::Rgb8,
            _ => ChannelLayout::Rgba8,
        }
    }

    /// The canonical file extension of this format, without a leading dot.
    pub fn extension(&self) -> (ext: &'static str)
        ensures
            ext@ == self.spec_extension(),
    {
        match self {
            Format::Jpg => {
                proof {
                    reveal_strlit("jpg");
                }
                assert("jpg"@ =~= seq!['j', 'p', 'g']);
                "jpg"
            },
            Format::Png => {
                proof {
                    reveal_strlit("png");
                }
                assert("png"@ =~= seq!['p', 'n', 'g']);
                "png"
            },
            Format::Tiff => {
                proof {
                    reveal_strlit("tiff");
                }
                assert("tiff"@ =~= seq!['t', 'i', 'f', 'f']);
                "tiff"
            },
            Format::Webp => {
                proof {
                    reveal_strlit("webp");
                }
                assert("webp"@ =~= seq!['w', 'e', 'b', 'p']);
                "webp"
            },
            Format::Avif => {
                proof {
                    reveal_strlit("avif");
                }
                assert("avif"@ =~= seq!['a', 'v', 'i', 'f']);
                "avif"
            },
        }
    }

    /// The layout a raster must have to be written in this format.
    pub fn layout(&self) -> (layout: ChannelLayout)
        ensures
            layout == self.spec_layout(),
    {
        match self {
            Format::Jpg => ChannelLayout::Rgb8,
            Format::Png | Format::Tiff | Format::Webp | Format::Avif => ChannelLayout::Rgba8,
        }
    }
}

/// A canonical extension is never empty and holds neither a dot nor a
/// separator, so it can be appended to any file stem.
pub proof fn lemma_extension_is_plain(format: Format)
    ensures
        format.spec_extension().len() > 0,
        !format.spec_extension().contains('.'),
        !format.spec_extension().contains('/'),
{
}

} // verus!
