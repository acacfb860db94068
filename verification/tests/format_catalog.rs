use imgconv::format::{ChannelLayout, Format};

const ALL: [Format; 5] = [Format::Jpg, Format::Png, Format::Tiff, Format::Webp, Format::Avif];

#[test]
fn canonical_extensions() {
    assert_eq!(Format::Jpg.extension(), "jpg");
    assert_eq!(Format::Png.extension(), "png");
    assert_eq!(Format::Tiff.extension(), "tiff");
    assert_eq!(Format::Webp.extension(), "webp");
    assert_eq!(Format::Avif.extension(), "avif");
}

#[test]
fn extensions_are_plain_and_distinct() {
    for (i, a) in ALL.iter().enumerate() {
        let ext = a.extension();
        assert!(!ext.is_empty());
        assert!(!ext.contains('.'));
        assert!(!ext.contains('/'));
        assert_eq!(ext.to_ascii_lowercase(), ext);
        for b in ALL.iter().skip(i + 1) {
            assert_ne!(ext, b.extension());
        }
    }
}

#[test]
fn only_jpeg_drops_alpha() {
    assert_eq!(Format::Jpg.layout(), ChannelLayout::Rgb8);
    assert_eq!(Format::Png.layout(), ChannelLayout::Rgba8);
    assert_eq!(Format::Tiff.layout(), ChannelLayout::Rgba8);
    assert_eq!(Format::Webp.layout(), ChannelLayout::Rgba8);
    assert_eq!(Format::Avif.layout(), ChannelLayout::Rgba8);
}

#[test]
fn layouts_count_their_channels() {
    assert_eq!(ChannelLayout::Rgb8.channels(), 3);
    assert_eq!(ChannelLayout::Rgba8.channels(), 4);
    assert!(!ChannelLayout::Rgb8.has_alpha());
    assert!(ChannelLayout::Rgba8.has_alpha());
}

#[test]
fn formats_are_ordered_as_declared() {
    assert!(Format::Jpg < Format::Png);
    assert!(Format::Png < Format::Tiff);
    assert!(Format::Tiff < Format::Webp);
    assert!(Format::Webp < Format::Avif);
}
