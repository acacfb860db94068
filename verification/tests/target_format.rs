use imgconv::codec::Container;
use imgconv::error::{ConvertError, ErrorKind};
use imgconv::format::Format;
use imgconv::resolve::{catalog_entry, derive_output_path, format_of_extension, resolve_format};

const ALL: [Format; 5] = [Format::Jpg, Format::Png, Format::Tiff, Format::Webp, Format::Avif];

#[test]
fn canonical_extensions_resolve() {
    assert_eq!(resolve_format("photo.jpg"), Ok(Format::Jpg));
    assert_eq!(resolve_format("photo.png"), Ok(Format::Png));
    assert_eq!(resolve_format("photo.tiff"), Ok(Format::Tiff));
    assert_eq!(resolve_format("photo.webp"), Ok(Format::Webp));
    assert_eq!(resolve_format("dir.d/photo.avif"), Ok(Format::Avif));
}

#[test]
fn only_the_canonical_extension_stands_for_a_format() {
    assert_eq!(format_of_extension("jpg"), Some(Format::Jpg));
    assert_eq!(format_of_extension("png"), Some(Format::Png));
    assert_eq!(format_of_extension("tiff"), Some(Format::Tiff));
    assert_eq!(format_of_extension("webp"), Some(Format::Webp));
    assert_eq!(format_of_extension("avif"), Some(Format::Avif));
    for format in ALL {
        assert_eq!(format_of_extension(format.extension()), Some(format));
    }
}

#[test]
fn other_spellings_stand_for_no_format() {
    for ext in ["jpeg", "jfif", "apng", "tif"] {
        assert_eq!(format_of_extension(ext), None, "{:?}", ext);
        let path = format!("photo.{}", ext);
        assert_eq!(
            resolve_format(&path),
            Err(ConvertError::UnsupportedFormat { extension: ext.to_string() })
        );
    }
}

#[test]
fn another_case_stands_for_no_format() {
    for ext in ["JPG", "Jpg", "PNG", "pnG", "TIFF", "WebP", "AVIF", "Avif"] {
        assert_eq!(format_of_extension(ext), None, "{:?}", ext);
        let path = format!("photo.{}", ext);
        assert_eq!(
            resolve_format(&path),
            Err(ConvertError::UnsupportedFormat { extension: ext.to_string() })
        );
    }
}

#[test]
fn containers_outside_the_catalog() {
    for ext in [
        "gif", "tga", "dds", "bmp", "ico", "hdr", "exr", "pbm", "pam", "ppm", "pgm", "pnm", "ff",
        "qoi", "GIF", "Bmp",
    ] {
        assert_eq!(format_of_extension(ext), None, "{:?}", ext);
        let path = format!("photo.{}", ext);
        assert_eq!(
            resolve_format(&path),
            Err(ConvertError::UnsupportedFormat { extension: ext.to_string() })
        );
    }
}

#[test]
fn unknown_extensions() {
    for ext in ["txt", "xyz", "", "jpg ", " jpg", "pcx", "png.", "jpe", "jp", "jpgg", "ｊｐｇ", "İ"] {
        assert_eq!(format_of_extension(ext), None, "{:?}", ext);
    }
    assert_eq!(
        resolve_format("notes.txt"),
        Err(ConvertError::UnsupportedFormat { extension: "txt".to_string() })
    );
    assert_eq!(
        resolve_format("name."),
        Err(ConvertError::UnsupportedFormat { extension: "".to_string() })
    );
}

#[test]
fn missing_extension() {
    for path in ["photo", "dir.d/photo", ".hidden", "", "..", "/", "dir/"] {
        assert_eq!(
            resolve_format(path),
            Err(ConvertError::MissingExtension { path: path.to_string() })
        );
    }
    let e = resolve_format("photo").unwrap_err();
    assert_eq!(e.kind(), ErrorKind::MissingExtension);
    assert_eq!(e.subject(), "photo");
}

#[test]
fn catalog_entries() {
    assert_eq!(catalog_entry(Container::Jpeg), Some(Format::Jpg));
    assert_eq!(catalog_entry(Container::Png), Some(Format::Png));
    assert_eq!(catalog_entry(Container::Tiff), Some(Format::Tiff));
    assert_eq!(catalog_entry(Container::WebP), Some(Format::Webp));
    assert_eq!(catalog_entry(Container::Avif), Some(Format::Avif));
    assert_eq!(catalog_entry(Container::Other), None);
}

#[test]
fn derived_paths_resolve_to_the_requested_format() {
    for format in ALL {
        for (input, dir) in [("in/photo.bmp", None), ("photo.bmp", Some("out")), ("x", None)] {
            let out = derive_output_path(input, dir, format).unwrap();
            assert_eq!(resolve_format(&out), Ok(format));
        }
    }
}
