use imgconv::error::{ConvertError, ErrorKind};
use imgconv::format::Format;
use imgconv::path::{extension, same_path};
use imgconv::resolve::derive_output_path;
use std::path::{Path, PathBuf};

const ALL: [Format; 5] = [Format::Jpg, Format::Png, Format::Tiff, Format::Webp, Format::Avif];

const INPUTS: [&str; 20] = [
    "photo.png",
    "dir/photo.png",
    "/abs/dir/photo.jpeg",
    "photo",
    ".hidden",
    "a.tar.gz",
    "a.png/",
    "a.png/.",
    "./a.png",
    "../a.webp",
    "a.jpg",
    "a.tiff",
    "a.avif",
    "",
    ".",
    "..",
    "/",
    "dir/..",
    "name.",
    "é/画像.png",
];

const DIRS: [&str; 7] = ["out", "out/", "", ".", "/tmp/out", "../x", "dir"];

fn reference(input: &str, dir: Option<&str>, format: Format) -> Result<String, ErrorKind> {
    let source = PathBuf::from(input);
    let joined = match dir {
        Some(d) => match source.file_name() {
            Some(name) => Path::new(d).join(name),
            None => return Err(ErrorKind::MissingFileName),
        },
        None => source.clone(),
    };
    let target = joined.with_extension(format.extension());
    if source == target {
        Err(ErrorKind::SameFile)
    } else {
        Ok(target.to_str().unwrap().to_string())
    }
}

fn outcome(derived: Result<String, ConvertError>) -> Result<String, ErrorKind> {
    derived.map_err(|e| e.kind())
}

#[test]
fn same_directory_same_base_name() {
    assert_eq!(derive_output_path("photo.png", None, Format::Webp), Ok("photo.webp".to_string()));
    assert_eq!(
        derive_output_path("dir/photo.png", None, Format::Jpg),
        Ok("dir/photo.jpg".to_string())
    );
    assert_eq!(derive_output_path("photo", None, Format::Tiff), Ok("photo.tiff".to_string()));
}

#[test]
fn into_the_output_directory() {
    assert_eq!(
        derive_output_path("dir/photo.png", Some("out"), Format::Avif),
        Ok("out/photo.avif".to_string())
    );
    assert_eq!(
        derive_output_path("photo.png", Some("out/"), Format::Png),
        Ok("out/photo.png".to_string())
    );
}

#[test]
fn missing_file_name_with_a_directory() {
    for input in ["", ".", "..", "/", "dir/.."] {
        assert_eq!(
            derive_output_path(input, Some("out"), Format::Png),
            Err(ConvertError::MissingFileName { path: input.to_string() })
        );
    }
}

#[test]
fn same_file_by_format() {
    assert_eq!(
        derive_output_path("a.png", None, Format::Png),
        Err(ConvertError::SameFile { path: "a.png".to_string() })
    );
    assert_eq!(
        derive_output_path("dir/a.jpg", None, Format::Jpg),
        Err(ConvertError::SameFile { path: "dir/a.jpg".to_string() })
    );
}

#[test]
fn same_file_by_directory() {
    assert_eq!(
        derive_output_path("dir/a.png", Some("dir"), Format::Png),
        Err(ConvertError::SameFile { path: "dir/a.png".to_string() })
    );
    assert_eq!(
        derive_output_path("dir//a.png", Some("dir/"), Format::Png),
        Err(ConvertError::SameFile { path: "dir//a.png".to_string() })
    );
}

#[test]
fn same_file_without_a_file_name() {
    for input in ["", ".", "..", "/"] {
        assert_eq!(
            derive_output_path(input, None, Format::Png),
            Err(ConvertError::SameFile { path: input.to_string() })
        );
    }
}

#[test]
fn derivation_agrees_with_std_paths() {
    for input in INPUTS {
        for format in ALL {
            assert_eq!(
                outcome(derive_output_path(input, None, format)),
                reference(input, None, format),
                "{:?} to {:?}",
                input,
                format
            );
            for dir in DIRS {
                assert_eq!(
                    outcome(derive_output_path(input, Some(dir), format)),
                    reference(input, Some(dir), format),
                    "{:?} to {:?} in {:?}",
                    input,
                    format,
                    dir
                );
            }
        }
    }
}

#[test]
fn derived_paths_carry_the_canonical_extension() {
    for input in INPUTS {
        for format in ALL {
            for dir in [None, Some("out"), Some("")] {
                if let Ok(out) = derive_output_path(input, dir, format) {
                    assert_eq!(extension(&out), Some(format.extension().to_string()));
                    assert!(!same_path(input, &out));
                }
            }
        }
    }
}

#[test]
fn errors_are_about_the_input() {
    let e = derive_output_path("a.png", None, Format::Png).unwrap_err();
    assert_eq!(e.kind(), ErrorKind::SameFile);
    assert_eq!(e.subject(), "a.png");
    let e = derive_output_path("..", Some("out"), Format::Png).unwrap_err();
    assert_eq!(e.kind(), ErrorKind::MissingFileName);
    assert_eq!(e.subject(), "..");
}

#[test]
fn a_file_name_that_opens_with_two_dots() {
    assert_eq!(derive_output_path("..a", None, Format::Png), Ok("..png".to_string()));
    assert_eq!(derive_output_path("in/..a", Some("out"), Format::Jpg), Ok("out/..jpg".to_string()));
    assert_eq!(
        derive_output_path("..png", None, Format::Png),
        Err(ConvertError::SameFile { path: "..png".to_string() })
    );
}
