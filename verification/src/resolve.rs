//! Where the output goes and which format it is written in.

use crate::codec::{ascii_lowercase, container_of_extension, lookup_extension, Container};
use crate::error::{ConvertError, ErrorKind};
use crate::format::{lemma_extension_is_plain, Format};
use crate::path::{
    extension, file_name, join, lemma_file_name_is_name, lemma_file_name_of_join,
    lemma_same_path_is_reflexive, lemma_with_extension_sets_extension, same_path, spec_extension,
    spec_file_name, spec_join, spec_same_path, spec_with_extension, with_extension,
};
use vstd::prelude::*;
use vstd::string::*;

verus! {

/// The text of an optional directory.
pub open spec fn dir_view(output_dir: Option<&str>) -> Option<Seq<char>> {
    match output_dir {
        Some(dir) => Some(dir@),
        None => None,
    }
}

/// The path that the output would have, before it is held against the
/// input: the file name of the input in the output directory, or the input
/// itself where there is no such directory, with the canonical extension of
/// the format. `None` where a directory is given and the input has no file
/// name.
pub open spec fn spec_candidate(input: Seq<char>, output_dir: Option<Seq<char>>, format: Format)
    -> Option<Seq<char>> {
    match output_dir {
        Some(dir) => match spec_file_name(input) {
            Some(name) => Some(spec_with_extension(spec_join(dir, name), format.spec_extension())),
            None => None,
        },
        None => Some(spec_with_extension(input, format.spec_extension())),
    }
}

/// The output path of a conversion, or the kind of error that it fails with.
pub open spec fn spec_derive(input: Seq<char>, output_dir: Option<Seq<char>>, format: Format)
    -> Result<Seq<char>, ErrorKind> {
    match spec_candidate(input, output_dir, format) {
        None => Err(ErrorKind::MissingFileName),
        Some(candidate) => if spec_same_path(input, candidate) {
            Err(ErrorKind::SameFile)
        } else {
            Ok(candidate)
        },
    }
}

/// The format of the catalog that is written in a container.
pub open spec fn spec_catalog_entry(container: Container) -> Option<Format> {
    match container {
        Container::Jpeg => Some(Format::Jpg),
        Container::Png => Some(Format::Png),
        Container::Tiff => Some(Format::Tiff),
        Container::WebP => Some(Format::Webp),
        Container::Avif => Some(Format::Avif),
        Container::Other => None,
    }
}

/// The format that an extension stands for: the one whose canonical
/// extension it is, letter for letter. Another spelling or another case of it
/// stands for no format.
pub open spec fn spec_format_of_extension(ext: Seq<char>) -> Option<Format> {
    if ext == Format::Jpg.spec_extension() {
        Some(Format::Jpg)
    } else if ext == Format::Png.spec_extension() {
        Some(Format::Png)
    } else if ext == Format::Tiff.spec_extension() {
        Some(Format::Tiff)
    } else if ext == Format::Webp.spec_extension() {
        Some(Format::Webp)
    } else if ext == Format::Avif.spec_extension() {
        Some(Format::Avif)
    } else {
        None
    }
}

/// The format that an output path is written in, or the kind of error that
/// telling it fails with.
pub open spec fn spec_resolve(output_path: Seq<char>) -> Result<Format, ErrorKind> {
    match spec_extension(output_path) {
        None => Err(ErrorKind::MissingExtension),
        Some(ext) => match spec_format_of_extension(ext) {
            Some(format) => Ok(format),
            None => Err(ErrorKind::UnsupportedFormat),
        },
    }
}

/// A derived output path carries the canonical extension of the requested
/// format.
pub proof fn lemma_derived_path_has_extension(
    input: Seq<char>,
    output_dir: Option<Seq<char>>,
    format: Format,
)
    requires
        spec_derive(input, output_dir, format) is Ok,
    ensures
        spec_extension(spec_derive(input, output_dir, format)->Ok_0) == Some(
            format.spec_extension(),
        ),
{
    let ext = format.spec_extension();
    lemma_extension_is_plain(format);
    match output_dir {
        Some(dir) => {
            let name = spec_file_name(input)->0;
            lemma_file_name_is_name(input);
            lemma_file_name_of_join(dir, name);
            lemma_with_extension_sets_extension(spec_join(dir, name), ext);
        },
        None => {
            if spec_file_name(input) is None {
                lemma_same_path_is_reflexive(input);
            } else {
                lemma_with_extension_sets_extension(input, ext);
            }
        },
    }
}

/// An output path that is the same path as the input is never derived:
/// whether the format or the directory brought it back to the input, the
/// derivation fails with `SameFile`.
pub proof fn lemma_same_file_is_refused(
    input: Seq<char>,
    output_dir: Option<Seq<char>>,
    format: Format,
)
    requires
        spec_candidate(input, output_dir, format) is Some,
        spec_same_path(input, spec_candidate(input, output_dir, format)->0),
    ensures
        spec_derive(input, output_dir, format) == Err::<Seq<char>, ErrorKind>(ErrorKind::SameFile),
{
}

/// The canonical extension of a format stands for that format, and the
/// codec finds the container of that format by it.
pub proof fn lemma_canonical_extension_resolves(format: Format)
    ensures
        spec_format_of_extension(format.spec_extension()) == Some(format),
        container_of_extension(format.spec_extension()) matches Some(container)
            && spec_catalog_entry(container) == Some(format),
{
    let ext = format.spec_extension();
    assert(ascii_lowercase(ext) =~= ext);
}

/// An extension stands for a format exactly where it is the canonical
/// extension of that format.
pub proof fn lemma_only_canonical_extensions_resolve(ext: Seq<char>, format: Format)
    ensures
        spec_format_of_extension(ext) == Some(format) <==> ext == format.spec_extension(),
{
    if ext == format.spec_extension() {
        lemma_canonical_extension_resolves(format);
    }
}

/// An output path whose extension is the canonical extension of no format
/// fails with `UnsupportedFormat`: it is never taken for a format, and its
/// failure is never `MissingExtension`.
pub proof fn lemma_foreign_extension_is_unsupported(output_path: Seq<char>, ext: Seq<char>)
    requires
        spec_extension(output_path) == Some(ext),
        forall|format: Format| ext != #[trigger] format.spec_extension(),
    ensures
        spec_resolve(output_path) == Err::<Format, ErrorKind>(ErrorKind::UnsupportedFormat),
{
    assert(ext != Format::Jpg.spec_extension());
    assert(ext != Format::Png.spec_extension());
    assert(ext != Format::Tiff.spec_extension());
    assert(ext != Format::Webp.spec_extension());
    assert(ext != Format::Avif.spec_extension());
}

/// A derived output path resolves to the requested format.
pub proof fn lemma_derived_path_resolves(
    input: Seq<char>,
    output_dir: Option<Seq<char>>,
    format: Format,
)
    requires
        spec_derive(input, output_dir, format) is Ok,
    ensures
        spec_resolve(spec_derive(input, output_dir, format)->Ok_0) == Ok::<Format, ErrorKind>(
            format,
        ),
{
    lemma_derived_path_has_extension(input, output_dir, format);
    lemma_canonical_extension_resolves(format);
}

/// Derives the path of the output from the path of the input, the output
/// directory where one is given, and the target format.
///
/// With a directory, the output is the file name of the input in that
/// directory; without one, the input itself; either way with the canonical
/// extension of the format in place of its own. It fails with
/// `MissingFileName` where a directory is given and the input has no file
/// name, and with `SameFile` where the output would be the input.
pub fn derive_output_path(input: &str, output_dir: Option<&str>, format: Format) -> (derived:
    Result<String, ConvertError>)
    ensures
        match derived {
            Ok(out) => spec_derive(input@, dir_view(output_dir), format) == Ok::<
                Seq<char>,
                ErrorKind,
            >(out@) && spec_extension(out@) == Some(format.spec_extension()) && !spec_same_path(
                input@,
                out@,
            ),
            Err(e) => spec_derive(input@, dir_view(output_dir), format) == Err::<
                Seq<char>,
                ErrorKind,
            >(e.spec_kind()) && e.spec_subject() == input@,
        },
{
    proof {
        lemma_extension_is_plain(format);
    }
    let candidate = match output_dir {
        Some(dir) => match file_name(input) {
            Some(name) => with_extension(join(dir, name.as_str()).as_str(), format.extension()),
            None => {
                return Err(ConvertError::MissingFileName { path: String::from_str(input) });
            },
        },
        None => with_extension(input, format.extension()),
    };
    if same_path(input, candidate.as_str()) {
        Err(ConvertError::SameFile { path: String::from_str(input) })
    } else {
        proof {
            lemma_derived_path_has_extension(input@, dir_view(output_dir), format);
        }
        Ok(candidate)
    }
}

/// The format of the catalog that is written in a container, if any.
pub fn catalog_entry(container: Container) -> (format: Option<Format>)
    ensures
        format == spec_catalog_entry(container),
{
    match container {
        Container::Jpeg => Some(Format::Jpg),
        Container::Png => Some(Format::Png),
        Container::Tiff => Some(Format::Tiff),
        Container::WebP => Some(Format::Webp),
        Container::Avif => Some(Format::Avif),
        Container::Other => None,
    }
}

/// Whether two strings hold the same text.
fn same_text(a: &str, b: &str) -> (same: bool)
    ensures
        same == (a@ == b@),
{
    String::from_str(a) == String::from_str(b)
}

/// The format that an extension stands for: the one whose canonical
/// extension it is, letter for letter; `None` for any other text. The codec
/// finds the container; the extension is then held against the canonical one
/// of the format written in it.
pub fn format_of_extension(ext: &str) -> (format: Option<Format>)
    ensures
        format == spec_format_of_extension(ext@),
{
    let found = match lookup_extension(ext) {
        Some(container) => catalog_entry(container),
        None => None,
    };
    match found {
        Some(format) => {
            if same_text(ext, format.extension()) {
                proof {
                    lemma_canonical_extension_resolves(format);
                }
                Some(format)
            } else {
                proof {
                    if spec_format_of_extension(ext@) is Some {
                        lemma_canonical_extension_resolves(spec_format_of_extension(ext@)->0);
                    }
                }
                None
            }
        },
        None => {
            proof {
                if spec_format_of_extension(ext@) is Some {
                    lemma_canonical_extension_resolves(spec_format_of_extension(ext@)->0);
                }
            }
            None
        },
    }
}

/// Tells the target format by the extension of the output path.
///
/// It fails with `MissingExtension` where the path has no extension, and
/// with `UnsupportedFormat` where the extension is not the canonical
/// extension of a format of the catalog.
pub fn resolve_format(output_path: &str) -> (resolved: Result<Format, ConvertError>)
    ensures
        match resolved {
            Ok(format) => spec_resolve(output_path@) == Ok::<Format, ErrorKind>(format),
            Err(e) => spec_resolve(output_path@) == Err::<Format, ErrorKind>(e.spec_kind()) && (
            e is MissingExtension ==> e.spec_subject() == output_path@) && (e is UnsupportedFormat
                ==> Some(e.spec_subject()) == spec_extension(output_path@)),
        },
{
    match extension(output_path) {
        None => Err(ConvertError::MissingExtension { path: String::from_str(output_path) }),
        Some(ext) => match format_of_extension(ext.as_str()) {
            Some(format) => Ok(format),
            None => Err(ConvertError::UnsupportedFormat { extension: ext }),
        },
    }
}

} // verus!
