//! What can go wrong in a conversion. Every error ends the run.

use vstd::prelude::*;
use vstd::string::*;

verus! {

/// The kind of a [`ConvertError`], without its context.
#[derive(Debug, Clone, Copy, PartialEq, Eq, Structural, Hash)]
pub enum ErrorKind {
    Open,
    Decode,
    MissingFileName,
    SameFile,
    MissingExtension,
    UnsupportedFormat,
    Save,
}

/// A failed conversion, with the path or extension it failed on.
#[derive(Debug, Clone, PartialEq, Eq)]
pub enum ConvertError {
    /// The input could not be opened or read.
    Open { path: String, reason: String },
    /// The input holds no image that can be decoded.
    Decode { path: String, reason: String },
    /// The input path has no file name to put into the output directory.
    MissingFileName { path: String },
    /// The output would be written over the input.
    SameFile { path: String },
    /// The output path has no extension to tell its format by.
    MissingExtension { path: String },
    /// The extension of the output path names no supported format.
    UnsupportedFormat { extension: String },
    /// The output could not be encoded or written.
    Save { path: String, reason: String },
}

impl ConvertError {
    pub open spec fn spec_kind(self) -> ErrorKind {
        match self {
            ConvertError::Open { .. } => ErrorKind::Open,
            ConvertError::Decode { .. } => ErrorKind::Decode,
            ConvertError::MissingFileName { .. } => ErrorKind::MissingFileName,
            ConvertError::SameFile { .. } => ErrorKind::SameFile,
            ConvertError::MissingExtension { .. } => ErrorKind::MissingExtension,
            ConvertError::UnsupportedFormat { .. } => ErrorKind::UnsupportedFormat,
            ConvertError::Save { .. } => ErrorKind::Save,
        }
    }

    /// The path or extension that the error is about.
    pub open spec fn spec_subject(self) -> Seq<char> {
        match self {
            ConvertError::Open { path, .. } => path@,
            ConvertError::Decode { path, .. } => path@,
            ConvertError::MissingFileName { path } => path@,
            ConvertError::SameFile { path } => path@,
            ConvertError::MissingExtension { path } => path@,
            ConvertError::UnsupportedFormat { extension } => extension@,
            ConvertError::Save { path, .. } => path@,
        }
    }

    /// What the collaborator said of the failure; empty where the error is
    /// the library's own finding.
    pub open spec fn spec_reason(self) -> Seq<char> {
        match self {
            ConvertError::Open { reason, .. } => reason@,
            ConvertError::Decode { reason, .. } => reason@,
            ConvertError::Save { reason, .. } => reason@,
            _ => Seq::<char>::empty(),
        }
    }

    /// How the message of an error of this kind begins.
    pub open spec fn spec_prefix(kind: ErrorKind) -> Seq<char> {
        match kind {
            ErrorKind::Open => "Failed to open image file "@,
            ErrorKind::Decode => "Failed to decode image file "@,
            ErrorKind::MissingFileName => "Input path has no file name: "@,
            ErrorKind::SameFile => "Input and output are the same file: "@,
            ErrorKind::MissingExtension => "Missing output file extension: "@,
            ErrorKind::UnsupportedFormat => "Unsupported output file extension: "@,
            ErrorKind::Save => "Failed to save image file "@,
        }
    }

    /// The message: the prefix of the kind, the subject in double quotes, and,
    /// where there is a reason, a colon and the reason.
    pub open spec fn spec_message(self) -> Seq<char> {
        let quoted = Self::spec_prefix(self.spec_kind()) + "\""@ + self.spec_subject() + "\""@;
        if self.spec_reason().len() == 0 {
            quoted
        } else {
            quoted + ": "@ + self.spec_reason()
        }
    }

    /// The kind of this error.
    pub fn kind(&self) -> (kind: ErrorKind)
        ensures
            kind == self.spec_kind(),
    {
        match self {
            ConvertError::Open { .. } => ErrorKind::Open,
            ConvertError::Decode { .. } => ErrorKind::Decode,
            ConvertError::MissingFileName { .. } => ErrorKind::MissingFileName,
            ConvertError::SameFile { .. } => ErrorKind::SameFile,
            ConvertError::MissingExtension { .. } => ErrorKind::MissingExtension,
            ConvertError::UnsupportedFormat { .. } => ErrorKind::UnsupportedFormat,
            ConvertError::Save { .. } => ErrorKind::Save,
        }
    }

    /// The path or extension that the error is about.
    pub fn subject(&self) -> (subject: &str)
        ensures
            subject@ == self.spec_subject(),
    {
        match self {
            ConvertError::Open { path, .. } => path.as_str(),
            ConvertError::Decode { path, .. } => path.as_str(),
            ConvertError::MissingFileName { path } => path.as_str(),
            ConvertError::SameFile { path } => path.as_str(),
            ConvertError::MissingExtension { path } => path.as_str(),
            ConvertError::UnsupportedFormat { extension } => extension.as_str(),
            ConvertError::Save { path, .. } => path.as_str(),
        }
    }

    /// What the collaborator said of the failure, where it said anything.
    pub fn reason(&self) -> (reason: &str)
        ensures
            reason@ == self.spec_reason(),
    {
        match self {
            ConvertError::Open { reason, .. } => reason.as_str(),
            ConvertError::Decode { reason, .. } => reason.as_str(),
            ConvertError::Save { reason, .. } => reason.as_str(),
            _ => {
                proof {
                    reveal_strlit("");
                }
                assert(""@ =~= Seq::<char>::empty());
                ""
            },
        }
    }

    /// A message for the user: the failing step, what it failed on, and why.
    pub fn message(&self) -> (text: String)
        ensures
            text@ == self.spec_message(),
    {
        let prefix = match self.kind() {
            ErrorKind::Open => "Failed to open image file ",
            ErrorKind::Decode => "Failed to decode image file ",
            ErrorKind::MissingFileName => "Input path has no file name: ",
            ErrorKind::SameFile => "Input and output are the same file: ",
            ErrorKind::MissingExtension => "Missing output file extension: ",
            ErrorKind::UnsupportedFormat => "Unsupported output file extension: ",
            ErrorKind::Save => "Failed to save image file ",
        };
        let mut text = String::from_str(prefix);
        text.append("\"");
        text.append(self.subject());
        text.append("\"");
        let reason = self.reason();
        if !reason.is_empty() {
            text.append(": ");
            text.append(reason);
        }
        text
    }
}

} // verus!
