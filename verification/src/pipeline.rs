//! One conversion, step by step. The library decides; the caller reads the
//! input file and writes the output file, and reports back how that went.
//!
//! `Start -> DerivePath -> ResolveFormat -> Decode -> SelectColorModel ->
//! Encode -> Done`, and from any step to `Failed` with the error of that step.
//!
//! Where an output directory is given, the caller is asked to create it, with
//! the directories above it, before the output is written: a directory that
//! does not exist yet is no failure. Where it cannot be created, the
//! conversion fails at `Encode` with a `Save` error about the output path.

use crate::codec::{decoded_image, encoded_file, is_portable};
use crate::decoder::{decode, decodes};
use crate::encoder::{encode, normalized_samples};
use crate::error::{ConvertError, ErrorKind};
use crate::format::Format;
use crate::path::{spec_extension, spec_same_path};
use crate::resolve::{
    derive_output_path, dir_view, lemma_derived_path_resolves, resolve_format, spec_derive,
};
use vstd::prelude::*;
use vstd::string::*;

verus! {

/// What is asked for: the input file, the target format, and the directory
/// to write into where that is not the directory of the input.
#[derive(Debug, Clone, PartialEq, Eq)]
pub struct ConversionRequest {
    input: String,
    format: Format,
    output_dir: Option<String>,
}

impl ConversionRequest {
    pub closed spec fn spec_input(self) -> Seq<char> {
        self.input@
    }

    pub closed spec fn spec_format(self) -> Format {
        self.format
    }

    pub closed spec fn spec_output_dir(self) -> Option<Seq<char>> {
        match self.output_dir {
            Some(dir) => Some(dir@),
            None => None,
        }
    }

    /// The output path of this request, or the kind of error that deriving
    /// it fails with.
    pub open spec fn spec_output(self) -> Result<Seq<char>, ErrorKind> {
        spec_derive(self.spec_input(), self.spec_output_dir(), self.spec_format())
    }

    /// A request to convert `input` to `format`, into `output_dir` where
    /// one is given.
    pub fn new(input: String, format: Format, output_dir: Option<String>) -> (request: Self)
        ensures
            request.spec_input() == input@,
            request.spec_format() == format,
            request.spec_output_dir() == match output_dir {
                Some(dir) => Some(dir@),
                None => None,
            },
    {
        ConversionRequest { input, format, output_dir }
    }

    /// The path of the input file.
    pub fn input(&self) -> (input: &str)
        ensures
            input@ == self.spec_input(),
    {
        self.input.as_str()
    }

    /// The target format.
    pub fn format(&self) -> (format: Format)
        ensures
            format == self.spec_format(),
    {
        self.format
    }

    /// The directory to write into, where one was given.
    pub fn output_dir(&self) -> (dir: Option<&str>)
        ensures
            dir_view(dir) == self.spec_output_dir(),
    {
        match &self.output_dir {
            Some(dir) => Some(dir.as_str()),
            None => None,
        }
    }
}

/// The steps of a conversion.
#[derive(Debug, Clone, Copy, PartialEq, Eq, Structural, Hash)]
pub enum Stage {
    DerivePath,
    ResolveFormat,
    Decode,
    SelectColorModel,
    Encode,
}

/// A conversion that failed: the step it failed at, and the error.
#[derive(Debug, Clone, PartialEq, Eq)]
pub struct Failure {
    pub stage: Stage,
    pub error: ConvertError,
}

/// Where a conversion stands.
#[derive(Debug, Clone, PartialEq, Eq)]
pub enum State {
    /// Nothing has been done.
    Start,
    /// The output path and its format are known; the contents of the input
    /// are awaited.
    AwaitingInput { output_path: String, format: Format },
    /// The output has been encoded; word of the output directory is awaited.
    AwaitingDirectory { output_path: String, bytes: Vec<u8> },
    /// The output has been encoded and handed out; word of the write is
    /// awaited.
    AwaitingWrite { output_path: String },
    /// The output file has been written.
    Done { output_path: String },
    /// The conversion failed. Nothing follows.
    Failed { failure: Failure },
}

/// What the caller reports.
#[derive(Debug, Clone, PartialEq, Eq)]
pub enum Event {
    /// The conversion is asked for.
    Begin,
    /// The input file was read.
    InputRead { contents: Vec<u8> },
    /// The input file could not be opened or read.
    InputUnreadable { reason: String },
    /// The output directory is there: it was, or it has been created.
    DirectoryReady,
    /// The output directory is not there and could not be created.
    DirectoryUnavailable { reason: String },
    /// The output file was written.
    OutputWritten,
    /// The output file could not be written.
    OutputUnwritable { reason: String },
}

/// What the caller is to do next.
#[derive(Debug, Clone, PartialEq, Eq)]
pub enum Action {
    /// Read the file at `path` and report its contents.
    ReadInput { path: String },
    /// Create the directory at `path`, and those above it, unless it is
    /// there already, and report.
    CreateDirectory { path: String },
    /// Create or overwrite the file at `path` with `bytes` and report.
    WriteOutput { path: String, bytes: Vec<u8> },
    /// End with success.
    Finish,
    /// End with failure, and report the error of the `Failed` state.
    Abort,
    /// The event did not belong to the state; nothing changed.
    Ignore,
}

/// The state after a failure at `stage`.
pub open spec fn failed_at(next: State, stage: Stage, kind: ErrorKind, subject: Seq<char>) -> bool {
    &&& next matches State::Failed { failure }
    &&& failure.stage == stage
    &&& failure.error.spec_kind() == kind
    &&& failure.error.spec_subject() == subject
}

/// What the first step comes to: the input is asked for where an output path
/// can be derived, and the conversion has failed, before anything is read,
/// where it cannot.
pub open spec fn begins(request: ConversionRequest, next: State, action: Action) -> bool {
    match request.spec_output() {
        Ok(out) => {
            &&& next matches State::AwaitingInput { output_path, format }
            &&& output_path@ == out
            &&& format == request.spec_format()
            &&& spec_extension(out) == Some(format.spec_extension())
            &&& !spec_same_path(request.spec_input(), out)
            &&& action matches Action::ReadInput { path }
            &&& path@ == request.spec_input()
        },
        Err(kind) => {
            &&& failed_at(next, Stage::DerivePath, kind, request.spec_input())
            &&& action is Abort
        },
    }
}

/// The bytes that a step hands on where it has encoded the output: to the
/// write itself where no output directory is given, and else to the step that
/// waits for the directory, which the caller is asked to create. `None` where
/// the step does neither.
pub open spec fn handed_on(request: ConversionRequest, out: Seq<char>, next: State, action: Action)
    -> Option<Seq<u8>> {
    match (request.spec_output_dir(), next, action) {
        (
            Some(dir),
            State::AwaitingDirectory { output_path, bytes },
            Action::CreateDirectory { path },
        ) => if output_path@ == out && path@ == dir {
            Some(bytes@)
        } else {
            None
        },
        (
            None,
            State::AwaitingWrite { output_path },
            Action::WriteOutput { path, bytes },
        ) => if output_path@ == out && path@ == out {
            Some(bytes@)
        } else {
            None
        },
        _ => None,
    }
}

/// What an encoded output, or the failure to encode it, comes to: the bytes
/// are handed on, or the conversion has failed at `Encode`.
pub open spec fn hands_on(
    request: ConversionRequest,
    out: Seq<char>,
    outcome: Result<Vec<u8>, ConvertError>,
    next: State,
    action: Action,
) -> bool {
    match outcome {
        Ok(bytes) => handed_on(request, out, next, action) == Some(bytes@),
        Err(error) => next == (State::Failed {
            failure: Failure { stage: Stage::Encode, error },
        }) && action is Abort,
    }
}

/// The file that the codec writes for what it decodes from these contents:
/// defined where the contents decode to a raster of one-byte samples and the
/// format is one that the codec writes alike on every machine.
pub open spec fn transcoded_file(format: Format, contents: Seq<u8>) -> Option<Seq<u8>> {
    let named = decoded_image(contents)->0;
    encoded_file(
        format,
        format.spec_layout(),
        named.1 as nat,
        named.2 as nat,
        normalized_samples(named.0->0, named.3, format.spec_layout()),
    )
}

/// What the contents of the input come to.
///
/// Where they do not decode, as contents of no bytes never do, the conversion
/// has failed at `Decode`. Where they do, the output is handed on or the
/// conversion has failed at `Encode`:
/// for JPEG, PNG and WEBP and one-byte samples, the bytes handed on are the
/// codec's file, and the failure comes exactly where the codec writes none;
/// for JPEG a dimension above 65535 always fails. For TIFF, AVIF and wider
/// samples the codec's outcome varies with the machine.
pub open spec fn transcodes(
    request: ConversionRequest,
    out: Seq<char>,
    format: Format,
    contents: Seq<u8>,
    next: State,
    action: Action,
) -> bool {
    if contents.len() == 0 || !decodes(contents) {
        failed_at(next, Stage::Decode, ErrorKind::Decode, request.spec_input()) && action is Abort
    } else {
        let named = decoded_image(contents)->0;
        let exact = is_portable(format) && named.0->0.spec_is_narrow();
        match handed_on(request, out, next, action) {
            Some(bytes) => {
                &&& exact ==> transcoded_file(format, contents) == Some(bytes)
                &&& !(format is Jpg && (named.1 > 65535 || named.2 > 65535))
            },
            None => {
                &&& failed_at(next, Stage::Encode, ErrorKind::Save, out)
                &&& action is Abort
                &&& exact ==> transcoded_file(format, contents) is None
            },
        }
    }
}

/// What one step comes to.
pub open spec fn steps(
    request: ConversionRequest,
    state: State,
    event: Event,
    next: State,
    action: Action,
) -> bool {
    match (state, event) {
        (State::Start, Event::Begin) => begins(request, next, action),
        (
            State::AwaitingInput { output_path, format },
            Event::InputRead { contents },
        ) => transcodes(request, output_path@, format, contents@, next, action),
        (State::AwaitingInput { .. }, Event::InputUnreadable { reason }) => {
            &&& failed_at(next, Stage::Decode, ErrorKind::Open, request.spec_input())
            &&& next->failure.error.spec_reason() == reason@
            &&& action is Abort
        },
        (State::AwaitingDirectory { output_path, bytes }, Event::DirectoryReady) => {
            &&& next matches State::AwaitingWrite { output_path: awaited }
            &&& awaited@ == output_path@
            &&& action matches Action::WriteOutput { path, bytes: handed }
            &&& path@ == output_path@
            &&& handed@ == bytes@
        },
        (
            State::AwaitingDirectory { output_path, .. },
            Event::DirectoryUnavailable { reason },
        ) => {
            &&& failed_at(next, Stage::Encode, ErrorKind::Save, output_path@)
            &&& next->failure.error.spec_reason() == reason@
            &&& action is Abort
        },
        (State::AwaitingWrite { output_path }, Event::OutputWritten) => {
            &&& next matches State::Done { output_path: written }
            &&& written@ == output_path@
            &&& action is Finish
        },
        (State::AwaitingWrite { output_path }, Event::OutputUnwritable { reason }) => {
            &&& failed_at(next, Stage::Encode, ErrorKind::Save, output_path@)
            &&& next->failure.error.spec_reason() == reason@
            &&& action is Abort
        },
        _ => next == state && action is Ignore,
    }
}

/// The first step: derives the output path and tells its format, which is
/// the requested one. Nothing is read before both are known.
pub fn begin(request: &ConversionRequest) -> (step: (State, Action))
    ensures
        begins(*request, step.0, step.1),
{
    let input = request.input();
    let output_path = match derive_output_path(input, request.output_dir(), request.format()) {
        Ok(path) => path,
        Err(error) => {
            let failure = Failure { stage: Stage::DerivePath, error };
            return (State::Failed { failure }, Action::Abort);
        },
    };
    proof {
        lemma_derived_path_resolves(
            request.spec_input(),
            request.spec_output_dir(),
            request.spec_format(),
        );
    }
    match resolve_format(output_path.as_str()) {
        Ok(format) => (
            State::AwaitingInput { output_path, format },
            Action::ReadInput { path: String::from_str(input) },
        ),
        Err(error) => {
            let failure = Failure { stage: Stage::ResolveFormat, error };
            (State::Failed { failure }, Action::Abort)
        },
    }
}

/// What becomes of an encoder's outcome: where it wrote the output, the
/// bytes are handed on, to the write itself or, where an output directory is
/// given, to the step that waits for that directory; where it failed, the
/// conversion has failed at `Encode` with its error.
pub fn after_encoding(
    request: &ConversionRequest,
    output_path: String,
    outcome: Result<Vec<u8>, ConvertError>,
) -> (step: (State, Action))
    ensures
        hands_on(*request, output_path@, outcome, step.0, step.1),
{
    match outcome {
        Ok(bytes) => match request.output_dir() {
            Some(dir) => (
                State::AwaitingDirectory { output_path, bytes },
                Action::CreateDirectory { path: String::from_str(dir) },
            ),
            None => {
                let path = output_path.clone();
                (State::AwaitingWrite { output_path }, Action::WriteOutput { path, bytes })
            },
        },
        Err(error) => {
            let failure = Failure { stage: Stage::Encode, error };
            (State::Failed { failure }, Action::Abort)
        },
    }
}

/// The steps from the contents of the input to the bytes of the output:
/// decodes, brings the raster into the layout of the format, encodes, and
/// hands the bytes on.
pub fn transcode(
    request: &ConversionRequest,
    output_path: String,
    format: Format,
    contents: &[u8],
) -> (step: (State, Action))
    ensures
        transcodes(*request, output_path@, format, contents@, step.0, step.1),
{
    let raster = match decode(request.input(), contents) {
        Ok(raster) => raster,
        Err(error) => {
            let failure = Failure { stage: Stage::Decode, error };
            return (State::Failed { failure }, Action::Abort);
        },
    };
    let outcome = encode(&raster, format, output_path.as_str());
    after_encoding(request, output_path, outcome)
}

/// One step of the conversion: from where it stands and what the caller
/// reports, to where it stands next and what the caller is to do. An event
/// that does not belong to the state changes nothing.
pub fn step(request: &ConversionRequest, state: State, event: Event) -> (next: (State, Action))
    ensures
        steps(*request, state, event, next.0, next.1),
{
    match state {
        State::Start => match event {
            Event::Begin => begin(request),
            _ => (State::Start, Action::Ignore),
        },
        State::AwaitingInput { output_path, format } => match event {
            Event::InputRead { contents } => transcode(
                request,
                output_path,
                format,
                contents.as_slice(),
            ),
            Event::InputUnreadable { reason } => {
                let error = ConvertError::Open { path: String::from_str(request.input()), reason };
                let failure = Failure { stage: Stage::Decode, error };
                (State::Failed { failure }, Action::Abort)
            },
            _ => (State::AwaitingInput { output_path, format }, Action::Ignore),
        },
        State::AwaitingDirectory { output_path, bytes } => match event {
            Event::DirectoryReady => {
                let path = output_path.clone();
                (State::AwaitingWrite { output_path }, Action::WriteOutput { path, bytes })
            },
            Event::DirectoryUnavailable { reason } => {
                let error = ConvertError::Save { path: output_path, reason };
                let failure = Failure { stage: Stage::Encode, error };
                (State::Failed { failure }, Action::Abort)
            },
            _ => (State::AwaitingDirectory { output_path, bytes }, Action::Ignore),
        },
        State::AwaitingWrite { output_path } => match event {
            Event::OutputWritten => (State::Done { output_path }, Action::Finish),
            Event::OutputUnwritable { reason } => {
                let error = ConvertError::Save { path: output_path, reason };
                let failure = Failure { stage: Stage::Encode, error };
                (State::Failed { failure }, Action::Abort)
            },
            _ => (State::AwaitingWrite { output_path }, Action::Ignore),
        },
        State::Done { output_path } => (State::Done { output_path }, Action::Ignore),
        State::Failed { failure } => (State::Failed { failure }, Action::Ignore),
    }
}

} // verus!
