use image::{DynamicImage, ImageBuffer, ImageFormat, Rgba};
use imgconv::error::{ConvertError, ErrorKind};
use imgconv::format::Format;
use imgconv::pipeline::{begin, step, transcode, Action, ConversionRequest, Event, Stage, State};
use std::io::Cursor;

fn request(input: &str, format: Format, dir: Option<&str>) -> ConversionRequest {
    ConversionRequest::new(input.to_string(), format, dir.map(|d| d.to_string()))
}

fn photo_png() -> Vec<u8> {
    let image = DynamicImage::ImageRgba8(ImageBuffer::from_fn(100, 50, |x, y| {
        Rgba([(x * 2) as u8, (y * 5) as u8, (x + y) as u8, (255 - x) as u8])
    }));
    let mut sink = Cursor::new(Vec::new());
    image.write_to(&mut sink, ImageFormat::Png).unwrap();
    sink.into_inner()
}

fn failure_of(state: &State) -> (Stage, ErrorKind, String) {
    match state {
        State::Failed { failure } => {
            (failure.stage, failure.error.kind(), failure.error.subject().to_string())
        }
        other => panic!("not failed: {:?}", other),
    }
}

#[test]
fn the_request_is_kept_as_given() {
    let r = request("in/photo.png", Format::Webp, Some("out"));
    assert_eq!(r.input(), "in/photo.png");
    assert_eq!(r.format(), Format::Webp);
    assert_eq!(r.output_dir(), Some("out"));
    assert_eq!(request("a.png", Format::Jpg, None).output_dir(), None);
}

#[test]
fn photo_to_webp_and_to_jpeg() {
    let contents = photo_png();
    for (format, name, channels) in [(Format::Webp, "photo.webp", 4), (Format::Jpg, "photo.jpg", 3)] {
        let r = request("photo.png", format, None);
        let (state, action) = step(&r, State::Start, Event::Begin);
        assert_eq!(
            state,
            State::AwaitingInput { output_path: name.to_string(), format }
        );
        assert_eq!(action, Action::ReadInput { path: "photo.png".to_string() });

        let raster = imgconv::decoder::decode("photo.png", &contents).unwrap();
        let normal = imgconv::encoder::normalize(&raster, format);
        assert_eq!(normal.data().len(), 100 * 50 * channels);

        let (state, action) = step(&r, state, Event::InputRead { contents: contents.clone() });
        assert_eq!(state, State::AwaitingWrite { output_path: name.to_string() });
        let bytes = match action {
            Action::WriteOutput { path, bytes } => {
                assert_eq!(path, name);
                bytes
            }
            other => panic!("not a write: {:?}", other),
        };
        let back = image::load_from_memory(&bytes).unwrap();
        assert_eq!((back.width(), back.height()), (100, 50));
        assert_eq!(back.color().channel_count(), channels as u8);

        let (state, action) = step(&r, state, Event::OutputWritten);
        assert_eq!(state, State::Done { output_path: name.to_string() });
        assert_eq!(action, Action::Finish);
    }
}

#[test]
fn into_another_directory() {
    let r = request("in/photo.png", Format::Png, Some("out"));
    let (state, action) = begin(&r);
    assert_eq!(
        state,
        State::AwaitingInput { output_path: "out/photo.png".to_string(), format: Format::Png }
    );
    assert_eq!(action, Action::ReadInput { path: "in/photo.png".to_string() });
}

#[test]
fn the_same_file_fails_before_anything_is_read() {
    let r = request("a.png", Format::Png, None);
    let (state, action) = step(&r, State::Start, Event::Begin);
    assert_eq!(action, Action::Abort);
    assert_eq!(
        state,
        State::Failed {
            failure: imgconv::pipeline::Failure {
                stage: Stage::DerivePath,
                error: ConvertError::SameFile { path: "a.png".to_string() },
            }
        }
    );
}

#[test]
fn a_missing_file_name_fails_before_anything_is_read() {
    let r = request("..", Format::Png, Some("out"));
    let (state, action) = begin(&r);
    assert_eq!(action, Action::Abort);
    assert_eq!(
        failure_of(&state),
        (Stage::DerivePath, ErrorKind::MissingFileName, "..".to_string())
    );
}

#[test]
fn an_unreadable_input_is_an_open_error() {
    let r = request("gone.png", Format::Jpg, None);
    let (state, _) = begin(&r);
    let (state, action) =
        step(&r, state, Event::InputUnreadable { reason: "no such file".to_string() });
    assert_eq!(action, Action::Abort);
    assert_eq!(
        state,
        State::Failed {
            failure: imgconv::pipeline::Failure {
                stage: Stage::Decode,
                error: ConvertError::Open {
                    path: "gone.png".to_string(),
                    reason: "no such file".to_string()
                },
            }
        }
    );
}

#[test]
fn an_empty_or_spoiled_input_is_a_decode_error() {
    let r = request("in.png", Format::Jpg, None);
    let mut torn = photo_png();
    torn.truncate(40);
    for contents in [vec![], b"garbage".to_vec(), torn] {
        let (state, _) = begin(&r);
        let (state, action) = step(&r, state, Event::InputRead { contents });
        assert_eq!(action, Action::Abort);
        assert_eq!(failure_of(&state), (Stage::Decode, ErrorKind::Decode, "in.png".to_string()));
    }
}

#[test]
fn an_encoder_that_refuses_is_a_save_error() {
    let wide = DynamicImage::ImageRgba8(ImageBuffer::from_pixel(70000, 1, Rgba([1, 2, 3, 4])));
    let mut sink = Cursor::new(Vec::new());
    wide.write_to(&mut sink, ImageFormat::Png).unwrap();
    let r = request("wide.png", Format::Jpg, None);
    let (state, action) = transcode(&r, "wide.jpg".to_string(), Format::Jpg, &sink.into_inner());
    assert_eq!(action, Action::Abort);
    assert_eq!(failure_of(&state), (Stage::Encode, ErrorKind::Save, "wide.jpg".to_string()));
}

#[test]
fn an_unwritable_output_is_a_save_error() {
    let r = request("photo.png", Format::Webp, None);
    let (state, _) = begin(&r);
    let (state, _) = step(&r, state, Event::InputRead { contents: photo_png() });
    let (state, action) =
        step(&r, state, Event::OutputUnwritable { reason: "disk full".to_string() });
    assert_eq!(action, Action::Abort);
    assert_eq!(
        state,
        State::Failed {
            failure: imgconv::pipeline::Failure {
                stage: Stage::Encode,
                error: ConvertError::Save {
                    path: "photo.webp".to_string(),
                    reason: "disk full".to_string()
                },
            }
        }
    );
}

#[test]
fn an_output_directory_is_created_before_the_write() {
    let r = request("in/photo.png", Format::Png, Some("out/deep"));
    let (state, action) = begin(&r);
    assert_eq!(action, Action::ReadInput { path: "in/photo.png".to_string() });
    let (state, action) = step(&r, state, Event::InputRead { contents: photo_png() });
    assert_eq!(action, Action::CreateDirectory { path: "out/deep".to_string() });
    let bytes = match &state {
        State::AwaitingDirectory { output_path, bytes } => {
            assert_eq!(output_path, "out/deep/photo.png");
            bytes.clone()
        }
        other => panic!("not waiting for the directory: {:?}", other),
    };
    assert_eq!(image::load_from_memory(&bytes).unwrap().width(), 100);
    let (state, action) = step(&r, state, Event::DirectoryReady);
    assert_eq!(state, State::AwaitingWrite { output_path: "out/deep/photo.png".to_string() });
    assert_eq!(
        action,
        Action::WriteOutput { path: "out/deep/photo.png".to_string(), bytes }
    );
    let (state, action) = step(&r, state, Event::OutputWritten);
    assert_eq!(state, State::Done { output_path: "out/deep/photo.png".to_string() });
    assert_eq!(action, Action::Finish);
}

#[test]
fn a_directory_that_cannot_be_created_is_a_save_error() {
    let r = request("photo.png", Format::Png, Some("out"));
    let (state, _) = begin(&r);
    let (state, _) = step(&r, state, Event::InputRead { contents: photo_png() });
    let (state, action) =
        step(&r, state, Event::DirectoryUnavailable { reason: "permission denied".to_string() });
    assert_eq!(action, Action::Abort);
    assert_eq!(
        state,
        State::Failed {
            failure: imgconv::pipeline::Failure {
                stage: Stage::Encode,
                error: ConvertError::Save {
                    path: "out/photo.png".to_string(),
                    reason: "permission denied".to_string()
                },
            }
        }
    );
}

#[test]
fn no_directory_is_created_for_a_conversion_that_fails() {
    let r = request("photo.png", Format::Png, Some("out"));
    let (state, _) = begin(&r);
    let (state, action) = step(&r, state, Event::InputRead { contents: b"garbage".to_vec() });
    assert_eq!(action, Action::Abort);
    assert_eq!(failure_of(&state), (Stage::Decode, ErrorKind::Decode, "photo.png".to_string()));
}

#[test]
fn the_bytes_handed_on_are_the_file_of_the_codec() {
    let contents = photo_png();
    let raster = imgconv::decoder::decode("photo.png", &contents).unwrap();
    for (format, name) in [(Format::Jpg, "photo.jpg"), (Format::Webp, "photo.webp")] {
        let want = imgconv::encoder::encode(&raster, format, name).unwrap();
        let r = request("photo.png", format, None);
        let (_, action) = transcode(&r, name.to_string(), format, &contents);
        assert_eq!(action, Action::WriteOutput { path: name.to_string(), bytes: want });
    }
}

#[test]
fn events_out_of_turn_change_nothing() {
    let r = request("photo.png", Format::Webp, None);
    let (state, action) = step(&r, State::Start, Event::OutputWritten);
    assert_eq!((state, action), (State::Start, Action::Ignore));
    let (waiting, _) = begin(&r);
    let (state, action) = step(&r, waiting.clone(), Event::Begin);
    assert_eq!((state, action), (waiting.clone(), Action::Ignore));
    let (state, action) = step(&r, waiting.clone(), Event::OutputWritten);
    assert_eq!((state, action), (waiting, Action::Ignore));
    let done = State::Done { output_path: "photo.webp".to_string() };
    let (state, action) = step(&r, done.clone(), Event::Begin);
    assert_eq!((state, action), (done, Action::Ignore));
    let written = State::AwaitingWrite { output_path: "photo.webp".to_string() };
    let (state, action) = step(&r, written.clone(), Event::InputRead { contents: vec![] });
    assert_eq!((state, action), (written.clone(), Action::Ignore));
    let (state, action) = step(&r, written.clone(), Event::DirectoryReady);
    assert_eq!((state, action), (written, Action::Ignore));
    let making =
        State::AwaitingDirectory { output_path: "out/photo.webp".to_string(), bytes: vec![1] };
    let (state, action) = step(&r, making.clone(), Event::OutputWritten);
    assert_eq!((state, action), (making, Action::Ignore));
}

#[test]
fn a_failure_is_final() {
    let r = request("a.png", Format::Png, None);
    let (failed, _) = begin(&r);
    for event in [
        Event::Begin,
        Event::InputRead { contents: photo_png() },
        Event::InputUnreadable { reason: "x".to_string() },
        Event::DirectoryReady,
        Event::DirectoryUnavailable { reason: "x".to_string() },
        Event::OutputWritten,
        Event::OutputUnwritable { reason: "x".to_string() },
    ] {
        let (state, action) = step(&r, failed.clone(), event);
        assert_eq!(state, failed);
        assert_eq!(action, Action::Ignore);
    }
}
