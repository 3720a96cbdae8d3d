use blazingwebp::batch::{advance, begin, Reply, Request, Stage, Step, WriteOutcome};
use blazingwebp::cancel::{cancel_process, is_cancel, set_status, AppState};
use blazingwebp::events::{Notification, TranscodeError};
use blazingwebp::item::{Image, Parameters};
use blazingwebp::raster::Raster;
use blazingwebp::resize::Resize;
use blazingwebp::transcode::{destination, get_file_size, load_image};

fn item() -> Image {
    Image::new(
        "/in/photo.png".to_string(),
        "photo.png".to_string(),
        "png".to_string(),
        "/in".to_string(),
        4096,
    )
}

fn parameters(save_folder: &str) -> Parameters {
    Parameters {
        is_lossless: false,
        quality: 80,
        resize: Resize::NoResizing,
        resize_to: 0,
        is_enlarging_allowed: false,
        save_folder: save_folder.to_string(),
    }
}

fn noise(width: u32, height: u32) -> Vec<u8> {
    let mut state: u32 = 12345;
    let mut pixels = Vec::new();
    for _ in 0..(width * height) {
        for _ in 0..3 {
            state = state.wrapping_mul(1_664_525).wrapping_add(1_013_904_223);
            pixels.push((state >> 24) as u8);
        }
        pixels.push(255);
    }
    pixels
}

fn png_of(width: u32, height: u32, pixels: Vec<u8>) -> Vec<u8> {
    let buffer = image::RgbaImage::from_raw(width, height, pixels).unwrap();
    let mut bytes = std::io::Cursor::new(Vec::new());
    image::DynamicImage::ImageRgba8(buffer).write_to(&mut bytes, image::ImageFormat::Png).unwrap();
    bytes.into_inner()
}

fn encode(raster: &Raster, is_lossless: bool, quality: u32) -> Option<Vec<u8>> {
    let encoder = webp::Encoder::from_rgba(raster.pixels(), raster.width(), raster.height());
    match encoder.encode_simple(is_lossless, quality as f32) {
        Ok(encoded) => Some(encoded.to_vec()),
        Err(_) => None,
    }
}

struct World {
    source: Option<Vec<u8>>,
    cancelled_at_dispatch: bool,
    cancelled_before_write: bool,
    disk_is_full: bool,
    written: Vec<(String, Vec<u8>)>,
}

fn world(source: Option<Vec<u8>>) -> World {
    World { source, cancelled_at_dispatch: false, cancelled_before_write: false, disk_is_full: false, written: Vec::new() }
}

fn run(item: &Image, parameters: &Parameters, world: &mut World) -> Vec<Notification> {
    let mut sent = Vec::new();
    let mut step = begin();
    for _ in 0..8 {
        let reply = match step.request {
            Request::Nothing => break,
            Request::ReadFlag => Reply::Cancelled(match step.stage {
                Stage::Queued => world.cancelled_at_dispatch,
                _ => world.cancelled_before_write,
            }),
            Request::Load { full_path } => {
                assert_eq!(full_path, item.full_path);
                Reply::Loaded(load_image(world.source.take(), item, parameters))
            }
            Request::Encode { raster, is_lossless, quality } => Reply::Encoded(encode(&raster, is_lossless, quality)),
            Request::Write { path, bytes } => {
                if world.disk_is_full {
                    Reply::Written(WriteOutcome::Failed)
                } else {
                    let size = bytes.len() as u64;
                    world.written.push((path, bytes));
                    Reply::Written(WriteOutcome::Saved { size_on_disk: Some(size) })
                }
            }
        };
        step = advance(step.stage, item, parameters, reply);
        if let Some(notification) = step.notify.take() {
            sent.push(notification);
        }
    }
    assert!(matches!(step.stage, Stage::Finished));
    assert!(matches!(step.request, Request::Nothing));
    sent
}

fn is_progress(notification: &Notification, full_path: &str) -> bool {
    matches!(notification, Notification::Progress(path) if path == full_path)
}

fn is_error(notification: &Notification, full_path: &str, text: &str) -> bool {
    matches!(notification, Notification::Error(failure) if failure.full_path == full_path && failure.error == text)
}

#[test]
fn a_new_image_is_not_converted_yet() {
    let image = item();
    assert_eq!(image.full_path, "/in/photo.png");
    assert_eq!(image.filename, "photo.png");
    assert_eq!(image.extension, "png");
    assert_eq!(image.path, "/in");
    assert_eq!(image.original_size, 4096);
    assert_eq!(image.webp_size, 0);
    assert!(!image.processed);
}

#[test]
fn the_flag_starts_lowered_and_follows_what_is_set() {
    let mut state = AppState::default();
    assert!(!is_cancel(&state));
    set_status(&mut state, true);
    assert!(is_cancel(&state));
    set_status(&mut state, true);
    assert!(is_cancel(&state));
    set_status(&mut state, false);
    assert!(!is_cancel(&state));
    cancel_process(&mut state);
    assert!(is_cancel(&state));
}

#[test]
fn every_failure_has_its_text() {
    assert_eq!(TranscodeError::Decode.message(), "Image can't be opened");
    assert_eq!(TranscodeError::Encode.message(), "Image can't be converted");
    assert_eq!(TranscodeError::Write.message(), "File can't be saved");
}

#[test]
fn every_notification_has_its_channel() {
    let mut world = world(Some(png_of(64, 64, noise(64, 64))));
    let sent = run(&item(), &parameters(""), &mut world);
    assert_eq!(sent[0].channel(), "progress");
    assert_eq!(sent[1].channel(), "success");
    assert_eq!(sent[0].full_path(), "/in/photo.png");
    assert_eq!(sent[1].full_path(), "/in/photo.png");
    let failed = run(&item(), &parameters(""), &mut self::world(None));
    assert_eq!(failed[1].channel(), "error");
    assert_eq!(failed[1].full_path(), "/in/photo.png");
}

#[test]
fn the_size_is_reported_in_whole_kilobytes() {
    assert_eq!(get_file_size(Some(0)), 0);
    assert_eq!(get_file_size(Some(1023)), 0);
    assert_eq!(get_file_size(Some(1024)), 1);
    assert_eq!(get_file_size(Some(2047)), 1);
    assert_eq!(get_file_size(Some(10 * 1024 * 1024 + 5)), 10 * 1024);
    assert_eq!(get_file_size(Some(u64::MAX)), u64::MAX / 1024);
    assert_eq!(get_file_size(None), 0);
}

#[test]
fn the_file_goes_beside_its_source_unless_a_folder_is_set() {
    assert_eq!(destination(&item(), &parameters("")), "/in/photo.webp");
    assert_eq!(destination(&item(), &parameters("/out")), "/out/photo.webp");
    assert_eq!(destination(&item(), &parameters("/out/")), "/out/photo.webp");
}

#[test]
fn only_the_last_extension_of_the_name_is_replaced() {
    let named = |filename: &str| {
        Image::new("/in/source".to_string(), filename.to_string(), String::new(), "/in".to_string(), 0)
    };
    assert_eq!(destination(&named("archive.tar.gz"), &parameters("")), "/in/archive.tar.webp");
    assert_eq!(destination(&named("photo"), &parameters("")), "/in/photo.webp");
    assert_eq!(destination(&named(".hidden"), &parameters("")), "/in/.hidden.webp");
    assert_eq!(destination(&named("photo.webp"), &parameters("/out")), "/out/photo.webp");
}

#[test]
fn an_item_starts_queued() {
    let step = begin();
    assert!(matches!(step.stage, Stage::Queued));
    assert!(step.notify.is_none());
    assert!(matches!(step.request, Request::ReadFlag));
}

#[test]
fn a_png_is_converted_and_reported_once() {
    let mut world = world(Some(png_of(64, 64, noise(64, 64))));
    let sent = run(&item(), &parameters("/out"), &mut world);
    assert_eq!(sent.len(), 2);
    assert!(is_progress(&sent[0], "/in/photo.png"));
    assert_eq!(world.written.len(), 1);
    let (path, bytes) = &world.written[0];
    assert_eq!(path, "/out/photo.webp");
    assert_eq!(&bytes[0..4], b"RIFF");
    assert_eq!(&bytes[8..12], b"WEBP");
    match &sent[1] {
        Notification::Success(success) => {
            assert_eq!(success.full_path, "/in/photo.png");
            assert!(success.size > 0);
            assert_eq!(success.size, bytes.len() as u64 / 1024);
        }
        other => panic!("{:?}", other),
    }
}

#[test]
fn converting_twice_gives_the_same_bytes() {
    let mut first = world(Some(png_of(64, 64, noise(64, 64))));
    let mut second = world(Some(png_of(64, 64, noise(64, 64))));
    run(&item(), &parameters("/out"), &mut first);
    run(&item(), &parameters("/out"), &mut second);
    assert_eq!(first.written.len(), 1);
    assert_eq!(first.written[0].1, second.written[0].1);
}

#[test]
fn a_missing_source_fails_once_and_writes_nothing() {
    let mut world = world(None);
    let sent = run(&item(), &parameters(""), &mut world);
    assert_eq!(sent.len(), 2);
    assert!(is_progress(&sent[0], "/in/photo.png"));
    assert!(is_error(&sent[1], "/in/photo.png", "Image can't be opened"));
    assert!(world.written.is_empty());
}

#[test]
fn an_item_cancelled_before_dispatch_is_silent() {
    let mut world = world(Some(png_of(64, 64, noise(64, 64))));
    world.cancelled_at_dispatch = true;
    let sent = run(&item(), &parameters(""), &mut world);
    assert!(sent.is_empty());
    assert!(world.written.is_empty());
    assert!(world.source.is_some());
}

#[test]
fn an_item_cancelled_before_the_write_reports_no_success() {
    let mut world = world(Some(png_of(64, 64, noise(64, 64))));
    world.cancelled_before_write = true;
    let sent = run(&item(), &parameters(""), &mut world);
    assert_eq!(sent.len(), 1);
    assert!(is_progress(&sent[0], "/in/photo.png"));
    assert!(world.written.is_empty());
}

#[test]
fn a_failed_write_is_reported() {
    let mut world = world(Some(png_of(64, 64, noise(64, 64))));
    world.disk_is_full = true;
    let sent = run(&item(), &parameters(""), &mut world);
    assert_eq!(sent.len(), 2);
    assert!(is_error(&sent[1], "/in/photo.png", "File can't be saved"));
}

#[test]
fn an_image_that_cannot_be_scaled_is_reported_as_not_converted() {
    let mut parameters = parameters("");
    parameters.resize = Resize::ShorterSide;
    parameters.resize_to = 65_536;
    parameters.is_enlarging_allowed = true;
    let mut world = world(Some(png_of(65_536, 1, noise(65_536, 1))));
    let sent = run(&item(), &parameters, &mut world);
    assert_eq!(sent.len(), 2);
    assert!(is_progress(&sent[0], "/in/photo.png"));
    assert!(is_error(&sent[1], "/in/photo.png", "Image can't be converted"));
    assert!(world.written.is_empty());
}

#[test]
fn a_file_below_a_kilobyte_ends_without_a_notification() {
    let mut world = world(Some(png_of(2, 2, noise(2, 2))));
    let sent = run(&item(), &parameters(""), &mut world);
    assert_eq!(world.written.len(), 1);
    assert!(world.written[0].1.len() < 1024);
    assert_eq!(sent.len(), 1);
    assert!(is_progress(&sent[0], "/in/photo.png"));
}

#[test]
fn a_batch_without_cancellation_reports_every_item_once() {
    let parameters = parameters("/out");
    let mut terminal = Vec::new();
    for index in 0..4 {
        let full_path = format!("/in/{}.png", index);
        let item = Image::new(full_path, format!("{}.png", index), "png".to_string(), "/in".to_string(), 0);
        let source = if index % 2 == 0 { Some(png_of(64, 64, noise(64, 64))) } else { Some(vec![7; 32]) };
        let sent = run(&item, &parameters, &mut world(source));
        for notification in sent {
            if !matches!(notification, Notification::Progress(_)) {
                terminal.push(notification);
            }
        }
    }
    assert_eq!(terminal.len(), 4);
    for index in 0..4 {
        let full_path = format!("/in/{}.png", index);
        let about: Vec<&Notification> = terminal.iter().filter(|n| n.full_path() == &full_path).collect();
        assert_eq!(about.len(), 1);
        assert_eq!(matches!(about[0], Notification::Success(_)), index % 2 == 0);
    }
}

#[test]
fn the_encoder_is_handed_the_parameters() {
    let mut parameters = parameters("");
    parameters.is_lossless = true;
    parameters.quality = 33;
    let raster = Raster::new(1, 1, vec![1, 2, 3, 4]).unwrap();
    let step = advance(Stage::Loading, &item(), &parameters, Reply::Loaded(Ok(raster)));
    assert!(matches!(step.stage, Stage::Encoding));
    assert!(step.notify.is_none());
    match step.request {
        Request::Encode { raster, is_lossless, quality } => {
            assert_eq!(raster.into_parts(), (1, 1, vec![1, 2, 3, 4]));
            assert!(is_lossless);
            assert_eq!(quality, 33);
        }
        other => panic!("{:?}", other),
    }
}

#[test]
fn a_failed_encoding_is_reported() {
    let step = advance(Stage::Encoding, &item(), &parameters(""), Reply::Encoded(None));
    assert!(matches!(step.stage, Stage::Finished));
    assert!(is_error(&step.notify.unwrap(), "/in/photo.png", "Image can't be converted"));
    assert!(matches!(step.request, Request::Nothing));
}

#[test]
fn the_encoded_bytes_wait_for_the_flag() {
    let step = advance(Stage::Encoding, &item(), &parameters(""), Reply::Encoded(Some(vec![1, 2, 3])));
    assert!(matches!(&step.stage, Stage::ReadyToWrite { bytes } if bytes == &vec![1, 2, 3]));
    assert!(step.notify.is_none());
    assert!(matches!(step.request, Request::ReadFlag));
    let step = advance(step.stage, &item(), &parameters("/out"), Reply::Cancelled(false));
    assert!(matches!(step.stage, Stage::Writing));
    match step.request {
        Request::Write { path, bytes } => {
            assert_eq!(path, "/out/photo.webp");
            assert_eq!(bytes, vec![1, 2, 3]);
        }
        other => panic!("{:?}", other),
    }
}

#[test]
fn a_written_file_whose_size_cannot_be_read_is_silent() {
    let saved = Reply::Written(WriteOutcome::Saved { size_on_disk: None });
    let step = advance(Stage::Writing, &item(), &parameters(""), saved);
    assert!(matches!(step.stage, Stage::Finished));
    assert!(step.notify.is_none());
    let saved = Reply::Written(WriteOutcome::Saved { size_on_disk: Some(5000) });
    let step = advance(Stage::Writing, &item(), &parameters(""), saved);
    assert!(matches!(step.notify, Some(Notification::Success(success)) if success.size == 4));
}

fn same_stage(step: &Step, stage: &Stage) -> bool {
    match (&step.stage, stage) {
        (Stage::Queued, Stage::Queued)
        | (Stage::Loading, Stage::Loading)
        | (Stage::Encoding, Stage::Encoding)
        | (Stage::Writing, Stage::Writing)
        | (Stage::Finished, Stage::Finished) => true,
        (Stage::ReadyToWrite { bytes: left }, Stage::ReadyToWrite { bytes: right }) => left == right,
        _ => false,
    }
}

#[test]
fn a_reply_that_answers_nothing_is_ignored() {
    let stages = || {
        vec![
            Stage::Queued,
            Stage::Loading,
            Stage::Encoding,
            Stage::ReadyToWrite { bytes: vec![5] },
            Stage::Writing,
            Stage::Finished,
        ]
    };
    let replies = || {
        vec![
            Reply::Cancelled(false),
            Reply::Loaded(Err(TranscodeError::Decode)),
            Reply::Encoded(None),
            Reply::Written(WriteOutcome::Failed),
        ]
    };
    let expected = [(0, 0), (1, 1), (2, 2), (3, 0), (4, 3)];
    for (s, stage) in stages().into_iter().enumerate() {
        for (r, reply) in replies().into_iter().enumerate() {
            if expected.contains(&(s, r)) {
                continue;
            }
            let step = advance(stage_copy(&stage), &item(), &parameters(""), reply);
            assert!(same_stage(&step, &stage));
            assert!(step.notify.is_none());
            assert!(matches!(step.request, Request::Nothing));
        }
    }
}

fn stage_copy(stage: &Stage) -> Stage {
    match stage {
        Stage::Queued => Stage::Queued,
        Stage::Loading => Stage::Loading,
        Stage::Encoding => Stage::Encoding,
        Stage::ReadyToWrite { bytes } => Stage::ReadyToWrite { bytes: bytes.clone() },
        Stage::Writing => Stage::Writing,
        Stage::Finished => Stage::Finished,
    }
}
