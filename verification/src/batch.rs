//! The protocol of one item of a batch.
//!
//! A batch hands every item to a worker. The worker does the outside work
//! (reading the cancellation flag, loading, encoding, writing) and sends the
//! notifications; what it does next, and what it sends, is decided here:
//! `advance` takes the stage an item is in and the reply to the last request,
//! and gives the next stage, the notification to send and the next request.

use vstd::prelude::*;
use crate::events::{Notification, NotificationView, ProcessError, Success, TranscodeError};
use crate::item::{Image, ImageView, Parameters, ParametersView};
use crate::raster::{Raster, RasterView};
use crate::transcode::{destination, destination_of, get_file_size, kilobytes, loaded_view};

verus! {

/// How far an item has come.
#[derive(Debug)]
pub enum Stage {
    /// Waiting for the cancellation flag, read before any work.
    Queued,
    /// Waiting for the loaded image.
    Loading,
    /// Waiting for the encoder.
    Encoding,
    /// Encoded; waiting for the cancellation flag, read before the write.
    ReadyToWrite { bytes: Vec<u8> },
    /// Waiting for the write.
    Writing,
    /// Nothing more happens to the item.
    Finished,
}

pub enum StageView {
    Queued,
    Loading,
    Encoding,
    ReadyToWrite { bytes: Seq<u8> },
    Writing,
    Finished,
}

impl View for Stage {
    type V = StageView;

    open spec fn view(&self) -> StageView {
        match self {
            Stage::Queued => StageView::Queued,
            Stage::Loading => StageView::Loading,
            Stage::Encoding => StageView::Encoding,
            Stage::ReadyToWrite { bytes } => StageView::ReadyToWrite { bytes: bytes@ },
            Stage::Writing => StageView::Writing,
            Stage::Finished => StageView::Finished,
        }
    }
}

/// How a write ended.
#[derive(Clone, Copy, Debug)]
pub enum WriteOutcome {
    /// The file could not be written.
    Failed,
    /// The file was written; its size on disk in bytes, where it could be
    /// read back.
    Saved { size_on_disk: Option<u64> },
}

/// What the worker reports back after it has done what was requested.
#[derive(Debug)]
pub enum Reply {
    /// The cancellation flag, as it was read.
    Cancelled(bool),
    /// What loading the image gave.
    Loaded(Result<Raster, TranscodeError>),
    /// The encoded file; `None` where the encoder failed.
    Encoded(Option<Vec<u8>>),
    /// How the write ended.
    Written(WriteOutcome),
}

pub enum ReplyView {
    Cancelled(bool),
    Loaded(Result<RasterView, TranscodeError>),
    Encoded(Option<Seq<u8>>),
    Written(WriteOutcome),
}

impl View for Reply {
    type V = ReplyView;

    open spec fn view(&self) -> ReplyView {
        match self {
            Reply::Cancelled(cancelled) => ReplyView::Cancelled(*cancelled),
            Reply::Loaded(loaded) => ReplyView::Loaded(loaded_view(*loaded)),
            Reply::Encoded(Some(bytes)) => ReplyView::Encoded(Some(bytes@)),
            Reply::Encoded(None) => ReplyView::Encoded(None),
            Reply::Written(outcome) => ReplyView::Written(*outcome),
        }
    }
}

/// What the worker is asked to do next.
#[derive(Debug)]
pub enum Request {
    /// Read the cancellation flag.
    ReadFlag,
    /// Read the file at `full_path` and load the image from its content.
    Load { full_path: String },
    /// Encode the raster as WebP.
    Encode { raster: Raster, is_lossless: bool, quality: u32 },
    /// Write the bytes to the file at `path`, replacing what is there, and
    /// read back the size of the file.
    Write { path: String, bytes: Vec<u8> },
    /// Nothing: the item is finished, or the reply answered no request.
    Nothing,
}

pub enum RequestView {
    ReadFlag,
    Load { full_path: Seq<char> },
    Encode { raster: RasterView, is_lossless: bool, quality: u32 },
    Write { path: Seq<char>, bytes: Seq<u8> },
    Nothing,
}

impl View for Request {
    type V = RequestView;

    open spec fn view(&self) -> RequestView {
        match self {
            Request::ReadFlag => RequestView::ReadFlag,
            Request::Load { full_path } => RequestView::Load { full_path: full_path@ },
            Request::Encode { raster, is_lossless, quality } => RequestView::Encode {
                raster: raster@,
                is_lossless: *is_lossless,
                quality: *quality,
            },
            Request::Write { path, bytes } => RequestView::Write { path: path@, bytes: bytes@ },
            Request::Nothing => RequestView::Nothing,
        }
    }
}

/// One move of the protocol.
#[derive(Debug)]
pub struct Step {
    /// The stage the item is in now.
    pub stage: Stage,
    /// What is to be sent to the caller, if anything.
    pub notify: Option<Notification>,
    /// What is to be done next.
    pub request: Request,
}

pub struct StepView {
    pub stage: StageView,
    pub notify: Option<NotificationView>,
    pub request: RequestView,
}

impl View for Step {
    type V = StepView;

    open spec fn view(&self) -> StepView {
        StepView {
            stage: self.stage@,
            notify: match self.notify {
                Some(notification) => Some(notification@),
                None => None,
            },
            request: self.request@,
        }
    }
}

/// The step that ends an item.
pub open spec fn finished(notify: Option<NotificationView>) -> StepView {
    StepView { stage: StageView::Finished, notify, request: RequestView::Nothing }
}

/// The step that ends an item with an `error` notification.
pub open spec fn failed(item: ImageView, error: TranscodeError) -> StepView {
    finished(Some(NotificationView::Error { full_path: item.full_path, error: error.text() }))
}

/// The step that leaves everything as it is.
pub open spec fn ignored(stage: StageView) -> StepView {
    StepView { stage, notify: None, request: RequestView::Nothing }
}

/// The protocol.
///
/// - Queued: a raised flag ends the item in silence; otherwise `progress`
///   is sent and the image is to be loaded.
/// - Loading: a failure ends the item with `error`; otherwise the raster is
///   to be encoded with the parameters' settings.
/// - Encoding: a failure ends the item with `error`; otherwise the flag is
///   to be read once more.
/// - ReadyToWrite: a raised flag ends the item in silence, nothing written;
///   otherwise the bytes are to be written to the item's destination.
/// - Writing: a failure ends the item with `error`; a written file ends it
///   with `success` and its size in kilobytes, or in silence where that size
///   is zero.
/// - A reply that does not answer what the stage waits for is ignored.
pub open spec fn next_step(stage: StageView, item: ImageView, parameters: ParametersView, reply: ReplyView) -> StepView {
    match (stage, reply) {
        (StageView::Queued, ReplyView::Cancelled(cancelled)) => if cancelled {
            finished(None)
        } else {
            StepView {
                stage: StageView::Loading,
                notify: Some(NotificationView::Progress { full_path: item.full_path }),
                request: RequestView::Load { full_path: item.full_path },
            }
        },
        (StageView::Loading, ReplyView::Loaded(Ok(raster))) => StepView {
            stage: StageView::Encoding,
            notify: None,
            request: RequestView::Encode {
                raster,
                is_lossless: parameters.is_lossless,
                quality: parameters.quality,
            },
        },
        (StageView::Loading, ReplyView::Loaded(Err(error))) => failed(item, error),
        (StageView::Encoding, ReplyView::Encoded(Some(bytes))) => StepView {
            stage: StageView::ReadyToWrite { bytes },
            notify: None,
            request: RequestView::ReadFlag,
        },
        (StageView::Encoding, ReplyView::Encoded(None)) => failed(item, TranscodeError::Encode),
        (StageView::ReadyToWrite { bytes }, ReplyView::Cancelled(cancelled)) => if cancelled {
            finished(None)
        } else {
            StepView {
                stage: StageView::Writing,
                notify: None,
                request: RequestView::Write { path: destination_of(item, parameters), bytes },
            }
        },
        (StageView::Writing, ReplyView::Written(WriteOutcome::Failed)) => failed(item, TranscodeError::Write),
        (StageView::Writing, ReplyView::Written(WriteOutcome::Saved { size_on_disk })) => finished(
            if kilobytes(size_on_disk) > 0 {
                Some(NotificationView::Success { full_path: item.full_path, size: kilobytes(size_on_disk) })
            } else {
                None
            },
        ),
        _ => ignored(stage),
    }
}

/// Where every item starts: queued, with the flag to be read.
pub fn begin() -> (step: Step)
    ensures
        step@ == (StepView { stage: StageView::Queued, notify: None, request: RequestView::ReadFlag }),
{
    Step { stage: Stage::Queued, notify: None, request: Request::ReadFlag }
}

fn finish(notify: Option<Notification>) -> (step: Step)
    ensures
        step@ == finished(
            match notify {
                Some(notification) => Some(notification@),
                None => None,
            },
        ),
{
    Step { stage: Stage::Finished, notify, request: Request::Nothing }
}

fn fail(item: &Image, error: TranscodeError) -> (step: Step)
    ensures
        step@ == failed(item@, error),
{
    finish(Some(Notification::Error(ProcessError { full_path: item.full_path.clone(), error: error.message() })))
}

fn ignore(stage: Stage) -> (step: Step)
    ensures
        step@ == ignored(stage@),
{
    Step { stage, notify: None, request: Request::Nothing }
}

/// Moves an item on by one reply.
pub fn advance(stage: Stage, item: &Image, parameters: &Parameters, reply: Reply) -> (step: Step)
    ensures
        step@ == next_step(stage@, item@, parameters@, reply@),
{
    match stage {
        Stage::Queued => match reply {
            Reply::Cancelled(true) => finish(None),
            Reply::Cancelled(false) => Step {
                stage: Stage::Loading,
                notify: Some(Notification::Progress(item.full_path.clone())),
                request: Request::Load { full_path: item.full_path.clone() },
            },
            _ => ignore(Stage::Queued),
        },
        Stage::Loading => match reply {
            Reply::Loaded(Ok(raster)) => Step {
                stage: Stage::Encoding,
                notify: None,
                request: Request::Encode {
                    raster,
                    is_lossless: parameters.is_lossless,
                    quality: parameters.quality,
                },
            },
            Reply::Loaded(Err(error)) => fail(item, error),
            _ => ignore(Stage::Loading),
        },
        Stage::Encoding => match reply {
            Reply::Encoded(Some(bytes)) => Step {
                stage: Stage::ReadyToWrite { bytes },
                notify: None,
                request: Request::ReadFlag,
            },
            Reply::Encoded(None) => fail(item, TranscodeError::Encode),
            _ => ignore(Stage::Encoding),
        },
        Stage::ReadyToWrite { bytes } => match reply {
            Reply::Cancelled(true) => finish(None),
            Reply::Cancelled(false) => Step {
                stage: Stage::Writing,
                notify: None,
                request: Request::Write { path: destination(item, parameters), bytes },
            },
            _ => ignore(Stage::ReadyToWrite { bytes }),
        },
        Stage::Writing => match reply {
            Reply::Written(WriteOutcome::Failed) => fail(item, TranscodeError::Write),
            Reply::Written(WriteOutcome::Saved { size_on_disk }) => {
                let size = get_file_size(size_on_disk);
                if size > 0 {
                    finish(Some(Notification::Success(Success { full_path: item.full_path.clone(), size })))
                } else {
                    finish(None)
                }
            },
            _ => ignore(Stage::Writing),
        },
        Stage::Finished => ignore(Stage::Finished),
    }
}

} // verus!
