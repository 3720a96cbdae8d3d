//! What a batch tells its caller about each item.

use vstd::prelude::*;

verus! {

/// Why an item was not converted.
#[derive(Clone, Copy, Debug, PartialEq, Eq, Structural)]
pub enum TranscodeError {
    /// The source could not be read, or is no image.
    Decode,
    /// The image could not be resampled or encoded.
    Encode,
    /// The converted file could not be written.
    Write,
}

impl TranscodeError {
    /// The text that the caller is shown.
    pub open spec fn text(self) -> Seq<char> {
        match self {
            TranscodeError::Decode => "Image can't be opened"@,
            TranscodeError::Encode => "Image can't be converted"@,
            TranscodeError::Write => "File can't be saved"@,
        }
    }

    pub fn message(&self) -> (message: String)
        ensures
            message@ == self.text(),
    {
        match self {
            TranscodeError::Decode => "Image can't be opened".to_string(),
            TranscodeError::Encode => "Image can't be converted".to_string(),
            TranscodeError::Write => "File can't be saved".to_string(),
        }
    }
}

/// The payload of a `success` notification.
#[derive(Clone, Debug)]
pub struct Success {
    pub full_path: String,
    /// The size of the written file in kilobytes.
    pub size: u64,
}

/// The payload of an `error` notification.
#[derive(Clone, Debug)]
pub struct ProcessError {
    pub full_path: String,
    pub error: String,
}

/// One notification about one item.
#[derive(Clone, Debug)]
pub enum Notification {
    /// Work on the item has started.
    Progress(String),
    /// The item was converted and written.
    Success(Success),
    /// The item failed.
    Error(ProcessError),
}

pub enum NotificationView {
    Progress { full_path: Seq<char> },
    Success { full_path: Seq<char>, size: u64 },
    Error { full_path: Seq<char>, error: Seq<char> },
}

impl NotificationView {
    /// The item that the notification is about.
    pub open spec fn full_path(self) -> Seq<char> {
        match self {
            NotificationView::Progress { full_path } => full_path,
            NotificationView::Success { full_path, .. } => full_path,
            NotificationView::Error { full_path, .. } => full_path,
        }
    }

    /// A notification that closes an item: `success` or `error`.
    pub open spec fn is_terminal(self) -> bool {
        !(self is Progress)
    }

    /// The name of the channel that carries the notification.
    pub open spec fn channel(self) -> Seq<char> {
        match self {
            NotificationView::Progress { .. } => "progress"@,
            NotificationView::Success { .. } => "success"@,
            NotificationView::Error { .. } => "error"@,
        }
    }
}

impl View for Notification {
    type V = NotificationView;

    open spec fn view(&self) -> NotificationView {
        match self {
            Notification::Progress(full_path) => NotificationView::Progress { full_path: full_path@ },
            Notification::Success(success) => NotificationView::Success {
                full_path: success.full_path@,
                size: success.size,
            },
            Notification::Error(failure) => NotificationView::Error {
                full_path: failure.full_path@,
                error: failure.error@,
            },
        }
    }
}

impl Notification {
    /// The name of the channel that carries the notification.
    pub fn channel(&self) -> (name: String)
        ensures
            name@ == self@.channel(),
    {
        match self {
            Notification::Progress(_) => "progress".to_string(),
            Notification::Success(_) => "success".to_string(),
            Notification::Error(_) => "error".to_string(),
        }
    }

    /// The item that the notification is about.
    pub fn full_path(&self) -> (full_path: &String)
        ensures
            full_path@ == self@.full_path(),
    {
        match self {
            Notification::Progress(full_path) => full_path,
            Notification::Success(success) => &success.full_path,
            Notification::Error(failure) => &failure.full_path,
        }
    }
}

} // verus!
