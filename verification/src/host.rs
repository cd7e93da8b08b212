//! The conversation between the editor and the application that hosts it.
//!
//! The editor never shows a dialog and never touches a file. It answers every
//! call with an [`Action`] for the host to perform, and the host hands back
//! what came of it as an [`Event`], until the answer is [`Action::Finished`].

use std::path::PathBuf;
use vstd::prelude::*;

verus! {

/// A file-system path. Nothing is known of what it holds: the editor carries
/// paths between the file picker, the file system and its own origin.
#[verifier::external_type_specification]
#[verifier::external_body]
pub struct ExPathBuf(PathBuf);

/// `PathBuf::clone` returns a path equal to the one it was called on.
pub assume_specification[ <PathBuf as Clone>::clone ](path: &PathBuf) -> (copy: PathBuf)
    ensures
        copy == *path,
;

/// A failed file operation, with the path it was tried on.
#[derive(Debug, PartialEq, Eq)]
pub enum IoError {
    /// The file could not be read as text.
    Read(PathBuf),
    /// The file could not be written.
    Write(PathBuf),
}

/// How an operation that did not fail has ended.
#[derive(Debug, PartialEq, Eq)]
pub enum Done {
    /// The user dismissed the file picker.
    Cancelled,
    /// A file was read into the buffer.
    Opened,
    /// The buffer was written to its file.
    Saved,
}

/// What the host has to do next.
#[derive(Debug, PartialEq, Eq)]
pub enum Action {
    /// Let the user pick an existing file, and report `Event::FilePicked`.
    PickFile,
    /// Let the user choose where to save, and report
    /// `Event::SaveLocationPicked`.
    PickSaveLocation,
    /// Read the whole file as text, and report `Event::ReadDone`.
    Read(PathBuf),
    /// Replace the file's contents by the text, and report `Event::WriteDone`.
    Write(PathBuf, String),
    /// Nothing more: the operation has ended as given.
    Finished(Result<Done, IoError>),
}

/// An [`Action`] with its text as a sequence of characters.
pub enum ActionView {
    PickFile,
    PickSaveLocation,
    Read(PathBuf),
    Write(PathBuf, Seq<char>),
    Finished(Result<Done, IoError>),
}

impl View for Action {
    type V = ActionView;

    open spec fn view(&self) -> ActionView {
        match *self {
            Action::PickFile => ActionView::PickFile,
            Action::PickSaveLocation => ActionView::PickSaveLocation,
            Action::Read(path) => ActionView::Read(path),
            Action::Write(path, text) => ActionView::Write(path, text@),
            Action::Finished(end) => ActionView::Finished(end),
        }
    }
}

/// What the host reports after performing an [`Action`].
#[derive(Debug, PartialEq, Eq)]
pub enum Event {
    /// The answer of the pick-a-file dialog: a path, or `None` when the user
    /// cancelled.
    FilePicked(Option<PathBuf>),
    /// The answer of the save-location dialog: a path, or `None` when the user
    /// cancelled.
    SaveLocationPicked(Option<PathBuf>),
    /// The file at the path was asked for: its text, or `None` when it could
    /// not be read.
    ReadDone(PathBuf, Option<String>),
    /// The file at the path was to be written: whether that succeeded.
    WriteDone(PathBuf, bool),
}

/// An [`Event`] with its text as a sequence of characters.
pub enum EventView {
    FilePicked(Option<PathBuf>),
    SaveLocationPicked(Option<PathBuf>),
    ReadDone(PathBuf, Option<Seq<char>>),
    WriteDone(PathBuf, bool),
}

impl View for Event {
    type V = EventView;

    open spec fn view(&self) -> EventView {
        match *self {
            Event::FilePicked(choice) => EventView::FilePicked(choice),
            Event::SaveLocationPicked(choice) => EventView::SaveLocationPicked(choice),
            Event::ReadDone(path, Some(text)) => EventView::ReadDone(path, Some(text@)),
            Event::ReadDone(path, None) => EventView::ReadDone(path, None),
            Event::WriteDone(path, written) => EventView::WriteDone(path, written),
        }
    }
}

} // verus!
