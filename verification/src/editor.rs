//! The editor: a text, the file it belongs to, and what each operation
//! decides.

use crate::host::{Action, ActionView, Done, Event, EventView, IoError};
use crate::text::{count_chars, count_lines, line_count};
use std::path::PathBuf;
use vstd::prelude::*;

verus! {

/// Text editor with file operations.
pub struct Ferrugo {
    /// Current text content.
    pub text: String,
    /// The file that the text was loaded from or last saved to; `None` for a
    /// text that has no file yet.
    pub file_path: Option<PathBuf>,
}

/// What an editor holds, as mathematics: the characters of its text and the
/// path of its file.
pub struct Buffer {
    pub content: Seq<char>,
    pub origin: Option<PathBuf>,
}

impl View for Ferrugo {
    type V = Buffer;

    open spec fn view(&self) -> Buffer {
        Buffer { content: self.text@, origin: self.file_path }
    }
}

/// The buffer of an editor made for `path`, given what reading that file
/// gave: the file's text, or no text at all where it could not be read. The
/// path is kept either way.
pub open spec fn loaded(path: PathBuf, read: Option<Seq<char>>) -> Buffer {
    Buffer {
        content: match read {
            Some(text) => text,
            None => Seq::empty(),
        },
        origin: Some(path),
    }
}

/// The first step of saving `buffer`: write to its own file if it has one,
/// else ask the user where to save.
pub open spec fn save_action(buffer: Buffer) -> ActionView {
    match buffer.origin {
        Some(path) => ActionView::Write(path, buffer.content),
        None => ActionView::PickSaveLocation,
    }
}

/// The buffer after `event`. Only a file that was read replaces the content,
/// and only a read or write that succeeded sets the origin.
pub open spec fn state_after(buffer: Buffer, event: EventView) -> Buffer {
    match event {
        EventView::ReadDone(path, Some(text)) => Buffer { content: text, origin: Some(path) },
        EventView::WriteDone(path, true) => Buffer { content: buffer.content, origin: Some(path) },
        _ => buffer,
    }
}

/// What the host is asked to do after `event`.
pub open spec fn action_after(buffer: Buffer, event: EventView) -> ActionView {
    match event {
        EventView::FilePicked(Some(path)) => ActionView::Read(path),
        EventView::SaveLocationPicked(Some(path)) => ActionView::Write(path, buffer.content),
        EventView::FilePicked(None) | EventView::SaveLocationPicked(None) => ActionView::Finished(
            Ok(Done::Cancelled),
        ),
        EventView::ReadDone(_, Some(_)) => ActionView::Finished(Ok(Done::Opened)),
        EventView::ReadDone(path, None) => ActionView::Finished(Err(IoError::Read(path))),
        EventView::WriteDone(_, true) => ActionView::Finished(Ok(Done::Saved)),
        EventView::WriteDone(path, false) => ActionView::Finished(Err(IoError::Write(path))),
    }
}

impl Default for Ferrugo {
    /// Create a new empty editor.
    fn default() -> (editor: Self)
        ensures
            editor@ == (Buffer { content: Seq::empty(), origin: None }),
    {
        Ferrugo { text: String::new(), file_path: None }
    }
}

impl Ferrugo {
    /// Create an editor with initial text and no file.
    pub fn with_text(text: String) -> (editor: Self)
        ensures
            editor.text == text,
            editor@ == (Buffer { content: text@, origin: None }),
    {
        Ferrugo { text, file_path: None }
    }

    /// Create an editor for the file at `path`, from what reading that file
    /// gave. Where it could not be read (`None`), the editor starts empty and
    /// still belongs to `path`: it cannot be told from one that loaded an
    /// empty file.
    pub fn with_path(path: PathBuf, read: Option<String>) -> (editor: Self)
        ensures
            editor@ == loaded(
                path,
                match read {
                    Some(text) => Some(text@),
                    None => None,
                },
            ),
    {
        let text = match read {
            Some(text) => text,
            None => String::new(),
        };
        Ferrugo { text, file_path: Some(path) }
    }

    /// Begin opening a file: the host is to let the user pick one.
    pub fn open_file(&self) -> (action: Action)
        ensures
            action@ == ActionView::PickFile,
    {
        Action::PickFile
    }

    /// Begin saving: to the editor's own file if it has one, else as
    /// `save_file_as` does.
    pub fn save_file(&self) -> (action: Action)
        ensures
            action@ == save_action(self@),
    {
        match &self.file_path {
            Some(path) => Action::Write(path.clone(), self.text.clone()),
            None => self.save_file_as(),
        }
    }

    /// Begin saving under a new name: the host is to let the user choose
    /// where.
    pub fn save_file_as(&self) -> (action: Action)
        ensures
            action@ == ActionView::PickSaveLocation,
    {
        Action::PickSaveLocation
    }

    /// Take in what the host reports and say what it has to do next.
    pub fn resume(&mut self, event: Event) -> (action: Action)
        ensures
            final(self)@ == state_after(old(self)@, event@),
            action@ == action_after(old(self)@, event@),
    {
        match event {
            Event::FilePicked(Some(path)) => Action::Read(path),
            Event::SaveLocationPicked(Some(path)) => Action::Write(path, self.text.clone()),
            Event::FilePicked(None) | Event::SaveLocationPicked(None) => Action::Finished(
                Ok(Done::Cancelled),
            ),
            Event::ReadDone(path, Some(text)) => {
                self.text = text;
                self.file_path = Some(path);
                Action::Finished(Ok(Done::Opened))
            },
            Event::ReadDone(path, None) => Action::Finished(Err(IoError::Read(path))),
            Event::WriteDone(path, true) => {
                self.file_path = Some(path);
                Action::Finished(Ok(Done::Saved))
            },
            Event::WriteDone(path, false) => Action::Finished(Err(IoError::Write(path))),
        }
    }

    /// The number of characters of the text.
    pub fn char_count(&self) -> (n: usize)
        ensures
            n == self@.content.len(),
    {
        count_chars(self.text.as_str())
    }

    /// The number of lines of the text.
    pub fn line_count(&self) -> (n: usize)
        ensures
            n == line_count(self@.content),
    {
        count_lines(self.text.as_str())
    }
}

} // verus!
