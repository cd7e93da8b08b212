//! What holds of the editor's operations taken together, proved over a model
//! of a host that does what it is asked.

use crate::editor::{action_after, loaded, save_action, state_after, Buffer};
use crate::host::{ActionView, Done, EventView};
use std::path::PathBuf;
use vstd::prelude::*;

verus! {

/// The files of a disk: the text at each path that holds one.
pub type Disk = Map<PathBuf, Seq<char>>;

/// The disk once a host that never fails has performed `action`: a write
/// replaces what the path held, and nothing else touches the disk.
pub open spec fn disk_after(disk: Disk, action: ActionView) -> Disk {
    match action {
        ActionView::Write(path, text) => disk.insert(path, text),
        _ => disk,
    }
}

/// What reading `path` from `disk` gives: its text, or nothing where the disk
/// holds no such file.
pub open spec fn read_from(disk: Disk, path: PathBuf) -> Option<Seq<char>> {
    if disk.dom().contains(path) {
        Some(disk[path])
    } else {
        None
    }
}

/// Cancelling either dialog ends the operation and leaves the buffer as it
/// was, content and origin alike.
pub proof fn lemma_cancel_keeps_buffer(buffer: Buffer)
    ensures
        state_after(buffer, EventView::FilePicked(None)) == buffer,
        state_after(buffer, EventView::SaveLocationPicked(None)) == buffer,
        action_after(buffer, EventView::FilePicked(None)) == ActionView::Finished(
            Ok(Done::Cancelled),
        ),
        action_after(buffer, EventView::SaveLocationPicked(None)) == ActionView::Finished(
            Ok(Done::Cancelled),
        ),
{
}

/// A failed read or write leaves the buffer as it was, and so does the
/// user's choice of a path before anything was read or written.
pub proof fn lemma_only_success_changes_buffer(buffer: Buffer, event: EventView)
    requires
        !(event matches EventView::ReadDone(_, Some(_))),
        !(event matches EventView::WriteDone(_, true)),
    ensures
        state_after(buffer, event) == buffer,
{
}

/// Saving a buffer that has a file, then making an editor from that file,
/// gives back the text that was saved.
pub proof fn lemma_save_then_load(text: Seq<char>, path: PathBuf, disk: Disk)
    ensures
        ({
            let buffer = Buffer { content: text, origin: Some(path) };
            let saved = disk_after(disk, save_action(buffer));
            loaded(path, read_from(saved, path)) == buffer
        }),
{
}

/// Saving twice in a row with the buffer unchanged writes the same text to
/// the same file both times: after each save the file holds exactly the
/// content, and the second save changes neither the disk nor the buffer.
pub proof fn lemma_save_twice(buffer: Buffer, path: PathBuf, disk: Disk)
    requires
        buffer.origin == Some(path),
    ensures
        ({
            let first = disk_after(disk, save_action(buffer));
            let between = state_after(buffer, EventView::WriteDone(path, true));
            let second = disk_after(first, save_action(between));
            &&& read_from(first, path) == Some(buffer.content)
            &&& between == buffer
            &&& save_action(between) == save_action(buffer)
            &&& read_from(second, path) == Some(buffer.content)
            &&& second == first
        }),
{
    let first = disk_after(disk, save_action(buffer));
    let second = disk_after(first, save_action(buffer));
    assert(second =~= first);
}

/// Saving under a new name writes the content to the chosen path and, once
/// written, makes that path the origin; the content stays as it was.
pub proof fn lemma_save_as_moves_origin(buffer: Buffer, path: PathBuf, disk: Disk)
    ensures
        ({
            let write = action_after(buffer, EventView::SaveLocationPicked(Some(path)));
            let saved = disk_after(disk, write);
            let end = state_after(buffer, EventView::WriteDone(path, true));
            &&& write == ActionView::Write(path, buffer.content)
            &&& read_from(saved, path) == Some(buffer.content)
            &&& end == (Buffer { content: buffer.content, origin: Some(path) })
        }),
{
}

} // verus!
