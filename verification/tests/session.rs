use ferrugo::{Action, Done, Event, Ferrugo, IoError};
use std::collections::HashMap;
use std::path::PathBuf;

/// A host in memory: a disk, the answer that the next dialog will give, and
/// the paths that refuse to be written.
struct Host {
    disk: HashMap<PathBuf, String>,
    choice: Option<PathBuf>,
    read_only: Vec<PathBuf>,
    writes: usize,
}

fn host() -> Host {
    Host { disk: HashMap::new(), choice: None, read_only: Vec::new(), writes: 0 }
}

fn perform(host: &mut Host, action: Action) -> Result<Event, Result<Done, IoError>> {
    match action {
        Action::PickFile => Ok(Event::FilePicked(host.choice.clone())),
        Action::PickSaveLocation => Ok(Event::SaveLocationPicked(host.choice.clone())),
        Action::Read(path) => {
            let text = host.disk.get(&path).cloned();
            Ok(Event::ReadDone(path, text))
        }
        Action::Write(path, text) => {
            let allowed = !host.read_only.contains(&path);
            if allowed {
                host.disk.insert(path.clone(), text);
                host.writes += 1;
            }
            Ok(Event::WriteDone(path, allowed))
        }
        Action::Finished(end) => Err(end),
    }
}

fn run(editor: &mut Ferrugo, host: &mut Host, first: Action) -> Result<Done, IoError> {
    let mut action = first;
    loop {
        match perform(host, action) {
            Ok(event) => action = editor.resume(event),
            Err(end) => return end,
        }
    }
}

fn load(host: &Host, path: &PathBuf) -> Ferrugo {
    Ferrugo::with_path(path.clone(), host.disk.get(path).cloned())
}

#[test]
fn save_then_load_gives_the_text_back() {
    let path = PathBuf::from("/tmp/round_trip.txt");
    for text in ["", "plain", "two\nlines", "ends with a line feed\n", "ünï\r\ncödé"] {
        let mut host = host();
        let mut editor = Ferrugo::with_text(text.to_string());
        editor.file_path = Some(path.clone());
        let first = editor.save_file();
        assert_eq!(run(&mut editor, &mut host, first), Ok(Done::Saved));
        let again = load(&host, &path);
        assert_eq!(again.text, text);
        assert_eq!(again.file_path, Some(path.clone()));
    }
}

#[test]
fn saving_twice_leaves_the_same_file() {
    let path = PathBuf::from("/tmp/twice.txt");
    let mut host = host();
    host.disk.insert(path.clone(), "something much longer that was there before".to_string());
    let mut editor = Ferrugo::with_text("short\n".to_string());
    editor.file_path = Some(path.clone());

    let first = editor.save_file();
    assert_eq!(run(&mut editor, &mut host, first), Ok(Done::Saved));
    assert_eq!(host.disk.get(&path), Some(&"short\n".to_string()));
    assert_eq!(editor.text, "short\n");

    let second = editor.save_file();
    assert_eq!(run(&mut editor, &mut host, second), Ok(Done::Saved));
    assert_eq!(host.disk.get(&path), Some(&"short\n".to_string()));
    assert_eq!(editor.text, "short\n");
    assert_eq!(editor.file_path, Some(path));
    assert_eq!(host.writes, 2);
    assert_eq!(host.disk.len(), 1);
}

#[test]
fn opening_a_file_through_the_dialog_loads_it() {
    let path = PathBuf::from("/tmp/letter.txt");
    let mut host = host();
    host.disk.insert(path.clone(), "Dear reader,\n".to_string());
    host.choice = Some(path.clone());
    let mut editor = Ferrugo::with_text("draft".to_string());
    let first = editor.open_file();
    assert_eq!(run(&mut editor, &mut host, first), Ok(Done::Opened));
    assert_eq!(editor.text, "Dear reader,\n");
    assert_eq!(editor.file_path, Some(path));
}

#[test]
fn opening_a_missing_file_reports_the_failure_and_keeps_the_buffer() {
    let missing = PathBuf::from("/tmp/missing.txt");
    let mut host = host();
    host.choice = Some(missing.clone());
    let mut editor = Ferrugo::with_text("draft".to_string());
    let first = editor.open_file();
    assert_eq!(run(&mut editor, &mut host, first), Err(IoError::Read(missing)));
    assert_eq!(editor.text, "draft");
    assert_eq!(editor.file_path, None);
}

#[test]
fn cancelling_the_open_dialog_keeps_the_buffer() {
    let path = PathBuf::from("/tmp/kept.txt");
    let mut host = host();
    host.disk.insert(path.clone(), "on disk".to_string());
    let mut editor = load(&host, &path);
    editor.text.push_str(", then edited");
    let first = editor.open_file();
    assert_eq!(run(&mut editor, &mut host, first), Ok(Done::Cancelled));
    assert_eq!(editor.text, "on disk, then edited");
    assert_eq!(editor.file_path, Some(path));
}

#[test]
fn saving_an_unsaved_text_asks_for_a_place_and_keeps_it() {
    let path = PathBuf::from("/tmp/fresh.txt");
    let mut host = host();
    host.choice = Some(path.clone());
    let mut editor = Ferrugo::with_text("fresh".to_string());
    let first = editor.save_file();
    assert_eq!(run(&mut editor, &mut host, first), Ok(Done::Saved));
    assert_eq!(host.disk.get(&path), Some(&"fresh".to_string()));
    assert_eq!(editor.file_path, Some(path.clone()));

    // From now on the editor saves to that file without asking.
    host.choice = None;
    editor.text.push_str("er");
    let second = editor.save_file();
    assert_eq!(run(&mut editor, &mut host, second), Ok(Done::Saved));
    assert_eq!(host.disk.get(&path), Some(&"fresher".to_string()));
}

#[test]
fn cancelling_the_save_dialog_writes_nothing() {
    let mut host = host();
    let mut editor = Ferrugo::with_text("unsaved".to_string());
    let first = editor.save_file_as();
    assert_eq!(run(&mut editor, &mut host, first), Ok(Done::Cancelled));
    assert_eq!(host.writes, 0);
    assert_eq!(editor.text, "unsaved");
    assert_eq!(editor.file_path, None);
}

#[test]
fn save_as_moves_the_editor_to_the_new_file() {
    let old = PathBuf::from("/tmp/old.txt");
    let new = PathBuf::from("/tmp/new.txt");
    let mut host = host();
    host.disk.insert(old.clone(), "text".to_string());
    host.choice = Some(new.clone());
    let mut editor = load(&host, &old);
    let first = editor.save_file_as();
    assert_eq!(run(&mut editor, &mut host, first), Ok(Done::Saved));
    assert_eq!(host.disk.get(&new), Some(&"text".to_string()));
    assert_eq!(host.disk.get(&old), Some(&"text".to_string()));
    assert_eq!(editor.file_path, Some(new));
}

#[test]
fn a_failed_save_as_reports_the_failure_and_keeps_the_origin() {
    let old = PathBuf::from("/tmp/old.txt");
    let denied = PathBuf::from("/tmp/denied.txt");
    let mut host = host();
    host.disk.insert(old.clone(), "text".to_string());
    host.choice = Some(denied.clone());
    host.read_only.push(denied.clone());
    let mut editor = load(&host, &old);
    let first = editor.save_file_as();
    assert_eq!(run(&mut editor, &mut host, first), Err(IoError::Write(denied.clone())));
    assert_eq!(host.disk.get(&denied), None);
    assert_eq!(editor.text, "text");
    assert_eq!(editor.file_path, Some(old));
}

#[test]
fn a_failed_save_reports_the_failure() {
    let path = PathBuf::from("/tmp/locked.txt");
    let mut host = host();
    host.disk.insert(path.clone(), "before".to_string());
    host.read_only.push(path.clone());
    let mut editor = load(&host, &path);
    editor.text.push_str(" and after");
    let first = editor.save_file();
    assert_eq!(run(&mut editor, &mut host, first), Err(IoError::Write(path.clone())));
    assert_eq!(host.disk.get(&path), Some(&"before".to_string()));
    assert_eq!(editor.text, "before and after");
    assert_eq!(editor.file_path, Some(path));
}
