use simple_editor::editor::{shortcut, EditorState, Status};
use simple_editor::file_access::{file_read, file_written, Error};
use simple_editor::messages::{EditOutcome, Effect, EditorMessage};
use simple_editor::theme::{Appearance, HighlightTheme};
use std::io::ErrorKind;
use std::path::PathBuf;
use std::sync::Arc;

fn edited(text: &str, cursor: (usize, usize)) -> EditorMessage {
    EditorMessage::Edit(EditOutcome { text: String::from(text), cursor, is_edit: true })
}

fn moved(text: &str, cursor: (usize, usize)) -> EditorMessage {
    EditorMessage::Edit(EditOutcome { text: String::from(text), cursor, is_edit: false })
}

fn insert(c: char) -> EditorMessage {
    edited(&c.to_string(), (0, 1))
}

fn opened(text: &str, path: &str) -> EditorMessage {
    EditorMessage::FileOpened(Ok((Arc::new(String::from(text)), Some(PathBuf::from(path)))))
}

#[test]
fn startup_state_is_empty_and_unmodified() {
    let s = EditorState::new();
    assert_eq!(s.text(), "");
    assert!(s.file_path().is_none());
    assert!(!s.is_modified());
    assert!(s.last_error().is_none());
    assert!(!s.is_busy());
    assert_eq!(s.highlight_theme(), HighlightTheme::SolarizedDark);
}

#[test]
fn edits_replay_in_order() {
    let mut s = EditorState::new();
    for m in [edited("a", (0, 1)), edited("ac", (0, 2)), moved("ac", (0, 1)), edited("abc", (0, 2))] {
        assert!(s.update(m).is_none());
    }
    assert_eq!(s.text(), "abc");
    assert_eq!(s.cursor_position(), (0, 2));
    assert!(s.is_modified());
}

#[test]
fn cursor_move_keeps_modified_flag() {
    let mut s = EditorState::new();
    s.update(opened("one\ntwo", "/tmp/m.txt"));
    s.update(moved("one\ntwo", (1, 2)));
    assert!(!s.is_modified());
    assert_eq!(s.cursor_position(), (1, 2));
    assert!(s.save_message().is_none());
    s.update(edited("one\ntwXo", (1, 3)));
    assert!(s.is_modified());
    s.update(moved("one\ntwXo", (0, 0)));
    assert!(s.is_modified());
}

#[test]
fn new_resets_the_document() {
    let mut s = EditorState::new();
    s.update(opened("x", "/tmp/a.txt"));
    s.update(insert('y'));
    assert!(s.update(EditorMessage::New).is_none());
    assert_eq!(s.text(), "");
    assert!(s.file_path().is_none());
    assert!(!s.is_modified());
}

#[test]
fn successful_open_loads_text_unmodified() {
    let mut s = EditorState::new();
    s.update(insert('z'));
    s.update(opened("loaded", "/tmp/a.txt"));
    assert_eq!(s.text(), "loaded");
    assert_eq!(s.file_path().clone(), Some(PathBuf::from("/tmp/a.txt")));
    assert!(!s.is_modified());
    assert!(s.last_error().is_none());
}

#[test]
fn failed_open_keeps_buffer_and_records_error() {
    let mut s = EditorState::new();
    s.update(insert('z'));
    s.update(EditorMessage::FileOpened(Err(Error::IO(ErrorKind::NotFound))));
    assert_eq!(s.text(), "z");
    assert!(matches!(s.last_error(), Some(Error::IO(ErrorKind::NotFound))));
}

#[test]
fn open_asks_for_a_file_then_reads_it() {
    let mut s = EditorState::new();
    assert!(matches!(s.update(EditorMessage::Open), Some(Effect::ChooseFileToOpen)));
    assert!(s.is_busy());
    let e = s.update(EditorMessage::OpenPathChosen(Some(PathBuf::from("/tmp/b.txt"))));
    assert!(matches!(e, Some(Effect::ReadFile(p)) if p == PathBuf::from("/tmp/b.txt")));
    s.update(opened("b", "/tmp/b.txt"));
    assert!(!s.is_busy());
}

#[test]
fn open_cancelled_keeps_buffer_and_path() {
    let mut s = EditorState::new();
    s.update(opened("keep", "/tmp/k.txt"));
    s.update(EditorMessage::Open);
    assert!(s.update(EditorMessage::OpenPathChosen(None)).is_none());
    assert!(matches!(s.last_error(), Some(Error::DialogClosed)));
    assert_eq!(s.text(), "keep");
    assert_eq!(s.file_path().clone(), Some(PathBuf::from("/tmp/k.txt")));
    assert!(!s.is_busy());
}

#[test]
fn save_with_known_path_writes_without_prompt() {
    let mut s = EditorState::new();
    s.update(opened("data", "/tmp/c.txt"));
    s.update(edited("!data", (0, 1)));
    let e = s.update(EditorMessage::Save);
    assert!(matches!(e, Some(Effect::WriteFile(p, t)) if p == PathBuf::from("/tmp/c.txt") && t == "!data"));
}

#[test]
fn save_without_path_asks_for_destination() {
    let mut s = EditorState::new();
    s.update(insert('q'));
    assert!(matches!(s.update(EditorMessage::Save), Some(Effect::ChooseSaveLocation)));
    let e = s.update(EditorMessage::SavePathChosen(Some(PathBuf::from("/tmp/d.txt"))));
    assert!(matches!(e, Some(Effect::WriteFile(p, t)) if p == PathBuf::from("/tmp/d.txt") && t == "q"));
}

#[test]
fn save_as_always_asks_for_destination() {
    let mut s = EditorState::new();
    s.update(opened("data", "/tmp/c.txt"));
    assert!(matches!(s.update(EditorMessage::SaveAs), Some(Effect::ChooseSaveLocation)));
}

#[test]
fn saved_path_is_reused_without_prompt() {
    let mut s = EditorState::new();
    s.update(insert('q'));
    s.update(EditorMessage::Save);
    s.update(EditorMessage::SavePathChosen(Some(PathBuf::from("/tmp/e.txt"))));
    s.update(EditorMessage::FileSaved(Ok(PathBuf::from("/tmp/e.txt"))));
    assert_eq!(s.file_path().clone(), Some(PathBuf::from("/tmp/e.txt")));
    assert!(!s.is_modified());
    let e = s.update(EditorMessage::Save);
    assert!(matches!(e, Some(Effect::WriteFile(p, _)) if p == PathBuf::from("/tmp/e.txt")));
}

#[test]
fn open_then_save_writes_back_the_same_text() {
    let mut s = EditorState::new();
    s.update(opened("line one\nline two ✓\n", "/tmp/f.txt"));
    let e = s.update(EditorMessage::Save);
    assert!(matches!(e, Some(Effect::WriteFile(p, t))
        if p == PathBuf::from("/tmp/f.txt") && t.as_bytes() == "line one\nline two ✓\n".as_bytes()));
}

#[test]
fn save_cancelled_writes_nothing() {
    let mut s = EditorState::new();
    s.update(insert('w'));
    assert!(matches!(s.update(EditorMessage::Save), Some(Effect::ChooseSaveLocation)));
    assert!(s.update(EditorMessage::SavePathChosen(None)).is_none());
    assert!(matches!(s.last_error(), Some(Error::DialogClosed)));
    assert!(s.file_path().is_none());
    assert!(s.is_modified());
}

#[test]
fn failed_save_records_error() {
    let mut s = EditorState::new();
    s.update(opened("x", "/tmp/g.txt"));
    s.update(EditorMessage::Save);
    s.update(EditorMessage::FileSaved(Err(Error::IO(ErrorKind::PermissionDenied))));
    assert!(matches!(s.last_error(), Some(Error::IO(ErrorKind::PermissionDenied))));
    assert!(!s.is_busy());
}

#[test]
fn requests_while_busy_are_ignored() {
    let mut s = EditorState::new();
    assert!(s.update(EditorMessage::Open).is_some());
    assert!(s.update(EditorMessage::Open).is_none());
    assert!(s.update(EditorMessage::Save).is_none());
    assert!(s.update(EditorMessage::SaveAs).is_none());
    assert!(s.is_busy());
}

#[test]
fn edit_clears_error() {
    let mut s = EditorState::new();
    s.update(EditorMessage::Open);
    s.update(EditorMessage::OpenPathChosen(None));
    assert!(s.last_error().is_some());
    s.update(insert('a'));
    assert!(s.last_error().is_none());
}

#[test]
fn theme_change_sets_appearance() {
    let mut s = EditorState::new();
    assert_eq!(s.theme(), Appearance::Dark);
    s.update(EditorMessage::ThemeChanged(HighlightTheme::InspiredGitHub));
    assert_eq!(s.highlight_theme(), HighlightTheme::InspiredGitHub);
    assert_eq!(s.theme(), Appearance::Light);
    assert!(HighlightTheme::Base16Ocean.is_dark());
}

#[test]
fn status_reports_error_then_path_then_new() {
    let mut s = EditorState::new();
    assert!(matches!(s.status(), Status::NewFile));
    s.update(opened("x", "/tmp/h.txt"));
    assert!(matches!(s.status(), Status::Editing(p) if p == PathBuf::from("/tmp/h.txt")));
    s.update(EditorMessage::FileSaved(Err(Error::DialogClosed)));
    assert!(matches!(s.status(), Status::Failed(Error::DialogClosed)));
}

#[test]
fn save_offered_only_when_modified() {
    let mut s = EditorState::new();
    assert!(s.save_message().is_none());
    s.update(insert('a'));
    assert!(matches!(s.save_message(), Some(EditorMessage::Save)));
}

#[test]
fn title_is_fixed() {
    assert_eq!(EditorState::new().title(), "Simple text editor in Rust");
}

#[test]
fn shortcuts_need_the_command_modifier() {
    assert!(matches!(shortcut(true, 's'), Some(EditorMessage::Save)));
    assert!(matches!(shortcut(true, 'o'), Some(EditorMessage::Open)));
    assert!(matches!(shortcut(true, 'N'), Some(EditorMessage::New)));
    assert!(shortcut(false, 's').is_none());
    assert!(shortcut(true, 'x').is_none());
}

#[test]
fn open_resets_cursor() {
    let mut s = EditorState::new();
    s.update(edited("ab\ncd", (1, 2)));
    s.update(opened("x", "/tmp/n.txt"));
    assert_eq!(s.cursor_position(), (0, 0));
}

#[test]
fn read_bytes_decode_with_replacement() {
    let m = file_read(PathBuf::from("/tmp/i.txt"), Ok(vec![b'a', 0xFF, b'b']));
    assert!(matches!(m, EditorMessage::FileOpened(Ok((ref t, Some(ref p))))
        if t.as_str() == "a\u{FFFD}b" && *p == PathBuf::from("/tmp/i.txt")));
    let m = file_read(PathBuf::from("/tmp/i.txt"), Ok("héllo".as_bytes().to_vec()));
    assert!(matches!(m, EditorMessage::FileOpened(Ok((ref t, _))) if t.as_str() == "héllo"));
}

#[test]
fn read_failure_carries_kind() {
    let m = file_read(PathBuf::from("/nope"), Err(ErrorKind::NotFound));
    assert!(matches!(m, EditorMessage::FileOpened(Err(Error::IO(ErrorKind::NotFound)))));
}

#[test]
fn write_outcome_becomes_event() {
    let m = file_written(PathBuf::from("/tmp/j.txt"), Ok(()));
    assert!(matches!(m, EditorMessage::FileSaved(Ok(p)) if p == PathBuf::from("/tmp/j.txt")));
    let m = file_written(PathBuf::from("/tmp/j.txt"), Err(ErrorKind::PermissionDenied));
    assert!(matches!(m, EditorMessage::FileSaved(Err(Error::IO(ErrorKind::PermissionDenied)))));
}

#[test]
fn valid_utf8_file_is_written_back_byte_for_byte() {
    let bytes = "first line\nsecond ✓ line\r\n".as_bytes().to_vec();
    let mut s = EditorState::new();
    s.update(EditorMessage::Open);
    s.update(EditorMessage::OpenPathChosen(Some(PathBuf::from("/tmp/r.txt"))));
    s.update(file_read(PathBuf::from("/tmp/r.txt"), Ok(bytes.clone())));
    let e = s.update(EditorMessage::Save);
    assert!(matches!(e, Some(Effect::WriteFile(p, t)) if p == PathBuf::from("/tmp/r.txt") && t.as_bytes() == bytes.as_slice()));
}
