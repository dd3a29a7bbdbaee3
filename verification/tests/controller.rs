use editor_session::controller::{Command, Event, PathInfo, State};
use editor_session::document::EditAction;

fn fresh() -> State {
    let (s, c) = State::new();
    assert!(matches!(c, Command::Nothing));
    assert_eq!(s.document.text, "");
    assert_eq!(s.document.cursor, 0);
    assert!(s.file_path.is_none());
    assert_eq!(s.search_root, "");
    assert!(s.errors.is_empty());
    s
}

fn loaded(path: &str, text: &str) -> State {
    let mut s = fresh();
    let info = PathInfo { path: path.to_string(), is_dir: false };
    let c = s.update(Event::FileLoaded(Ok(text.to_string()), info));
    assert!(matches!(c, Command::Nothing));
    s
}

#[test]
fn open_load_scenario() {
    let mut s = fresh();

    let c = s.update(Event::RequestOpen);
    match c {
        Command::PickFile { directory, file_name } => {
            assert_eq!(directory, "");
            assert!(file_name.is_none());
        }
        other => panic!("expected a pick-file command, got {:?}", other),
    }

    let c = s.update(Event::FileChosen(Some("/tmp/a.txt".to_string())));
    match c {
        Command::ReadFile { path } => assert_eq!(path, "/tmp/a.txt"),
        other => panic!("expected a read command, got {:?}", other),
    }

    let info = PathInfo { path: "/tmp/a.txt".to_string(), is_dir: false };
    let c = s.update(Event::FileLoaded(Ok("hello".to_string()), info));
    assert!(matches!(c, Command::Nothing));
    assert_eq!(s.document.text, "hello");
    assert_eq!(s.document.cursor, 0);
    assert_eq!(s.file_path.as_deref(), Some("/tmp/a.txt"));
    assert_eq!(s.search_root, "/tmp");
}

#[test]
fn open_dialog_cancelled_is_silent() {
    let mut s = loaded("/tmp/a.txt", "hello");
    let c = s.update(Event::FileChosen(None));
    assert!(matches!(c, Command::Nothing));
    assert_eq!(s.document.text, "hello");
    assert_eq!(s.file_path.as_deref(), Some("/tmp/a.txt"));
    assert!(s.errors.is_empty());
}

#[test]
fn load_failure_queues_message() {
    let mut s = loaded("/tmp/a.txt", "hello");
    let info = PathInfo { path: "/tmp/b.txt".to_string(), is_dir: false };
    let c = s.update(Event::FileLoaded(Err("permission denied".to_string()), info));
    assert!(matches!(c, Command::ExpireErrorLater));
    assert_eq!(
        s.errors.front().map(String::as_str),
        Some("Could not open file: permission denied")
    );
    assert_eq!(s.document.text, "hello");
    assert_eq!(s.file_path.as_deref(), Some("/tmp/a.txt"));
}

#[test]
fn save_with_path_writes_without_dialog() {
    let mut s = loaded("/tmp/a.txt", "hello");
    s.update(Event::Edit(EditAction::Insert("hi ".to_string())));
    let c = s.update(Event::RequestSave);
    match c {
        Command::WriteFile { path, text } => {
            assert_eq!(path, "/tmp/a.txt");
            assert_eq!(text, "hi hello");
        }
        other => panic!("expected a write command, got {:?}", other),
    }
    assert_eq!(s.file_path.as_deref(), Some("/tmp/a.txt"));
}

#[test]
fn save_without_path_prompts_like_save_as() {
    let mut s = fresh();
    s.update(Event::Edit(EditAction::Insert("draft".to_string())));
    let c = s.update(Event::RequestSave);
    match c {
        Command::SaveDialog { directory, file_name, text } => {
            assert_eq!(directory, "");
            assert!(file_name.is_none());
            assert_eq!(text, "draft");
        }
        other => panic!("expected a save dialog, got {:?}", other),
    }
}

#[test]
fn save_as_always_prompts() {
    let mut s = loaded("/tmp/a.txt", "hello");
    let c = s.update(Event::RequestSaveAs);
    match c {
        Command::SaveDialog { directory, file_name, text } => {
            assert_eq!(directory, "/tmp");
            assert_eq!(file_name.as_deref(), Some("a.txt"));
            assert_eq!(text, "hello");
        }
        other => panic!("expected a save dialog, got {:?}", other),
    }
}

#[test]
fn save_completion_adopts_path() {
    let mut s = fresh();
    s.update(Event::Edit(EditAction::Insert("draft".to_string())));
    let info = PathInfo { path: "/home/me/notes.txt".to_string(), is_dir: false };
    let c = s.update(Event::SaveCompleted(Some(Ok(info))));
    assert!(matches!(c, Command::ExpireErrorLater));
    assert_eq!(s.file_path.as_deref(), Some("/home/me/notes.txt"));
    assert_eq!(s.search_root, "/home/me");
    assert_eq!(
        s.errors.front().map(String::as_str),
        Some("/home/me/notes.txt saved!")
    );

    let c = s.update(Event::RequestSave);
    match c {
        Command::WriteFile { path, text } => {
            assert_eq!(path, "/home/me/notes.txt");
            assert_eq!(text, "draft");
        }
        other => panic!("expected a write command, got {:?}", other),
    }
}

#[test]
fn save_to_directory_path_keeps_it_as_root() {
    let mut s = fresh();
    let info = PathInfo { path: "/var/data".to_string(), is_dir: true };
    s.update(Event::SaveCompleted(Some(Ok(info))));
    assert_eq!(s.file_path.as_deref(), Some("/var/data"));
    assert_eq!(s.search_root, "/var/data");
}

#[test]
fn save_aborted_queues_notice() {
    let mut s = fresh();
    let c = s.update(Event::SaveCompleted(None));
    assert!(matches!(c, Command::ExpireErrorLater));
    assert_eq!(
        s.errors.front().map(String::as_str),
        Some("File save aborted. File not saved.")
    );
}

#[test]
fn save_failure_queues_message() {
    let mut s = loaded("/tmp/a.txt", "hello");
    let c = s.update(Event::SaveCompleted(Some(Err("disk full".to_string()))));
    assert!(matches!(c, Command::ExpireErrorLater));
    assert_eq!(
        s.errors.front().map(String::as_str),
        Some("Could not save file: disk full")
    );
    assert_eq!(s.file_path.as_deref(), Some("/tmp/a.txt"));
}

#[test]
fn new_clears_document_and_path_but_not_root() {
    let mut s = loaded("/tmp/a.txt", "hello");
    let c = s.update(Event::New);
    assert!(matches!(c, Command::Nothing));
    assert_eq!(s.document.text, "");
    assert!(s.file_path.is_none());
    assert_eq!(s.search_root, "/tmp");
}

#[test]
fn dismiss_removes_exactly_the_front() {
    let mut s = fresh();
    s.update(Event::SaveCompleted(None));
    s.update(Event::SaveCompleted(Some(Err("disk full".to_string()))));
    assert_eq!(s.errors.len(), 2);
    assert_eq!(
        s.errors.front().map(String::as_str),
        Some("File save aborted. File not saved.")
    );

    let c = s.update(Event::DismissError);
    assert!(matches!(c, Command::Nothing));
    assert_eq!(s.errors.len(), 1);
    assert_eq!(
        s.errors.front().map(String::as_str),
        Some("Could not save file: disk full")
    );

    s.update(Event::DismissError);
    assert!(s.errors.is_empty());

    let c = s.update(Event::DismissError);
    assert!(matches!(c, Command::Nothing));
    assert!(s.errors.is_empty());
}

#[test]
fn status_line_prefers_front_message() {
    let mut s = fresh();
    assert_eq!(s.status_line(), "No file yet, please save or open file :)");
    assert_eq!(s.placeholder(), "Welcome! Open a file or start typing here ...");

    let info = PathInfo { path: "/tmp/a.txt".to_string(), is_dir: false };
    s.update(Event::FileLoaded(Ok("hello".to_string()), info));
    assert_eq!(s.status_line(), "/tmp/a.txt");
    assert_eq!(s.placeholder(), "Type here ...");

    s.update(Event::SaveCompleted(None));
    assert_eq!(s.status_line(), "File save aborted. File not saved.");

    s.update(Event::DismissError);
    assert_eq!(s.status_line(), "/tmp/a.txt");
}
