use encodetalker::messages::{DepsCompilationStep, DepsStatusInfo};
use encodetalker::ui_state::{is_video_file, AppState, DirEntry, EncodeConfigDialog, FileBrowserState, LoadingState, Screen};

#[test]
fn tabs_cycle_and_loading_is_sticky() {
    assert_eq!(Screen::FileBrowser.next(), Screen::Queue);
    assert_eq!(Screen::History.next(), Screen::FileBrowser);
    assert_eq!(Screen::FileBrowser.prev(), Screen::History);
    assert_eq!(Screen::Loading.next(), Screen::Loading);
    assert_eq!(Screen::Loading.prev(), Screen::Loading);
    assert_eq!(Screen::Queue.title(), "Queue");
}

#[test]
fn loading_progress_and_text() {
    let status = DepsStatusInfo {
        all_present: false,
        compiling: true,
        current_dep: Some("FFmpeg".to_string()),
        current_step: Some(DepsCompilationStep::Building),
        completed_count: 1,
        total_count: 3,
    };
    let state = LoadingState::from_status(status);
    assert_eq!(state.progress_percent(), 33);
    assert_eq!(state.step_text().as_deref(), Some("FFmpeg: Compilation..."));
    assert_eq!(LoadingState::new().progress_percent(), 0);
    assert_eq!(LoadingState::new().step_text(), None);
}

#[test]
fn video_files_by_extension() {
    assert!(is_video_file("/a/b/film.MKV"));
    assert!(is_video_file("clip.m2ts"));
    assert!(!is_video_file("/a/notes.txt"));
    assert!(!is_video_file("/a/.mkv"));
    assert!(!is_video_file("/a.mkv/readme"));
}

#[test]
fn single_file_dialog_proposes_output() {
    let d = EncodeConfigDialog::new("/v/film.mkv".to_string());
    assert_eq!(d.output_path, "/v/film.av1.mkv");
    assert!(!d.is_batch());
    let b = EncodeConfigDialog::new_batch(vec!["/v/a.mkv".to_string(), "/v/b.mkv".to_string()]);
    assert!(b.is_batch());
    assert_eq!(b.output_path, "<auto-generated>");
}

#[test]
fn dialog_fields_and_editing() {
    let mut d = EncodeConfigDialog::new("/v/film.mkv".to_string());
    d.move_field_up();
    assert_eq!(d.selected_field, 0);
    for _ in 0..10 {
        d.move_field_down();
    }
    assert_eq!(d.selected_field, 5);
    d.start_editing_output();
    assert!(d.is_editing_output);
    assert_eq!(d.output_path_cursor, "/v/film.av1.mkv".chars().count());
    d.output_path_string = "/v/other.mkv".to_string();
    d.stop_editing_output();
    assert!(!d.is_editing_output);
    assert_eq!(d.output_path, "/v/other.mkv");
}

fn entry(name: &str, is_video: bool) -> DirEntry {
    DirEntry { path: format!("/v/{}", name), name: name.to_string(), is_dir: !is_video, is_video }
}

#[test]
fn browser_selection() {
    let mut b = FileBrowserState::new("/v".to_string());
    b.set_entries(vec![entry("..", false), entry("a.mkv", true), entry("b.mp4", true), entry("sub", false)]);
    b.toggle_selection(1);
    assert!(b.is_selected("/v/a.mkv"));
    b.toggle_selection(3);
    assert_eq!(b.get_selected_files(), vec!["/v/a.mkv".to_string()]);
    b.toggle_selection(1);
    assert!(!b.is_selected("/v/a.mkv"));
    b.select_all_videos();
    assert_eq!(b.get_selected_files().len(), 2);
    b.clear_selection();
    assert!(b.get_selected_files().is_empty());
    assert_eq!(b.get_selected(2).map(|e| e.name.clone()), Some("b.mp4".to_string()));
    b.navigate_to("/w".to_string());
    assert!(b.entries.is_empty());
}

#[test]
fn selected_files_come_out_sorted() {
    let mut b = FileBrowserState::new("/v".to_string());
    b.set_entries(vec![entry("c.mkv", true), entry("a.mkv", true), entry("b.mkv", true)]);
    b.toggle_selection(0);
    b.toggle_selection(2);
    b.toggle_selection(1);
    assert_eq!(
        b.get_selected_files(),
        vec!["/v/a.mkv".to_string(), "/v/b.mkv".to_string(), "/v/c.mkv".to_string()]
    );
}

#[test]
fn list_navigation_is_bounded() {
    let mut app = AppState::new("/v".to_string());
    assert_eq!(app.current_view, Screen::Loading);
    app.move_down();
    assert_eq!(app.selected_index, 0);
    app.file_browser.set_entries(vec![entry("a.mkv", true), entry("b.mkv", true)]);
    app.switch_view(Screen::FileBrowser);
    app.move_down();
    app.move_down();
    assert_eq!(app.selected_index, 1);
    app.move_up();
    app.move_up();
    assert_eq!(app.selected_index, 0);
    app.set_status("saved".to_string());
    assert_eq!(app.status_message.as_deref(), Some("saved"));
    app.clear_status();
    assert!(app.status_message.is_none());
}

#[test]
fn toggle_twice_and_select_all_twice() {
    let mut b = FileBrowserState::new("/v".to_string());
    b.set_entries(vec![entry("..", false), entry("a.mkv", true), entry("b.mkv", true)]);
    b.toggle_selection(2);
    b.toggle_selection(1);
    b.toggle_selection(1);
    assert_eq!(b.get_selected_files(), vec!["/v/b.mkv".to_string()]);
    b.select_all_videos();
    b.select_all_videos();
    assert_eq!(b.get_selected_files(), vec!["/v/a.mkv".to_string(), "/v/b.mkv".to_string()]);
}
