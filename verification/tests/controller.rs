//! Scenario and behaviour tests of the application controller.

use stu::app::App;
use stu::error::AppError;
use stu::event::{AppEventType, CompleteDownloadObjectResult, CompleteInitializeResult,
    CompleteLoadObjectDetailResult, CompleteLoadObjectsResult, CompletePreviewObjectResult,
    KeyInput};
use stu::item::{BucketItem, DateTimeValue, FileDetail, FileVersion, ObjectItem, ObjectKey,
    RawObject};
use stu::state::{Action, DetailViewState, Notification, PendingOp, ViewState};

fn dt() -> DateTimeValue {
    DateTimeValue { year: 2024, month: 1, day: 2, hour: 3, minute: 4, second: 5 }
}

fn bucket(name: &str) -> BucketItem {
    BucketItem { name: name.to_string() }
}

fn dir(name: &str) -> ObjectItem {
    ObjectItem::Dir { name: name.to_string() }
}

fn file(name: &str) -> ObjectItem {
    ObjectItem::File { name: name.to_string(), size_byte: 1024, last_modified: dt() }
}

fn detail(name: &str) -> FileDetail {
    FileDetail {
        name: name.to_string(),
        size_byte: 1024,
        last_modified: dt(),
        e_tag: "etag".to_string(),
        content_type: "text/plain".to_string(),
    }
}

fn err(msg: &str) -> AppError {
    AppError::msg(msg.to_string())
}

fn key(c: char) -> AppEventType {
    AppEventType::Key(KeyInput::Char(c))
}

/// A controller that has finished initialization with the given buckets.
fn app_with_buckets(names: &[&str]) -> App {
    let mut app = App::new(20);
    assert!(app.is_loading());
    let buckets = names.iter().map(|n| bucket(n)).collect();
    let a = app.handle_event(AppEventType::CompleteInitialize(Ok(CompleteInitializeResult {
        buckets,
    })));
    assert_eq!(a, Action::Continue);
    assert!(!app.is_loading());
    app
}

/// A controller standing in the object list of `bucket` with the given
/// listing.
fn app_in_object_list(items: Vec<ObjectItem>) -> App {
    let mut app = app_with_buckets(&["alpha"]);
    let a = app.handle_event(AppEventType::Key(KeyInput::Enter));
    assert_eq!(a, Action::LoadObjects { path: vec!["alpha".to_string()] });
    app.handle_event(AppEventType::CompleteLoadObjects(Ok(CompleteLoadObjectsResult { items })));
    assert_eq!(app.view_state, ViewState::ObjectList);
    app
}

/// A controller standing on the detail screen of `file.txt`.
fn app_in_detail() -> App {
    let mut app = app_in_object_list(vec![file("file.txt")]);
    let a = app.handle_event(AppEventType::Key(KeyInput::Enter));
    assert_eq!(
        a,
        Action::LoadObjectDetail { path: vec!["alpha".to_string()], name: "file.txt".to_string() }
    );
    let key = ObjectKey {
        bucket_name: "alpha".to_string(),
        object_path: vec!["file.txt".to_string()],
    };
    app.handle_event(AppEventType::CompleteLoadObjectDetail(
        CompleteLoadObjectDetailResult::new(Ok(detail("file.txt")), key),
    ));
    assert_eq!(app.view_state, ViewState::Detail(DetailViewState::Detail));
    app
}

fn selected(app: &App) -> usize {
    app.selections.last().unwrap().selected
}

#[test]
fn initialize_success_shows_bucket_list() {
    let app = app_with_buckets(&["alpha", "beta"]);
    assert_eq!(app.view_state, ViewState::BucketList);
    assert_eq!(app.buckets.len(), 2);
    assert_eq!(selected(&app), 0);
    assert!(app.path.is_empty());
}

#[test]
fn scenario_descend_and_restore_selection() {
    let mut app = app_with_buckets(&["alpha", "beta"]);
    let a = app.handle_event(key('j'));
    assert_eq!(a, Action::Continue);
    assert_eq!(selected(&app), 1);

    let a = app.handle_event(AppEventType::Key(KeyInput::Enter));
    assert!(app.is_loading());
    assert_eq!(a, Action::LoadObjects { path: vec!["beta".to_string()] });
    assert_eq!(app.view_state, ViewState::BucketList);
    assert!(app.path.is_empty());

    let items = vec![dir("one"), file("two.txt"), dir("three")];
    let a = app.handle_event(AppEventType::CompleteLoadObjects(Ok(CompleteLoadObjectsResult {
        items,
    })));
    assert_eq!(a, Action::Continue);
    assert!(!app.is_loading());
    assert_eq!(app.view_state, ViewState::ObjectList);
    assert_eq!(app.path, vec!["beta".to_string()]);
    assert_eq!(selected(&app), 0);
    assert_eq!(app.object_items.len(), 3);

    let a = app.handle_event(AppEventType::Key(KeyInput::Backspace));
    assert_eq!(a, Action::Continue);
    assert!(app.path.is_empty());
    assert_eq!(app.view_state, ViewState::BucketList);
    assert_eq!(selected(&app), 1);
}

#[test]
fn scenario_failed_descent_commits_nothing() {
    let mut app = app_in_object_list(vec![dir("inner"), file("a.txt")]);
    let a = app.handle_event(AppEventType::Key(KeyInput::Enter));
    assert_eq!(
        a,
        Action::LoadObjects { path: vec!["alpha".to_string(), "inner".to_string()] }
    );
    assert!(app.is_loading());

    let a = app.handle_event(AppEventType::CompleteLoadObjects(Err(err("listing failed"))));
    assert_eq!(a, Action::Continue);
    assert!(!app.is_loading());
    assert_eq!(app.view_state, ViewState::ObjectList);
    assert_eq!(app.path, vec!["alpha".to_string()]);
    assert!(matches!(app.notification, Notification::Error(_)));
}

#[test]
fn deep_ascent_reloads_shorter_path_and_restores_cursor() {
    let mut app = app_in_object_list(vec![dir("d0"), dir("d1"), dir("d2")]);
    app.handle_event(key('j'));
    app.handle_event(key('j'));
    assert_eq!(selected(&app), 2);

    app.handle_event(AppEventType::Key(KeyInput::Enter));
    let inner = vec![file("x.txt")];
    app.handle_event(AppEventType::CompleteLoadObjects(Ok(CompleteLoadObjectsResult {
        items: inner,
    })));
    assert_eq!(app.path, vec!["alpha".to_string(), "d2".to_string()]);
    assert_eq!(selected(&app), 0);

    let a = app.handle_event(AppEventType::Key(KeyInput::Backspace));
    assert_eq!(a, Action::LoadObjects { path: vec!["alpha".to_string()] });
    assert!(app.is_loading());
    assert_eq!(app.path, vec!["alpha".to_string(), "d2".to_string()]);

    let outer = vec![dir("d0"), dir("d1"), dir("d2")];
    app.handle_event(AppEventType::CompleteLoadObjects(Ok(CompleteLoadObjectsResult {
        items: outer,
    })));
    assert!(!app.is_loading());
    assert_eq!(app.path, vec!["alpha".to_string()]);
    assert_eq!(app.view_state, ViewState::ObjectList);
    assert_eq!(selected(&app), 2);
}

#[test]
fn failed_ascent_keeps_path() {
    let mut app = app_in_object_list(vec![dir("d0")]);
    app.handle_event(AppEventType::Key(KeyInput::Enter));
    app.handle_event(AppEventType::CompleteLoadObjects(Ok(CompleteLoadObjectsResult {
        items: vec![file("x.txt")],
    })));
    assert_eq!(app.path.len(), 2);

    app.handle_event(AppEventType::Key(KeyInput::Backspace));
    app.handle_event(AppEventType::CompleteLoadObjects(Err(err("listing failed"))));
    assert!(!app.is_loading());
    assert_eq!(app.path.len(), 2);
    assert!(matches!(app.notification, Notification::Error(_)));
}

#[test]
fn selection_is_clamped() {
    let mut app = app_with_buckets(&["a", "b", "c"]);
    app.handle_event(key('k'));
    assert_eq!(selected(&app), 0);
    app.handle_event(key('G'));
    assert_eq!(selected(&app), 2);
    app.handle_event(key('j'));
    assert_eq!(selected(&app), 2);
    app.handle_event(key('g'));
    assert_eq!(selected(&app), 0);
    app.handle_event(key('b'));
    assert_eq!(selected(&app), 0);
    app.handle_event(key('f'));
    assert_eq!(selected(&app), 2);
    app.handle_event(key('f'));
    assert_eq!(selected(&app), 2);
}

#[test]
fn selection_keys_are_noops_on_empty_list() {
    let mut app = app_with_buckets(&[]);
    for c in ['j', 'k', 'g', 'G', 'f', 'b'] {
        let a = app.handle_event(key(c));
        assert_eq!(a, Action::Continue);
        assert_eq!(selected(&app), 0);
    }
}

#[test]
fn enter_on_empty_list_is_noop() {
    let mut app = app_with_buckets(&[]);
    let a = app.handle_event(AppEventType::Key(KeyInput::Enter));
    assert_eq!(a, Action::Continue);
    assert!(!app.is_loading());
}

#[test]
fn paging_uses_viewport_height() {
    let names: Vec<String> = (0..50).map(|i| format!("b{:02}", i)).collect();
    let name_refs: Vec<&str> = names.iter().map(|s| s.as_str()).collect();
    let mut app = app_with_buckets(&name_refs);
    app.handle_event(AppEventType::Resize(80, 10));
    app.handle_event(key('f'));
    assert_eq!(selected(&app), 10);
    app.handle_event(key('f'));
    assert_eq!(selected(&app), 20);
    app.handle_event(key('b'));
    assert_eq!(selected(&app), 10);
    let s = app.selections.last().unwrap();
    assert!(s.offset <= s.selected && s.selected < s.offset + app.viewport_height);
}

#[test]
fn resize_keeps_cursor_visible() {
    let names: Vec<String> = (0..30).map(|i| format!("b{:02}", i)).collect();
    let name_refs: Vec<&str> = names.iter().map(|s| s.as_str()).collect();
    let mut app = app_with_buckets(&name_refs);
    app.handle_event(key('G'));
    assert_eq!(selected(&app), 29);
    app.handle_event(AppEventType::Resize(80, 5));
    assert_eq!(app.viewport_height, 5);
    let s = app.selections.last().unwrap();
    assert_eq!(s.selected, 29);
    assert!(s.offset <= s.selected && s.selected < s.offset + 5);
    assert_eq!(app.view_state, ViewState::BucketList);
}

#[test]
fn help_round_trip_restores_screen() {
    let mut app = app_in_object_list(vec![dir("d")]);
    app.handle_event(key('j'));
    let before_sel = selected(&app);
    app.handle_event(key('?'));
    assert!(matches!(app.view_state, ViewState::Help(_)));
    let a = app.handle_event(key('j'));
    assert_eq!(a, Action::Continue);
    app.handle_event(key('?'));
    assert_eq!(app.view_state, ViewState::ObjectList);
    assert_eq!(selected(&app), before_sel);
}

#[test]
fn help_round_trip_keeps_detail_tab() {
    let mut app = app_in_detail();
    app.handle_event(key('h'));
    app.handle_event(AppEventType::CompleteLoadObjectVersions(Ok(vec![FileVersion {
        version_id: "v1".to_string(),
        size_byte: 10,
        last_modified: dt(),
    }])));
    assert_eq!(app.view_state, ViewState::Detail(DetailViewState::Version));
    app.handle_event(key('?'));
    app.handle_event(key('?'));
    assert_eq!(app.view_state, ViewState::Detail(DetailViewState::Version));
}

#[test]
fn loading_drops_all_keys_but_quit() {
    let mut app = app_with_buckets(&["a", "b"]);
    app.handle_event(AppEventType::Key(KeyInput::Enter));
    assert!(app.is_loading());
    for c in ['j', 'k', 'g', 'G', 'f', 'b', '~', 'h', 'l', 's', 'x', '?'] {
        let a = app.handle_event(key(c));
        assert_eq!(a, Action::Continue);
        assert_eq!(selected(&app), 0);
        assert_eq!(app.view_state, ViewState::BucketList);
        assert!(app.is_loading());
    }
    let a = app.handle_event(AppEventType::Key(KeyInput::Esc));
    assert_eq!(a, Action::Quit);
    let a = app.handle_event(AppEventType::Key(KeyInput::CtrlC));
    assert_eq!(a, Action::Quit);
}

#[test]
fn fatal_init_error_quits_on_any_key() {
    let mut app = App::new(20);
    app.handle_event(AppEventType::CompleteInitialize(Err(err("no credentials"))));
    assert!(!app.is_loading());
    assert_eq!(app.view_state, ViewState::Initializing);
    assert!(matches!(app.notification, Notification::Error(_)));
    let a = app.handle_event(key('j'));
    assert_eq!(a, Action::Quit);
    assert_eq!(app.view_state, ViewState::Initializing);
}

#[test]
fn info_banner_dismissed_and_action_executes() {
    let mut app = app_with_buckets(&["a", "b"]);
    app.handle_event(AppEventType::NotifyInfo("saved".to_string()));
    assert_eq!(app.notification, Notification::Info("saved".to_string()));
    let a = app.handle_event(key('j'));
    assert_eq!(a, Action::Continue);
    assert_eq!(app.notification, Notification::Quiet);
    assert_eq!(selected(&app), 1);
}

#[test]
fn error_banner_dismissed_and_action_suppressed() {
    let mut app = app_with_buckets(&["a", "b"]);
    app.handle_event(AppEventType::NotifyError(err("boom")));
    assert!(matches!(app.notification, Notification::Error(_)));
    let a = app.handle_event(key('j'));
    assert_eq!(a, Action::Continue);
    assert_eq!(app.notification, Notification::Quiet);
    assert_eq!(selected(&app), 0);
}

#[test]
fn detail_opens_after_successful_metadata_fetch() {
    let app = app_in_detail();
    assert_eq!(app.view_state, ViewState::Detail(DetailViewState::Detail));
    assert!(app.detail.is_some());
    assert_eq!(app.path, vec!["alpha".to_string()]);
}

#[test]
fn failed_metadata_fetch_stays_on_object_list() {
    let mut app = app_in_object_list(vec![file("file.txt")]);
    app.handle_event(AppEventType::Key(KeyInput::Enter));
    app.handle_event(AppEventType::CompleteLoadObjectDetail(Err(err("head failed"))));
    assert!(!app.is_loading());
    assert_eq!(app.view_state, ViewState::ObjectList);
    assert!(app.detail.is_none());
    assert!(matches!(app.notification, Notification::Error(_)));
}

#[test]
fn version_tab_fetches_once_and_caches() {
    let mut app = app_in_detail();
    let a = app.handle_event(key('h'));
    assert!(app.is_loading());
    assert_eq!(
        a,
        Action::LoadObjectVersions {
            path: vec!["alpha".to_string()],
            name: "file.txt".to_string()
        }
    );
    assert_eq!(app.view_state, ViewState::Detail(DetailViewState::Detail));
    app.handle_event(AppEventType::CompleteLoadObjectVersions(Ok(vec![FileVersion {
        version_id: "v1".to_string(),
        size_byte: 10,
        last_modified: dt(),
    }])));
    assert_eq!(app.view_state, ViewState::Detail(DetailViewState::Version));
    let a = app.handle_event(key('l'));
    assert_eq!(a, Action::Continue);
    assert_eq!(app.view_state, ViewState::Detail(DetailViewState::Detail));
    let a = app.handle_event(key('l'));
    assert_eq!(a, Action::Continue);
    assert!(!app.is_loading());
    assert_eq!(app.view_state, ViewState::Detail(DetailViewState::Version));
}

#[test]
fn failed_version_fetch_stays_on_detail_tab() {
    let mut app = app_in_detail();
    app.handle_event(key('l'));
    app.handle_event(AppEventType::CompleteLoadObjectVersions(Err(err("versions failed"))));
    assert!(!app.is_loading());
    assert_eq!(app.view_state, ViewState::Detail(DetailViewState::Detail));
    assert!(matches!(app.notification, Notification::Error(_)));
}

#[test]
fn backspace_closes_detail_without_request() {
    let mut app = app_in_detail();
    let a = app.handle_event(AppEventType::Key(KeyInput::Backspace));
    assert_eq!(a, Action::Continue);
    assert!(!app.is_loading());
    assert_eq!(app.view_state, ViewState::ObjectList);
    assert!(app.detail.is_none());
    assert_eq!(app.path, vec!["alpha".to_string()]);
}

#[test]
fn download_reports_destination() {
    let mut app = app_in_detail();
    let a = app.handle_event(key('s'));
    assert!(app.is_loading());
    assert_eq!(
        a,
        Action::DownloadObject { path: vec!["alpha".to_string()], name: "file.txt".to_string() }
    );
    app.handle_event(AppEventType::CompleteDownloadObject(
        CompleteDownloadObjectResult::new(
            Ok(RawObject { bytes: vec![1, 2, 3] }),
            "/tmp/file.txt".to_string(),
        ),
    ));
    assert!(!app.is_loading());
    assert_eq!(
        app.notification,
        Notification::Info("Download completed: /tmp/file.txt".to_string())
    );
}

#[test]
fn failed_download_reports_error() {
    let mut app = app_in_detail();
    app.handle_event(key('s'));
    app.handle_event(AppEventType::CompleteDownloadObject(Err(err("write failed"))));
    assert!(!app.is_loading());
    assert!(matches!(app.notification, Notification::Error(_)));
}

#[test]
fn preview_completion_opens_viewer() {
    let mut app = app_in_detail();
    let a = app.handle_event(AppEventType::CompletePreviewObject(
        CompletePreviewObjectResult::new(
            Ok(RawObject { bytes: vec![1] }),
            detail("file.txt"),
            None,
            "/tmp/preview.txt".to_string(),
        ),
    ));
    assert_eq!(a, Action::OpenPreview { path: "/tmp/preview.txt".to_string() });
}

#[test]
fn back_to_bucket_list_from_any_depth() {
    let mut app = app_in_object_list(vec![dir("d0")]);
    app.handle_event(AppEventType::Key(KeyInput::Enter));
    app.handle_event(AppEventType::CompleteLoadObjects(Ok(CompleteLoadObjectsResult {
        items: vec![file("x.txt")],
    })));
    assert_eq!(app.path.len(), 2);
    let a = app.handle_event(key('~'));
    assert_eq!(a, Action::Continue);
    assert!(!app.is_loading());
    assert_eq!(app.view_state, ViewState::BucketList);
    assert!(app.path.is_empty());
}

#[test]
fn management_console_targets_current_position() {
    let mut app = app_with_buckets(&["alpha"]);
    let a = app.handle_event(key('x'));
    assert_eq!(a, Action::OpenManagementConsole { path: vec![], object: None });

    let mut app = app_in_object_list(vec![file("file.txt")]);
    let a = app.handle_event(key('x'));
    assert_eq!(
        a,
        Action::OpenManagementConsole { path: vec!["alpha".to_string()], object: None }
    );

    let mut app = app_in_detail();
    let a = app.handle_event(key('x'));
    assert_eq!(
        a,
        Action::OpenManagementConsole {
            path: vec!["alpha".to_string()],
            object: Some("file.txt".to_string())
        }
    );
}

#[test]
fn unbound_keys_are_noops() {
    let mut app = app_with_buckets(&["a"]);
    for c in ['q', 'z', '1', ' '] {
        let a = app.handle_event(key(c));
        assert_eq!(a, Action::Continue);
        assert_eq!(app.view_state, ViewState::BucketList);
    }
}

#[test]
fn notifications_replace_each_other() {
    let mut app = app_with_buckets(&["a"]);
    app.handle_event(AppEventType::NotifyInfo("one".to_string()));
    app.handle_event(AppEventType::NotifyInfo("two".to_string()));
    assert_eq!(app.notification, Notification::Info("two".to_string()));
    app.handle_event(AppEventType::NotifyError(err("boom")));
    assert!(matches!(app.notification, Notification::Error(_)));
}

#[test]
fn completion_always_clears_loading_guard() {
    let mut app = app_with_buckets(&["a"]);
    app.handle_event(AppEventType::Key(KeyInput::Enter));
    assert!(app.is_loading());
    assert_eq!(app.pending, PendingOp::Descend("a".to_string()));
    app.handle_event(AppEventType::CompleteLoadObjects(Err(err("x"))));
    assert!(!app.is_loading());
    assert_eq!(app.pending, PendingOp::Idle);
}
