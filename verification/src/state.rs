//! State of the application controller and its mathematical model.
//!
//! The controller is a transition function: it consumes one event at a time
//! and applies exactly one state change before control returns to the redraw
//! step. This module defines the state itself (screens, notification banner,
//! pending operation, navigation path, per-depth cursors, loaded catalog
//! data), the ghost image of that state, and the transition functions at the
//! ghost level. The executable controller in `app` is proved to follow these
//! transition functions step by step.

use vstd::prelude::*;

use crate::error::{AppError, AppErrorView};
use crate::event::KeyInput;
use crate::item::{FileDetailView, FileVersionView, ObjectItemView};
use crate::selection::{SelectionView, lemma_move_to_clamped, sel_wf, spec_normalize,
    spec_select_first, spec_select_last, spec_select_next, spec_select_next_page, spec_select_prev,
    spec_select_prev_page};

verus! {

/// Which tab of the object metadata screen is shown.
#[derive(Clone, Copy, Debug, PartialEq, Eq, Structural)]
pub enum DetailViewState {
    Detail,
    Version,
}

/// A screen that can lie under the help overlay. Help never nests, so the
/// snapshot saved when help opens is always one of these.
#[derive(Clone, Copy, Debug, PartialEq, Eq, Structural)]
pub enum ScreenState {
    Initializing,
    BucketList,
    ObjectList,
    Detail(DetailViewState),
}

/// The finite set of screens. `Help` carries a full copy of the view state
/// that was active before help was opened; dismissing help restores exactly
/// that copy.
#[derive(Clone, Copy, Debug, PartialEq, Eq, Structural)]
pub enum ViewState {
    Initializing,
    BucketList,
    ObjectList,
    Detail(DetailViewState),
    Help(ScreenState),
}

impl ViewState {
    /// The screen under the help overlay, or the screen itself.
    pub open spec fn spec_screen(self) -> ScreenState {
        match self {
            ViewState::Initializing => ScreenState::Initializing,
            ViewState::BucketList => ScreenState::BucketList,
            ViewState::ObjectList => ScreenState::ObjectList,
            ViewState::Detail(t) => ScreenState::Detail(t),
            ViewState::Help(s) => s,
        }
    }

    pub fn screen(&self) -> (s: ScreenState)
        ensures
            s == self.spec_screen(),
    {
        match self {
            ViewState::Initializing => ScreenState::Initializing,
            ViewState::BucketList => ScreenState::BucketList,
            ViewState::ObjectList => ScreenState::ObjectList,
            ViewState::Detail(t) => ScreenState::Detail(*t),
            ViewState::Help(s) => *s,
        }
    }
}

impl ScreenState {
    /// The view state that shows this screen directly.
    pub open spec fn spec_to_view(self) -> ViewState {
        match self {
            ScreenState::Initializing => ViewState::Initializing,
            ScreenState::BucketList => ViewState::BucketList,
            ScreenState::ObjectList => ViewState::ObjectList,
            ScreenState::Detail(t) => ViewState::Detail(t),
        }
    }

    pub fn to_view(self) -> (v: ViewState)
        ensures
            v == self.spec_to_view(),
    {
        match self {
            ScreenState::Initializing => ViewState::Initializing,
            ScreenState::BucketList => ViewState::BucketList,
            ScreenState::ObjectList => ViewState::ObjectList,
            ScreenState::Detail(t) => ViewState::Detail(t),
        }
    }
}

/// The banner at the bottom of the screen: nothing, an informational
/// message, or an error. A new notification always replaces the previous
/// one.
#[derive(Clone, Debug, PartialEq, Eq)]
pub enum Notification {
    Quiet,
    Info(String),
    Error(AppError),
}

/// Mathematical image of a `Notification`.
#[verifier::ext_equal]
pub enum NotificationView {
    Quiet,
    Info(Seq<char>),
    Error(AppErrorView),
}

impl View for Notification {
    type V = NotificationView;

    open spec fn view(&self) -> NotificationView {
        match self {
            Notification::Quiet => NotificationView::Quiet,
            Notification::Info(m) => NotificationView::Info(m@),
            Notification::Error(e) => NotificationView::Error(e@),
        }
    }
}

/// The operation whose completion event has not arrived yet. The loading
/// guard of the controller is exactly `pending != Idle`: while it holds, no
/// key other than the global quit keys has any effect.
#[derive(Clone, Debug, PartialEq, Eq)]
pub enum PendingOp {
    Idle,
    Initialize,
    /// A descent was dispatched; the segment is pushed onto the path only
    /// when the listing for it arrives successfully.
    Descend(String),
    /// An ascent was dispatched; the last segment is popped only when the
    /// listing for the shorter path arrives successfully.
    Ascend,
    LoadDetail,
    LoadVersions,
    Download,
}

/// Mathematical image of a `PendingOp`.
#[verifier::ext_equal]
pub enum PendingView {
    Idle,
    Initialize,
    Descend(Seq<char>),
    Ascend,
    LoadDetail,
    LoadVersions,
    Download,
}

impl View for PendingOp {
    type V = PendingView;

    open spec fn view(&self) -> PendingView {
        match self {
            PendingOp::Idle => PendingView::Idle,
            PendingOp::Initialize => PendingView::Initialize,
            PendingOp::Descend(s) => PendingView::Descend(s@),
            PendingOp::Ascend => PendingView::Ascend,
            PendingOp::LoadDetail => PendingView::LoadDetail,
            PendingOp::LoadVersions => PendingView::LoadVersions,
            PendingOp::Download => PendingView::Download,
        }
    }
}

/// What the surrounding program must do after the controller consumed an
/// event: nothing, stop the loop, spawn a worker for one store call, or a
/// fire-and-forget side effect. Paths carry the bucket name first.
#[derive(Clone, Debug, PartialEq, Eq)]
pub enum Action {
    Continue,
    Quit,
    LoadObjects { path: Vec<String> },
    LoadObjectDetail { path: Vec<String>, name: String },
    LoadObjectVersions { path: Vec<String>, name: String },
    DownloadObject { path: Vec<String>, name: String },
    OpenPreview { path: String },
    OpenManagementConsole { path: Vec<String>, object: Option<String> },
}

/// Mathematical image of an `Action`.
#[verifier::ext_equal]
pub enum ActionView {
    Continue,
    Quit,
    LoadObjects { path: Seq<Seq<char>> },
    LoadObjectDetail { path: Seq<Seq<char>>, name: Seq<char> },
    LoadObjectVersions { path: Seq<Seq<char>>, name: Seq<char> },
    DownloadObject { path: Seq<Seq<char>>, name: Seq<char> },
    OpenPreview { path: Seq<char> },
    OpenManagementConsole { path: Seq<Seq<char>>, object: Option<Seq<char>> },
}

impl View for Action {
    type V = ActionView;

    open spec fn view(&self) -> ActionView {
        match self {
            Action::Continue => ActionView::Continue,
            Action::Quit => ActionView::Quit,
            Action::LoadObjects { path } => ActionView::LoadObjects { path: path.deep_view() },
            Action::LoadObjectDetail { path, name } => ActionView::LoadObjectDetail {
                path: path.deep_view(),
                name: name@,
            },
            Action::LoadObjectVersions { path, name } => ActionView::LoadObjectVersions {
                path: path.deep_view(),
                name: name@,
            },
            Action::DownloadObject { path, name } => ActionView::DownloadObject {
                path: path.deep_view(),
                name: name@,
            },
            Action::OpenPreview { path } => ActionView::OpenPreview { path: path@ },
            Action::OpenManagementConsole { path, object } => ActionView::OpenManagementConsole {
                path: path.deep_view(),
                object: match object {
                    Some(o) => Some(o@),
                    None => None,
                },
            },
        }
    }
}

/// The clamped cursor movements bound to keys.
#[derive(Clone, Copy, Debug, PartialEq, Eq, Structural)]
pub enum SelMove {
    Next,
    Prev,
    First,
    Last,
    NextPage,
    PrevPage,
}

/// Mathematical image of the whole controller state.
#[verifier::ext_equal]
pub struct AppModel {
    pub view_state: ViewState,
    pub notification: NotificationView,
    pub pending: PendingView,
    pub viewport_height: int,
    /// Navigation path: bucket name, then the descended prefix segments.
    pub path: Seq<Seq<char>>,
    /// One cursor per navigation depth; entry `i` belongs to depth `i`, the
    /// last entry to the current screen.
    pub selections: Seq<SelectionView>,
    /// Bucket names, fetched once at initialization and cached.
    pub buckets: Seq<Seq<char>>,
    /// The listing of the current path depth.
    pub object_items: Seq<ObjectItemView>,
    /// Metadata of the object whose detail screen is open.
    pub detail: Option<FileDetailView>,
    /// Version list of that object, fetched lazily and cached.
    pub versions: Option<Seq<FileVersionView>>,
}

/// One step of the controller: the state after the event and the action the
/// surrounding program must perform.
#[verifier::ext_equal]
pub struct Step {
    pub state: AppModel,
    pub action: ActionView,
}

impl AppModel {
    pub open spec fn screen(self) -> ScreenState {
        self.view_state.spec_screen()
    }

    /// The loading guard: true exactly while a dispatched request's
    /// completion event has not yet arrived.
    pub open spec fn is_loading(self) -> bool {
        !(self.pending is Idle)
    }

    /// Number of items of the list the cursor moves over.
    pub open spec fn item_count(self) -> int {
        match self.screen() {
            ScreenState::Initializing => 0,
            ScreenState::BucketList => self.buckets.len() as int,
            ScreenState::ObjectList => self.object_items.len() as int,
            ScreenState::Detail(_) => self.object_items.len() as int,
        }
    }

    /// Cursor of the current depth.
    pub open spec fn cur_sel(self) -> SelectionView {
        self.selections.last()
    }

    /// Well-formed controller state. Established by the constructor and
    /// preserved by every transition.
    pub open spec fn wf(self) -> bool {
        &&& self.viewport_height >= 1
        &&& self.selections.len() == self.path.len() + 1
        &&& forall|i: int|
            0 <= i < self.selections.len() ==> 0 <= #[trigger] self.selections[i].offset
                <= self.selections[i].selected
        &&& sel_wf(self.cur_sel(), self.item_count(), self.viewport_height)
        &&& (self.screen() is Initializing || self.screen() is BucketList) ==> self.path.len() == 0
        &&& (self.screen() is ObjectList || self.screen() is Detail) ==> self.path.len() >= 1
        &&& self.view_state matches ViewState::Help(s) ==> !(s is Initializing)
        &&& self.screen() is Detail ==> self.detail is Some
        &&& self.screen() == ScreenState::Detail(DetailViewState::Version) ==> self.versions
            is Some
        &&& self.pending is Initialize ==> self.view_state is Initializing
        &&& self.pending is Descend ==> (self.view_state is BucketList || self.view_state
            is ObjectList)
        &&& self.pending is Ascend ==> (self.view_state is ObjectList && self.path.len() >= 2)
        &&& self.pending is LoadDetail ==> self.view_state is ObjectList
        &&& self.pending is LoadVersions ==> self.view_state == ViewState::Detail(
            DetailViewState::Detail,
        )
        &&& self.pending is Download ==> self.view_state is Detail
    }
}

/// The global quit keys: they terminate the loop unconditionally, whatever
/// the loading guard or the notification says.
pub open spec fn is_quit_key(k: KeyInput) -> bool {
    k is Esc || k is CtrlC
}

/// State with the notification banner cleared.
pub open spec fn with_quiet(m: AppModel) -> AppModel {
    AppModel { notification: NotificationView::Quiet, ..m }
}

/// State with the cursor of the current depth replaced.
pub open spec fn with_cur_sel(m: AppModel, s: SelectionView) -> AppModel {
    AppModel { selections: m.selections.update(m.selections.len() - 1, s), ..m }
}

/// The clamped cursor movement `mv` on one cursor.
pub open spec fn sel_move_view(s: SelectionView, mv: SelMove, count: int, height: int) -> SelectionView {
    match mv {
        SelMove::Next => spec_select_next(s, count, height),
        SelMove::Prev => spec_select_prev(s, count, height),
        SelMove::First => spec_select_first(s, count, height),
        SelMove::Last => spec_select_last(s, count, height),
        SelMove::NextPage => spec_select_next_page(s, count, height),
        SelMove::PrevPage => spec_select_prev_page(s, count, height),
    }
}

/// A cursor movement key: it acts on the bucket list and the object list and
/// is a no-op on every other screen.
pub open spec fn spec_apply_select(m: AppModel, mv: SelMove) -> AppModel {
    if m.view_state is BucketList || m.view_state is ObjectList {
        with_cur_sel(m, sel_move_view(m.cur_sel(), mv, m.item_count(), m.viewport_height))
    } else {
        m
    }
}

/// Move down (descend). A transition that needs a fetch commits nothing yet:
/// it only records the pending operation and asks for the fetch; the state
/// changes when the completion event reports success.
pub open spec fn spec_move_down(m: AppModel) -> Step {
    if m.view_state is BucketList && m.buckets.len() > 0 {
        let name = m.buckets[m.cur_sel().selected];
        Step {
            state: AppModel { pending: PendingView::Descend(name), ..m },
            action: ActionView::LoadObjects { path: seq![name] },
        }
    } else if m.view_state is ObjectList && m.object_items.len() > 0 {
        match m.object_items[m.cur_sel().selected] {
            ObjectItemView::Dir { name } => Step {
                state: AppModel { pending: PendingView::Descend(name), ..m },
                action: ActionView::LoadObjects { path: m.path.push(name) },
            },
            ObjectItemView::File { name, .. } => Step {
                state: AppModel { pending: PendingView::LoadDetail, ..m },
                action: ActionView::LoadObjectDetail { path: m.path, name: name },
            },
        }
    } else {
        Step { state: m, action: ActionView::Continue }
    }
}

/// Move up (ascend). From the detail screen it closes the detail with no
/// request; from the top-level object list it returns to the cached bucket
/// list with no request; deeper it asks for the listing of the shorter path
/// and commits when that listing arrives. At the bucket list it is a no-op.
pub open spec fn spec_move_up(m: AppModel) -> Step {
    if m.view_state is Detail {
        Step {
            state: AppModel {
                view_state: ViewState::ObjectList,
                detail: None,
                versions: None,
                ..m
            },
            action: ActionView::Continue,
        }
    } else if m.view_state is ObjectList && m.path.len() == 1 {
        Step {
            state: AppModel {
                view_state: ViewState::BucketList,
                path: Seq::empty(),
                selections: seq![
                    spec_normalize(m.selections[0], m.buckets.len() as int, m.viewport_height),
                ],
                detail: None,
                versions: None,
                ..m
            },
            action: ActionView::Continue,
        }
    } else if m.view_state is ObjectList && m.path.len() >= 2 {
        Step {
            state: AppModel { pending: PendingView::Ascend, ..m },
            action: ActionView::LoadObjects { path: m.path.drop_last() },
        }
    } else {
        Step { state: m, action: ActionView::Continue }
    }
}

/// Back to the bucket list: unconditionally clears the navigation path from
/// any depth, free of any request since the bucket catalog is cached. Only
/// meaningful on the object list and detail screens.
pub open spec fn spec_back_to_buckets(m: AppModel) -> AppModel {
    if m.view_state is ObjectList || m.view_state is Detail {
        AppModel {
            view_state: ViewState::BucketList,
            path: Seq::empty(),
            selections: seq![
                spec_normalize(m.selections[0], m.buckets.len() as int, m.viewport_height),
            ],
            detail: None,
            versions: None,
            ..m
        }
    } else {
        m
    }
}

/// Switch the metadata tab. The first switch to the version tab asks for the
/// version list and commits the tab when it arrives; afterwards the cached
/// list is reused with no request.
pub open spec fn spec_select_tabs(m: AppModel) -> Step {
    if m.view_state == ViewState::Detail(DetailViewState::Detail) {
        if m.versions is Some {
            Step {
                state: AppModel {
                    view_state: ViewState::Detail(DetailViewState::Version),
                    ..m
                },
                action: ActionView::Continue,
            }
        } else {
            Step {
                state: AppModel { pending: PendingView::LoadVersions, ..m },
                action: ActionView::LoadObjectVersions {
                    path: m.path,
                    name: m.detail->Some_0.name,
                },
            }
        }
    } else if m.view_state == ViewState::Detail(DetailViewState::Version) {
        Step {
            state: AppModel { view_state: ViewState::Detail(DetailViewState::Detail), ..m },
            action: ActionView::Continue,
        }
    } else {
        Step { state: m, action: ActionView::Continue }
    }
}

/// Trigger a download of the object whose detail screen is open.
pub open spec fn spec_download(m: AppModel) -> Step {
    if m.view_state is Detail {
        Step {
            state: AppModel { pending: PendingView::Download, ..m },
            action: ActionView::DownloadObject { path: m.path, name: m.detail->Some_0.name },
        }
    } else {
        Step { state: m, action: ActionView::Continue }
    }
}

/// Open the management console for the current position: a fire-and-forget
/// side effect that never touches the state or the loading guard.
pub open spec fn spec_open_console(m: AppModel) -> ActionView {
    match m.view_state {
        ViewState::BucketList => ActionView::OpenManagementConsole {
            path: Seq::empty(),
            object: None,
        },
        ViewState::ObjectList => ActionView::OpenManagementConsole { path: m.path, object: None },
        ViewState::Detail(_) => ActionView::OpenManagementConsole {
            path: m.path,
            object: Some(m.detail->Some_0.name),
        },
        _ => ActionView::Continue,
    }
}

/// Toggle the help overlay: push a snapshot of the current screen, or
/// restore the saved snapshot verbatim. Unbound while initializing.
pub open spec fn spec_toggle_help(m: AppModel) -> AppModel {
    match m.view_state {
        ViewState::Help(s) => AppModel { view_state: s.spec_to_view(), ..m },
        ViewState::Initializing => m,
        _ => AppModel { view_state: ViewState::Help(m.view_state.spec_screen()), ..m },
    }
}

/// Dispatch a key to its bound action. Unbound keys are no-ops.
pub open spec fn spec_dispatch_key(m: AppModel, k: KeyInput) -> Step {
    match k {
        KeyInput::Enter => spec_move_down(m),
        KeyInput::Backspace => spec_move_up(m),
        KeyInput::Char(c) => if c == 'j' {
            Step { state: spec_apply_select(m, SelMove::Next), action: ActionView::Continue }
        } else if c == 'k' {
            Step { state: spec_apply_select(m, SelMove::Prev), action: ActionView::Continue }
        } else if c == 'g' {
            Step { state: spec_apply_select(m, SelMove::First), action: ActionView::Continue }
        } else if c == 'G' {
            Step { state: spec_apply_select(m, SelMove::Last), action: ActionView::Continue }
        } else if c == 'f' {
            Step { state: spec_apply_select(m, SelMove::NextPage), action: ActionView::Continue }
        } else if c == 'b' {
            Step { state: spec_apply_select(m, SelMove::PrevPage), action: ActionView::Continue }
        } else if c == '~' {
            Step { state: spec_back_to_buckets(m), action: ActionView::Continue }
        } else if c == 'h' || c == 'l' {
            spec_select_tabs(m)
        } else if c == 's' {
            spec_download(m)
        } else if c == 'x' {
            Step { state: m, action: spec_open_console(m) }
        } else if c == '?' {
            Step { state: spec_toggle_help(m), action: ActionView::Continue }
        } else {
            Step { state: m, action: ActionView::Continue }
        },
        _ => Step { state: m, action: ActionView::Continue },
    }
}

/// The whole handling of one key press, in the order the controller checks:
/// global quit keys first; then the loading guard drops the key; then the
/// notification banner takes precedence (a fatal error while initializing
/// ends the session; an error banner is dismissed and suppresses the key's
/// bound action; an info banner is dismissed and the action still executes);
/// finally the key is dispatched.
pub open spec fn spec_handle_key(m: AppModel, k: KeyInput) -> Step {
    if is_quit_key(k) {
        Step { state: m, action: ActionView::Quit }
    } else if m.is_loading() {
        Step { state: m, action: ActionView::Continue }
    } else {
        match m.notification {
            NotificationView::Error(_) => {
                if m.view_state is Initializing {
                    Step { state: m, action: ActionView::Quit }
                } else {
                    Step { state: with_quiet(m), action: ActionView::Continue }
                }
            },
            NotificationView::Info(_) => spec_dispatch_key(with_quiet(m), k),
            NotificationView::Quiet => spec_dispatch_key(m, k),
        }
    }
}

/// A resize only updates the viewport height used for the pagination math
/// (and moves the viewport window so the cursor stays visible); it never
/// changes the view state or the navigation path.
pub open spec fn spec_resize(m: AppModel, height: int) -> AppModel {
    let h = if height < 1 { 1 } else { height };
    let m1 = AppModel { viewport_height: h, ..m };
    with_cur_sel(m1, spec_normalize(m1.cur_sel(), m1.item_count(), h))
}

/// Completion of the initial bucket-catalog fetch. On success the catalog is
/// committed and the bucket list becomes the screen; on failure the screen
/// stays `Initializing` with an error banner, which the next key press turns
/// into the end of the session. Any completion clears the loading guard.
pub open spec fn spec_complete_initialize(m: AppModel, r: Result<Seq<Seq<char>>, AppErrorView>) -> AppModel {
    match r {
        Ok(names) => if m.pending is Initialize {
            AppModel {
                view_state: ViewState::BucketList,
                pending: PendingView::Idle,
                path: Seq::empty(),
                selections: seq![SelectionView { selected: 0, offset: 0 }],
                buckets: names,
                object_items: Seq::empty(),
                detail: None,
                versions: None,
                ..m
            }
        } else {
            AppModel { pending: PendingView::Idle, ..m }
        },
        Err(e) => AppModel {
            pending: PendingView::Idle,
            notification: NotificationView::Error(e),
            ..m
        },
    }
}

/// Completion of an object listing. A pending descent pushes its segment and
/// a fresh cursor; a pending ascent pops one segment and restores that
/// depth's saved cursor, repaired against the fresh listing. On failure
/// nothing is committed: path and view state stay as they were before the
/// attempt, and the failure surfaces as an error banner.
pub open spec fn spec_complete_load_objects(m: AppModel, r: Result<Seq<ObjectItemView>, AppErrorView>) -> AppModel {
    match r {
        Ok(items) => match m.pending {
            PendingView::Descend(seg) => AppModel {
                view_state: ViewState::ObjectList,
                pending: PendingView::Idle,
                path: m.path.push(seg),
                selections: m.selections.push(SelectionView { selected: 0, offset: 0 }),
                object_items: items,
                detail: None,
                versions: None,
                ..m
            },
            PendingView::Ascend => {
                let popped = m.selections.drop_last();
                AppModel {
                    pending: PendingView::Idle,
                    path: m.path.drop_last(),
                    selections: popped.update(
                        popped.len() - 1,
                        spec_normalize(popped.last(), items.len() as int, m.viewport_height),
                    ),
                    object_items: items,
                    ..m
                }
            },
            _ => AppModel { pending: PendingView::Idle, ..m },
        },
        Err(e) => AppModel {
            pending: PendingView::Idle,
            notification: NotificationView::Error(e),
            ..m
        },
    }
}

/// Completion of a metadata fetch: on success the detail screen opens on the
/// metadata tab; on failure the object list stays and the failure surfaces
/// as an error banner.
pub open spec fn spec_complete_load_detail(m: AppModel, r: Result<FileDetailView, AppErrorView>) -> AppModel {
    match r {
        Ok(d) => if m.pending is LoadDetail {
            AppModel {
                view_state: ViewState::Detail(DetailViewState::Detail),
                pending: PendingView::Idle,
                detail: Some(d),
                versions: None,
                ..m
            }
        } else {
            AppModel { pending: PendingView::Idle, ..m }
        },
        Err(e) => AppModel {
            pending: PendingView::Idle,
            notification: NotificationView::Error(e),
            ..m
        },
    }
}

/// Completion of a version-list fetch: on success the list is cached and the
/// version tab opens; on failure the metadata tab stays and the failure
/// surfaces as an error banner.
pub open spec fn spec_complete_load_versions(m: AppModel, r: Result<Seq<FileVersionView>, AppErrorView>) -> AppModel {
    match r {
        Ok(vs) => if m.pending is LoadVersions {
            AppModel {
                view_state: ViewState::Detail(DetailViewState::Version),
                pending: PendingView::Idle,
                versions: Some(vs),
                ..m
            }
        } else {
            AppModel { pending: PendingView::Idle, ..m }
        },
        Err(e) => AppModel {
            pending: PendingView::Idle,
            notification: NotificationView::Error(e),
            ..m
        },
    }
}

/// The banner text that reports a finished download of `path`.
pub open spec fn download_done_message(path: Seq<char>) -> Seq<char> {
    "Download completed: "@ + path
}

/// Completion of a download: the worker has fetched the bytes and written
/// them to the destination; the controller reports the destination in an
/// info banner, or the failure in an error banner.
pub open spec fn spec_complete_download(m: AppModel, r: Result<Seq<char>, AppErrorView>) -> AppModel {
    match r {
        Ok(path) => if m.pending is Download {
            AppModel {
                pending: PendingView::Idle,
                notification: NotificationView::Info(download_done_message(path)),
                ..m
            }
        } else {
            AppModel { pending: PendingView::Idle, ..m }
        },
        Err(e) => AppModel {
            pending: PendingView::Idle,
            notification: NotificationView::Error(e),
            ..m
        },
    }
}

/// Completion of a preview fetch: on success the fetched copy is handed to
/// the external viewer; on failure the failure surfaces as an error banner.
pub open spec fn spec_complete_preview(m: AppModel, r: Result<Seq<char>, AppErrorView>) -> Step {
    match r {
        Ok(path) => Step {
            state: AppModel { pending: PendingView::Idle, ..m },
            action: ActionView::OpenPreview { path: path },
        },
        Err(e) => Step {
            state: AppModel {
                pending: PendingView::Idle,
                notification: NotificationView::Error(e),
                ..m
            },
            action: ActionView::Continue,
        },
    }
}

/// A notification event replaces whatever banner was shown before.
pub open spec fn spec_notify_info(m: AppModel, text: Seq<char>) -> AppModel {
    AppModel { notification: NotificationView::Info(text), ..m }
}

/// An error event replaces whatever banner was shown before.
pub open spec fn spec_notify_error(m: AppModel, e: AppErrorView) -> AppModel {
    AppModel { notification: NotificationView::Error(e), ..m }
}

/// Every bound cursor movement yields a well-formed cursor, and on an empty
/// list leaves a well-formed cursor unchanged.
pub proof fn lemma_sel_move_view_wf(s: SelectionView, mv: SelMove, count: int, height: int)
    requires
        height >= 1,
        count >= 0,
        s.offset >= 0,
    ensures
        sel_wf(sel_move_view(s, mv, count, height), count, height),
        count == 0 && sel_wf(s, count, height) ==> sel_move_view(s, mv, count, height) == s,
{
    match mv {
        SelMove::Next => lemma_move_to_clamped(s, s.selected + 1, count, height),
        SelMove::Prev => lemma_move_to_clamped(s, s.selected - 1, count, height),
        SelMove::First => lemma_move_to_clamped(s, 0, count, height),
        SelMove::Last => lemma_move_to_clamped(s, count - 1, count, height),
        SelMove::NextPage => lemma_move_to_clamped(s, s.selected + height, count, height),
        SelMove::PrevPage => lemma_move_to_clamped(s, s.selected - height, count, height),
    }
}

/// The state the controller starts in: initializing, with the loading guard
/// held by the initial bucket-catalog fetch that the surrounding program
/// dispatches at startup.
pub open spec fn initial_model(height: int) -> AppModel {
    AppModel {
        view_state: ViewState::Initializing,
        notification: NotificationView::Quiet,
        pending: PendingView::Initialize,
        viewport_height: if height < 1 { 1 } else { height },
        path: Seq::empty(),
        selections: seq![SelectionView { selected: 0, offset: 0 }],
        buckets: Seq::empty(),
        object_items: Seq::empty(),
        detail: None,
        versions: None,
    }
}

} // verus!
