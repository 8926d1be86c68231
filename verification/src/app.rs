//! The executable application controller.
//!
//! `App::handle_event` consumes one event at a time and applies exactly one
//! state change before returning control to the redraw step; the returned
//! `Action` tells the surrounding program what to perform (spawn a worker
//! for one store call, open the console, stop the loop). Every transition is
//! proved equal to its ghost counterpart in `state`, and well-formedness of
//! the state is preserved across every event.

use vstd::prelude::*;

use crate::error::{AppError, AppErrorView};
use crate::event::{AppEventType, CompleteDownloadObjectResult, CompleteInitializeResult,
    CompleteLoadObjectDetailResult, CompleteLoadObjectsResult, CompletePreviewObjectResult,
    KeyInput};
use crate::item::{BucketItem, FileDetail, FileDetailView, FileVersion, FileVersionView,
    ObjectItem, ObjectItemView};
use crate::selection::{ListSelection, lemma_move_to_clamped};
use crate::state::{Action, AppModel, DetailViewState, Notification, PendingOp, ScreenState,
    SelMove, ViewState, download_done_message, initial_model, is_quit_key,
    lemma_sel_move_view_wf, spec_apply_select, spec_back_to_buckets, spec_complete_download,
    spec_complete_initialize, spec_complete_load_detail, spec_complete_load_objects,
    spec_complete_load_versions, spec_complete_preview, spec_dispatch_key, spec_download,
    spec_handle_key, spec_move_down, spec_move_up, spec_notify_error, spec_notify_info,
    spec_open_console, spec_resize, spec_select_tabs, spec_toggle_help, with_quiet};

verus! {

/// Ghost image of a bucket-catalog completion.
pub open spec fn lift_init(r: Result<CompleteInitializeResult, AppError>) -> Result<
    Seq<Seq<char>>,
    AppErrorView,
> {
    match r {
        Ok(c) => Ok(c.buckets@.map_values(|b: BucketItem| b@)),
        Err(e) => Err(e@),
    }
}

/// Ghost image of an object-listing completion.
pub open spec fn lift_objects(r: Result<CompleteLoadObjectsResult, AppError>) -> Result<
    Seq<ObjectItemView>,
    AppErrorView,
> {
    match r {
        Ok(c) => Ok(c.items@.map_values(|it: ObjectItem| it@)),
        Err(e) => Err(e@),
    }
}

/// Ghost image of a metadata completion.
pub open spec fn lift_detail(r: Result<CompleteLoadObjectDetailResult, AppError>) -> Result<
    FileDetailView,
    AppErrorView,
> {
    match r {
        Ok(c) => Ok(c.detail@),
        Err(e) => Err(e@),
    }
}

/// Ghost image of a version-list completion.
pub open spec fn lift_versions(r: Result<Vec<FileVersion>, AppError>) -> Result<
    Seq<FileVersionView>,
    AppErrorView,
> {
    match r {
        Ok(v) => Ok(v@.map_values(|f: FileVersion| f@)),
        Err(e) => Err(e@),
    }
}

/// Ghost image of a download completion: the destination path.
pub open spec fn lift_download(r: Result<CompleteDownloadObjectResult, AppError>) -> Result<
    Seq<char>,
    AppErrorView,
> {
    match r {
        Ok(c) => Ok(c.path@),
        Err(e) => Err(e@),
    }
}

/// Ghost image of a preview completion: the location of the fetched copy.
pub open spec fn lift_preview(r: Result<CompletePreviewObjectResult, AppError>) -> Result<
    Seq<char>,
    AppErrorView,
> {
    match r {
        Ok(c) => Ok(c.path@),
        Err(e) => Err(e@),
    }
}

/// Copy of the first `upto` segments of a path.
fn clone_path_prefix(v: &Vec<String>, upto: usize) -> (r: Vec<String>)
    requires
        upto <= v.len(),
    ensures
        r.deep_view() == v.deep_view().subrange(0, upto as int),
{
    let mut r: Vec<String> = Vec::new();
    let mut i: usize = 0;
    while i < upto
        invariant
            i <= upto <= v.len(),
            r.deep_view() =~= v.deep_view().subrange(0, i as int),
        decreases upto - i,
    {
        let ghost prev = r.deep_view();
        r.push(v[i].clone());
        proof {
            assert(r.deep_view() =~= prev.push(v@[i as int]@));
            assert(v.deep_view().subrange(0, i as int + 1) =~= v.deep_view().subrange(
                0,
                i as int,
            ).push(v.deep_view()[i as int]));
        }
        i += 1;
    }
    assert(r.deep_view() =~= v.deep_view().subrange(0, upto as int));
    r
}

/// Copy of a whole path.
fn clone_path(v: &Vec<String>) -> (r: Vec<String>)
    ensures
        r.deep_view() == v.deep_view(),
{
    let r = clone_path_prefix(v, v.len());
    assert(v.deep_view().subrange(0, v.len() as int) =~= v.deep_view());
    r
}

/// The banner text that reports a finished download.
fn download_message(path: &String) -> (r: String)
    ensures
        r@ == download_done_message(path@),
{
    let mut s = String::from_str("Download completed: ");
    s.append(path.as_str());
    s
}

/// The whole controller state: the screen, the banner, the loading guard,
/// the navigation path with one cursor per depth, and the catalog data
/// loaded for the current position.
#[derive(Debug)]
pub struct App {
    pub view_state: ViewState,
    pub notification: Notification,
    pub pending: PendingOp,
    pub viewport_height: usize,
    pub path: Vec<String>,
    pub selections: Vec<ListSelection>,
    pub buckets: Vec<BucketItem>,
    pub object_items: Vec<ObjectItem>,
    pub detail: Option<FileDetail>,
    pub versions: Option<Vec<FileVersion>>,
}

impl View for App {
    type V = AppModel;

    open spec fn view(&self) -> AppModel {
        AppModel {
            view_state: self.view_state,
            notification: self.notification@,
            pending: self.pending@,
            viewport_height: self.viewport_height as int,
            path: self.path.deep_view(),
            selections: self.selections@.map_values(|s: ListSelection| s@),
            buckets: self.buckets@.map_values(|b: BucketItem| b@),
            object_items: self.object_items@.map_values(|it: ObjectItem| it@),
            detail: match self.detail {
                Some(ref d) => Some(d@),
                None => None,
            },
            versions: match self.versions {
                Some(ref v) => Some(v@.map_values(|f: FileVersion| f@)),
                None => None,
            },
        }
    }
}

impl App {
    /// Fresh controller: initializing, loading guard held by the initial
    /// bucket-catalog fetch that the surrounding program dispatches.
    pub fn new(viewport_height: usize) -> (app: App)
        ensures
            app@ == initial_model(viewport_height as int),
            app@.wf(),
    {
        let mut selections: Vec<ListSelection> = Vec::new();
        selections.push(ListSelection::reset());
        let app = App {
            view_state: ViewState::Initializing,
            notification: Notification::Quiet,
            pending: PendingOp::Initialize,
            viewport_height: if viewport_height == 0 {
                1
            } else {
                viewport_height
            },
            path: Vec::new(),
            selections,
            buckets: Vec::new(),
            object_items: Vec::new(),
            detail: None,
            versions: None,
        };
        proof {
            assert(app@ =~~= initial_model(viewport_height as int));
        }
        app
    }

    /// True while a dispatched request's completion has not arrived.
    pub fn is_loading(&self) -> (b: bool)
        ensures
            b == self@.is_loading(),
    {
        !matches!(self.pending, PendingOp::Idle)
    }

    /// Number of items of the list the cursor moves over.
    fn current_item_count(&self) -> (c: usize)
        ensures
            c as int == self@.item_count(),
    {
        match self.view_state.screen() {
            ScreenState::Initializing => 0,
            ScreenState::BucketList => self.buckets.len(),
            ScreenState::ObjectList => self.object_items.len(),
            ScreenState::Detail(_) => self.object_items.len(),
        }
    }

    /// Apply one clamped cursor movement to the current list.
    fn apply_select(&mut self, mv: SelMove)
        requires
            old(self)@.wf(),
        ensures
            final(self)@ == spec_apply_select(old(self)@, mv),
            final(self)@.wf(),
    {
        let count: usize;
        match self.view_state {
            ViewState::BucketList => {
                count = self.buckets.len();
            },
            ViewState::ObjectList => {
                count = self.object_items.len();
            },
            _ => {
                return ;
            },
        }
        let i = self.selections.len() - 1;
        let mut s = self.selections[i];
        match mv {
            SelMove::Next => s.select_next(count, self.viewport_height),
            SelMove::Prev => s.select_prev(count, self.viewport_height),
            SelMove::First => s.select_first(count, self.viewport_height),
            SelMove::Last => s.select_last(count, self.viewport_height),
            SelMove::NextPage => s.select_next_page(count, self.viewport_height),
            SelMove::PrevPage => s.select_prev_page(count, self.viewport_height),
        }
        self.selections[i] = s;
        proof {
            let m0 = old(self)@;
            lemma_sel_move_view_wf(m0.cur_sel(), mv, m0.item_count(), m0.viewport_height);
            assert(self@.selections =~= m0.selections.update(i as int, s@));
            assert(self@ =~~= spec_apply_select(m0, mv));
            assert forall|j: int| 0 <= j < self@.selections.len() implies 0
                <= #[trigger] self@.selections[j].offset <= self@.selections[j].selected by {
                if j != i as int {
                    assert(self@.selections[j] == m0.selections[j]);
                }
            }
            assert(self@.wf());
        }
    }

    /// Move down: descend into the chosen bucket or directory, or open the
    /// metadata of the chosen file. Nothing commits until the completion
    /// event reports success.
    fn move_down(&mut self) -> (a: Action)
        requires
            old(self)@.wf(),
            old(self)@.pending is Idle,
        ensures
            final(self)@ == spec_move_down(old(self)@).state,
            a@ == spec_move_down(old(self)@).action,
            final(self)@.wf(),
    {
        match self.view_state {
            ViewState::BucketList => {
                if self.buckets.len() == 0 {
                    return Action::Continue;
                }
                let i = self.selections.len() - 1;
                let sel = self.selections[i].selected;
                let name = self.buckets[sel].name.clone();
                let mut p: Vec<String> = Vec::new();
                p.push(name.clone());
                self.pending = PendingOp::Descend(name);
                let a = Action::LoadObjects { path: p };
                proof {
                    assert(self@ =~~= spec_move_down(old(self)@).state);
                    assert(p.deep_view() =~= seq![old(self)@.buckets[sel as int]]);
                    assert(a@ =~~= spec_move_down(old(self)@).action);
                }
                a
            },
            ViewState::ObjectList => {
                if self.object_items.len() == 0 {
                    return Action::Continue;
                }
                let i = self.selections.len() - 1;
                let sel = self.selections[i].selected;
                let is_dir: bool;
                let name: String;
                match &self.object_items[sel] {
                    ObjectItem::Dir { name: n } => {
                        is_dir = true;
                        name = n.clone();
                    },
                    ObjectItem::File { name: n, .. } => {
                        is_dir = false;
                        name = n.clone();
                    },
                }
                if is_dir {
                    let mut p = clone_path(&self.path);
                    p.push(name.clone());
                    self.pending = PendingOp::Descend(name);
                    let a = Action::LoadObjects { path: p };
                    proof {
                        assert(self@ =~~= spec_move_down(old(self)@).state);
                        assert(p.deep_view() =~= old(self)@.path.push(name@));
                        assert(a@ =~~= spec_move_down(old(self)@).action);
                    }
                    a
                } else {
                    let p = clone_path(&self.path);
                    self.pending = PendingOp::LoadDetail;
                    let a = Action::LoadObjectDetail { path: p, name };
                    proof {
                        assert(self@ =~~= spec_move_down(old(self)@).state);
                        assert(a@ =~~= spec_move_down(old(self)@).action);
                    }
                    a
                }
            },
            _ => Action::Continue,
        }
    }

    /// Move up: close the detail screen, return to the cached bucket list
    /// from the top-level object list, or ask for the listing of the shorter
    /// path from deeper down. A no-op at the bucket list.
    fn move_up(&mut self) -> (a: Action)
        requires
            old(self)@.wf(),
            old(self)@.pending is Idle,
        ensures
            final(self)@ == spec_move_up(old(self)@).state,
            a@ == spec_move_up(old(self)@).action,
            final(self)@.wf(),
    {
        match self.view_state {
            ViewState::Detail(_) => {
                self.view_state = ViewState::ObjectList;
                self.detail = None;
                self.versions = None;
                proof {
                    assert(self@ =~~= spec_move_up(old(self)@).state);
                }
                Action::Continue
            },
            ViewState::ObjectList => {
                if self.path.len() == 1 {
                    let _seg = self.path.pop();
                    let _sel = self.selections.pop();
                    let mut s0 = self.selections[0];
                    s0.normalize(self.buckets.len(), self.viewport_height);
                    self.selections[0] = s0;
                    self.view_state = ViewState::BucketList;
                    self.detail = None;
                    self.versions = None;
                    proof {
                        let m0 = old(self)@;
                        assert(self@.path =~= Seq::<Seq<char>>::empty());
                        assert(self@.selections =~= spec_move_up(m0).state.selections);
                        assert(self@ =~~= spec_move_up(m0).state);
                        lemma_move_to_clamped(
                            m0.selections[0],
                            m0.selections[0].selected,
                            m0.buckets.len() as int,
                            m0.viewport_height,
                        );
                        assert(self@.wf());
                    }
                    Action::Continue
                } else {
                    let p = clone_path_prefix(&self.path, self.path.len() - 1);
                    self.pending = PendingOp::Ascend;
                    let a = Action::LoadObjects { path: p };
                    proof {
                        let m0 = old(self)@;
                        assert(m0.path.len() >= 2);
                        assert(self@ =~~= spec_move_up(m0).state);
                        assert(m0.path.subrange(0, m0.path.len() - 1) =~= m0.path.drop_last());
                        assert(a@ =~~= spec_move_up(m0).action);
                    }
                    a
                }
            },
            _ => Action::Continue,
        }
    }

    /// Back to the bucket list from any depth, free of any request.
    fn back_to_buckets(&mut self)
        requires
            old(self)@.wf(),
            old(self)@.pending is Idle,
        ensures
            final(self)@ == spec_back_to_buckets(old(self)@),
            final(self)@.wf(),
    {
        match self.view_state {
            ViewState::ObjectList | ViewState::Detail(_) => {
                self.path = Vec::new();
                let mut s0 = self.selections[0];
                s0.normalize(self.buckets.len(), self.viewport_height);
                let mut sels: Vec<ListSelection> = Vec::new();
                sels.push(s0);
                self.selections = sels;
                self.view_state = ViewState::BucketList;
                self.detail = None;
                self.versions = None;
                proof {
                    let m0 = old(self)@;
                    assert(self@.path =~= Seq::<Seq<char>>::empty());
                    assert(self@.selections =~= spec_back_to_buckets(m0).selections);
                    assert(self@ =~~= spec_back_to_buckets(m0));
                    lemma_move_to_clamped(
                        m0.selections[0],
                        m0.selections[0].selected,
                        m0.buckets.len() as int,
                        m0.viewport_height,
                    );
                    assert(self@.wf());
                }
            },
            _ => {},
        }
    }

    /// Switch the metadata tab; the first switch to the version tab asks for
    /// the version list.
    fn select_tabs(&mut self) -> (a: Action)
        requires
            old(self)@.wf(),
            old(self)@.pending is Idle,
        ensures
            final(self)@ == spec_select_tabs(old(self)@).state,
            a@ == spec_select_tabs(old(self)@).action,
            final(self)@.wf(),
    {
        match self.view_state {
            ViewState::Detail(DetailViewState::Detail) => {
                if self.versions.is_some() {
                    self.view_state = ViewState::Detail(DetailViewState::Version);
                    Action::Continue
                } else {
                    let d = self.detail.as_ref().unwrap();
                    let name = d.name.clone();
                    let p = clone_path(&self.path);
                    self.pending = PendingOp::LoadVersions;
                    let a = Action::LoadObjectVersions { path: p, name };
                    proof {
                        assert(self@ =~~= spec_select_tabs(old(self)@).state);
                        assert(a@ =~~= spec_select_tabs(old(self)@).action);
                    }
                    a
                }
            },
            ViewState::Detail(DetailViewState::Version) => {
                self.view_state = ViewState::Detail(DetailViewState::Detail);
                Action::Continue
            },
            _ => Action::Continue,
        }
    }

    /// Trigger a download of the object whose detail screen is open.
    fn download(&mut self) -> (a: Action)
        requires
            old(self)@.wf(),
            old(self)@.pending is Idle,
        ensures
            final(self)@ == spec_download(old(self)@).state,
            a@ == spec_download(old(self)@).action,
            final(self)@.wf(),
    {
        match self.view_state {
            ViewState::Detail(_) => {
                let d = self.detail.as_ref().unwrap();
                let name = d.name.clone();
                let p = clone_path(&self.path);
                self.pending = PendingOp::Download;
                let a = Action::DownloadObject { path: p, name };
                proof {
                    assert(self@ =~~= spec_download(old(self)@).state);
                    assert(a@ =~~= spec_download(old(self)@).action);
                }
                a
            },
            _ => Action::Continue,
        }
    }

    /// Ask the surrounding program to open the management console for the
    /// current position. Fire and forget: no state change, no loading guard.
    fn open_console(&self) -> (a: Action)
        requires
            self@.wf(),
        ensures
            a@ == spec_open_console(self@),
    {
        match self.view_state {
            ViewState::BucketList => {
                let a = Action::OpenManagementConsole { path: Vec::new(), object: None };
                proof {
                    assert(a@ =~~= spec_open_console(self@));
                }
                a
            },
            ViewState::ObjectList => {
                let a = Action::OpenManagementConsole { path: clone_path(&self.path), object: None };
                proof {
                    assert(a@ =~~= spec_open_console(self@));
                }
                a
            },
            ViewState::Detail(_) => {
                let d = self.detail.as_ref().unwrap();
                let a = Action::OpenManagementConsole {
                    path: clone_path(&self.path),
                    object: Some(d.name.clone()),
                };
                proof {
                    assert(a@ =~~= spec_open_console(self@));
                }
                a
            },
            _ => Action::Continue,
        }
    }

    /// Toggle the help overlay: snapshot the current screen, or restore the
    /// saved snapshot verbatim.
    fn toggle_help(&mut self)
        requires
            old(self)@.wf(),
            old(self)@.pending is Idle,
        ensures
            final(self)@ == spec_toggle_help(old(self)@),
            final(self)@.wf(),
    {
        match self.view_state {
            ViewState::Help(s) => {
                self.view_state = s.to_view();
            },
            ViewState::Initializing => {},
            _ => {
                self.view_state = ViewState::Help(self.view_state.screen());
            },
        }
    }

    /// Dispatch a key press to its bound action; unbound keys are no-ops.
    fn dispatch_key(&mut self, k: KeyInput) -> (a: Action)
        requires
            old(self)@.wf(),
            old(self)@.pending is Idle,
        ensures
            final(self)@ == spec_dispatch_key(old(self)@, k).state,
            a@ == spec_dispatch_key(old(self)@, k).action,
            final(self)@.wf(),
    {
        match k {
            KeyInput::Enter => self.move_down(),
            KeyInput::Backspace => self.move_up(),
            KeyInput::Char(c) => {
                if c == 'j' {
                    self.apply_select(SelMove::Next);
                    Action::Continue
                } else if c == 'k' {
                    self.apply_select(SelMove::Prev);
                    Action::Continue
                } else if c == 'g' {
                    self.apply_select(SelMove::First);
                    Action::Continue
                } else if c == 'G' {
                    self.apply_select(SelMove::Last);
                    Action::Continue
                } else if c == 'f' {
                    self.apply_select(SelMove::NextPage);
                    Action::Continue
                } else if c == 'b' {
                    self.apply_select(SelMove::PrevPage);
                    Action::Continue
                } else if c == '~' {
                    self.back_to_buckets();
                    Action::Continue
                } else if c == 'h' || c == 'l' {
                    self.select_tabs()
                } else if c == 's' {
                    self.download()
                } else if c == 'x' {
                    self.open_console()
                } else if c == '?' {
                    self.toggle_help();
                    Action::Continue
                } else {
                    Action::Continue
                }
            },
            _ => Action::Continue,
        }
    }

    /// Handle one key press, in the order the controller checks: quit keys,
    /// loading guard, notification precedence, bound action.
    fn handle_key(&mut self, k: KeyInput) -> (a: Action)
        requires
            old(self)@.wf(),
        ensures
            final(self)@ == spec_handle_key(old(self)@, k).state,
            a@ == spec_handle_key(old(self)@, k).action,
            final(self)@.wf(),
    {
        match k {
            KeyInput::Esc | KeyInput::CtrlC => {
                return Action::Quit;
            },
            _ => {},
        }
        proof {
            assert(!is_quit_key(k));
        }
        if !matches!(self.pending, PendingOp::Idle) {
            return Action::Continue;
        }
        let banner: u8 = match &self.notification {
            Notification::Error(_) => 2,
            Notification::Info(_) => 1,
            Notification::Quiet => 0,
        };
        if banner == 2 {
            if matches!(self.view_state, ViewState::Initializing) {
                return Action::Quit;
            }
            self.notification = Notification::Quiet;
            proof {
                assert(self@ =~~= with_quiet(old(self)@));
            }
            return Action::Continue;
        }
        if banner == 1 {
            self.notification = Notification::Quiet;
            proof {
                assert(self@ =~~= with_quiet(old(self)@));
            }
        }
        self.dispatch_key(k)
    }

    /// A resize updates the viewport height used for the pagination math and
    /// keeps the cursor visible; it never changes the view state or the
    /// navigation path.
    fn resize(&mut self, height: usize)
        requires
            old(self)@.wf(),
        ensures
            final(self)@ == spec_resize(old(self)@, height as int),
            final(self)@.wf(),
    {
        self.viewport_height = if height == 0 {
            1
        } else {
            height
        };
        let count = self.current_item_count();
        let i = self.selections.len() - 1;
        let mut s = self.selections[i];
        s.normalize(count, self.viewport_height);
        self.selections[i] = s;
        proof {
            let m0 = old(self)@;
            let m1 = spec_resize(m0, height as int);
            assert(self@.selections =~= m1.selections);
            assert(self@ =~~= m1);
            lemma_move_to_clamped(
                m0.cur_sel(),
                m0.cur_sel().selected,
                m0.item_count(),
                self@.viewport_height,
            );
            assert forall|j: int| 0 <= j < self@.selections.len() implies 0
                <= #[trigger] self@.selections[j].offset <= self@.selections[j].selected by {
                if j != i as int {
                    assert(self@.selections[j] == m0.selections[j]);
                }
            }
            assert(self@.wf());
        }
    }

    /// Commit or reject the initial bucket catalog.
    fn complete_initialize(&mut self, r: Result<CompleteInitializeResult, AppError>)
        requires
            old(self)@.wf(),
        ensures
            final(self)@ == spec_complete_initialize(old(self)@, lift_init(r)),
            final(self)@.wf(),
    {
        match r {
            Ok(res) => {
                if matches!(self.pending, PendingOp::Initialize) {
                    self.pending = PendingOp::Idle;
                    self.view_state = ViewState::BucketList;
                    self.path = Vec::new();
                    let mut sels: Vec<ListSelection> = Vec::new();
                    sels.push(ListSelection::reset());
                    self.selections = sels;
                    self.buckets = res.buckets;
                    self.object_items = Vec::new();
                    self.detail = None;
                    self.versions = None;
                    proof {
                        assert(self@.path =~= Seq::<Seq<char>>::empty());
                        assert(self@.selections =~= spec_complete_initialize(
                            old(self)@,
                            lift_init(r),
                        ).selections);
                        assert(self@.object_items =~= Seq::<ObjectItemView>::empty());
                        assert(self@ =~~= spec_complete_initialize(old(self)@, lift_init(r)));
                    }
                } else {
                    self.pending = PendingOp::Idle;
                    proof {
                        assert(self@ =~~= spec_complete_initialize(old(self)@, lift_init(r)));
                    }
                }
            },
            Err(e) => {
                self.pending = PendingOp::Idle;
                self.notification = Notification::Error(e);
                proof {
                    assert(self@ =~~= spec_complete_initialize(old(self)@, lift_init(r)));
                }
            },
        }
    }

    /// Commit or reject an object listing: push the pending descent's
    /// segment, or pop for the pending ascent and restore that depth's saved
    /// cursor.
    fn complete_load_objects(&mut self, r: Result<CompleteLoadObjectsResult, AppError>)
        requires
            old(self)@.wf(),
        ensures
            final(self)@ == spec_complete_load_objects(old(self)@, lift_objects(r)),
            final(self)@.wf(),
    {
        match r {
            Ok(res) => {
                let seg_opt: Option<String> = match &self.pending {
                    PendingOp::Descend(s) => Some(s.clone()),
                    _ => None,
                };
                let was_ascend = matches!(self.pending, PendingOp::Ascend);
                self.pending = PendingOp::Idle;
                match seg_opt {
                    Some(seg) => {
                        self.view_state = ViewState::ObjectList;
                        self.path.push(seg);
                        self.selections.push(ListSelection::reset());
                        self.object_items = res.items;
                        self.detail = None;
                        self.versions = None;
                        proof {
                            let m1 = spec_complete_load_objects(old(self)@, lift_objects(r));
                            assert(self@.path =~= m1.path);
                            assert(self@.selections =~= m1.selections);
                            assert(self@ =~~= m1);
                            assert(self@.wf());
                        }
                    },
                    None => {
                        if was_ascend {
                            let _seg = self.path.pop();
                            let _sel = self.selections.pop();
                            self.object_items = res.items;
                            let i = self.selections.len() - 1;
                            let mut s = self.selections[i];
                            s.normalize(self.object_items.len(), self.viewport_height);
                            self.selections[i] = s;
                            proof {
                                let m0 = old(self)@;
                                let m1 = spec_complete_load_objects(m0, lift_objects(r));
                                assert(self@.path =~= m1.path);
                                assert(self@.selections =~= m1.selections);
                                assert(self@ =~~= m1);
                                lemma_move_to_clamped(
                                    m0.selections.drop_last().last(),
                                    m0.selections.drop_last().last().selected,
                                    self@.object_items.len() as int,
                                    m0.viewport_height,
                                );
                                assert forall|j: int| 0 <= j < self@.selections.len() implies 0
                                    <= #[trigger] self@.selections[j].offset
                                    <= self@.selections[j].selected by {
                                    if j != i as int {
                                        assert(self@.selections[j] == m0.selections[j]);
                                    }
                                }
                                assert(self@.wf());
                            }
                        }
                    },
                }
            },
            Err(e) => {
                self.pending = PendingOp::Idle;
                self.notification = Notification::Error(e);
                proof {
                    assert(self@ =~~= spec_complete_load_objects(old(self)@, lift_objects(r)));
                }
            },
        }
    }

    /// Commit or reject a metadata fetch: on success the detail screen opens
    /// on the metadata tab.
    fn complete_load_object_detail(&mut self, r: Result<CompleteLoadObjectDetailResult, AppError>)
        requires
            old(self)@.wf(),
        ensures
            final(self)@ == spec_complete_load_detail(old(self)@, lift_detail(r)),
            final(self)@.wf(),
    {
        match r {
            Ok(res) => {
                if matches!(self.pending, PendingOp::LoadDetail) {
                    self.pending = PendingOp::Idle;
                    self.view_state = ViewState::Detail(DetailViewState::Detail);
                    self.detail = Some(*res.detail);
                    self.versions = None;
                    proof {
                        assert(self@ =~~= spec_complete_load_detail(old(self)@, lift_detail(r)));
                    }
                } else {
                    self.pending = PendingOp::Idle;
                }
            },
            Err(e) => {
                self.pending = PendingOp::Idle;
                self.notification = Notification::Error(e);
                proof {
                    assert(self@ =~~= spec_complete_load_detail(old(self)@, lift_detail(r)));
                }
            },
        }
    }

    /// Commit or reject a version-list fetch: on success the list is cached
    /// and the version tab opens.
    fn complete_load_object_versions(&mut self, r: Result<Vec<FileVersion>, AppError>)
        requires
            old(self)@.wf(),
        ensures
            final(self)@ == spec_complete_load_versions(old(self)@, lift_versions(r)),
            final(self)@.wf(),
    {
        match r {
            Ok(vs) => {
                if matches!(self.pending, PendingOp::LoadVersions) {
                    self.pending = PendingOp::Idle;
                    self.view_state = ViewState::Detail(DetailViewState::Version);
                    self.versions = Some(vs);
                    proof {
                        assert(self@ =~~= spec_complete_load_versions(
                            old(self)@,
                            lift_versions(r),
                        ));
                    }
                } else {
                    self.pending = PendingOp::Idle;
                }
            },
            Err(e) => {
                self.pending = PendingOp::Idle;
                self.notification = Notification::Error(e);
                proof {
                    assert(self@ =~~= spec_complete_load_versions(old(self)@, lift_versions(r)));
                }
            },
        }
    }

    /// Report a finished download in the banner, or its failure.
    fn complete_download_object(&mut self, r: Result<CompleteDownloadObjectResult, AppError>)
        requires
            old(self)@.wf(),
        ensures
            final(self)@ == spec_complete_download(old(self)@, lift_download(r)),
            final(self)@.wf(),
    {
        match r {
            Ok(res) => {
                if matches!(self.pending, PendingOp::Download) {
                    self.pending = PendingOp::Idle;
                    self.notification = Notification::Info(download_message(&res.path));
                    proof {
                        assert(self@ =~~= spec_complete_download(old(self)@, lift_download(r)));
                    }
                } else {
                    self.pending = PendingOp::Idle;
                }
            },
            Err(e) => {
                self.pending = PendingOp::Idle;
                self.notification = Notification::Error(e);
                proof {
                    assert(self@ =~~= spec_complete_download(old(self)@, lift_download(r)));
                }
            },
        }
    }

    /// Hand a fetched preview copy to the external viewer, or report the
    /// failure.
    fn complete_preview_object(&mut self, r: Result<CompletePreviewObjectResult, AppError>) -> (a:
        Action)
        requires
            old(self)@.wf(),
        ensures
            final(self)@ == spec_complete_preview(old(self)@, lift_preview(r)).state,
            a@ == spec_complete_preview(old(self)@, lift_preview(r)).action,
            final(self)@.wf(),
    {
        match r {
            Ok(res) => {
                self.pending = PendingOp::Idle;
                Action::OpenPreview { path: res.path }
            },
            Err(e) => {
                self.pending = PendingOp::Idle;
                self.notification = Notification::Error(e);
                Action::Continue
            },
        }
    }

    /// Consume one event and apply exactly one state change; the returned
    /// action tells the surrounding program what to perform. Key handling
    /// follows the precedence order of `spec_handle_key`; any completion
    /// event unconditionally clears the loading guard, so input always
    /// resumes.
    pub fn handle_event(&mut self, event: AppEventType) -> (a: Action)
        requires
            old(self)@.wf(),
        ensures
            final(self)@.wf(),
            event matches AppEventType::Key(k) ==> final(self)@ == spec_handle_key(
                old(self)@,
                k,
            ).state && a@ == spec_handle_key(old(self)@, k).action,
            event matches AppEventType::Resize(w, h) ==> final(self)@ == spec_resize(
                old(self)@,
                h as int,
            ) && a is Continue,
            event matches AppEventType::CompleteInitialize(r) ==> final(self)@
                == spec_complete_initialize(old(self)@, lift_init(r)) && a is Continue,
            event matches AppEventType::CompleteLoadObjects(r) ==> final(self)@
                == spec_complete_load_objects(old(self)@, lift_objects(r)) && a is Continue,
            event matches AppEventType::CompleteLoadObjectDetail(r) ==> final(self)@
                == spec_complete_load_detail(old(self)@, lift_detail(r)) && a is Continue,
            event matches AppEventType::CompleteLoadObjectVersions(r) ==> final(self)@
                == spec_complete_load_versions(old(self)@, lift_versions(r)) && a is Continue,
            event matches AppEventType::CompleteDownloadObject(r) ==> final(self)@
                == spec_complete_download(old(self)@, lift_download(r)) && a is Continue,
            event matches AppEventType::CompletePreviewObject(r) ==> final(self)@
                == spec_complete_preview(old(self)@, lift_preview(r)).state && a@
                == spec_complete_preview(old(self)@, lift_preview(r)).action,
            event matches AppEventType::NotifyInfo(t) ==> final(self)@ == spec_notify_info(
                old(self)@,
                t@,
            ) && a is Continue,
            event matches AppEventType::NotifyError(e) ==> final(self)@ == spec_notify_error(
                old(self)@,
                e@,
            ) && a is Continue,
    {
        match event {
            AppEventType::Key(k) => self.handle_key(k),
            AppEventType::Resize(_w, h) => {
                self.resize(h);
                Action::Continue
            },
            AppEventType::CompleteInitialize(r) => {
                self.complete_initialize(r);
                Action::Continue
            },
            AppEventType::CompleteLoadObjects(r) => {
                self.complete_load_objects(r);
                Action::Continue
            },
            AppEventType::CompleteLoadObjectDetail(r) => {
                self.complete_load_object_detail(r);
                Action::Continue
            },
            AppEventType::CompleteLoadObjectVersions(r) => {
                self.complete_load_object_versions(r);
                Action::Continue
            },
            AppEventType::CompleteDownloadObject(r) => {
                self.complete_download_object(r);
                Action::Continue
            },
            AppEventType::CompletePreviewObject(r) => self.complete_preview_object(r),
            AppEventType::NotifyInfo(t) => {
                self.notification = Notification::Info(t);
                proof {
                    assert(self@ =~~= spec_notify_info(old(self)@, t@));
                }
                Action::Continue
            },
            AppEventType::NotifyError(e) => {
                self.notification = Notification::Error(e);
                proof {
                    assert(self@ =~~= spec_notify_error(old(self)@, e@));
                }
                Action::Continue
            },
        }
    }
}

} // verus!
