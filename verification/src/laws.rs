//! The laws of the controller, stated over the ghost transition functions
//! and proved once and for all: clamped cursor movement, transparency of the
//! help overlay, exclusivity of the loading guard, the terminal behaviour of
//! a failed initialization, the asymmetry of banner dismissal, and the
//! descend/ascend round trip of the navigation path.

use vstd::prelude::*;

use crate::error::AppErrorView;
use crate::event::KeyInput;
use crate::item::{FileDetailView, FileVersionView, ObjectItemView};
use crate::selection::{SelectionView, lemma_normalize_wf_identity, sel_wf, spec_normalize};
use crate::state::{AppModel, NotificationView, ViewState, is_quit_key, spec_complete_download,
    spec_complete_initialize, spec_complete_load_detail, spec_complete_load_versions,
    spec_complete_preview, spec_resize,
    lemma_sel_move_view_wf, SelMove, spec_apply_select, spec_complete_load_objects,
    spec_dispatch_key, spec_handle_key, spec_move_down, spec_move_up, spec_toggle_help,
    with_quiet};

verus! {

/// Clamped movement: no cursor key ever places the cursor outside
/// `[0, item_count - 1]`, and on an empty list every cursor key is a no-op,
/// not a panic.
pub proof fn lemma_select_clamped(m: AppModel, mv: SelMove)
    requires
        m.wf(),
    ensures
        spec_apply_select(m, mv).wf(),
        0 <= spec_apply_select(m, mv).cur_sel().selected,
        m.item_count() > 0 ==> spec_apply_select(m, mv).cur_sel().selected < m.item_count(),
        m.item_count() == 0 ==> spec_apply_select(m, mv) == m,
{
    let r = spec_apply_select(m, mv);
    if m.view_state is BucketList || m.view_state is ObjectList {
        lemma_sel_move_view_wf(m.cur_sel(), mv, m.item_count(), m.viewport_height);
        let i = m.selections.len() - 1;
        assert forall|j: int| 0 <= j < r.selections.len() implies 0
            <= #[trigger] r.selections[j].offset <= r.selections[j].selected by {
            if j != i {
                assert(r.selections[j] == m.selections[j]);
            }
        }
        if m.item_count() == 0 {
            assert(r.selections =~= m.selections);
            assert(r =~~= m);
        }
    }
}

/// Help transparency: entering help from any screen and dismissing it again
/// restores exactly the state from before, including the metadata tab of a
/// nested detail screen. (While initializing, the help key is not bound and
/// nothing happens at all.)
pub proof fn lemma_help_transparency(m: AppModel)
    requires
        m.wf(),
        !m.is_loading(),
        m.notification is Quiet,
        !(m.view_state is Help),
        !(m.view_state is Initializing),
    ensures
        spec_handle_key(m, KeyInput::Char('?')).state.view_state == ViewState::Help(
            m.view_state.spec_screen(),
        ),
        spec_handle_key(spec_handle_key(m, KeyInput::Char('?')).state, KeyInput::Char('?')).state
            == m,
{
    let opened = spec_handle_key(m, KeyInput::Char('?')).state;
    assert(opened == spec_toggle_help(m));
    let closed = spec_handle_key(opened, KeyInput::Char('?')).state;
    assert(closed =~~= m);
}

/// Loading exclusivity: while the loading guard is held, no key other than
/// the global quit keys changes the state or produces an action.
pub proof fn lemma_loading_exclusivity(m: AppModel, k: KeyInput)
    requires
        m.is_loading(),
        !is_quit_key(k),
    ensures
        spec_handle_key(m, k).state == m,
        spec_handle_key(m, k).action is Continue,
{
}

/// Fatal initialization: an error banner while the screen is still
/// initializing is terminal — the next key press, whichever it is, ends the
/// session without further handling.
pub proof fn lemma_fatal_init(m: AppModel, k: KeyInput)
    requires
        m.view_state is Initializing,
        m.notification is Error,
        !m.is_loading(),
    ensures
        spec_handle_key(m, k).action is Quit,
        spec_handle_key(m, k).state == m,
{
}

/// Dismissal asymmetry: a key pressed under an info banner clears the
/// banner and its bound action still executes — the step equals the step
/// from the dismissed state. The same key under an error banner only clears
/// the banner: the bound action is suppressed.
pub proof fn lemma_dismissal_asymmetry(m: AppModel, k: KeyInput, text: Seq<char>, e: AppErrorView)
    requires
        m.wf(),
        !m.is_loading(),
        !is_quit_key(k),
        !(m.view_state is Initializing),
        m.notification is Quiet,
    ensures
        spec_handle_key(AppModel { notification: NotificationView::Info(text), ..m }, k)
            == spec_handle_key(m, k),
        spec_handle_key(AppModel { notification: NotificationView::Error(e), ..m }, k).state == m,
        spec_handle_key(AppModel { notification: NotificationView::Error(e), ..m }, k).action
            is Continue,
{
    let mi = AppModel { notification: NotificationView::Info(text), ..m };
    assert(with_quiet(mi) =~~= m);
    assert(spec_handle_key(mi, k) == spec_dispatch_key(m, k));
    assert(spec_handle_key(m, k) == spec_dispatch_key(m, k));
    let me = AppModel { notification: NotificationView::Error(e), ..m };
    assert(with_quiet(me) =~~= m);
}

/// Any completion event releases the loading guard, success or failure
/// alike, so input always resumes.
pub proof fn lemma_completion_clears_guard(
    m: AppModel,
    rb: Result<Seq<Seq<char>>, AppErrorView>,
    ro: Result<Seq<ObjectItemView>, AppErrorView>,
    rd: Result<FileDetailView, AppErrorView>,
    rv: Result<Seq<FileVersionView>, AppErrorView>,
    rw: Result<Seq<char>, AppErrorView>,
    rp: Result<Seq<char>, AppErrorView>,
)
    ensures
        !spec_complete_initialize(m, rb).is_loading(),
        !spec_complete_load_objects(m, ro).is_loading(),
        !spec_complete_load_detail(m, rd).is_loading(),
        !spec_complete_load_versions(m, rv).is_loading(),
        !spec_complete_download(m, rw).is_loading(),
        !spec_complete_preview(m, rp).state.is_loading(),
{
}

/// A failed fetch commits nothing: the view state and the navigation path
/// stay as they were before the attempt, and the failure surfaces as an
/// error banner.
pub proof fn lemma_failure_commits_nothing(m: AppModel, e: AppErrorView)
    ensures
        spec_complete_load_objects(m, Err(e)).view_state == m.view_state,
        spec_complete_load_objects(m, Err(e)).path == m.path,
        spec_complete_load_objects(m, Err(e)).selections == m.selections,
        spec_complete_load_objects(m, Err(e)).notification == NotificationView::Error(e),
        spec_complete_load_detail(m, Err(e)).view_state == m.view_state,
        spec_complete_load_detail(m, Err(e)).detail == m.detail,
        spec_complete_load_versions(m, Err(e)).view_state == m.view_state,
        spec_complete_initialize(m, Err(e)).view_state == m.view_state,
{
}

/// A resize only touches the viewport height and the viewport offset of the
/// current cursor: it never changes the view state, the navigation path, the
/// cursor position, or the loading guard.
pub proof fn lemma_resize_preserves_navigation(m: AppModel, height: int)
    requires
        m.wf(),
    ensures
        spec_resize(m, height).view_state == m.view_state,
        spec_resize(m, height).path == m.path,
        spec_resize(m, height).pending == m.pending,
        spec_resize(m, height).notification == m.notification,
        spec_resize(m, height).cur_sel().selected == m.cur_sel().selected,
{
    let h = if height < 1 { 1int } else { height };
    assert(spec_resize(m, height).cur_sel() == spec_normalize(m.cur_sel(), m.item_count(), h));
}

/// A descent is enabled when the cursor stands on a bucket of the bucket
/// list or on a directory of the object list.
pub open spec fn descend_enabled(m: AppModel) -> bool {
    ||| (m.view_state is BucketList && m.buckets.len() > 0)
    ||| (m.view_state is ObjectList && m.object_items.len() > 0 && m.object_items[m.cur_sel().selected]
        is Dir)
}

/// One committed descent: the move-down key dispatches the listing request,
/// and the completion event delivers the listing `items` successfully.
pub open spec fn do_descend(m: AppModel, items: Seq<ObjectItemView>) -> AppModel {
    spec_complete_load_objects(spec_move_down(m).state, Ok(items))
}

/// One committed ascent: from depth one the move-up key returns to the
/// cached bucket list at once; deeper, it dispatches the listing request for
/// the shorter path and the completion event delivers `restore`
/// successfully.
pub open spec fn do_ascend(m: AppModel, restore: Seq<ObjectItemView>) -> AppModel {
    if m.path.len() == 1 {
        spec_move_up(m).state
    } else {
        spec_complete_load_objects(spec_move_up(m).state, Ok(restore))
    }
}

/// A committed descent pushes exactly one segment and one fresh cursor,
/// lands on the object list with the delivered listing, and releases the
/// loading guard.
pub proof fn lemma_descend_shape(m: AppModel, items: Seq<ObjectItemView>)
    requires
        m.wf(),
        !m.is_loading(),
        descend_enabled(m),
    ensures
        do_descend(m, items).wf(),
        !do_descend(m, items).is_loading(),
        do_descend(m, items).view_state is ObjectList,
        do_descend(m, items).path.len() == m.path.len() + 1,
        do_descend(m, items).path.drop_last() =~= m.path,
        do_descend(m, items).selections == m.selections.push(
            SelectionView { selected: 0, offset: 0 },
        ),
        do_descend(m, items).object_items == items,
        do_descend(m, items).buckets == m.buckets,
        do_descend(m, items).viewport_height == m.viewport_height,
        do_descend(m, items).notification == m.notification,
{
    let d = do_descend(m, items);
    assert(d.path.drop_last() =~= m.path);
    assert(d.cur_sel() == (SelectionView { selected: 0, offset: 0 }));
    assert forall|j: int| 0 <= j < d.selections.len() implies 0 <= #[trigger] d.selections[j].offset
        <= d.selections[j].selected by {
        if j < d.selections.len() - 1 {
            assert(d.selections[j] == m.selections[j]);
        }
    }
    assert(d.wf());
}

/// The round trip of one descent and one ascent, continued below for a
/// whole sequence: descents paired with the listings their completions
/// deliver, innermost last.
pub open spec fn do_round_trip(m: AppModel, steps: Seq<Seq<ObjectItemView>>) -> AppModel
    decreases steps.len(),
{
    if steps.len() == 0 {
        m
    } else {
        let down = do_descend(m, steps[0]);
        let mid = do_round_trip(down, steps.subrange(1, steps.len() as int));
        do_ascend(mid, m.object_items)
    }
}

/// Every descent of the sequence is enabled when its turn comes.
pub open spec fn round_trip_enabled(m: AppModel, steps: Seq<Seq<ObjectItemView>>) -> bool
    decreases steps.len(),
{
    steps.len() == 0 || (descend_enabled(m) && round_trip_enabled(
        do_descend(m, steps[0]),
        steps.subrange(1, steps.len() as int),
    ))
}

/// Round trip: for any sequence of N descents followed by N ascents — each
/// ascent's completion delivering the listing that was current before the
/// matching descent — the navigation path and every level's cursor return
/// exactly to their pre-descent values, and the screen returns to where the
/// journey began.
pub proof fn lemma_round_trip(m: AppModel, steps: Seq<Seq<ObjectItemView>>)
    requires
        m.wf(),
        !m.is_loading(),
        m.view_state is BucketList || m.view_state is ObjectList,
        round_trip_enabled(m, steps),
    ensures
        do_round_trip(m, steps).path == m.path,
        do_round_trip(m, steps).selections == m.selections,
        do_round_trip(m, steps).view_state == m.view_state,
        do_round_trip(m, steps).buckets == m.buckets,
        do_round_trip(m, steps).viewport_height == m.viewport_height,
        do_round_trip(m, steps).wf(),
        !do_round_trip(m, steps).is_loading(),
        m.view_state is ObjectList ==> do_round_trip(m, steps).object_items == m.object_items,
    decreases steps.len(),
{
    if steps.len() == 0 {
    } else {
        let down = do_descend(m, steps[0]);
        lemma_descend_shape(m, steps[0]);
        let rest = steps.subrange(1, steps.len() as int);
        let mid = do_round_trip(down, rest);
        lemma_round_trip(down, rest);
        let back = do_ascend(mid, m.object_items);
        assert(mid.path == down.path);
        assert(mid.path.len() == m.path.len() + 1);
        if m.view_state is BucketList {
            assert(m.path.len() == 0);
            assert(mid.path.len() == 1);
            assert(back == spec_move_up(mid).state);
            assert(mid.selections[0] == m.selections[0]);
            assert(m.selections.len() == 1);
            assert(m.selections[0] == m.cur_sel());
            lemma_normalize_wf_identity(m.cur_sel(), m.buckets.len() as int, m.viewport_height);
            assert(back.selections =~= m.selections);
            assert(back.path =~= m.path);
        } else {
            assert(mid.path.len() >= 2);
            let up = spec_move_up(mid).state;
            assert(up.pending is Ascend);
            assert(back == spec_complete_load_objects(up, Ok(m.object_items)));
            assert(back.path =~= m.path);
            let popped = mid.selections.drop_last();
            assert(popped =~= m.selections);
            assert(popped.last() == m.cur_sel());
            assert(sel_wf(m.cur_sel(), m.object_items.len() as int, m.viewport_height));
            lemma_normalize_wf_identity(
                m.cur_sel(),
                m.object_items.len() as int,
                m.viewport_height,
            );
            assert(spec_normalize(
                popped.last(),
                m.object_items.len() as int,
                m.viewport_height,
            ) == m.cur_sel());
            assert(back.selections =~= m.selections);
        }
        assert forall|j: int| 0 <= j < back.selections.len() implies 0
            <= #[trigger] back.selections[j].offset <= back.selections[j].selected by {
            assert(back.selections[j] == m.selections[j]);
        }
        assert(back.wf());
    }
}

} // verus!
