use vstd::prelude::*;

use crate::data::{DataManager, FetchError, SnapshotLoad};
use crate::sorting::{datasets_stably_sorted, snapshots_stably_sorted};
use crate::state::{confirmation_expired, selection_ok, AppState, AppView};
use crate::text::{contains_text, occurs_in, push_str, string_from_chars};
use crate::zfs::{Dataset, Snapshot};

verus! {

/// Rows moved by page up and page down.
pub const PAGE_SIZE: usize = 10;

/// A key press, as far as the dashboard tells keys apart.
#[derive(Debug, Clone, Copy, PartialEq, Eq, Structural)]
pub enum Key {
    Char(char),
    Esc,
    Backspace,
    Left,
    Right,
    Up,
    Down,
    Enter,
    PageUp,
    PageDown,
    Other,
}

/// Outside work that a transition asks for. Its outcome is handed back
/// through the matching `Navigator` function.
#[derive(Debug)]
pub enum Action {
    /// Nothing to do.
    Idle,
    /// List the datasets of a pool, then call `Navigator::datasets_loaded`.
    FetchDatasets(String),
    /// List the snapshots of a dataset, then call `Navigator::snapshots_loaded`.
    FetchSnapshots(String),
    /// Destroy a snapshot (its full name; the dataset it belongs to), then
    /// call `Navigator::delete_finished`.
    DeleteSnapshot(String, String),
    /// List the snapshots of a dataset afresh, then call
    /// `Navigator::snapshots_reloaded`.
    ReloadSnapshots(String),
}

/// The key arms or confirms a deletion: `d`, unless deletion is disabled.
pub open spec fn is_delete_key(key: Key, readonly: bool) -> bool {
    key == Key::Char('d') && !readonly
}

/// The key asks to quit: `q`, or `c` with control held.
pub open spec fn is_quit_key(key: Key, ctrl: bool) -> bool {
    key == Key::Char('q') || (key == Key::Char('c') && ctrl)
}

/// The user-facing text for a failed deletion, from the tool's diagnostic.
pub open spec fn delete_error_text(e: Seq<char>) -> Seq<char> {
    if occurs_in("permission denied"@, e) {
        "Permission denied. Try running with elevated privileges (sudo)."@
    } else if occurs_in("dataset does not exist"@, e) {
        "Snapshot no longer exists."@
    } else if occurs_in("dataset is busy"@, e) {
        "Snapshot is currently in use and cannot be deleted."@
    } else {
        "Failed to delete snapshot: "@ + e
    }
}

/// Classifies a failed deletion by the tool's diagnostic (see `delete_error_text`).
pub fn delete_error_message(diagnostic: &str) -> (r: String)
    ensures
        r@ == delete_error_text(diagnostic@),
{
    if contains_text(diagnostic, "permission denied") {
        "Permission denied. Try running with elevated privileges (sudo).".to_owned()
    } else if contains_text(diagnostic, "dataset does not exist") {
        "Snapshot no longer exists.".to_owned()
    } else if contains_text(diagnostic, "dataset is busy") {
        "Snapshot is currently in use and cannot be deleted.".to_owned()
    } else {
        let mut out: Vec<char> = Vec::new();
        push_str(&mut out, "Failed to delete snapshot: ");
        push_str(&mut out, diagnostic);
        assert(out@ =~= "Failed to delete snapshot: "@ + diagnostic@);
        string_from_chars(&out)
    }
}

/// The selection after moving down `step` rows in `n` items, stopping at the last.
pub open spec fn moved_down(i: usize, step: usize, n: nat) -> usize {
    let last: int = if n == 0 {
        0
    } else {
        n - 1
    };
    if i + step < last {
        (i + step) as usize
    } else {
        last as usize
    }
}

/// The selection after moving up `step` rows, stopping at the first.
pub open spec fn moved_up(i: usize, step: usize) -> usize {
    if i >= step {
        (i - step) as usize
    } else {
        0
    }
}

/// The three selections (pool, dataset, snapshot) after moving `step` rows
/// up or down in the current view; the other views' selections stay.
pub open spec fn selections_after_move(s: AppState, step: usize, down: bool) -> (usize, usize, usize) {
    let dm = s.data_manager;
    let pick = |i: usize, n: nat|
        if down {
            moved_down(i, step, n)
        } else {
            moved_up(i, step)
        };
    (
        if s.current_view is PoolList {
            pick(s.selected_pool_index, dm.pools@.len())
        } else {
            s.selected_pool_index
        },
        if s.current_view is DatasetView {
            pick(s.selected_dataset_index, dm.datasets@.len())
        } else {
            s.selected_dataset_index
        },
        if s.current_view is SnapshotDetail {
            pick(s.selected_snapshot_index, dm.snapshots@.len())
        } else {
            s.selected_snapshot_index
        },
    )
}

/// The view that the back keys lead to from `v`; `prev` is the view that
/// help was opened from.
pub open spec fn view_after_back(v: AppView, prev: Option<AppView>) -> AppView {
    match v {
        AppView::PoolList => AppView::PoolList,
        AppView::DatasetView(_) => AppView::PoolList,
        AppView::SnapshotDetail(pool, _) => AppView::DatasetView(pool),
        AppView::Help => match prev {
            Some(p) => p,
            None => AppView::PoolList,
        },
    }
}

pub open spec fn is_back_key(key: Key) -> bool {
    key == Key::Esc || key == Key::Backspace || key == Key::Left
}

pub open spec fn is_forward_key(key: Key) -> bool {
    key == Key::Enter || key == Key::Right
}

/// Whether a key press does anything in state `s` beyond dismissing an
/// error or disarming a deletion: quitting, the delete key in a snapshot
/// list, and the navigation, sort and help keys of the current view.
pub open spec fn acts_on_key(s: AppState, key: Key, ctrl: bool) -> bool {
    ||| is_quit_key(key, ctrl)
    ||| is_delete_key(key, s.config.readonly) && s.current_view is SnapshotDetail
        && s.data_manager.snapshots@.len() > 0
    ||| if s.current_view is Help {
        is_back_key(key) || is_forward_key(key) || key == Key::Up || key == Key::Down
    } else {
        key == Key::Char('h') || key == Key::Char('s') || is_back_key(key) || is_forward_key(key)
            || key == Key::Up || key == Key::Down || key == Key::PageUp || key == Key::PageDown
    }
}

fn move_down(i: usize, step: usize, n: usize) -> (r: usize)
    ensures
        r == moved_down(i, step, n as nat),
        selection_ok(r, n as nat),
{
    let last = if n == 0 {
        0
    } else {
        n - 1
    };
    if i < last && step < last - i {
        i + step
    } else {
        last
    }
}

fn move_up(i: usize, step: usize) -> (r: usize)
    ensures
        r == moved_up(i, step),
{
    if i >= step {
        i - step
    } else {
        0
    }
}

/// The transitions of the dashboard, from key presses and from the outcomes
/// of the outside work they ask for.
pub struct Navigator;

impl Navigator {
    /// Moves the current view's selection `step` rows up or down.
    fn move_selection(state: &mut AppState, step: usize, down: bool)
        requires
            old(state).wf(),
            !old(state).delete_confirmation_pending,
        ensures
            final(state).wf(),
            *final(state) == (AppState {
                selected_pool_index: final(state).selected_pool_index,
                selected_dataset_index: final(state).selected_dataset_index,
                selected_snapshot_index: final(state).selected_snapshot_index,
                ..*old(state)
            }),
            (final(state).selected_pool_index, final(state).selected_dataset_index, final(state).selected_snapshot_index) == selections_after_move(*old(state), step, down),
    {
        match &state.current_view {
            AppView::PoolList => {
                state.selected_pool_index = if down {
                    move_down(state.selected_pool_index, step, state.data_manager.pools.len())
                } else {
                    move_up(state.selected_pool_index, step)
                };
            },
            AppView::DatasetView(_) => {
                state.selected_dataset_index = if down {
                    move_down(state.selected_dataset_index, step, state.data_manager.datasets.len())
                } else {
                    move_up(state.selected_dataset_index, step)
                };
            },
            AppView::SnapshotDetail(_, _) => {
                state.selected_snapshot_index = if down {
                    move_down(state.selected_snapshot_index, step, state.data_manager.snapshots.len())
                } else {
                    move_up(state.selected_snapshot_index, step)
                };
            },
            AppView::Help => {},
        }
    }

    /// Enters the selected item: a pool opens its datasets (which must be
    /// fetched), a dataset opens its snapshots (fetched only when the cache
    /// has none). The snapshot view and help have nowhere to go.
    fn go_forward(state: &mut AppState) -> (r: Action)
        requires
            old(state).wf(),
            !old(state).delete_confirmation_pending,
        ensures
            final(state).wf(),
            final(state).should_quit == old(state).should_quit,
            final(state).config == old(state).config,
            !final(state).delete_confirmation_pending,
            final(state).error_message == old(state).error_message,
            match old(state).current_view {
                AppView::PoolList => if old(state).selected_pool_index < old(state).data_manager.pools@.len() {
                    let name = old(state).data_manager.pools@[old(state).selected_pool_index as int].name;
                    &&& final(state).current_view == AppView::DatasetView(name)
                    &&& final(state).selected_dataset_index == 0
                    &&& r == Action::FetchDatasets(name)
                } else {
                    *final(state) == *old(state) && r is Idle
                },
                AppView::DatasetView(pool) => if old(state).selected_dataset_index
                    < old(state).data_manager.datasets@.len() {
                    let name = old(state).data_manager.datasets@[old(state).selected_dataset_index as int].name;
                    &&& final(state).current_view == AppView::SnapshotDetail(pool, name)
                    &&& final(state).selected_snapshot_index == 0
                    &&& final(state).snapshot_scroll_offset == 0
                    &&& final(state).data_manager.snapshot_cache == old(state).data_manager.snapshot_cache
                    &&& final(state).data_manager.datasets == old(state).data_manager.datasets
                    &&& if crate::data::served_from_cache(old(state).data_manager.snapshot_cache@, name@) {
                        &&& r is Idle
                        &&& snapshots_stably_sorted(
                            old(state).sort_manager.snapshot_sort_order,
                            old(state).data_manager.snapshot_cache@[name@],
                            final(state).data_manager.snapshots@,
                        )
                    } else {
                        &&& r == Action::FetchSnapshots(name)
                        &&& final(state).data_manager.snapshots@.len() == 0
                    }
                } else {
                    *final(state) == *old(state) && r is Idle
                },
                _ => *final(state) == *old(state) && r is Idle,
            },
    {
        match &state.current_view {
            AppView::PoolList => {
                if state.selected_pool_index < state.data_manager.pools.len() {
                    let name = state.data_manager.pools[state.selected_pool_index].name.clone();
                    state.current_view = AppView::DatasetView(name.clone());
                    state.selected_dataset_index = 0;
                    Action::FetchDatasets(name)
                } else {
                    Action::Idle
                }
            },
            AppView::DatasetView(pool) => {
                if state.selected_dataset_index < state.data_manager.datasets.len() {
                    let pool = pool.clone();
                    let name = state.data_manager.datasets[state.selected_dataset_index].name.clone();
                    state.current_view = AppView::SnapshotDetail(pool, name.clone());
                    state.reset_snapshot_selection();
                    match state.data_manager.load_snapshots(name.as_str()) {
                        SnapshotLoad::FromCache => {
                            state.sort_manager.sort_snapshots(state.data_manager.snapshots.as_mut_slice());
                            Action::Idle
                        },
                        SnapshotLoad::NeedsFetch => Action::FetchSnapshots(name),
                    }
                } else {
                    Action::Idle
                }
            },
            _ => Action::Idle,
        }
    }

    /// Returns to the enclosing view: datasets to pools, snapshots to their
    /// pool's datasets, help to the view it was opened from (the pool list
    /// where none was recorded), which is then forgotten.
    fn go_back(state: &mut AppState)
        requires
            old(state).wf(),
            !old(state).delete_confirmation_pending,
        ensures
            final(state).wf(),
            *final(state) == (AppState {
                current_view: final(state).current_view,
                previous_view: final(state).previous_view,
                ..*old(state)
            }),
            final(state).current_view == view_after_back(old(state).current_view, old(state).previous_view),
            final(state).previous_view == if old(state).current_view is Help {
                None
            } else {
                old(state).previous_view
            },
    {
        match &state.current_view {
            AppView::PoolList => {},
            AppView::DatasetView(_) => {
                state.current_view = AppView::PoolList;
            },
            AppView::SnapshotDetail(pool, _) => {
                state.current_view = AppView::DatasetView(pool.clone());
            },
            AppView::Help => {
                let prev = state.previous_view.take();
                state.current_view = match prev {
                    Some(v) => v,
                    None => AppView::PoolList,
                };
            },
        }
    }

    /// Opens help, remembering the current view, with the theme cursor on
    /// the active theme.
    fn show_help(state: &mut AppState)
        requires
            old(state).wf(),
            !old(state).delete_confirmation_pending,
        ensures
            final(state).wf(),
            final(state).current_view is Help,
            final(state).previous_view == Some(old(state).current_view),
            final(state).theme_manager.current_theme == old(state).theme_manager.current_theme,
            *final(state) == (AppState {
                current_view: AppView::Help,
                previous_view: Some(old(state).current_view),
                theme_manager: final(state).theme_manager,
                ..*old(state)
            }),
    {
        state.previous_view = Some(state.current_view.duplicate());
        state.current_view = AppView::Help;
        state.theme_manager.set_selected_index_from_theme();
    }

    /// In the dataset or snapshot view: advances that view's sort key,
    /// re-sorts, and puts the selection back at the top.
    fn toggle_sort(state: &mut AppState)
        requires
            old(state).wf(),
            !old(state).delete_confirmation_pending,
        ensures
            final(state).wf(),
            *final(state) == (AppState {
                sort_manager: final(state).sort_manager,
                data_manager: final(state).data_manager,
                selected_dataset_index: final(state).selected_dataset_index,
                dataset_scroll_offset: final(state).dataset_scroll_offset,
                selected_snapshot_index: final(state).selected_snapshot_index,
                snapshot_scroll_offset: final(state).snapshot_scroll_offset,
                status_help_text: final(state).status_help_text,
                status_help_color: final(state).status_help_color,
                ..*old(state)
            }),
            final(state).data_manager.pools == old(state).data_manager.pools,
            final(state).data_manager.snapshot_cache == old(state).data_manager.snapshot_cache,
            match old(state).current_view {
                AppView::DatasetView(_) => {
                    &&& final(state).sort_manager.snapshot_sort_order == old(state).sort_manager.snapshot_sort_order
                    &&& final(state).data_manager == (DataManager {
                        datasets: final(state).data_manager.datasets,
                        ..old(state).data_manager
                    })
                    &&& final(state).selected_snapshot_index == old(state).selected_snapshot_index
                    &&& final(state).snapshot_scroll_offset == old(state).snapshot_scroll_offset
                    &&& final(state).sort_manager.dataset_sort_order
                        == crate::sorting::following_dataset_order(old(state).sort_manager.dataset_sort_order)
                    &&& datasets_stably_sorted(
                        final(state).sort_manager.dataset_sort_order,
                        old(state).data_manager.datasets@,
                        final(state).data_manager.datasets@,
                    )
                    &&& final(state).selected_dataset_index == 0
                    &&& final(state).dataset_scroll_offset == 0
                },
                AppView::SnapshotDetail(_, _) => {
                    &&& final(state).sort_manager.dataset_sort_order == old(state).sort_manager.dataset_sort_order
                    &&& final(state).data_manager == (DataManager {
                        snapshots: final(state).data_manager.snapshots,
                        ..old(state).data_manager
                    })
                    &&& final(state).selected_dataset_index == old(state).selected_dataset_index
                    &&& final(state).dataset_scroll_offset == old(state).dataset_scroll_offset
                    &&& final(state).sort_manager.snapshot_sort_order
                        == crate::sorting::following_snapshot_order(old(state).sort_manager.snapshot_sort_order)
                    &&& snapshots_stably_sorted(
                        final(state).sort_manager.snapshot_sort_order,
                        old(state).data_manager.snapshots@,
                        final(state).data_manager.snapshots@,
                    )
                    &&& final(state).selected_snapshot_index == 0
                    &&& final(state).snapshot_scroll_offset == 0
                },
                _ => *final(state) == *old(state),
            },
    {
        match &state.current_view {
            AppView::DatasetView(_) => {
                state.sort_manager.toggle_dataset_sort();
                state.sort_manager.sort_datasets(state.data_manager.datasets.as_mut_slice());
                state.reset_dataset_selection();
            },
            AppView::SnapshotDetail(_, _) => {
                state.sort_manager.toggle_snapshot_sort();
                state.sort_manager.sort_snapshots(state.data_manager.snapshots.as_mut_slice());
                state.reset_snapshot_selection();
            },
            _ => {},
        }
    }

    /// The delete key in the snapshot view: with snapshots listed, a first
    /// press arms the deletion at time `now`; a press while armed disarms it
    /// and asks for the selected snapshot to be destroyed.
    fn handle_delete_key(state: &mut AppState, now: u64) -> (r: Action)
        requires
            old(state).wf(),
        ensures
            final(state).wf(),
            *final(state) == (AppState {
                delete_confirmation_pending: final(state).delete_confirmation_pending,
                delete_confirmation_timestamp: final(state).delete_confirmation_timestamp,
                status_help_text: final(state).status_help_text,
                status_help_color: final(state).status_help_color,
                ..*old(state)
            }),
            final(state).current_view == old(state).current_view,
            final(state).data_manager == old(state).data_manager,
            final(state).selected_snapshot_index == old(state).selected_snapshot_index,
            final(state).should_quit == old(state).should_quit,
            final(state).error_message == old(state).error_message,
            final(state).config == old(state).config,
            !(old(state).current_view is SnapshotDetail && old(state).data_manager.snapshots@.len() > 0)
                ==> *final(state) == *old(state) && r is Idle,
            (old(state).current_view is SnapshotDetail && old(state).data_manager.snapshots@.len() > 0
                && !old(state).delete_confirmation_pending) ==> {
                &&& final(state).delete_confirmation_pending
                &&& final(state).delete_confirmation_timestamp == Some(now)
                &&& r is Idle
            },
            (old(state).current_view is SnapshotDetail && old(state).data_manager.snapshots@.len() > 0
                && old(state).delete_confirmation_pending) ==> {
                &&& !final(state).delete_confirmation_pending
                &&& match old(state).current_view {
                    AppView::SnapshotDetail(_, dataset) => r == Action::DeleteSnapshot(
                        old(state).data_manager.snapshots@[old(state).selected_snapshot_index as int].name,
                        dataset,
                    ),
                    _ => false,
                }
            },
    {
        let dataset = match &state.current_view {
            AppView::SnapshotDetail(_, d) => d.clone(),
            _ => {
                return Action::Idle;
            },
        };
        if state.data_manager.snapshots.len() == 0 {
            return Action::Idle;
        }
        if !state.delete_confirmation_pending {
            state.start_delete_confirmation(now);
            return Action::Idle;
        }
        let snapshot = state.data_manager.snapshots[state.selected_snapshot_index].name.clone();
        state.clear_delete_confirmation();
        Action::DeleteSnapshot(snapshot, dataset)
    }

    /// Handles one key press at time `now` (milliseconds of a monotonic clock)
    /// and returns the outside work it asks for.
    ///
    /// An error on screen is dismissed and the key goes no further. Otherwise
    /// an armed deletion that has timed out is disarmed first, and any key but
    /// the delete key disarms one that has not. Then `q` or control-`c` quits;
    /// in help the arrows move and apply the theme cursor and the back keys
    /// leave; elsewhere `h` opens help, `s` toggles the sort, `d` arms or
    /// confirms a deletion, the back and forward keys navigate, and the up,
    /// down and page keys move the selection.
    pub fn handle_key_event(state: &mut AppState, key: Key, ctrl: bool, now: u64) -> (r: Action)
        requires
            old(state).wf(),
        ensures
            final(state).wf(),
            old(state).error_message is Some ==> {
                &&& r is Idle
                &&& final(state).error_message is None
                &&& *final(state) == (AppState {
                    error_message: None,
                    status_help_text: final(state).status_help_text,
                    status_help_color: final(state).status_help_color,
                    ..*old(state)
                })
            },
            old(state).error_message is None && is_quit_key(key, ctrl) ==> final(state).should_quit,
            old(state).error_message is None && old(state).delete_confirmation_pending && !is_delete_key(
                key,
                old(state).config.readonly,
            ) ==> !final(state).delete_confirmation_pending && !(r is DeleteSnapshot),
            old(state).error_message is None && old(state).delete_confirmation_pending && is_delete_key(
                key,
                old(state).config.readonly,
            ) && !confirmation_expired(old(state).delete_confirmation_timestamp, now) ==> {
                &&& !final(state).delete_confirmation_pending
                &&& match old(state).current_view {
                    AppView::SnapshotDetail(_, dataset) => r == Action::DeleteSnapshot(
                        old(state).data_manager.snapshots@[old(state).selected_snapshot_index as int].name,
                        dataset,
                    ),
                    _ => false,
                }
            },
            old(state).error_message is None && !old(state).delete_confirmation_pending && is_delete_key(
                key,
                old(state).config.readonly,
            ) && old(state).current_view is SnapshotDetail && old(state).data_manager.snapshots@.len() > 0
                ==> {
                &&& final(state).delete_confirmation_pending
                &&& final(state).delete_confirmation_timestamp == Some(now)
                &&& r is Idle
            },
            r is DeleteSnapshot ==> {
                &&& old(state).error_message is None
                &&& old(state).delete_confirmation_pending
                &&& is_delete_key(key, old(state).config.readonly)
                &&& !confirmation_expired(old(state).delete_confirmation_timestamp, now)
            },
            r is FetchDatasets ==> final(state).current_view is DatasetView,
            r is FetchSnapshots ==> final(state).current_view is SnapshotDetail,
            old(state).error_message is None && !(old(state).current_view is Help) ==> {
                &&& key == Key::Up ==> (final(state).selected_pool_index, final(state).selected_dataset_index, final(state).selected_snapshot_index) == selections_after_move(*old(state), 1, false)
                &&& key == Key::Down ==> (final(state).selected_pool_index, final(state).selected_dataset_index, final(state).selected_snapshot_index) == selections_after_move(*old(state), 1, true)
                &&& key == Key::PageUp ==> (final(state).selected_pool_index, final(state).selected_dataset_index, final(state).selected_snapshot_index) == selections_after_move(*old(state), PAGE_SIZE, false)
                &&& key == Key::PageDown ==> (final(state).selected_pool_index, final(state).selected_dataset_index, final(state).selected_snapshot_index) == selections_after_move(*old(state), PAGE_SIZE, true)
                &&& key == Key::Char('h') ==> final(state).current_view is Help && final(state).previous_view
                    == Some(old(state).current_view)
                &&& key == Key::Char('s') && old(state).current_view is DatasetView ==> {
                    &&& final(state).sort_manager.snapshot_sort_order == old(state).sort_manager.snapshot_sort_order
                    &&& final(state).data_manager.snapshots == old(state).data_manager.snapshots
                    &&& final(state).selected_snapshot_index == old(state).selected_snapshot_index
                    &&& final(state).selected_pool_index == old(state).selected_pool_index
                    &&& final(state).sort_manager.dataset_sort_order == crate::sorting::following_dataset_order(
                        old(state).sort_manager.dataset_sort_order,
                    )
                    &&& datasets_stably_sorted(
                        final(state).sort_manager.dataset_sort_order,
                        old(state).data_manager.datasets@,
                        final(state).data_manager.datasets@,
                    )
                    &&& final(state).selected_dataset_index == 0
                }
                &&& key == Key::Char('s') && old(state).current_view is SnapshotDetail ==> {
                    &&& final(state).sort_manager.dataset_sort_order == old(state).sort_manager.dataset_sort_order
                    &&& final(state).data_manager.datasets == old(state).data_manager.datasets
                    &&& final(state).selected_dataset_index == old(state).selected_dataset_index
                    &&& final(state).selected_pool_index == old(state).selected_pool_index
                    &&& final(state).sort_manager.snapshot_sort_order == crate::sorting::following_snapshot_order(
                        old(state).sort_manager.snapshot_sort_order,
                    )
                    &&& snapshots_stably_sorted(
                        final(state).sort_manager.snapshot_sort_order,
                        old(state).data_manager.snapshots@,
                        final(state).data_manager.snapshots@,
                    )
                    &&& final(state).selected_snapshot_index == 0
                }
                &&& is_forward_key(key) && old(state).current_view is PoolList && old(state).selected_pool_index
                    < old(state).data_manager.pools@.len() ==> {
                    let name = old(state).data_manager.pools@[old(state).selected_pool_index as int].name;
                    &&& final(state).current_view == AppView::DatasetView(name)
                    &&& r == Action::FetchDatasets(name)
                }
                &&& is_forward_key(key) && old(state).current_view is DatasetView && old(state).selected_dataset_index
                    < old(state).data_manager.datasets@.len() ==> {
                    let name = old(state).data_manager.datasets@[old(state).selected_dataset_index as int].name;
                    &&& final(state).current_view is SnapshotDetail
                    &&& (r is FetchSnapshots <==> !crate::data::served_from_cache(
                        old(state).data_manager.snapshot_cache@,
                        name@,
                    ))
                    &&& final(state).selected_snapshot_index == 0
                }
            },
            old(state).error_message is None && !acts_on_key(*old(state), key, ctrl) ==> {
                &&& r is Idle
                &&& *final(state) == (AppState {
                    delete_confirmation_pending: false,
                    delete_confirmation_timestamp: None,
                    status_help_text: final(state).status_help_text,
                    status_help_color: final(state).status_help_color,
                    ..*old(state)
                })
            },
            old(state).error_message is None && is_back_key(key) ==> final(state).current_view
                == view_after_back(old(state).current_view, old(state).previous_view),
            old(state).error_message is None && old(state).current_view is Help ==> {
                &&& key == Key::Up ==> final(state).theme_manager.selected_theme_index == if old(state).theme_manager.selected_theme_index > 0 {
                    (old(state).theme_manager.selected_theme_index - 1) as usize
                } else {
                    0
                }
                &&& key == Key::Down ==> final(state).theme_manager.selected_theme_index == if old(state).theme_manager.selected_theme_index < crate::theme::LAST_THEME_INDEX {
                    (old(state).theme_manager.selected_theme_index + 1) as usize
                } else {
                    old(state).theme_manager.selected_theme_index
                }
                &&& is_forward_key(key) ==> final(state).theme_manager.current_theme == crate::theme::theme_at(
                    old(state).theme_manager.selected_theme_index,
                )
            },
    {
        if state.error_message.is_some() {
            state.clear_error();
            return Action::Idle;
        }
        if state.delete_confirmation_pending && state.is_delete_confirmation_expired(now) {
            state.clear_delete_confirmation();
        }
        let delete_key = key == Key::Char('d') && !state.config.readonly;
        if state.delete_confirmation_pending && !delete_key {
            state.clear_delete_confirmation();
        }
        let quit = key == Key::Char('q') || (key == Key::Char('c') && ctrl);
        if quit {
            state.should_quit = true;
            return Action::Idle;
        }
        if delete_key {
            return Self::handle_delete_key(state, now);
        }
        let in_help = match &state.current_view {
            AppView::Help => true,
            _ => false,
        };
        if in_help {
            match key {
                Key::Esc | Key::Backspace | Key::Left => Self::go_back(state),
                Key::Up => state.theme_manager.previous_theme(),
                Key::Down => state.theme_manager.next_theme(),
                Key::Enter | Key::Right => state.theme_manager.select_theme(),
                _ => {},
            }
            return Action::Idle;
        }
        match key {
            Key::Char('h') => {
                Self::show_help(state);
                Action::Idle
            },
            Key::Char('s') => {
                Self::toggle_sort(state);
                Action::Idle
            },
            Key::Esc | Key::Backspace | Key::Left => {
                Self::go_back(state);
                Action::Idle
            },
            Key::Enter | Key::Right => Self::go_forward(state),
            Key::Up => {
                Self::move_selection(state, 1, false);
                Action::Idle
            },
            Key::Down => {
                Self::move_selection(state, 1, true);
                Action::Idle
            },
            Key::PageUp => {
                Self::move_selection(state, PAGE_SIZE, false);
                Action::Idle
            },
            Key::PageDown => {
                Self::move_selection(state, PAGE_SIZE, true);
                Action::Idle
            },
            _ => Action::Idle,
        }
    }

    /// The periodic check: disarms a deletion whose confirmation has timed
    /// out by `now`, and changes nothing else.
    pub fn tick(state: &mut AppState, now: u64)
        requires
            old(state).wf(),
        ensures
            final(state).wf(),
            confirmation_expired(old(state).delete_confirmation_timestamp, now) ==> {
                &&& !final(state).delete_confirmation_pending
                &&& *final(state) == (AppState {
                    delete_confirmation_pending: false,
                    delete_confirmation_timestamp: None,
                    status_help_text: final(state).status_help_text,
                    status_help_color: final(state).status_help_color,
                    ..*old(state)
                })
            },
            !confirmation_expired(old(state).delete_confirmation_timestamp, now) ==> *final(state)
                == *old(state),
    {
        if state.delete_confirmation_pending && state.is_delete_confirmation_expired(now) {
            state.clear_delete_confirmation();
        }
    }

    /// Takes the outcome of `Action::FetchDatasets`: on success the list is
    /// replaced, sorted by the current key, and the selection goes to the
    /// top. A failure is shown as an error and the list stays as it was; the
    /// dataset view, which would show another pool's datasets, gives way to
    /// the pool list.
    pub fn datasets_loaded(state: &mut AppState, fetched: Result<Vec<Dataset>, FetchError>)
        requires
            old(state).wf(),
        ensures
            final(state).wf(),
            final(state).current_view == if fetched is Err && old(state).current_view is DatasetView {
                AppView::PoolList
            } else {
                old(state).current_view
            },
            final(state).data_manager.snapshots == old(state).data_manager.snapshots,
            final(state).data_manager.snapshot_cache == old(state).data_manager.snapshot_cache,
            match fetched {
                Ok(v) => {
                    &&& datasets_stably_sorted(old(state).sort_manager.dataset_sort_order, v@, final(state).data_manager.datasets@)
                    &&& final(state).selected_dataset_index == 0
                    &&& final(state).dataset_scroll_offset == 0
                    &&& final(state).error_message == old(state).error_message
                },
                Err(e) => {
                    &&& final(state).error_message == Some(e.message)
                    &&& final(state).data_manager.datasets == old(state).data_manager.datasets
                },
            },
    {
        if fetched.is_ok() {
            state.reset_dataset_selection();
        }
        match state.data_manager.load_datasets(fetched) {
            Ok(()) => {
                state.sort_manager.sort_datasets(state.data_manager.datasets.as_mut_slice());
            },
            Err(e) => {
                if let AppView::DatasetView(_) = &state.current_view {
                    state.current_view = AppView::PoolList;
                }
                state.set_error(e.message);
            },
        }
    }

    /// Takes the outcome of `Action::FetchSnapshots` for a dataset: on success
    /// the list is written through to the cache, sorted by the current key,
    /// and the selection goes to the top; a failure is shown as an error.
    /// An armed deletion is disarmed either way.
    pub fn snapshots_loaded(
        state: &mut AppState,
        dataset_name: &str,
        fetched: Result<Vec<Snapshot>, FetchError>,
    )
        requires
            old(state).wf(),
        ensures
            final(state).wf(),
            !final(state).delete_confirmation_pending,
            final(state).delete_confirmation_timestamp is None,
            final(state).current_view == old(state).current_view,
            final(state).data_manager.datasets == old(state).data_manager.datasets,
            match fetched {
                Ok(v) => {
                    &&& final(state).data_manager.snapshot_cache@ == old(state).data_manager.snapshot_cache@.insert(
                        dataset_name@,
                        v@,
                    )
                    &&& snapshots_stably_sorted(old(state).sort_manager.snapshot_sort_order, v@, final(state).data_manager.snapshots@)
                    &&& final(state).selected_snapshot_index == 0
                    &&& final(state).snapshot_scroll_offset == 0
                },
                Err(e) => {
                    &&& final(state).error_message == Some(e.message)
                    &&& final(state).data_manager.snapshots == old(state).data_manager.snapshots
                    &&& final(state).data_manager.snapshot_cache == old(state).data_manager.snapshot_cache
                },
            },
    {
        if state.delete_confirmation_pending {
            state.clear_delete_confirmation();
        }
        if fetched.is_ok() {
            state.reset_snapshot_selection();
        }
        match state.data_manager.reload_snapshots(dataset_name, fetched) {
            Ok(()) => {
                state.sort_manager.sort_snapshots(state.data_manager.snapshots.as_mut_slice());
            },
            Err(e) => {
                state.set_error(e.message);
            },
        }
    }

    /// Takes the outcome of `Action::DeleteSnapshot`: success asks for the
    /// dataset's snapshots to be listed afresh; a failure is shown as an
    /// error classified from the tool's diagnostic (see `delete_error_text`).
    pub fn delete_finished(state: &mut AppState, dataset_name: &str, result: Result<(), FetchError>) -> (r: Action)
        requires
            old(state).wf(),
        ensures
            final(state).wf(),
            match result {
                Ok(()) => {
                    &&& *final(state) == *old(state)
                    &&& (r matches Action::ReloadSnapshots(d) && d@ == dataset_name@)
                },
                Err(e) => {
                    &&& r is Idle
                    &&& final(state).error_message matches Some(m) && m@ == delete_error_text(e.message@)
                    &&& *final(state) == (AppState {
                        error_message: final(state).error_message,
                        status_help_text: final(state).status_help_text,
                        status_help_color: final(state).status_help_color,
                        ..*old(state)
                    })
                },
            },
    {
        match result {
            Ok(()) => Action::ReloadSnapshots(dataset_name.to_owned()),
            Err(e) => {
                let message = delete_error_message(e.message.as_str());
                state.set_error(message);
                Action::Idle
            },
        }
    }

    /// Takes the outcome of `Action::ReloadSnapshots`: on success the list is
    /// written through to the cache and sorted, and a selection past its end
    /// moves to the last item; a failure is shown as an error. An armed
    /// deletion is disarmed either way.
    pub fn snapshots_reloaded(
        state: &mut AppState,
        dataset_name: &str,
        fetched: Result<Vec<Snapshot>, FetchError>,
    )
        requires
            old(state).wf(),
        ensures
            final(state).wf(),
            !final(state).delete_confirmation_pending,
            final(state).delete_confirmation_timestamp is None,
            final(state).current_view == old(state).current_view,
            match fetched {
                Ok(v) => {
                    &&& final(state).data_manager.snapshot_cache@ == old(state).data_manager.snapshot_cache@.insert(
                        dataset_name@,
                        v@,
                    )
                    &&& snapshots_stably_sorted(old(state).sort_manager.snapshot_sort_order, v@, final(state).data_manager.snapshots@)
                    &&& final(state).selected_snapshot_index == if old(state).selected_snapshot_index < v@.len() {
                        old(state).selected_snapshot_index as int
                    } else if v@.len() == 0 {
                        0
                    } else {
                        v@.len() - 1
                    }
                },
                Err(e) => {
                    &&& final(state).error_message == Some(e.message)
                    &&& final(state).data_manager.snapshots == old(state).data_manager.snapshots
                },
            },
    {
        if state.delete_confirmation_pending {
            state.clear_delete_confirmation();
        }
        match state.data_manager.reload_snapshots(dataset_name, fetched) {
            Ok(()) => {
                state.sort_manager.sort_snapshots(state.data_manager.snapshots.as_mut_slice());
                let n = state.data_manager.snapshots.len();
                if state.selected_snapshot_index >= n {
                    state.selected_snapshot_index = if n == 0 {
                        0
                    } else {
                        n - 1
                    };
                }
                state.update_status_help_text();
            },
            Err(e) => {
                state.set_error(e.message);
            },
        }
    }

    /// Takes the outcome of the pool query at startup: on success the pools
    /// are replaced and the selection goes to the first; a failure is shown
    /// as an error, handed back, and changes nothing else.
    pub fn pools_loaded(state: &mut AppState, fetched: Result<Vec<crate::zfs::Pool>, FetchError>) -> (r: Result<(), FetchError>)
        requires
            old(state).wf(),
        ensures
            final(state).wf(),
            match fetched {
                Ok(v) => {
                    &&& r is Ok
                    &&& final(state).data_manager.pools@ == v@
                    &&& final(state).selected_pool_index == 0
                    &&& final(state).data_manager.prefetch_total == 0
                    &&& !final(state).data_manager.prefetch_complete
                },
                Err(e) => {
                    &&& r == Err::<(), FetchError>(e)
                    &&& *final(state) == (AppState {
                        error_message: Some(e.message),
                        status_help_text: final(state).status_help_text,
                        status_help_color: final(state).status_help_color,
                        ..*old(state)
                    })
                },
            },
    {
        match state.data_manager.load_pools(fetched) {
            Ok(()) => {
                state.selected_pool_index = 0;
                Ok(())
            },
            Err(e) => {
                state.set_error(e.message.clone());
                Err(e)
            },
        }
    }
}

} // verus!
