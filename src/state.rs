use vstd::prelude::*;

use crate::config::Config;
use crate::data::DataManager;
use crate::sorting::SortManager;
use crate::text::{chars_of, lemma_split_on_nonempty, push_str, split_chars, split_on, string_from_chars};
use crate::theme::{Color, ThemeManager};
use crate::zfs::Snapshot;

verus! {

/// The screen being shown.
#[derive(Debug, Clone)]
pub enum AppView {
    PoolList,
    /// The datasets of the named pool.
    DatasetView(String),
    /// The snapshots of a dataset: pool name, dataset name.
    SnapshotDetail(String, String),
    Help,
}

impl AppView {
    /// A copy that is provably equal to `self`.
    pub fn duplicate(&self) -> (r: AppView)
        ensures
            r == *self,
    {
        match self {
            AppView::PoolList => AppView::PoolList,
            AppView::DatasetView(p) => AppView::DatasetView(p.clone()),
            AppView::SnapshotDetail(p, d) => AppView::SnapshotDetail(p.clone(), d.clone()),
            AppView::Help => AppView::Help,
        }
    }
}

/// How long an armed deletion waits for its confirmation, in milliseconds.
pub const DELETE_CONFIRMATION_TIMEOUT_MS: u64 = 3000;

/// An armed deletion stamped `ts` has run out by time `now` (milliseconds
/// of a monotonic clock).
pub open spec fn confirmation_expired(ts: Option<u64>, now: u64) -> bool {
    match ts {
        Some(t) => now as int >= t as int + DELETE_CONFIRMATION_TIMEOUT_MS as int,
        None => false,
    }
}

/// A selection index is valid for a collection of `n` items: below `n`, or
/// zero when the collection is empty.
pub open spec fn selection_ok(i: usize, n: nat) -> bool {
    if n == 0 {
        i == 0
    } else {
        i < n
    }
}

/// The label of a snapshot: what follows the last `@` of its name.
pub open spec fn short_snapshot_name(name: Seq<char>) -> Seq<char> {
    split_on(name, '@').last()
}

/// The key help shown when nothing else needs saying.
pub open spec fn default_help_text() -> Seq<char> {
    "↑/↓: Navigate | PgUp/PgDn: Page | d: Delete | s: Sort | ←/Esc: Back | h: Help | q: Quit"@
}

/// The status line: a pending error first, then an armed deletion in the
/// snapshot view, else the key help.
pub open spec fn status_text_for(
    error: Option<String>,
    pending: bool,
    view: AppView,
    snapshots: Seq<Snapshot>,
    sel: usize,
) -> Seq<char> {
    match error {
        Some(e) => "ERROR: "@ + e@ + " (Press any key to continue)"@,
        None => if pending && view is SnapshotDetail {
            if sel < snapshots.len() {
                "⚠️  DELETE "@ + short_snapshot_name(snapshots[sel as int].name@)
                    + ": Press 'd' again to CONFIRM"@
            } else {
                "⚠️  Press 'd' again to CONFIRM DELETION"@
            }
        } else {
            default_help_text()
        },
    }
}

/// The colour of the status line.
pub open spec fn status_color_for(error: Option<String>, pending: bool, view: AppView) -> Color {
    if error is Some {
        Color::Red
    } else if pending && view is SnapshotDetail {
        Color::Yellow
    } else {
        Color::Reset
    }
}

/// The label of a snapshot (see `short_snapshot_name`).
pub fn short_name(name: &String) -> (r: Vec<char>)
    ensures
        r@ == short_snapshot_name(name@),
{
    let mut parts = split_chars(&chars_of(name.as_str()), '@');
    proof {
        lemma_split_on_nonempty(name@, '@');
    }
    let last = parts.pop().unwrap();
    last
}

/// Everything the dashboard shows and the input loop changes.
pub struct AppState {
    pub should_quit: bool,
    pub current_view: AppView,
    pub previous_view: Option<AppView>,
    pub selected_pool_index: usize,
    pub selected_dataset_index: usize,
    pub selected_snapshot_index: usize,
    pub dataset_scroll_offset: usize,
    pub snapshot_scroll_offset: usize,
    pub data_manager: DataManager,
    pub sort_manager: SortManager,
    pub theme_manager: ThemeManager,
    pub config: Config,
    pub delete_confirmation_pending: bool,
    /// When the deletion was armed, in milliseconds of a monotonic clock.
    pub delete_confirmation_timestamp: Option<u64>,
    pub error_message: Option<String>,
    pub status_help_text: String,
    pub status_help_color: Color,
}


/// In every well-formed state, each selection lies inside its collection
/// whenever the collection has items, and is zero when it has none.
pub proof fn lemma_selection_in_bounds(s: AppState)
    requires
        s.wf(),
    ensures
        s.data_manager.pools@.len() > 0 ==> s.selected_pool_index < s.data_manager.pools@.len(),
        s.data_manager.datasets@.len() > 0 ==> s.selected_dataset_index < s.data_manager.datasets@.len(),
        s.data_manager.snapshots@.len() > 0 ==> s.selected_snapshot_index
            < s.data_manager.snapshots@.len(),
        s.data_manager.pools@.len() == 0 ==> s.selected_pool_index == 0,
        s.data_manager.datasets@.len() == 0 ==> s.selected_dataset_index == 0,
        s.data_manager.snapshots@.len() == 0 ==> s.selected_snapshot_index == 0,
{
}

/// The scroll offset that keeps selection `sel` of `n` items inside a window
/// of `h` rows, moving the window as little as possible from `offset` and
/// never past the end.
pub open spec fn scrolled_offset(offset: usize, sel: usize, h: usize, n: usize) -> usize {
    if n <= h {
        0
    } else {
        let moved: int = if sel < offset {
            sel as int
        } else if sel >= offset + h {
            sel + 1 - h
        } else {
            offset as int
        };
        if moved > n - h {
            (n - h) as usize
        } else {
            moved as usize
        }
    }
}

fn scroll_offset(offset: usize, sel: usize, h: usize, n: usize) -> (r: usize)
    ensures
        r == scrolled_offset(offset, sel, h, n),
        n <= h ==> r == 0,
        n > h ==> r <= n - h,
        n > h && h > 0 && sel < n ==> r <= sel < r + h,
{
    if n <= h {
        0
    } else {
        let max_scroll = n - h;
        let moved = if sel < offset {
            sel
        } else if sel - offset >= h {
            if sel >= n {
                max_scroll
            } else {
                sel + 1 - h
            }
        } else {
            offset
        };
        if moved > max_scroll {
            max_scroll
        } else {
            moved
        }
    }
}

impl AppState {
    /// Selections fit their collections, an armed deletion has its time stamp
    /// and belongs to the snapshot view, and the status line is current.
    pub open spec fn wf(&self) -> bool {
        &&& self.wf_except_status()
        &&& self.status_current()
    }

    /// All of `wf` except that the status line is current.
    pub open spec fn wf_except_status(&self) -> bool {
        &&& self.data_manager.wf()
        &&& selection_ok(self.selected_pool_index, self.data_manager.pools@.len())
        &&& selection_ok(self.selected_dataset_index, self.data_manager.datasets@.len())
        &&& selection_ok(self.selected_snapshot_index, self.data_manager.snapshots@.len())
        &&& self.delete_confirmation_pending == self.delete_confirmation_timestamp is Some
        &&& self.delete_confirmation_pending ==> self.current_view is SnapshotDetail
            && self.selected_snapshot_index < self.data_manager.snapshots@.len()
    }

    /// The status line matches the error, the armed deletion and the view.
    pub open spec fn status_current(&self) -> bool {
        &&& self.status_help_text@ == status_text_for(
            self.error_message,
            self.delete_confirmation_pending,
            self.current_view,
            self.data_manager.snapshots@,
            self.selected_snapshot_index,
        )
        &&& self.status_help_color == status_color_for(
            self.error_message,
            self.delete_confirmation_pending,
            self.current_view,
        )
    }

    /// The starting state: the pool list with nothing loaded, and a prefetch
    /// concurrency taken from `config` and the detected processor count.
    pub fn new(config: Config, detected_cpus: Option<usize>) -> (r: Self)
        ensures
            r.wf(),
            !r.should_quit,
            r.current_view is PoolList,
            r.previous_view is None,
            r.selected_pool_index == 0,
            r.selected_dataset_index == 0,
            r.selected_snapshot_index == 0,
            r.dataset_scroll_offset == 0,
            r.snapshot_scroll_offset == 0,
            r.data_manager.pools@.len() == 0,
            r.data_manager.thread_count == crate::config::thread_count_for(config.threads, detected_cpus),
            r.config == config,
            !r.delete_confirmation_pending,
            r.error_message is None,
    {
        let threads = config.effective_thread_count(detected_cpus);
        let text = "↑/↓: Navigate | PgUp/PgDn: Page | d: Delete | s: Sort | ←/Esc: Back | h: Help | q: Quit";
        AppState {
            should_quit: false,
            current_view: AppView::PoolList,
            previous_view: None,
            selected_pool_index: 0,
            selected_dataset_index: 0,
            selected_snapshot_index: 0,
            dataset_scroll_offset: 0,
            snapshot_scroll_offset: 0,
            data_manager: DataManager::new(threads),
            sort_manager: SortManager::new(),
            theme_manager: ThemeManager::new(),
            config,
            delete_confirmation_pending: false,
            delete_confirmation_timestamp: None,
            error_message: None,
            status_help_text: text.to_owned(),
            status_help_color: Color::Reset,
        }
    }

    /// Recomputes the status line from the error, the armed deletion and the
    /// view (see `status_text_for`).
    pub fn update_status_help_text(&mut self)
        requires
            old(self).wf_except_status(),
        ensures
            final(self).wf(),
            *final(self) == (AppState {
                status_help_text: final(self).status_help_text,
                status_help_color: final(self).status_help_color,
                ..*old(self)
            }),
    {
        let mut out: Vec<char> = Vec::new();
        match &self.error_message {
            Some(e) => {
                push_str(&mut out, "ERROR: ");
                push_str(&mut out, e.as_str());
                push_str(&mut out, " (Press any key to continue)");
                assert(out@ =~= "ERROR: "@ + e@ + " (Press any key to continue)"@);
                self.status_help_color = Color::Red;
            },
            None => {
                let in_snapshots = match &self.current_view {
                    AppView::SnapshotDetail(_, _) => true,
                    _ => false,
                };
                if self.delete_confirmation_pending && in_snapshots {
                    if self.selected_snapshot_index < self.data_manager.snapshots.len() {
                        let label = short_name(&self.data_manager.snapshots[self.selected_snapshot_index].name);
                        push_str(&mut out, "⚠️  DELETE ");
                        let ghost before = out@;
                        let mut k: usize = 0;
                        while k < label.len()
                            invariant
                                k <= label@.len(),
                                out@ == before + label@.take(k as int),
                            decreases label@.len() - k,
                        {
                            out.push(label[k]);
                            k = k + 1;
                            assert(out@ =~= before + label@.take(k as int));
                        }
                        assert(label@.take(label@.len() as int) =~= label@);
                        push_str(&mut out, ": Press 'd' again to CONFIRM");
                        assert(out@ =~= "⚠️  DELETE "@ + label@ + ": Press 'd' again to CONFIRM"@);
                    } else {
                        push_str(&mut out, "⚠️  Press 'd' again to CONFIRM DELETION");
                        assert(out@ =~= "⚠️  Press 'd' again to CONFIRM DELETION"@);
                    }
                    self.status_help_color = Color::Yellow;
                } else {
                    push_str(
                        &mut out,
                        "↑/↓: Navigate | PgUp/PgDn: Page | d: Delete | s: Sort | ←/Esc: Back | h: Help | q: Quit",
                    );
                    assert(out@ =~= default_help_text());
                    self.status_help_color = Color::Reset;
                }
            },
        }
        self.status_help_text = string_from_chars(&out);
    }

    /// Puts the dataset selection and its window back at the top.
    pub fn reset_dataset_selection(&mut self)
        requires
            old(self).wf(),
        ensures
            final(self).wf(),
            *final(self) == (AppState {
                selected_dataset_index: 0,
                dataset_scroll_offset: 0,
                ..*old(self)
            }),
    {
        self.selected_dataset_index = 0;
        self.dataset_scroll_offset = 0;
    }

    /// Puts the snapshot selection and its window back at the top.
    pub fn reset_snapshot_selection(&mut self)
        requires
            old(self).wf(),
        ensures
            final(self).wf(),
            final(self).selected_snapshot_index == 0,
            final(self).snapshot_scroll_offset == 0,
            *final(self) == (AppState {
                selected_snapshot_index: 0,
                snapshot_scroll_offset: 0,
                status_help_text: final(self).status_help_text,
                status_help_color: final(self).status_help_color,
                ..*old(self)
            }),
    {
        self.selected_snapshot_index = 0;
        self.snapshot_scroll_offset = 0;
        self.update_status_help_text();
    }

    /// Arms a deletion at time `now`; only the snapshot view, with a snapshot
    /// selected, can arm one.
    pub fn start_delete_confirmation(&mut self, now: u64)
        requires
            old(self).wf(),
        ensures
            final(self).wf(),
            old(self).current_view is SnapshotDetail && old(self).selected_snapshot_index < old(
                self,
            ).data_manager.snapshots@.len() ==> final(self).delete_confirmation_pending
                && final(self).delete_confirmation_timestamp == Some(now),
            !(old(self).current_view is SnapshotDetail && old(self).selected_snapshot_index < old(
                self,
            ).data_manager.snapshots@.len()) ==> *final(self) == *old(self),
            *final(self) == (AppState {
                delete_confirmation_pending: final(self).delete_confirmation_pending,
                delete_confirmation_timestamp: final(self).delete_confirmation_timestamp,
                status_help_text: final(self).status_help_text,
                status_help_color: final(self).status_help_color,
                ..*old(self)
            }),
    {
        let in_snapshots = match &self.current_view {
            AppView::SnapshotDetail(_, _) => true,
            _ => false,
        };
        if in_snapshots && self.selected_snapshot_index < self.data_manager.snapshots.len() {
            self.delete_confirmation_pending = true;
            self.delete_confirmation_timestamp = Some(now);
            self.update_status_help_text();
        }
    }

    /// Disarms any armed deletion.
    pub fn clear_delete_confirmation(&mut self)
        requires
            old(self).wf(),
        ensures
            final(self).wf(),
            !final(self).delete_confirmation_pending,
            final(self).delete_confirmation_timestamp is None,
            *final(self) == (AppState {
                delete_confirmation_pending: false,
                delete_confirmation_timestamp: None,
                status_help_text: final(self).status_help_text,
                status_help_color: final(self).status_help_color,
                ..*old(self)
            }),
    {
        self.delete_confirmation_pending = false;
        self.delete_confirmation_timestamp = None;
        self.update_status_help_text();
    }

    /// Whether the armed deletion, if any, has waited out its timeout by `now`.
    pub fn is_delete_confirmation_expired(&self, now: u64) -> (r: bool)
        ensures
            r == confirmation_expired(self.delete_confirmation_timestamp, now),
    {
        match self.delete_confirmation_timestamp {
            Some(t) => now >= t && now - t >= DELETE_CONFIRMATION_TIMEOUT_MS,
            None => false,
        }
    }

    /// Shows an error until the next key press.
    pub fn set_error(&mut self, message: String)
        requires
            old(self).wf(),
        ensures
            final(self).wf(),
            final(self).error_message == Some(message),
            *final(self) == (AppState {
                error_message: Some(message),
                status_help_text: final(self).status_help_text,
                status_help_color: final(self).status_help_color,
                ..*old(self)
            }),
    {
        self.error_message = Some(message);
        self.update_status_help_text();
    }

    /// Dismisses the error.
    pub fn clear_error(&mut self)
        requires
            old(self).wf(),
        ensures
            final(self).wf(),
            final(self).error_message is None,
            *final(self) == (AppState {
                error_message: None,
                status_help_text: final(self).status_help_text,
                status_help_color: final(self).status_help_color,
                ..*old(self)
            }),
    {
        self.error_message = None;
        self.update_status_help_text();
    }

    /// The rows `[start, end)` of a list of `total_items` shown in a window
    /// of `visible_height` rows, from the current view's scroll offset.
    pub fn get_visible_range(&self, total_items: usize, visible_height: usize) -> (r: (usize, usize))
        ensures
            r.0 == match self.current_view {
                AppView::DatasetView(_) => self.dataset_scroll_offset,
                AppView::SnapshotDetail(_, _) => self.snapshot_scroll_offset,
                _ => 0,
            },
            r.1 as int == if r.0 + visible_height <= total_items {
                r.0 + visible_height
            } else {
                total_items as int
            },
    {
        let start = match &self.current_view {
            AppView::DatasetView(_) => self.dataset_scroll_offset,
            AppView::SnapshotDetail(_, _) => self.snapshot_scroll_offset,
            _ => 0,
        };
        let end = if start <= total_items && visible_height <= total_items - start {
            start + visible_height
        } else {
            total_items
        };
        (start, end)
    }

    /// Moves the current view's scroll window so that the selection stays
    /// in view (see `scrolled_offset`); other views have no window.
    pub fn update_scroll(&mut self, visible_height: usize)
        requires
            old(self).wf(),
        ensures
            final(self).wf(),
            *final(self) == (AppState {
                dataset_scroll_offset: final(self).dataset_scroll_offset,
                snapshot_scroll_offset: final(self).snapshot_scroll_offset,
                ..*old(self)
            }),
            match old(self).current_view {
                AppView::DatasetView(_) => {
                    &&& final(self).dataset_scroll_offset == scrolled_offset(
                        old(self).dataset_scroll_offset,
                        old(self).selected_dataset_index,
                        visible_height,
                        old(self).data_manager.datasets@.len() as usize,
                    )
                    &&& final(self).snapshot_scroll_offset == old(self).snapshot_scroll_offset
                },
                AppView::SnapshotDetail(_, _) => {
                    &&& final(self).snapshot_scroll_offset == scrolled_offset(
                        old(self).snapshot_scroll_offset,
                        old(self).selected_snapshot_index,
                        visible_height,
                        old(self).data_manager.snapshots@.len() as usize,
                    )
                    &&& final(self).dataset_scroll_offset == old(self).dataset_scroll_offset
                },
                _ => {
                    &&& final(self).dataset_scroll_offset == old(self).dataset_scroll_offset
                    &&& final(self).snapshot_scroll_offset == old(self).snapshot_scroll_offset
                },
            },
            (old(self).current_view is DatasetView && visible_height > 0
                && old(self).data_manager.datasets@.len() > 0) ==> final(self).dataset_scroll_offset
                <= final(self).selected_dataset_index < final(self).dataset_scroll_offset + visible_height,
            (old(self).current_view is SnapshotDetail && visible_height > 0
                && old(self).data_manager.snapshots@.len() > 0) ==> final(self).snapshot_scroll_offset
                <= final(self).selected_snapshot_index < final(self).snapshot_scroll_offset + visible_height,
    {
        match &self.current_view {
            AppView::DatasetView(_) => {
                self.dataset_scroll_offset = scroll_offset(
                    self.dataset_scroll_offset,
                    self.selected_dataset_index,
                    visible_height,
                    self.data_manager.datasets.len(),
                );
            },
            AppView::SnapshotDetail(_, _) => {
                self.snapshot_scroll_offset = scroll_offset(
                    self.snapshot_scroll_offset,
                    self.selected_snapshot_index,
                    visible_height,
                    self.data_manager.snapshots.len(),
                );
            },
            _ => {},
        }
    }
}

} // verus!
