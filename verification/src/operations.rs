//! The operation in flight: an update or an uninstall that goes through its
//! stages by the clock.
//!
//! The real action and the queries that follow an operation are the
//! caller's business. `update_mock_progress` says what is to be done, and
//! the caller reports back what came of it.

use vstd::prelude::*;
use vstd::string::*;
use crate::app::{after_status, display_items, App, AppState, ModalState, UpdateStage};
use crate::brew_info_response::BrewInfoResponse;
use crate::clock::{elapsed, elapsed_since};
use crate::navigation::selected_record;
use crate::package_info::{has_update, records_of, PackageInfo, PackageRecord};
use crate::repository::{after_tombstone, refreshed_package, FetchError};
use crate::search::{after_refresh_packages, names_of_records, position_of_package};
use crate::text::{
    copy_text, first_match, join, join3, lemma_filter_empty, lemma_filter_push, text_of,
};

verus! {

/// An update leaves `Starting` after this many milliseconds.
pub const DOWNLOADING_AFTER_MS: u64 = 800;

/// An update leaves `Downloading` after this many milliseconds.
pub const INSTALLING_AFTER_MS: u64 = 2500;

/// An update carries out its real action and leaves `Installing` after this
/// many milliseconds.
pub const COMPLETING_AFTER_MS: u64 = 4000;

/// An update leaves `Completing` after this many milliseconds.
pub const FINISHED_AFTER_MS: u64 = 5000;

/// An update ends after this many milliseconds.
pub const UPDATE_ENDS_AFTER_MS: u64 = 6000;

/// An uninstall leaves `UninstallStarting` after this many milliseconds.
pub const REMOVING_AFTER_MS: u64 = 500;

/// An uninstall carries out its real action and leaves `UninstallRemoving`
/// after this many milliseconds.
pub const CLEANING_AFTER_MS: u64 = 2000;

/// An uninstall leaves `UninstallCleaning` after this many milliseconds.
pub const UNINSTALL_FINISHED_AFTER_MS: u64 = 3500;

/// An uninstall ends after this many milliseconds.
pub const UNINSTALL_ENDS_AFTER_MS: u64 = 4500;

/// What the caller is to do after a tick.
#[derive(Debug, Clone, PartialEq, Eq)]
pub enum TickAction {
    /// Nothing.
    Nothing,
    /// Update the package for real, and report the outcome with
    /// `real_action_finished`.
    RunUpdate(String),
    /// Uninstall the package for real, and report the outcome with
    /// `real_action_finished`.
    RunUninstall(String),
    /// The update has ended: query the package, then the whole directory,
    /// and hand both outcomes to `complete_update` with this selection.
    ReloadAfterUpdate { name: String, selection: Option<usize> },
    /// The uninstall has ended: query the whole directory and hand the
    /// outcome to `complete_uninstall` with this selection.
    ReloadAfterUninstall { name: String, selection: Option<usize> },
}

/// What the caller is to do after a tick, as mathematical values.
pub enum ActionView {
    Nothing,
    RunUpdate(Seq<char>),
    RunUninstall(Seq<char>),
    ReloadAfterUpdate { name: Seq<char>, selection: Option<usize> },
    ReloadAfterUninstall { name: Seq<char>, selection: Option<usize> },
}

impl View for TickAction {
    type V = ActionView;

    open spec fn view(&self) -> ActionView {
        match *self {
            TickAction::Nothing => ActionView::Nothing,
            TickAction::RunUpdate(name) => ActionView::RunUpdate(name@),
            TickAction::RunUninstall(name) => ActionView::RunUninstall(name@),
            TickAction::ReloadAfterUpdate { name, selection } => ActionView::ReloadAfterUpdate {
                name: name@,
                selection,
            },
            TickAction::ReloadAfterUninstall { name, selection } => ActionView::ReloadAfterUninstall {
                name: name@,
                selection,
            },
        }
    }
}

/// The application without an operation in flight: everything that
/// belonged to the session is cleared, and the progress window is closed.
pub open spec fn cleared(state: AppState) -> AppState {
    AppState {
        is_updating: false,
        is_uninstalling: false,
        real_update_called: false,
        real_action_pending: false,
        update_package_name: None,
        update_start_time: None,
        update_stage: UpdateStage::Idle,
        modal_state: ModalState::Closed,
        ..state
    }
}

/// The time since the operation started; zero where no start is known.
pub open spec fn session_elapsed(state: AppState, now: u64) -> u64 {
    match state.update_start_time {
        Some(start) => elapsed(now, start),
        None => 0,
    }
}

/// The application after the operation in flight has moved on to `stage`
/// with the message `words` around the package's name.
pub open spec fn advanced(
    state: AppState,
    stage: UpdateStage,
    before: Seq<char>,
    name: Seq<char>,
    after: Seq<char>,
    now: u64,
) -> AppState {
    after_status(AppState { update_stage: stage, ..state }, before + name + after, now)
}

/// Whether a tick at `now` hands out the real action: an operation is in
/// flight and knows its package, the action has neither been handed out nor
/// carried out, and the operation has reached the end of the stage in which
/// its kind acts.
pub open spec fn hands_out_real_action(state: AppState, now: u64) -> bool {
    &&& state.is_updating
    &&& !state.real_action_pending
    &&& !state.real_update_called
    &&& state.update_package_name is Some
    &&& match state.update_stage {
        UpdateStage::Installing => !state.is_uninstalling && session_elapsed(state, now)
            > COMPLETING_AFTER_MS,
        UpdateStage::UninstallRemoving => state.is_uninstalling && session_elapsed(state, now)
            > CLEANING_AFTER_MS,
        _ => false,
    }
}

/// The packages without those named `name`.
pub open spec fn is_other(name: Seq<char>) -> spec_fn(PackageRecord) -> bool {
    |record: PackageRecord| record.name != name
}

/// The row to select once the selected package is gone: the one above, or
/// the first.
pub open spec fn selection_after_removal(selected: Option<usize>) -> Option<usize> {
    match selected {
        Some(row) => if row > 0 {
            Some((row - 1) as usize)
        } else {
            Some(0)
        },
        None => None,
    }
}

/// The application after the uninstall has ended at `now`. The session is
/// cleared. If it had a package, the package is marked as removed in the
/// repository and taken off the list, and off the search results while a
/// search is on. Without a session there is nothing else to do.
pub open spec fn after_finish_uninstall(state: AppState, now: u64) -> AppState {
    match state.update_package_name {
        Some(name) => AppState {
            repository: after_tombstone(state.repository, name, now),
            items: state.items.filter(is_other(name)),
            filtered_items: if state.is_searching {
                state.filtered_items.filter(is_other(name))
            } else {
                state.filtered_items
            },
            ..cleared(state)
        },
        None => cleared(state),
    }
}

/// What the caller is to do when the uninstall has ended.
pub open spec fn finish_uninstall_action(state: AppState) -> ActionView {
    match state.update_package_name {
        Some(name) => ActionView::ReloadAfterUninstall {
            name,
            selection: selection_after_removal(state.selected),
        },
        None => ActionView::Nothing,
    }
}

/// What the caller is to do when the update has ended.
pub open spec fn finish_update_action(state: AppState) -> ActionView {
    match state.update_package_name {
        Some(name) => ActionView::ReloadAfterUpdate { name, selection: state.selected },
        None => ActionView::Nothing,
    }
}

/// The application after a tick at `now`. Nothing moves without an
/// operation in flight or while the outcome of the real action is awaited.
/// Else the operation moves on when it has been in flight for longer than
/// its stage lasts.
pub open spec fn after_tick(state: AppState, now: u64) -> AppState {
    if !state.is_updating || state.real_action_pending {
        state
    } else {
        match state.update_package_name {
            None => cleared(state),
            Some(name) => {
                let t = session_elapsed(state, now);
                match state.update_stage {
                    UpdateStage::Idle => state,
                    UpdateStage::Starting => if t > DOWNLOADING_AFTER_MS {
                        advanced(
                            state,
                            UpdateStage::Downloading,
                            "Downloading "@,
                            name,
                            " updates..."@,
                            now,
                        )
                    } else {
                        state
                    },
                    UpdateStage::Downloading => if t > INSTALLING_AFTER_MS {
                        advanced(
                            state,
                            UpdateStage::Installing,
                            "Installing "@,
                            name,
                            " updates..."@,
                            now,
                        )
                    } else {
                        state
                    },
                    UpdateStage::Installing => if t > COMPLETING_AFTER_MS {
                        if hands_out_real_action(state, now) {
                            AppState { real_action_pending: true, ..state }
                        } else {
                            advanced(
                                state,
                                UpdateStage::Completing,
                                "Completing "@,
                                name,
                                " installation..."@,
                                now,
                            )
                        }
                    } else {
                        state
                    },
                    UpdateStage::Completing => if t > FINISHED_AFTER_MS {
                        advanced(
                            state,
                            UpdateStage::Finished,
                            "✅ "@,
                            name,
                            " updated successfully!"@,
                            now,
                        )
                    } else {
                        state
                    },
                    UpdateStage::Finished => if t > UPDATE_ENDS_AFTER_MS {
                        cleared(state)
                    } else {
                        state
                    },
                    UpdateStage::UninstallStarting => if t > REMOVING_AFTER_MS {
                        advanced(
                            state,
                            UpdateStage::UninstallRemoving,
                            "Removing "@,
                            name,
                            " files..."@,
                            now,
                        )
                    } else {
                        state
                    },
                    UpdateStage::UninstallRemoving => if t > CLEANING_AFTER_MS {
                        if hands_out_real_action(state, now) {
                            AppState { real_action_pending: true, ..state }
                        } else {
                            advanced(
                                state,
                                UpdateStage::UninstallCleaning,
                                "Cleaning up "@,
                                name,
                                " dependencies..."@,
                                now,
                            )
                        }
                    } else {
                        state
                    },
                    UpdateStage::UninstallCleaning => if t > UNINSTALL_FINISHED_AFTER_MS {
                        advanced(
                            state,
                            UpdateStage::UninstallFinished,
                            "✅ "@,
                            name,
                            " uninstalled successfully!"@,
                            now,
                        )
                    } else {
                        state
                    },
                    UpdateStage::UninstallFinished => if t > UNINSTALL_ENDS_AFTER_MS {
                        after_finish_uninstall(state, now)
                    } else {
                        state
                    },
                }
            },
        }
    }
}

/// What the caller is to do after a tick at `now`: carry out the real
/// action when the tick hands it out, reload when the operation has ended,
/// and nothing else.
pub open spec fn tick_action(state: AppState, now: u64) -> ActionView {
    if !state.is_updating || state.real_action_pending {
        ActionView::Nothing
    } else {
        match state.update_package_name {
            None => ActionView::Nothing,
            Some(name) => {
                let t = session_elapsed(state, now);
                if hands_out_real_action(state, now) {
                    if state.is_uninstalling {
                        ActionView::RunUninstall(name)
                    } else {
                        ActionView::RunUpdate(name)
                    }
                } else if state.update_stage == UpdateStage::Finished && t > UPDATE_ENDS_AFTER_MS {
                    finish_update_action(state)
                } else if state.update_stage == UpdateStage::UninstallFinished && t
                    > UNINSTALL_ENDS_AFTER_MS {
                    finish_uninstall_action(state)
                } else {
                    ActionView::Nothing
                }
            },
        }
    }
}

/// The application after the outcome of the real action has come in at
/// `now`. The outcome counts only while it is awaited. Success marks the
/// action as carried out and moves the operation on to its next stage.
/// Failure ends the operation at once: the session is cleared, the status
/// says what went wrong, and the list stays as it is.
pub open spec fn after_real_action(
    state: AppState,
    outcome: Result<(), Seq<char>>,
    now: u64,
) -> AppState {
    if !state.is_updating || !state.real_action_pending {
        state
    } else {
        match state.update_package_name {
            None => cleared(state),
            Some(name) => match outcome {
                Ok(_) => {
                    let done = AppState {
                        real_update_called: true,
                        real_action_pending: false,
                        ..state
                    };
                    match state.update_stage {
                        UpdateStage::Installing => advanced(
                            done,
                            UpdateStage::Completing,
                            "Completing "@,
                            name,
                            " installation..."@,
                            now,
                        ),
                        UpdateStage::UninstallRemoving => advanced(
                            done,
                            UpdateStage::UninstallCleaning,
                            "Cleaning up "@,
                            name,
                            " dependencies..."@,
                            now,
                        ),
                        _ => done,
                    }
                },
                Err(error) => cleared(
                    after_status(
                        state,
                        (if state.is_uninstalling {
                            "❌ Failed to uninstall "@
                        } else {
                            "❌ Failed to update "@
                        }) + name + ": "@ + error,
                        now,
                    ),
                ),
            },
        }
    }
}

/// The application after a start that was turned down at `now` because an
/// operation is in flight: only the status changes.
pub open spec fn after_start_refused(state: AppState, now: u64) -> AppState {
    after_status(state, "Another operation is currently in progress"@, now)
}

/// The application after an update of `name` was asked to start at `now`.
/// Only one operation is in flight at a time: while one is, the start is
/// turned down.
pub open spec fn after_start_update(state: AppState, name: Seq<char>, now: u64) -> AppState {
    if state.is_updating {
        after_start_refused(state, now)
    } else {
        after_status(
            AppState {
                is_updating: true,
                is_uninstalling: false,
                update_package_name: Some(name),
                update_start_time: Some(now),
                update_stage: UpdateStage::Starting,
                real_update_called: false,
                real_action_pending: false,
                modal_state: ModalState::UpdateProgress,
                ..state
            },
            "Starting update for "@ + name,
            now,
        )
    }
}

/// The application after an uninstall of `name` was asked to start at
/// `now`. While an operation is in flight, the start is turned down.
pub open spec fn after_start_uninstall(state: AppState, name: Seq<char>, now: u64) -> AppState {
    if state.is_updating {
        after_start_refused(state, now)
    } else {
        after_status(
            AppState {
                is_updating: true,
                is_uninstalling: true,
                update_package_name: Some(name),
                update_start_time: Some(now),
                update_stage: UpdateStage::UninstallStarting,
                real_update_called: false,
                real_action_pending: false,
                modal_state: ModalState::UpdateProgress,
                ..state
            },
            "Starting uninstall for "@ + name,
            now,
        )
    }
}

/// The application after the user asked at `now` to update the selected
/// package. An update starts when the package has one on offer and no
/// operation is in flight; else the status says why not. Without a selected
/// package nothing happens.
pub open spec fn after_update_selected(state: AppState, now: u64) -> AppState {
    match selected_record(state) {
        Some(record) => if has_update(record) && !state.is_updating {
            after_start_update(state, record.name, now)
        } else if !has_update(record) {
            after_status(state, record.name + " is already up to date"@, now)
        } else {
            after_status(state, "Another package is currently being updated"@, now)
        },
        None => state,
    }
}

/// The application after the user asked at `now` to uninstall the selected
/// package. The user is asked to confirm, unless an operation is in flight:
/// then the request is turned down with a status message.
pub open spec fn after_uninstall_selected(state: AppState, now: u64) -> AppState {
    match selected_record(state) {
        Some(record) => if !state.is_updating {
            AppState {
                pending_uninstall_package: Some(record.name),
                modal_state: ModalState::UninstallConfirmation,
                ..state
            }
        } else {
            after_status(state, "Another operation is currently in progress"@, now)
        },
        None => state,
    }
}

/// The application after the user confirmed the uninstall at `now`: the
/// package awaits confirmation no longer, and its uninstall is asked to
/// start.
pub open spec fn after_confirm_uninstall(state: AppState, now: u64) -> AppState {
    match state.pending_uninstall_package {
        Some(name) => after_start_uninstall(
            AppState { pending_uninstall_package: None, ..state },
            name,
            now,
        ),
        None => state,
    }
}

/// The application after the user turned the uninstall down at `now`.
pub open spec fn after_cancel_uninstall(state: AppState, now: u64) -> AppState {
    after_status(
        AppState {
            pending_uninstall_package: None,
            modal_state: ModalState::Closed,
            ..state
        },
        "Uninstall cancelled"@,
        now,
    )
}

/// The outcome of the real action, as mathematical values.
pub open spec fn outcome_view(outcome: Result<(), String>) -> Result<(), Seq<char>> {
    match outcome {
        Ok(_) => Ok(()),
        Err(error) => Err(error@),
    }
}

/// The list with the first package named `name` replaced by `record`.
pub open spec fn with_replaced(
    items: Seq<PackageRecord>,
    name: Seq<char>,
    record: PackageRecord,
) -> Seq<PackageRecord> {
    let k = first_match(names_of_records(items), name);
    if k >= 0 {
        items.update(k, record)
    } else {
        items
    }
}

/// The application after the outcome of a query for `name` alone has come
/// in at `now`. A fresh record takes the place of the old one in the list,
/// and in the search results while a search is on. Where the report holds
/// no such package, the package is taken off both. A failed query changes
/// nothing.
pub open spec fn after_refresh_single(
    state: AppState,
    name: Seq<char>,
    outcome: Result<BrewInfoResponse, FetchError>,
    now: u64,
) -> AppState {
    match refreshed_package(outcome, name) {
        Ok(Some(record)) => after_status(
            AppState {
                items: with_replaced(state.items, name, record),
                filtered_items: if state.is_searching {
                    with_replaced(state.filtered_items, name, record)
                } else {
                    state.filtered_items
                },
                ..state
            },
            "📦 Refreshed metadata for "@ + name,
            now,
        ),
        Ok(None) => after_status(
            AppState {
                items: state.items.filter(is_other(name)),
                filtered_items: if state.is_searching {
                    state.filtered_items.filter(is_other(name))
                } else {
                    state.filtered_items
                },
                ..state
            },
            "📦 "@ + name + " no longer found"@,
            now,
        ),
        Err(_) => state,
    }
}

/// The application after the list was loaded anew at `now`, once an
/// operation has ended. The outcome of the bulk query is taken in as by a
/// refresh. The cursor is put on the row `selection` as far as the list on
/// display reaches; where no row is handed in, no row is selected, whatever
/// the list holds.
pub open spec fn after_reload(
    state: AppState,
    bulk: Result<BrewInfoResponse, FetchError>,
    selection: Option<usize>,
    now: u64,
) -> AppState {
    let refreshed = after_refresh_packages(state, bulk, selection, now);
    match selection {
        Some(_) => refreshed,
        None => AppState { selected: None, ..refreshed },
    }
}

/// The application after an update has been followed up at `now`: the
/// package is refreshed from the query for it alone, a failure of that
/// query goes to the status, and then the whole list is loaded anew with
/// the cursor kept on its row, if it stood on one.
pub open spec fn after_complete_update(
    state: AppState,
    name: Seq<char>,
    single: Result<BrewInfoResponse, FetchError>,
    bulk: Result<BrewInfoResponse, FetchError>,
    selection: Option<usize>,
    now: u64,
) -> AppState {
    let refreshed = after_refresh_single(state, name, single, now);
    let noted = match single {
        Ok(_) => refreshed,
        Err(error) => after_status(
            refreshed,
            "⚠️  Failed to refresh "@ + name + ": "@ + error.text(),
            now,
        ),
    };
    after_reload(noted, bulk, selection, now)
}

/// The application after an uninstall has been followed up at `now`: the
/// whole list is loaded anew with the cursor on the given row, or on none
/// where none is given, and the status says that the package is gone.
pub open spec fn after_complete_uninstall(
    state: AppState,
    name: Seq<char>,
    bulk: Result<BrewInfoResponse, FetchError>,
    selection: Option<usize>,
    now: u64,
) -> AppState {
    after_status(
        after_reload(state, bulk, selection, now),
        "✅ Successfully uninstalled "@ + name,
        now,
    )
}

/// The row that the cursor stands on after a list of `len` rows was loaded
/// anew with the row `selection` to keep: none where none was handed in or
/// the list is empty, else that row, or the last row if the list is
/// shorter.
pub open spec fn row_after_reload(selection: Option<usize>, len: nat) -> Option<usize> {
    match selection {
        Some(row) => if len == 0 {
            None
        } else if row < len - 1 {
            Some(row)
        } else {
            Some((len - 1) as usize)
        },
        None => None,
    }
}

/// After the reload that follows an operation, the cursor stands on the
/// row that was handed in, cut to the list on display; without a row
/// handed in, nothing is selected. After an update the row handed in is the
/// one that was selected before. After an uninstall it is the row above,
/// or the first: with `row` selected before and `len` rows on display after
/// the reload, row `max(row - 1, 0)` or the last row if that is less.
pub proof fn reload_keeps_the_row(
    state: AppState,
    bulk: Result<BrewInfoResponse, FetchError>,
    selection: Option<usize>,
    now: u64,
)
    ensures
        after_reload(state, bulk, selection, now).selected == row_after_reload(
            selection,
            display_items(after_reload(state, bulk, selection, now)).len(),
        ),
        selection is None ==> after_reload(state, bulk, selection, now).selected is None,
        forall|name: Seq<char>|
            (#[trigger] after_complete_uninstall(state, name, bulk, selection, now)).selected
                == row_after_reload(
                selection,
                display_items(after_complete_uninstall(state, name, bulk, selection, now)).len(),
            ),
{
}

/// The row to select after an uninstall, as the end of the operation hands
/// it out: none where none was selected, else the row above, and the first
/// row for the first.
pub proof fn removal_selects_the_row_above(selected: Option<usize>)
    ensures
        selected is None ==> selection_after_removal(selected) is None,
        selected matches Some(row) ==> selection_after_removal(selected) == Some(
            if row >= 1 {
                (row - 1) as usize
            } else {
                0usize
            },
        ),
{
}

/// The dots that show that time passes: none to three, one more every
/// `step` milliseconds.
pub open spec fn progress_dots(elapsed_ms: u64, step: u64) -> Seq<char> {
    let count = (elapsed_ms / step) % 4;
    if count == 0 {
        ""@
    } else if count == 1 {
        "."@
    } else if count == 2 {
        ".."@
    } else {
        "..."@
    }
}

/// What the operation in flight is doing at `now`, in words.
pub open spec fn update_status_text(state: AppState, now: u64) -> Option<Seq<char>> {
    if !state.is_updating || state.update_package_name is None || state.update_start_time is None {
        None
    } else {
        let name = state.update_package_name->0;
        let t = elapsed(now, state.update_start_time->0);
        match state.update_stage {
            UpdateStage::Idle => None,
            UpdateStage::Starting => Some("🔄 Preparing to update "@ + name + "..."@),
            UpdateStage::Downloading => Some(
                "⬇️  Downloading "@ + name + " updates"@ + progress_dots(t, 300),
            ),
            UpdateStage::Installing => Some(
                "🔧 Installing "@ + name + " updates"@ + progress_dots(t, 200),
            ),
            UpdateStage::Completing => Some("✨ Finalizing "@ + name + " installation..."@),
            UpdateStage::Finished => Some("✅ "@ + name + " updated successfully!"@),
            UpdateStage::UninstallStarting => Some(
                "🗑️  Preparing to uninstall "@ + name + "..."@,
            ),
            UpdateStage::UninstallRemoving => Some(
                "🗂️  Removing "@ + name + " files"@ + progress_dots(t, 200),
            ),
            UpdateStage::UninstallCleaning => Some(
                "🧹 Cleaning up "@ + name + " dependencies"@ + progress_dots(t, 300),
            ),
            UpdateStage::UninstallFinished => Some("✅ "@ + name + " uninstalled successfully!"@),
        }
    }
}

/// Something that happens to the operation in flight.
pub enum SessionEvent {
    /// The clock was read.
    Tick(u64),
    /// The outcome of the real action came in.
    ActionDone(Result<(), Seq<char>>, u64),
}

/// The application after an event.
pub open spec fn after_event(state: AppState, event: SessionEvent) -> AppState {
    match event {
        SessionEvent::Tick(now) => after_tick(state, now),
        SessionEvent::ActionDone(outcome, now) => after_real_action(state, outcome, now),
    }
}

/// Whether an event makes the caller carry out the real action.
pub open spec fn runs_real_action(state: AppState, event: SessionEvent) -> bool {
    match event {
        SessionEvent::Tick(now) => tick_action(state, now) is RunUpdate || tick_action(
            state,
            now,
        ) is RunUninstall,
        SessionEvent::ActionDone(_, _) => false,
    }
}

/// Whether an event brings the operation in flight to its regular end.
pub open spec fn ends_operation(state: AppState, event: SessionEvent) -> bool {
    match event {
        SessionEvent::Tick(now) => tick_action(state, now) is ReloadAfterUpdate || tick_action(
            state,
            now,
        ) is ReloadAfterUninstall,
        SessionEvent::ActionDone(_, _) => false,
    }
}

/// How often the caller is made to carry out the real action in the course
/// of the events.
pub open spec fn real_actions(state: AppState, events: Seq<SessionEvent>) -> nat
    decreases events.len(),
{
    if events.len() == 0 {
        0
    } else {
        (if runs_real_action(state, events[0]) {
            1nat
        } else {
            0nat
        }) + real_actions(after_event(state, events[0]), events.skip(1))
    }
}

/// Whether the operation in flight comes to its regular end in the course of
/// the events.
pub open spec fn ends_within(state: AppState, events: Seq<SessionEvent>) -> bool
    decreases events.len(),
{
    if events.len() == 0 {
        false
    } else {
        ends_operation(state, events[0]) || ends_within(
            after_event(state, events[0]),
            events.skip(1),
        )
    }
}

/// The real action of the operation in flight is spent: it has been handed
/// out or carried out, or there is no operation.
pub open spec fn real_action_spent(state: AppState) -> bool {
    !state.is_updating || state.real_action_pending || state.real_update_called
}

/// An operation that was started as one of its kind: it knows its package,
/// is in a stage of its kind, and is past the stage in which it acts only if
/// the real action has been carried out.
pub open spec fn operation_in_order(state: AppState) -> bool {
    state.is_updating ==> {
        &&& state.update_package_name is Some
        &&& state.real_action_pending ==> !state.real_update_called
        &&& if state.is_uninstalling {
            match state.update_stage {
                UpdateStage::UninstallStarting => !state.real_action_pending,
                UpdateStage::UninstallRemoving => true,
                UpdateStage::UninstallCleaning => state.real_update_called,
                UpdateStage::UninstallFinished => state.real_update_called,
                _ => false,
            }
        } else {
            match state.update_stage {
                UpdateStage::Starting => !state.real_action_pending,
                UpdateStage::Downloading => !state.real_action_pending,
                UpdateStage::Installing => true,
                UpdateStage::Completing => state.real_update_called,
                UpdateStage::Finished => state.real_update_called,
                _ => false,
            }
        }
    }
}

/// Once the real action is spent, no event makes the caller carry it out
/// again, and it stays spent.
pub proof fn spent_action_is_not_repeated(state: AppState, events: Seq<SessionEvent>)
    requires
        real_action_spent(state),
    ensures
        real_actions(state, events) == 0,
    decreases events.len(),
{
    if events.len() > 0 {
        assert(real_action_spent(after_event(state, events[0])));
        spent_action_is_not_repeated(after_event(state, events[0]), events.skip(1));
    }
}

/// Whatever the state and however many ticks land in the stage in which the
/// operation acts, mixed with outcomes of the real action in any order: the
/// caller is made to carry out the real action at most once, as long as no
/// new operation is started.
pub proof fn real_action_runs_at_most_once(state: AppState, events: Seq<SessionEvent>)
    ensures
        real_actions(state, events) <= 1,
    decreases events.len(),
{
    if real_action_spent(state) {
        spent_action_is_not_repeated(state, events);
    } else if events.len() > 0 {
        let next = after_event(state, events[0]);
        if runs_real_action(state, events[0]) {
            assert(real_action_spent(next));
            spent_action_is_not_repeated(next, events.skip(1));
        } else {
            real_action_runs_at_most_once(next, events.skip(1));
        }
    }
}

/// An operation that is in order stays in order.
pub proof fn operation_stays_in_order(state: AppState, event: SessionEvent)
    requires
        operation_in_order(state),
    ensures
        operation_in_order(after_event(state, event)),
{
}

/// A started operation that comes to its regular end has made the caller
/// carry out the real action exactly once on the way.
pub proof fn finished_operation_ran_real_action_once(state: AppState, events: Seq<SessionEvent>)
    requires
        operation_in_order(state),
        !real_action_spent(state),
        ends_within(state, events),
    ensures
        real_actions(state, events) == 1,
    decreases events.len(),
{
    let event = events[0];
    let next = after_event(state, event);
    operation_stays_in_order(state, event);
    assert(!ends_operation(state, event));
    if runs_real_action(state, event) {
        assert(real_action_spent(next));
        spent_action_is_not_repeated(next, events.skip(1));
    } else {
        assert(!real_action_spent(next));
        finished_operation_ran_real_action_once(next, events.skip(1));
    }
}

/// An operation is in order, and its real action not spent, right after it
/// was started.
pub proof fn started_operation_is_in_order(state: AppState, name: Seq<char>, now: u64)
    requires
        !state.is_updating,
    ensures
        operation_in_order(after_start_update(state, name, now)),
        !real_action_spent(after_start_update(state, name, now)),
        operation_in_order(after_start_uninstall(state, name, now)),
        !real_action_spent(after_start_uninstall(state, name, now)),
{
}

/// While an operation is in flight, no other is started: a start changes
/// nothing of the session and hands out nothing new.
pub proof fn second_start_is_turned_down(state: AppState, name: Seq<char>, now: u64)
    requires
        state.is_updating,
    ensures
        after_start_update(state, name, now) == after_start_refused(state, now),
        after_start_uninstall(state, name, now) == after_start_refused(state, now),
        after_start_refused(state, now).update_package_name == state.update_package_name,
        after_start_refused(state, now).update_stage == state.update_stage,
        after_start_refused(state, now).update_start_time == state.update_start_time,
        after_start_refused(state, now).is_uninstalling == state.is_uninstalling,
        after_start_refused(state, now).real_update_called == state.real_update_called,
        after_start_refused(state, now).real_action_pending == state.real_action_pending,
        real_action_spent(after_start_refused(state, now)) == real_action_spent(state),
{
}

/// Ending an operation twice is the same as ending it once: the second time
/// finds the session cleared, changes nothing and asks for nothing. The
/// same holds of a tick after the end.
pub proof fn ending_twice_changes_nothing(state: AppState, ended_at: u64, again_at: u64)
    ensures
        after_finish_uninstall(after_finish_uninstall(state, ended_at), again_at)
            == after_finish_uninstall(state, ended_at),
        finish_uninstall_action(after_finish_uninstall(state, ended_at)) == ActionView::Nothing,
        cleared(cleared(state)) == cleared(state),
        finish_update_action(cleared(state)) == ActionView::Nothing,
        after_tick(after_finish_uninstall(state, ended_at), again_at) == after_finish_uninstall(
            state,
            ended_at,
        ),
        tick_action(after_finish_uninstall(state, ended_at), again_at) == ActionView::Nothing,
        after_tick(cleared(state), again_at) == cleared(state),
        tick_action(cleared(state), again_at) == ActionView::Nothing,
{
}

/// Takes the packages named `name` out of the list.
fn retain_others(items: &mut Vec<PackageInfo>, name: &String)
    ensures
        records_of(final(items)@) == records_of(old(items)@).filter(is_other(name@)),
{
    let mut all: Vec<PackageInfo> = Vec::new();
    core::mem::swap(items, &mut all);
    let ghost before = records_of(all@);
    let ghost test = is_other(name@);
    proof {
        lemma_filter_empty(test);
        assert(before.take(0) =~= Seq::<PackageRecord>::empty());
        assert(records_of(items@) =~= before.take(0).filter(test));
    }
    for package in it: all
        invariant
            before == records_of(it.seq()),
            test == is_other(name@),
            records_of(items@) == before.take(it.index() as int).filter(test),
    {
        proof {
            assert(before.take(it.index() + 1) =~= before.take(it.index() as int).push(package@));
            lemma_filter_push(before.take(it.index() as int), package@, test);
        }
        if package.name != *name {
            assert(records_of(items@.push(package)) =~= records_of(items@).push(package@));
            items.push(package);
        }
    }
    assert(before.take(before.len() as int) =~= before);
}

/// Puts `record` in the place of the first package named `name`.
fn replace_package(items: &mut Vec<PackageInfo>, name: &String, record: PackageInfo)
    ensures
        records_of(final(items)@) == with_replaced(records_of(old(items)@), name@, record@),
{
    match position_of_package(items, name) {
        Some(index) => {
            assert(records_of(items@.update(index as int, record)) =~= records_of(items@).update(
                index as int,
                record@,
            ));
            items.set(index, record);
        },
        None => {},
    }
}

/// The dots that show that time passes.
fn dots(elapsed_ms: u64, step: u64) -> (text: &'static str)
    requires
        step > 0,
    ensures
        text@ == progress_dots(elapsed_ms, step),
{
    let count = (elapsed_ms / step) % 4;
    if count == 0 {
        ""
    } else if count == 1 {
        "."
    } else if count == 2 {
        ".."
    } else {
        "..."
    }
}

impl App {
    /// Clears everything that belongs to the operation in flight.
    fn clear_session(&mut self)
        ensures
            final(self)@ == cleared(old(self)@),
    {
        self.is_updating = false;
        self.is_uninstalling = false;
        self.real_update_called = false;
        self.real_action_pending = false;
        self.update_package_name = None;
        self.update_start_time = None;
        self.update_stage = UpdateStage::Idle;
        self.modal_state = ModalState::Closed;
    }

    /// Moves the operation in flight on to `stage` and says so.
    fn advance(&mut self, stage: UpdateStage, before: &str, name: &str, after: &str, now: u64)
        ensures
            final(self)@ == advanced(old(self)@, stage, before@, name@, after@, now),
    {
        self.update_stage = stage;
        self.add_status_message(join3(before, name, after), now);
    }

    /// Starts an update of `package_name` at `now`, unless an operation is
    /// in flight. The real update is carried out later, at the end of the
    /// stage `Installing`.
    pub fn start_mock_update(&mut self, package_name: String, now: u64)
        ensures
            final(self)@ == after_start_update(old(self)@, package_name@, now),
    {
        if self.is_updating {
            self.add_status_message(
                "Another operation is currently in progress".to_string(),
                now,
            );
            return ;
        }
        self.is_updating = true;
        self.is_uninstalling = false;
        self.update_start_time = Some(now);
        self.update_stage = UpdateStage::Starting;
        self.real_update_called = false;
        self.real_action_pending = false;
        self.modal_state = ModalState::UpdateProgress;
        self.add_status_message(join("Starting update for ", package_name.as_str()), now);
        self.update_package_name = Some(package_name);
    }

    /// Starts an uninstall of `package_name` at `now`, unless an operation
    /// is in flight. The real uninstall is carried out later, at the end of
    /// the stage `UninstallRemoving`.
    pub fn start_mock_uninstall(&mut self, package_name: String, now: u64)
        ensures
            final(self)@ == after_start_uninstall(old(self)@, package_name@, now),
    {
        if self.is_updating {
            self.add_status_message(
                "Another operation is currently in progress".to_string(),
                now,
            );
            return ;
        }
        self.is_updating = true;
        self.is_uninstalling = true;
        self.update_start_time = Some(now);
        self.update_stage = UpdateStage::UninstallStarting;
        self.real_update_called = false;
        self.real_action_pending = false;
        self.modal_state = ModalState::UpdateProgress;
        self.add_status_message(join("Starting uninstall for ", package_name.as_str()), now);
        self.update_package_name = Some(package_name);
    }

    /// Asks at `now` for an update of the selected package.
    pub fn update_selected_package(&mut self, now: u64)
        ensures
            final(self)@ == after_update_selected(old(self)@, now),
    {
        let (name, available) = match self.get_selected_package() {
            Some(package) => (package.name.clone(), package.has_update_available()),
            None => {
                return ;
            },
        };
        if available && !self.is_updating {
            self.start_mock_update(name, now);
        } else if !available {
            self.add_status_message(join(name.as_str(), " is already up to date"), now);
        } else {
            self.add_status_message(
                "Another package is currently being updated".to_string(),
                now,
            );
        }
    }

    /// Asks at `now` for an uninstall of the selected package. The user is
    /// asked to confirm first.
    pub fn uninstall_selected_package(&mut self, now: u64)
        ensures
            final(self)@ == after_uninstall_selected(old(self)@, now),
    {
        let name = match self.get_selected_package() {
            Some(package) => package.name.clone(),
            None => {
                return ;
            },
        };
        if !self.is_updating {
            self.pending_uninstall_package = Some(name);
            self.modal_state = ModalState::UninstallConfirmation;
        } else {
            self.add_status_message(
                "Another operation is currently in progress".to_string(),
                now,
            );
        }
    }

    /// Confirms the uninstall at `now`.
    pub fn confirm_uninstall(&mut self, now: u64)
        ensures
            final(self)@ == after_confirm_uninstall(old(self)@, now),
    {
        let pending = self.pending_uninstall_package.take();
        if let Some(package_name) = pending {
            self.start_mock_uninstall(package_name, now);
        }
    }

    /// Turns the uninstall down at `now`.
    pub fn cancel_uninstall(&mut self, now: u64)
        ensures
            final(self)@ == after_cancel_uninstall(old(self)@, now),
    {
        self.pending_uninstall_package = None;
        self.modal_state = ModalState::Closed;
        self.add_status_message("Uninstall cancelled".to_string(), now);
    }

    /// Ends the uninstall at `now`: clears the session, marks the package as
    /// removed and takes it off the list. Returns what the caller is to do
    /// next. A second call finds no session and changes nothing.
    pub fn finish_mock_uninstall(&mut self, now: u64) -> (action: TickAction)
        ensures
            final(self)@ == after_finish_uninstall(old(self)@, now),
            action@ == finish_uninstall_action(old(self)@),
    {
        let package_name = copy_text(&self.update_package_name);
        let current_selection = self.list_state.selected();
        self.clear_session();
        match package_name {
            Some(name) => {
                self.repository.clear_package_cache(name.as_str(), now);
                retain_others(&mut self.items, &name);
                if self.is_searching {
                    retain_others(&mut self.filtered_items, &name);
                }
                let new_selection = match current_selection {
                    Some(selected) => if selected > 0 {
                        Some(selected - 1)
                    } else {
                        Some(0)
                    },
                    None => None,
                };
                TickAction::ReloadAfterUninstall { name, selection: new_selection }
            },
            None => TickAction::Nothing,
        }
    }

    /// Ends the update: clears the session. Returns what the caller is to
    /// do next. A second call finds no session and changes nothing.
    pub fn finish_mock_update(&mut self) -> (action: TickAction)
        ensures
            final(self)@ == cleared(old(self)@),
            action@ == finish_update_action(old(self)@),
    {
        let package_name = copy_text(&self.update_package_name);
        let current_selection = self.list_state.selected();
        self.clear_session();
        match package_name {
            Some(name) => TickAction::ReloadAfterUpdate { name, selection: current_selection },
            None => TickAction::Nothing,
        }
    }

    /// Moves the operation in flight on by the clock, which reads `now`.
    /// Call this on every tick. The result says what the caller is to do:
    /// the real action is handed out once per operation, at the end of the
    /// stage in which it acts, and the reload when the operation has ended.
    pub fn update_mock_progress(&mut self, now: u64) -> (action: TickAction)
        ensures
            final(self)@ == after_tick(old(self)@, now),
            action@ == tick_action(old(self)@, now),
    {
        if !self.is_updating || self.real_action_pending {
            return TickAction::Nothing;
        }
        let package_name = match copy_text(&self.update_package_name) {
            Some(name) => name,
            None => {
                self.clear_session();
                return TickAction::Nothing;
            },
        };
        let name = package_name.as_str();
        let t = match self.update_start_time {
            Some(start) => elapsed_since(now, start),
            None => 0,
        };
        match self.update_stage {
            UpdateStage::Idle => TickAction::Nothing,
            UpdateStage::Starting => {
                if t > DOWNLOADING_AFTER_MS {
                    self.advance(UpdateStage::Downloading, "Downloading ", name, " updates...", now);
                }
                TickAction::Nothing
            },
            UpdateStage::Downloading => {
                if t > INSTALLING_AFTER_MS {
                    self.advance(UpdateStage::Installing, "Installing ", name, " updates...", now);
                }
                TickAction::Nothing
            },
            UpdateStage::Installing => {
                if t > COMPLETING_AFTER_MS {
                    if !self.real_update_called && !self.is_uninstalling {
                        self.real_action_pending = true;
                        return TickAction::RunUpdate(package_name);
                    }
                    self.advance(
                        UpdateStage::Completing,
                        "Completing ",
                        name,
                        " installation...",
                        now,
                    );
                }
                TickAction::Nothing
            },
            UpdateStage::Completing => {
                if t > FINISHED_AFTER_MS {
                    self.advance(UpdateStage::Finished, "✅ ", name, " updated successfully!", now);
                }
                TickAction::Nothing
            },
            UpdateStage::Finished => {
                if t > UPDATE_ENDS_AFTER_MS {
                    self.finish_mock_update()
                } else {
                    TickAction::Nothing
                }
            },
            UpdateStage::UninstallStarting => {
                if t > REMOVING_AFTER_MS {
                    self.advance(UpdateStage::UninstallRemoving, "Removing ", name, " files...", now);
                }
                TickAction::Nothing
            },
            UpdateStage::UninstallRemoving => {
                if t > CLEANING_AFTER_MS {
                    if !self.real_update_called && self.is_uninstalling {
                        self.real_action_pending = true;
                        return TickAction::RunUninstall(package_name);
                    }
                    self.advance(
                        UpdateStage::UninstallCleaning,
                        "Cleaning up ",
                        name,
                        " dependencies...",
                        now,
                    );
                }
                TickAction::Nothing
            },
            UpdateStage::UninstallCleaning => {
                if t > UNINSTALL_FINISHED_AFTER_MS {
                    self.advance(
                        UpdateStage::UninstallFinished,
                        "✅ ",
                        name,
                        " uninstalled successfully!",
                        now,
                    );
                }
                TickAction::Nothing
            },
            UpdateStage::UninstallFinished => {
                if t > UNINSTALL_ENDS_AFTER_MS {
                    self.finish_mock_uninstall(now)
                } else {
                    TickAction::Nothing
                }
            },
        }
    }

    /// Takes in the outcome of the real action at `now`. Success lets the
    /// operation go on. Failure ends it at once: the status says what went
    /// wrong, and the list is left alone.
    pub fn real_action_finished(&mut self, outcome: Result<(), String>, now: u64)
        ensures
            final(self)@ == after_real_action(old(self)@, outcome_view(outcome), now),
    {
        if !self.is_updating || !self.real_action_pending {
            return ;
        }
        let package_name = match copy_text(&self.update_package_name) {
            Some(name) => name,
            None => {
                self.clear_session();
                return ;
            },
        };
        let name = package_name.as_str();
        match outcome {
            Ok(_) => {
                self.real_update_called = true;
                self.real_action_pending = false;
                match self.update_stage {
                    UpdateStage::Installing => {
                        self.advance(
                            UpdateStage::Completing,
                            "Completing ",
                            name,
                            " installation...",
                            now,
                        );
                    },
                    UpdateStage::UninstallRemoving => {
                        self.advance(
                            UpdateStage::UninstallCleaning,
                            "Cleaning up ",
                            name,
                            " dependencies...",
                            now,
                        );
                    },
                    _ => {},
                }
            },
            Err(error) => {
                let mut message = if self.is_uninstalling {
                    join("❌ Failed to uninstall ", name)
                } else {
                    join("❌ Failed to update ", name)
                };
                message.append(": ");
                message.append(error.as_str());
                self.add_status_message(message, now);
                self.clear_session();
            },
        }
    }

    /// Takes in the outcome of a query for `package_name` alone at `now`,
    /// and puts the fresh record in the place of the old one. A failed
    /// query is handed back.
    pub fn refresh_single_package(
        &mut self,
        package_name: String,
        outcome: Result<BrewInfoResponse, FetchError>,
        now: u64,
    ) -> (result: Result<(), FetchError>)
        ensures
            final(self)@ == after_refresh_single(old(self)@, package_name@, outcome, now),
            outcome is Ok ==> result is Ok,
            outcome matches Err(error) ==> result == Err::<(), FetchError>(error),
    {
        match self.repository.refresh_package(package_name.as_str(), outcome) {
            Ok(Some(updated_package)) => {
                if self.is_searching {
                    replace_package(
                        &mut self.filtered_items,
                        &package_name,
                        updated_package.clone(),
                    );
                }
                replace_package(&mut self.items, &package_name, updated_package);
                self.add_status_message(
                    join("📦 Refreshed metadata for ", package_name.as_str()),
                    now,
                );
                Ok(())
            },
            Ok(None) => {
                retain_others(&mut self.items, &package_name);
                if self.is_searching {
                    retain_others(&mut self.filtered_items, &package_name);
                }
                self.add_status_message(
                    join3("📦 ", package_name.as_str(), " no longer found"),
                    now,
                );
                Ok(())
            },
            Err(error) => Err(error),
        }
    }

    /// Loads the list anew at `now`, once an operation has ended, and puts
    /// the cursor on the row `selection`, or on none where none is given.
    fn reload(
        &mut self,
        bulk: Result<BrewInfoResponse, FetchError>,
        selection: Option<usize>,
        now: u64,
    )
        ensures
            final(self)@ == after_reload(old(self)@, bulk, selection, now),
    {
        self.refresh_packages_with_selection(bulk, selection, now);
        if selection.is_none() {
            self.list_state.select(None);
        }
    }

    /// Follows up an update that has ended, at `now`, with the outcomes of
    /// the query for the package alone and of the bulk query that was made
    /// after it.
    pub fn complete_update(
        &mut self,
        package_name: String,
        single: Result<BrewInfoResponse, FetchError>,
        bulk: Result<BrewInfoResponse, FetchError>,
        selection: Option<usize>,
        now: u64,
    )
        ensures
            final(self)@ == after_complete_update(
                old(self)@,
                package_name@,
                single,
                bulk,
                selection,
                now,
            ),
    {
        let name = package_name.clone();
        match self.refresh_single_package(package_name, single, now) {
            Ok(_) => {},
            Err(error) => {
                let mut message = join3("⚠️  Failed to refresh ", name.as_str(), ": ");
                message.append(error.message().as_str());
                self.add_status_message(message, now);
            },
        }
        self.reload(bulk, selection, now);
    }

    /// Follows up an uninstall that has ended, at `now`, with the outcome of
    /// the bulk query that was made after it.
    pub fn complete_uninstall(
        &mut self,
        package_name: String,
        bulk: Result<BrewInfoResponse, FetchError>,
        selection: Option<usize>,
        now: u64,
    )
        ensures
            final(self)@ == after_complete_uninstall(
                old(self)@,
                package_name@,
                bulk,
                selection,
                now,
            ),
    {
        self.reload(bulk, selection, now);
        self.add_status_message(
            join("✅ Successfully uninstalled ", package_name.as_str()),
            now,
        );
    }

    /// What the operation in flight is doing at `now`, in words.
    pub fn get_update_status(&self, now: u64) -> (status: Option<String>)
        ensures
            text_of(status) == update_status_text(self@, now),
    {
        if !self.is_updating {
            return None;
        }
        let name = match &self.update_package_name {
            Some(name) => name.as_str(),
            None => {
                return None;
            },
        };
        let t = match self.update_start_time {
            Some(start) => elapsed_since(now, start),
            None => {
                return None;
            },
        };
        match self.update_stage {
            UpdateStage::Idle => None,
            UpdateStage::Starting => Some(join3("🔄 Preparing to update ", name, "...")),
            UpdateStage::Downloading => {
                let mut text = join3("⬇️  Downloading ", name, " updates");
                text.append(dots(t, 300));
                Some(text)
            },
            UpdateStage::Installing => {
                let mut text = join3("🔧 Installing ", name, " updates");
                text.append(dots(t, 200));
                Some(text)
            },
            UpdateStage::Completing => Some(join3("✨ Finalizing ", name, " installation...")),
            UpdateStage::Finished => Some(join3("✅ ", name, " updated successfully!")),
            UpdateStage::UninstallStarting => Some(
                join3("🗑️  Preparing to uninstall ", name, "..."),
            ),
            UpdateStage::UninstallRemoving => {
                let mut text = join3("🗂️  Removing ", name, " files");
                text.append(dots(t, 200));
                Some(text)
            },
            UpdateStage::UninstallCleaning => {
                let mut text = join3("🧹 Cleaning up ", name, " dependencies");
                text.append(dots(t, 300));
                Some(text)
            },
            UpdateStage::UninstallFinished => Some(
                join3("✅ ", name, " uninstalled successfully!"),
            ),
        }
    }
}

} // verus!
