//! The state of the application: the list on display with its cursor, the
//! search, the status log and the operation in flight.
//!
//! Every method that depends on the time takes it as `now`, in milliseconds
//! of one clock that the caller reads.

use std::collections::VecDeque;
use vstd::prelude::*;
use vstd::string::*;
use crate::package_info::{records_of, PackageInfo, PackageRecord};
use crate::repository::{HomebrewRepository, RepositoryState};
use crate::status::{
    drop_expired, latest_message, latest_status, messages_of, push_status, with_status,
    without_expired,
};
use crate::text::text_of;

verus! {

/// The stages of an operation. An update goes from `Starting` to `Finished`,
/// an uninstall from `UninstallStarting` to `UninstallFinished`.
#[derive(Debug, Clone, Copy, PartialEq, Eq, Structural)]
pub enum UpdateStage {
    Idle,
    Starting,
    Downloading,
    Installing,
    Completing,
    Finished,
    UninstallStarting,
    UninstallRemoving,
    UninstallCleaning,
    UninstallFinished,
}

/// The window that lies over the list, if any.
#[derive(Debug, Clone, Copy, PartialEq, Eq, Structural)]
pub enum ModalState {
    Closed,
    UpdateProgress,
    UninstallConfirmation,
}

/// The cursor of the list: the selected row, if any.
#[derive(Debug, Clone, Copy, PartialEq, Eq, Structural)]
pub struct ListSelection {
    pub selected: Option<usize>,
}

impl ListSelection {
    /// A cursor that selects nothing.
    pub fn new() -> (cursor: Self)
        ensures
            cursor.selected is None,
    {
        ListSelection { selected: None }
    }

    /// Moves the cursor.
    pub fn select(&mut self, index: Option<usize>)
        ensures
            final(self).selected == index,
    {
        self.selected = index;
    }

    /// The selected row.
    pub fn selected(&self) -> (index: Option<usize>)
        ensures
            index == self.selected,
    {
        self.selected
    }
}

/// The state of the application.
pub struct App {
    pub items: Vec<PackageInfo>,
    pub list_state: ListSelection,
    pub scroll_offset: usize,
    /// When the user last moved the cursor.
    pub last_interaction: u64,
    pub should_quit: bool,
    pub search_query: String,
    pub filtered_items: Vec<PackageInfo>,
    pub is_searching: bool,
    /// The selection before the search started.
    pub pre_search_selection: Option<usize>,
    /// The latest status messages, oldest first, each with its time.
    pub status_messages: VecDeque<(String, u64)>,
    /// The directory, the details and the scheduler behind the list.
    pub repository: HomebrewRepository,
    pub current_columns: usize,
    pub rows_per_column: usize,
    /// The leftmost column on display.
    pub column_scroll_offset: usize,
    /// Whether an operation is in flight.
    pub is_updating: bool,
    pub update_package_name: Option<String>,
    pub update_start_time: Option<u64>,
    pub update_stage: UpdateStage,
    /// Whether the operation in flight is an uninstall.
    pub is_uninstalling: bool,
    /// Whether the real action of the operation in flight has been carried
    /// out.
    pub real_update_called: bool,
    /// Whether the real action has been handed out and its outcome is
    /// awaited.
    pub real_action_pending: bool,
    /// The package whose uninstall awaits confirmation.
    pub pending_uninstall_package: Option<String>,
    pub modal_state: ModalState,
}

/// What the application holds, as mathematical values.
pub struct AppState {
    pub items: Seq<PackageRecord>,
    pub selected: Option<usize>,
    pub scroll_offset: usize,
    pub last_interaction: u64,
    pub should_quit: bool,
    pub search_query: Seq<char>,
    pub filtered_items: Seq<PackageRecord>,
    pub is_searching: bool,
    pub pre_search_selection: Option<usize>,
    pub status_messages: Seq<(Seq<char>, u64)>,
    pub repository: RepositoryState,
    pub current_columns: usize,
    pub rows_per_column: usize,
    pub column_scroll_offset: usize,
    pub is_updating: bool,
    pub update_package_name: Option<Seq<char>>,
    pub update_start_time: Option<u64>,
    pub update_stage: UpdateStage,
    pub is_uninstalling: bool,
    pub real_update_called: bool,
    pub real_action_pending: bool,
    pub pending_uninstall_package: Option<Seq<char>>,
    pub modal_state: ModalState,
}

impl View for App {
    type V = AppState;

    open spec fn view(&self) -> AppState {
        AppState {
            items: records_of(self.items@),
            selected: self.list_state.selected,
            scroll_offset: self.scroll_offset,
            last_interaction: self.last_interaction,
            should_quit: self.should_quit,
            search_query: self.search_query@,
            filtered_items: records_of(self.filtered_items@),
            is_searching: self.is_searching,
            pre_search_selection: self.pre_search_selection,
            status_messages: messages_of(self.status_messages@),
            repository: self.repository@,
            current_columns: self.current_columns,
            rows_per_column: self.rows_per_column,
            column_scroll_offset: self.column_scroll_offset,
            is_updating: self.is_updating,
            update_package_name: text_of(self.update_package_name),
            update_start_time: self.update_start_time,
            update_stage: self.update_stage,
            is_uninstalling: self.is_uninstalling,
            real_update_called: self.real_update_called,
            real_action_pending: self.real_action_pending,
            pending_uninstall_package: text_of(self.pending_uninstall_package),
            modal_state: self.modal_state,
        }
    }
}

/// The list on display: the search results while a search is on, else all
/// packages.
pub open spec fn display_items(state: AppState) -> Seq<PackageRecord> {
    if state.is_searching {
        state.filtered_items
    } else {
        state.items
    }
}

/// The application after a status message at `now`.
pub open spec fn after_status(state: AppState, message: Seq<char>, now: u64) -> AppState {
    AppState { status_messages: with_status(state.status_messages, message, now), ..state }
}

/// The application after the cursor's scroll was reset at `now`.
pub open spec fn after_reset_scroll(state: AppState, now: u64) -> AppState {
    AppState { scroll_offset: 0, last_interaction: now, ..state }
}

impl App {
    /// Adds a status message at `now`. The log keeps the latest five.
    pub fn add_status_message(&mut self, message: String, now: u64)
        ensures
            final(self)@ == after_status(old(self)@, message@, now),
    {
        push_status(&mut self.status_messages, message, now);
    }

    /// The status message to show at `now`: the latest one, after the
    /// messages at the front of the log that are older than ten seconds have
    /// been dropped.
    pub fn get_current_status(&mut self, now: u64) -> (status: Option<String>)
        ensures
            final(self)@ == (AppState {
                status_messages: without_expired(old(self)@.status_messages, now),
                ..old(self)@
            }),
            text_of(status) == latest_status(without_expired(old(self)@.status_messages, now)),
    {
        drop_expired(&mut self.status_messages, now);
        latest_message(&self.status_messages)
    }

    /// Resets the scroll position and notes the interaction at `now`.
    pub fn reset_scroll(&mut self, now: u64)
        ensures
            final(self)@ == after_reset_scroll(old(self)@, now),
    {
        self.scroll_offset = 0;
        self.last_interaction = now;
    }

    /// Resets the column scrolling to the first column.
    pub fn reset_column_scroll(&mut self)
        ensures
            final(self)@ == (AppState { column_scroll_offset: 0, ..old(self)@ }),
    {
        self.column_scroll_offset = 0;
    }

    /// Takes note of the layout that the list was drawn with.
    pub fn update_layout(&mut self, visible_columns: usize, rows_per_column: usize)
        ensures
            final(self)@ == (AppState {
                current_columns: visible_columns,
                rows_per_column,
                ..old(self)@
            }),
    {
        self.current_columns = visible_columns;
        self.rows_per_column = rows_per_column;
    }

    /// Asks the application to end.
    pub fn quit(&mut self)
        ensures
            final(self)@ == (AppState { should_quit: true, ..old(self)@ }),
    {
        self.should_quit = true;
    }
}

} // verus!
