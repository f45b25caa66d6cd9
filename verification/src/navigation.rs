//! Moving the cursor through the list, by rows, pages and columns.

use vstd::prelude::*;
use vstd::string::*;
use vstd::utf8::encode_utf8;
use crate::app::{after_reset_scroll, display_items, App, AppState};
use crate::clock::{elapsed, elapsed_since};
use crate::package_info::{PackageInfo, PackageRecord};

verus! {

/// A page is this many rows.
pub const PAGE_SIZE: usize = 10;

/// A long name starts to scroll when the cursor has rested for more than
/// this many milliseconds.
pub const SCROLL_DELAY_MS: u64 = 3000;

/// The application after the columns were scrolled so that the selected row
/// is on display. Nothing moves while the list has a single column or its
/// layout is not known yet.
pub open spec fn after_ensure_visible(state: AppState) -> AppState {
    if state.current_columns <= 1 || state.rows_per_column == 0 {
        state
    } else {
        match state.selected {
            Some(selected) => {
                let column = selected / state.rows_per_column;
                if column < state.column_scroll_offset {
                    AppState { column_scroll_offset: column, ..state }
                } else if column > state.column_scroll_offset + state.current_columns - 1 {
                    AppState {
                        column_scroll_offset: (column - state.current_columns + 1) as usize,
                        ..state
                    }
                } else {
                    state
                }
            },
            None => state,
        }
    }
}

/// The application after the cursor was put on `index` at `now`: the row is
/// scrolled into view and the scroll of its name starts over.
pub open spec fn after_select(state: AppState, index: usize, now: u64) -> AppState {
    after_reset_scroll(after_ensure_visible(AppState { selected: Some(index), ..state }), now)
}

/// The row below `selected` in a list of `len` rows, the first row after the
/// last.
pub open spec fn row_below(selected: Option<usize>, len: nat) -> int {
    match selected {
        Some(i) => if i >= len - 1 {
            0
        } else {
            i + 1
        },
        None => 0,
    }
}

/// The row above `selected` in a list of `len` rows, the last row before the
/// first.
pub open spec fn row_above(selected: Option<usize>, len: nat) -> int {
    match selected {
        Some(i) => if i == 0 {
            len - 1
        } else {
            i - 1
        },
        None => 0,
    }
}

/// The selected row, or the first where none is selected.
pub open spec fn current_row(selected: Option<usize>) -> int {
    match selected {
        Some(i) => i as int,
        None => 0,
    }
}

/// The row a page below: ten rows down, and no further than the last.
pub open spec fn row_page_down(selected: Option<usize>, len: nat) -> int {
    if current_row(selected) + PAGE_SIZE < len - 1 {
        current_row(selected) + PAGE_SIZE
    } else {
        len - 1
    }
}

/// The row a page above: ten rows up, and no further than the first.
pub open spec fn row_page_up(selected: Option<usize>) -> int {
    if current_row(selected) >= PAGE_SIZE {
        current_row(selected) - PAGE_SIZE
    } else {
        0
    }
}

/// The application after a move of the cursor to `row`, which is left where
/// it is when the list is empty.
pub open spec fn after_move_to(state: AppState, row: int, now: u64) -> AppState {
    if display_items(state).len() == 0 {
        state
    } else {
        after_select(state, row as usize, now)
    }
}

/// The application after a step to the next row at `now`.
pub open spec fn after_next(state: AppState, now: u64) -> AppState {
    after_move_to(state, row_below(state.selected, display_items(state).len()), now)
}

/// The application after a step to the previous row at `now`.
pub open spec fn after_previous(state: AppState, now: u64) -> AppState {
    after_move_to(state, row_above(state.selected, display_items(state).len()), now)
}

/// The application after a step down by a page at `now`.
pub open spec fn after_page_down(state: AppState, now: u64) -> AppState {
    after_move_to(state, row_page_down(state.selected, display_items(state).len()), now)
}

/// The application after a step up by a page at `now`.
pub open spec fn after_page_up(state: AppState, now: u64) -> AppState {
    after_move_to(state, row_page_up(state.selected), now)
}

/// The application after a move to the first row at `now`.
pub open spec fn after_first(state: AppState, now: u64) -> AppState {
    after_move_to(state, 0, now)
}

/// The application after a move to the last row at `now`.
pub open spec fn after_last(state: AppState, now: u64) -> AppState {
    after_move_to(state, display_items(state).len() - 1, now)
}

/// The application after a step to the column on the left. The cursor keeps
/// its row, so it moves up by the rows of one column; it stays where the
/// list has a single column, nothing is selected or there is no column on
/// the left.
pub open spec fn after_move_left(state: AppState, now: u64) -> AppState {
    if state.current_columns <= 1 || display_items(state).len() == 0 || state.rows_per_column
        == 0 {
        state
    } else {
        match state.selected {
            Some(current) => if current >= state.rows_per_column && current
                - state.rows_per_column < display_items(state).len() {
                after_select(state, (current - state.rows_per_column) as usize, now)
            } else {
                state
            },
            None => state,
        }
    }
}

/// The application after a step to the column on the right. The cursor
/// keeps its row, so it moves down by the rows of one column; it stays where
/// the list has a single column, nothing is selected or the list has no item
/// at that place.
pub open spec fn after_move_right(state: AppState, now: u64) -> AppState {
    if state.current_columns <= 1 || display_items(state).len() == 0 || state.rows_per_column
        == 0 {
        state
    } else {
        match state.selected {
            Some(current) => if current + state.rows_per_column < display_items(state).len() {
                after_select(state, (current + state.rows_per_column) as usize, now)
            } else {
                state
            },
            None => state,
        }
    }
}

/// The selected record, if the cursor stands on one.
pub open spec fn selected_record(state: AppState) -> Option<PackageRecord> {
    match state.selected {
        Some(i) => if i < display_items(state).len() {
            Some(display_items(state)[i as int])
        } else {
            None
        },
        None => None,
    }
}

/// The length of a text in bytes, as a string reports it.
pub open spec fn byte_len(text: Seq<char>) -> usize {
    encode_utf8(text).len() as usize
}

/// The application after a tick of the name's scroll at `now`, for a list
/// that is `available_width` wide. The name of the selected package moves on
/// by one place when it is longer than the width and the cursor has rested
/// long enough; it starts over after the overhang and half the width.
pub open spec fn after_update_scroll(state: AppState, available_width: usize, now: u64) -> AppState {
    match selected_record(state) {
        Some(record) => {
            let name_width = byte_len(record.name);
            if name_width > available_width && elapsed(now, state.last_interaction)
                > SCROLL_DELAY_MS {
                AppState {
                    scroll_offset: ((state.scroll_offset + 1) % (name_width - available_width
                        + available_width / 2)) as usize,
                    ..state
                }
            } else {
                state
            }
        },
        None => state,
    }
}

impl App {
    /// How many rows are on display.
    fn display_len(&self) -> (len: usize)
        ensures
            len == display_items(self@).len(),
    {
        if self.is_searching {
            self.filtered_items.len()
        } else {
            self.items.len()
        }
    }

    /// Scrolls the columns so that the selected row is on display.
    pub fn ensure_selection_visible(&mut self)
        ensures
            final(self)@ == after_ensure_visible(old(self)@),
    {
        if self.current_columns <= 1 || self.rows_per_column == 0 {
            return ;
        }
        if let Some(selected) = self.list_state.selected() {
            let column = selected / self.rows_per_column;
            if column < self.column_scroll_offset {
                self.column_scroll_offset = column;
            } else if column >= self.current_columns - 1 {
                let shifted = column - (self.current_columns - 1);
                if shifted > self.column_scroll_offset {
                    self.column_scroll_offset = shifted;
                }
            }
        }
    }

    /// Puts the cursor on `index` at `now`.
    fn select_row(&mut self, index: usize, now: u64)
        ensures
            final(self)@ == after_select(old(self)@, index, now),
    {
        self.list_state.select(Some(index));
        self.ensure_selection_visible();
        self.reset_scroll(now);
    }

    /// Moves to the next item in the list, from the last to the first.
    pub fn next(&mut self, now: u64)
        ensures
            final(self)@ == after_next(old(self)@, now),
    {
        let items_len = self.display_len();
        if items_len == 0 {
            return ;
        }
        let i = match self.list_state.selected() {
            Some(i) => {
                if i >= items_len - 1 {
                    0
                } else {
                    i + 1
                }
            },
            None => 0,
        };
        self.select_row(i, now);
    }

    /// Moves to the previous item in the list, from the first to the last.
    pub fn previous(&mut self, now: u64)
        ensures
            final(self)@ == after_previous(old(self)@, now),
    {
        let items_len = self.display_len();
        if items_len == 0 {
            return ;
        }
        let i = match self.list_state.selected() {
            Some(i) => {
                if i == 0 {
                    items_len - 1
                } else {
                    i - 1
                }
            },
            None => 0,
        };
        self.select_row(i, now);
    }

    /// Moves down by a page.
    pub fn page_down(&mut self, now: u64)
        ensures
            final(self)@ == after_page_down(old(self)@, now),
    {
        let items_len = self.display_len();
        if items_len == 0 {
            return ;
        }
        let current = match self.list_state.selected() {
            Some(i) => i,
            None => 0,
        };
        let last = items_len - 1;
        let new_index = if current < last && last - current > PAGE_SIZE {
            current + PAGE_SIZE
        } else {
            last
        };
        self.select_row(new_index, now);
    }

    /// Moves up by a page.
    pub fn page_up(&mut self, now: u64)
        ensures
            final(self)@ == after_page_up(old(self)@, now),
    {
        let items_len = self.display_len();
        if items_len == 0 {
            return ;
        }
        let current = match self.list_state.selected() {
            Some(i) => i,
            None => 0,
        };
        let new_index = if current >= PAGE_SIZE {
            current - PAGE_SIZE
        } else {
            0
        };
        self.select_row(new_index, now);
    }

    /// Moves to the first item.
    pub fn first(&mut self, now: u64)
        ensures
            final(self)@ == after_first(old(self)@, now),
    {
        if self.display_len() > 0 {
            self.select_row(0, now);
        }
    }

    /// Moves to the last item.
    pub fn go_to_last(&mut self, now: u64)
        ensures
            final(self)@ == after_last(old(self)@, now),
    {
        let items_len = self.display_len();
        if items_len > 0 {
            self.select_row(items_len - 1, now);
        }
    }

    /// Moves left to the previous column, in a layout of several columns.
    pub fn move_left(&mut self, now: u64)
        ensures
            final(self)@ == after_move_left(old(self)@, now),
    {
        if self.current_columns <= 1 {
            return ;
        }
        let items_len = self.display_len();
        if items_len == 0 || self.rows_per_column == 0 {
            return ;
        }
        if let Some(current) = self.list_state.selected() {
            if current >= self.rows_per_column {
                let new_index = current - self.rows_per_column;
                if new_index < items_len {
                    self.select_row(new_index, now);
                }
            }
        }
    }

    /// Moves right to the next column, in a layout of several columns.
    pub fn move_right(&mut self, now: u64)
        ensures
            final(self)@ == after_move_right(old(self)@, now),
    {
        if self.current_columns <= 1 {
            return ;
        }
        let items_len = self.display_len();
        if items_len == 0 || self.rows_per_column == 0 {
            return ;
        }
        if let Some(current) = self.list_state.selected() {
            if current < items_len && items_len - current > self.rows_per_column {
                self.select_row(current + self.rows_per_column, now);
            }
        }
    }

    /// Moves the scroll of a long package name on by one place.
    pub fn update_scroll(&mut self, available_width: usize, now: u64)
        ensures
            final(self)@ == after_update_scroll(old(self)@, available_width, now),
    {
        let name_width = match self.get_selected_package() {
            Some(package) => package.name.as_str().len(),
            None => {
                return ;
            },
        };
        if name_width > available_width && elapsed_since(now, self.last_interaction)
            > SCROLL_DELAY_MS {
            let max_offset = name_width - available_width;
            let period = max_offset + available_width / 2;
            let next: u128 = (self.scroll_offset as u128 + 1) % (period as u128);
            self.scroll_offset = next as usize;
        }
    }

    /// The package that the cursor stands on.
    pub fn get_selected_package(&self) -> (package: Option<&PackageInfo>)
        ensures
            match package {
                Some(info) => selected_record(self@) == Some(info@),
                None => selected_record(self@) is None,
            },
    {
        match self.list_state.selected() {
            Some(i) => {
                if self.is_searching {
                    if i < self.filtered_items.len() {
                        Some(&self.filtered_items[i])
                    } else {
                        None
                    }
                } else {
                    if i < self.items.len() {
                        Some(&self.items[i])
                    } else {
                        None
                    }
                }
            },
            None => None,
        }
    }

    /// A copy of the package that the cursor stands on.
    pub fn get_selected_package_details(&self) -> (package: Option<PackageInfo>)
        ensures
            match package {
                Some(info) => selected_record(self@) == Some(info@),
                None => selected_record(self@) is None,
            },
    {
        match self.get_selected_package() {
            Some(info) => Some(info.clone()),
            None => None,
        }
    }

    /// The list on display: the search results while a search is on, else
    /// all packages.
    pub fn get_display_items(&self) -> (items: &Vec<PackageInfo>)
        ensures
            crate::package_info::records_of(items@) == display_items(self@),
    {
        if self.is_searching {
            &self.filtered_items
        } else {
            &self.items
        }
    }
}

} // verus!
