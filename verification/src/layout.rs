//! What the screen shows, as far as it can be computed without a screen:
//! the columns of the list, the progress of an operation, and the part of a
//! long name that is on display.

use vstd::prelude::*;
use vstd::string::*;
use crate::app::UpdateStage;
use crate::navigation::SCROLL_DELAY_MS;
use crate::operations::{DOWNLOADING_AFTER_MS, INSTALLING_AFTER_MS, REMOVING_AFTER_MS};
use crate::package_info::{has_update, PackageInfo};
use crate::text::join;

verus! {

/// A column of the list is at least this wide.
pub const MIN_COLUMN_WIDTH: usize = 28;

/// The list shows at most this many columns side by side.
pub const MAX_VISIBLE_COLUMNS: usize = 4;

/// The rows of the list's frame and title.
pub const LIST_FRAME_ROWS: u16 = 3;

/// `count` divided by `per`, rounded up.
pub open spec fn ceil_div(count: int, per: int) -> int {
    count / per + if count % per == 0 {
        0int
    } else {
        1int
    }
}

/// How many columns fit side by side in a list of the given width.
pub open spec fn columns_that_fit(available_width: usize) -> int {
    if available_width / MIN_COLUMN_WIDTH < 1 {
        1
    } else if available_width / MIN_COLUMN_WIDTH > MAX_VISIBLE_COLUMNS {
        MAX_VISIBLE_COLUMNS as int
    } else {
        (available_width / MIN_COLUMN_WIDTH) as int
    }
}

/// How many rows a column has in a list of the given height.
pub open spec fn rows_that_fit(list_height: u16) -> int {
    if list_height > LIST_FRAME_ROWS {
        list_height - LIST_FRAME_ROWS
    } else {
        1
    }
}

/// The layout of a list of `total_items` items: how many columns are on
/// display, and how many rows each column has. Where all columns fit side
/// by side, the items are spread evenly over them; else every column is as
/// long as the list is high. An empty list has no layout.
pub open spec fn list_layout(available_width: usize, list_height: u16, total_items: usize) -> Option<
    (usize, usize),
> {
    if total_items == 0 {
        None
    } else {
        let rows = rows_that_fit(list_height);
        let needed = ceil_div(total_items as int, rows);
        if needed <= columns_that_fit(available_width) {
            Some((needed as usize, ceil_div(total_items as int, needed) as usize))
        } else {
            Some((columns_that_fit(available_width) as usize, rows as usize))
        }
    }
}

/// `count` divided by `per`, rounded up.
fn div_ceil(count: usize, per: usize) -> (quotient: usize)
    requires
        per > 0,
    ensures
        quotient == ceil_div(count as int, per as int),
        count > 0 ==> quotient > 0,
{
    let whole = count / per;
    if count % per == 0 {
        assert(count > 0 ==> whole > 0) by (nonlinear_arith)
            requires
                whole == count / per,
                count % per == 0,
                per > 0,
        ;
        whole
    } else {
        assert(whole < usize::MAX) by (nonlinear_arith)
            requires
                whole == count / per,
                count % per != 0,
                per > 0,
                count <= usize::MAX,
        ;
        whole + 1
    }
}

/// Computes the layout of the list for a frame of the given size.
pub fn compute_list_layout(available_width: usize, list_height: u16, total_items: usize) -> (layout:
    Option<(usize, usize)>)
    ensures
        layout == list_layout(available_width, list_height, total_items),
{
    if total_items == 0 {
        return None;
    }
    let fit = available_width / MIN_COLUMN_WIDTH;
    let max_visible_columns = if fit < 1 {
        1
    } else if fit > MAX_VISIBLE_COLUMNS {
        MAX_VISIBLE_COLUMNS
    } else {
        fit
    };
    let ideal_rows_per_column: usize = if list_height > LIST_FRAME_ROWS {
        (list_height - LIST_FRAME_ROWS) as usize
    } else {
        1
    };
    let total_columns_needed = div_ceil(total_items, ideal_rows_per_column);
    if total_columns_needed <= max_visible_columns {
        Some((total_columns_needed, div_ceil(total_items, total_columns_needed)))
    } else {
        Some((max_visible_columns, ideal_rows_per_column))
    }
}

/// How far an operation has come, in percent, `elapsed_ms` milliseconds
/// after its start. Within the stages that take long, the percentage grows
/// with the time since the stage was due to begin.
pub open spec fn progress_percent(stage: UpdateStage, elapsed_ms: u64) -> int {
    match stage {
        UpdateStage::Idle => 0,
        UpdateStage::Starting => 10,
        UpdateStage::Downloading => 20 + grown(elapsed_ms, DOWNLOADING_AFTER_MS, 17, 40),
        UpdateStage::Installing => 60 + grown(elapsed_ms, INSTALLING_AFTER_MS, 15, 25),
        UpdateStage::Completing => 90,
        UpdateStage::Finished => 100,
        UpdateStage::UninstallStarting => 15,
        UpdateStage::UninstallRemoving => 30 + grown(elapsed_ms, REMOVING_AFTER_MS, 15, 40),
        UpdateStage::UninstallCleaning => 80,
        UpdateStage::UninstallFinished => 100,
    }
}

/// One percent for every `per` milliseconds after `from`, up to `most`.
pub open spec fn grown(elapsed_ms: u64, from: u64, per: u64, most: u64) -> int {
    if elapsed_ms <= from {
        0
    } else if (elapsed_ms - from) / (per as int) > most {
        most as int
    } else {
        (elapsed_ms - from) / (per as int)
    }
}

/// One percent for every `per` milliseconds after `from`, up to `most`.
fn growth(elapsed_ms: u64, from: u64, per: u64, most: u16) -> (percent: u16)
    requires
        per > 0,
    ensures
        percent == grown(elapsed_ms, from, per, most as u64),
{
    if elapsed_ms <= from {
        0
    } else {
        let steps = (elapsed_ms - from) / per;
        if steps > most as u64 {
            most
        } else {
            steps as u16
        }
    }
}

/// Computes how far an operation has come, in percent.
pub fn operation_progress(stage: UpdateStage, elapsed_ms: u64) -> (percent: u16)
    ensures
        percent == progress_percent(stage, elapsed_ms),
        percent <= 100,
{
    match stage {
        UpdateStage::Idle => 0,
        UpdateStage::Starting => 10,
        UpdateStage::Downloading => 20 + growth(elapsed_ms, DOWNLOADING_AFTER_MS, 17, 40),
        UpdateStage::Installing => 60 + growth(elapsed_ms, INSTALLING_AFTER_MS, 15, 25),
        UpdateStage::Completing => 90,
        UpdateStage::Finished => 100,
        UpdateStage::UninstallStarting => 15,
        UpdateStage::UninstallRemoving => 30 + growth(elapsed_ms, REMOVING_AFTER_MS, 15, 40),
        UpdateStage::UninstallCleaning => 80,
        UpdateStage::UninstallFinished => 100,
    }
}

/// The part of a name that is on display in a list `available_width` wide.
/// A name that is longer than the width scrolls once the cursor has rested
/// for `idle_ms` milliseconds, long enough: the part starts at the scroll
/// offset, which goes round the name, and ends with the name or the width.
pub open spec fn scrolled_name(
    name: Seq<char>,
    available_width: usize,
    scroll_offset: usize,
    idle_ms: u64,
) -> Seq<char> {
    if name.len() > available_width && idle_ms > SCROLL_DELAY_MS {
        let start = scroll_offset as int % name.len() as int;
        let end = if start + available_width < name.len() {
            start + available_width
        } else {
            name.len() as int
        };
        name.subrange(start, end)
    } else {
        name
    }
}

/// Cuts out the part of a name that is on display.
pub fn apply_horizontal_scroll(
    name: &str,
    available_width: usize,
    scroll_offset: usize,
    idle_ms: u64,
) -> (shown: String)
    ensures
        shown@ == scrolled_name(name@, available_width, scroll_offset, idle_ms),
{
    let name_len = name.unicode_len();
    if name_len > available_width && idle_ms > SCROLL_DELAY_MS {
        let start = scroll_offset % name_len;
        let end = if available_width < name_len - start {
            start + available_width
        } else {
            name_len
        };
        name.substring_char(start, end).to_string()
    } else {
        name.to_string()
    }
}

/// A name cut down to a column `column_width` wide: a name that leaves no
/// room for two more characters is cut three short of the width and ends
/// in an ellipsis.
pub open spec fn truncated_name(name: Seq<char>, column_width: usize) -> Seq<char> {
    if name.len() > column_width - 2 {
        name.take(
            if column_width >= 3 {
                column_width - 3
            } else {
                0
            },
        ) + "…"@
    } else {
        name
    }
}

/// Cuts a name down to the width of a column.
pub fn truncate_name(name: &str, column_width: usize) -> (shown: String)
    ensures
        shown@ == truncated_name(name@, column_width),
{
    let name_len = name.unicode_len();
    if column_width < 2 || name_len > column_width - 2 {
        let truncate_at = if column_width >= 3 {
            column_width - 3
        } else {
            0
        };
        join(name.substring_char(0, truncate_at), "…")
    } else {
        name.to_string()
    }
}

/// Whether a package is shown as in need of an update: the package manager
/// calls it outdated, or a newer version than the installed one is on
/// offer.
pub fn needs_update(package: &PackageInfo) -> (needed: bool)
    ensures
        needed == (package.outdated || has_update(package@)),
{
    package.outdated || package.has_update_available()
}

} // verus!
