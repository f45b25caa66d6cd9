//! What each key does, by the mode the application is in.

use vstd::prelude::*;
use crate::app::{App, AppState, ModalState};
use crate::navigation::{
    after_first, after_last, after_move_left, after_move_right, after_next, after_page_down,
    after_page_up, after_previous,
};
use crate::operations::{
    after_cancel_uninstall, after_confirm_uninstall, after_uninstall_selected,
    after_update_selected,
};
use crate::search::{after_apply_filter, after_end_search, after_start_search};

verus! {

/// A key as the application reads it.
#[derive(Debug, Clone, Copy, PartialEq, Eq, Structural)]
pub enum Key {
    Char(char),
    Up,
    Down,
    Left,
    Right,
    PageUp,
    PageDown,
    Home,
    End,
    Enter,
    Esc,
    Backspace,
    /// Any other key.
    Other,
}

/// What the caller is to do after a key.
#[derive(Debug, Clone, Copy, PartialEq, Eq, Structural)]
pub enum KeyOutcome {
    /// Nothing: the key was dealt with.
    Handled,
    /// Query the whole directory and hand the outcome to
    /// `App::refresh_packages`.
    RefreshPackages,
}

/// Whether a character can go into the search query: it is ASCII and no
/// control character.
pub open spec fn is_query_char(c: char) -> bool {
    32 <= c as u32 && c as u32 <= 126
}

/// The application that was asked to end.
pub open spec fn after_quit(state: AppState) -> AppState {
    AppState { should_quit: true, ..state }
}

/// The application after a key at `now`, while a window lies over the list.
/// While an operation shows its progress, only `q` is read. The question
/// whether to uninstall is answered by `y`, `Y` or Enter, and by `n`, `N`
/// or Esc.
pub open spec fn after_modal_key(state: AppState, key: Key, now: u64) -> AppState {
    match state.modal_state {
        ModalState::UpdateProgress => if key == Key::Char('q') {
            after_quit(state)
        } else {
            state
        },
        ModalState::UninstallConfirmation => if key == Key::Char('y') || key == Key::Char('Y')
            || key == Key::Enter {
            after_confirm_uninstall(state, now)
        } else if key == Key::Char('n') || key == Key::Char('N') || key == Key::Esc {
            after_cancel_uninstall(state, now)
        } else if key == Key::Char('q') {
            after_quit(state)
        } else {
            state
        },
        ModalState::Closed => state,
    }
}

/// The application after a key at `now`, while the list is walked.
pub open spec fn after_normal_key(state: AppState, key: Key, now: u64) -> AppState {
    match key {
        Key::Char(c) => if c == 'q' {
            after_quit(state)
        } else if c == '/' {
            after_start_search(state, now)
        } else if c == 'x' {
            after_uninstall_selected(state, now)
        } else if c == 'u' {
            after_update_selected(state, now)
        } else {
            state
        },
        Key::Down => after_next(state, now),
        Key::Up => after_previous(state, now),
        Key::Left => after_move_left(state, now),
        Key::Right => after_move_right(state, now),
        Key::PageDown => after_page_down(state, now),
        Key::PageUp => after_page_up(state, now),
        Key::Home => after_first(state, now),
        Key::End => after_last(state, now),
        _ => state,
    }
}

/// The application after a key at `now`, while a search is on.
pub open spec fn after_search_key(state: AppState, key: Key, now: u64) -> AppState {
    match key {
        Key::Esc => after_end_search(state, now),
        Key::Enter => after_end_search(state, now),
        Key::Backspace => if state.search_query.len() > 0 {
            after_apply_filter(
                AppState { search_query: state.search_query.drop_last(), ..state },
                None,
                now,
            )
        } else {
            state
        },
        Key::Down => after_next(state, now),
        Key::Up => after_previous(state, now),
        Key::Left => after_move_left(state, now),
        Key::Right => after_move_right(state, now),
        Key::PageDown => after_page_down(state, now),
        Key::PageUp => after_page_up(state, now),
        Key::Home => after_first(state, now),
        Key::End => after_last(state, now),
        Key::Char(c) => if is_query_char(c) {
            after_apply_filter(
                AppState { search_query: state.search_query.push(c), ..state },
                None,
                now,
            )
        } else {
            state
        },
        Key::Other => state,
    }
}

/// The application after a key at `now`: a window over the list gets the
/// key first, then the search, then the list.
pub open spec fn after_key(state: AppState, key: Key, now: u64) -> AppState {
    if state.modal_state != ModalState::Closed {
        after_modal_key(state, key, now)
    } else if state.is_searching {
        after_search_key(state, key, now)
    } else {
        after_normal_key(state, key, now)
    }
}

/// What the caller is to do after a key: `r` asks for a refresh of the
/// list while the list is walked.
pub open spec fn key_outcome(state: AppState, key: Key) -> KeyOutcome {
    if state.modal_state == ModalState::Closed && !state.is_searching && key == Key::Char('r') {
        KeyOutcome::RefreshPackages
    } else {
        KeyOutcome::Handled
    }
}

/// Handles a key at `now` and says what the caller is to do.
pub fn handle_key_event(app: &mut App, key: Key, now: u64) -> (outcome: KeyOutcome)
    ensures
        final(app)@ == after_key(old(app)@, key, now),
        outcome == key_outcome(old(app)@, key),
{
    if app.modal_state != ModalState::Closed {
        handle_modal_keys(app, key, now);
        KeyOutcome::Handled
    } else if app.is_searching {
        handle_search_mode_keys(app, key, now);
        KeyOutcome::Handled
    } else {
        handle_normal_mode_keys(app, key, now)
    }
}

/// Handles a key while a window lies over the list.
fn handle_modal_keys(app: &mut App, key: Key, now: u64)
    ensures
        final(app)@ == after_modal_key(old(app)@, key, now),
{
    match app.modal_state {
        ModalState::UpdateProgress => {
            match key {
                Key::Char('q') => {
                    app.quit();
                },
                _ => {},
            }
        },
        ModalState::UninstallConfirmation => {
            match key {
                Key::Char('y') | Key::Char('Y') | Key::Enter => {
                    app.confirm_uninstall(now);
                },
                Key::Char('n') | Key::Char('N') | Key::Esc => {
                    app.cancel_uninstall(now);
                },
                Key::Char('q') => {
                    app.quit();
                },
                _ => {},
            }
        },
        ModalState::Closed => {},
    }
}

/// Handles a key while the list is walked.
fn handle_normal_mode_keys(app: &mut App, key: Key, now: u64) -> (outcome: KeyOutcome)
    ensures
        final(app)@ == after_normal_key(old(app)@, key, now),
        outcome == if key == Key::Char('r') {
            KeyOutcome::RefreshPackages
        } else {
            KeyOutcome::Handled
        },
{
    match key {
        Key::Char('q') => app.quit(),
        Key::Down => app.next(now),
        Key::Up => app.previous(now),
        Key::Left => app.move_left(now),
        Key::Right => app.move_right(now),
        Key::PageDown => app.page_down(now),
        Key::PageUp => app.page_up(now),
        Key::Home => app.first(now),
        Key::End => app.go_to_last(now),
        Key::Char('/') => app.start_search(now),
        Key::Char('x') => app.uninstall_selected_package(now),
        Key::Char('u') => app.update_selected_package(now),
        Key::Char('r') => {
            return KeyOutcome::RefreshPackages;
        },
        _ => {},
    }
    KeyOutcome::Handled
}

/// Handles a key while a search is on.
fn handle_search_mode_keys(app: &mut App, key: Key, now: u64)
    requires
        old(app).is_searching,
    ensures
        final(app)@ == after_search_key(old(app)@, key, now),
{
    match key {
        Key::Esc => app.end_search(now),
        Key::Enter => app.end_search(now),
        Key::Backspace => app.remove_search_char(now),
        Key::Down => app.next(now),
        Key::Up => app.previous(now),
        Key::Left => app.move_left(now),
        Key::Right => app.move_right(now),
        Key::PageDown => app.page_down(now),
        Key::PageUp => app.page_up(now),
        Key::Home => app.first(now),
        Key::End => app.go_to_last(now),
        Key::Char(c) => {
            let code: u32 = c as u32;
            if 32 <= code && code <= 126 {
                app.add_search_char(c, now);
            }
        },
        Key::Other => {},
    }
}

} // verus!
