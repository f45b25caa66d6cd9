//! The search over the list, and the refresh of the list from the
//! repository.

use vstd::prelude::*;
use vstd::string::*;
use crate::app::{after_reset_scroll, App, AppState, ListSelection, ModalState, UpdateStage};
use crate::brew_info_response::BrewInfoResponse;
use crate::navigation::selected_record;
use crate::package_info::{records_of, PackageInfo, PackageRecord};
use crate::repository::{after_read, after_refresh, listed, FetchError, HomebrewRepository};
use crate::text::{
    first_match, lemma_filter_empty, lemma_filter_push, lemma_first_match, to_chars,
};

verus! {

/// The lower-case form of a text, as `str::to_lowercase` gives it.
pub uninterp spec fn lowercase(text: Seq<char>) -> Seq<char>;

/// `str::to_lowercase` returns the lower-case form of the text, by the
/// rules of Unicode. The result depends on the text alone; `lowercase`
/// names it.
pub assume_specification[ str::to_lowercase ](text: &str) -> (lower: String)
    ensures
        lower@ == lowercase(text@),
;

/// `String::push` appends one character to the end of the text.
pub assume_specification[ String::push ](text: &mut String, ch: char)
    ensures
        final(text)@ == old(text)@.push(ch),
;

/// `String::pop` takes the last character off the text and returns it, or
/// returns nothing and leaves the text alone when it is empty.
pub assume_specification[ String::pop ](text: &mut String) -> (last: Option<char>)
    ensures
        old(text)@.len() == 0 ==> last is None && final(text)@ == old(text)@,
        old(text)@.len() > 0 ==> last == Some(old(text)@.last()) && final(text)@ == old(
            text,
        )@.drop_last(),
;

/// Whether `needle` stands in `hay` at position `i`.
pub open spec fn occurs_at(hay: Seq<char>, needle: Seq<char>, i: int) -> bool {
    0 <= i && i + needle.len() <= hay.len() && hay.subrange(i, i + needle.len()) == needle
}

/// Whether `needle` stands somewhere in `hay`.
pub open spec fn contains_text(hay: Seq<char>, needle: Seq<char>) -> bool {
    exists|i: int| occurs_at(hay, needle, i)
}

/// Whether a package matches a query that is in lower case already: the
/// query stands in its name or in its description, both taken in lower case.
pub open spec fn matches_query(record: PackageRecord, query: Seq<char>) -> bool {
    contains_text(lowercase(record.name), query) || contains_text(
        lowercase(record.description),
        query,
    )
}

/// The test that a search applies to each package.
pub open spec fn is_match(query: Seq<char>) -> spec_fn(PackageRecord) -> bool {
    |record: PackageRecord| matches_query(record, query)
}

/// The packages that a search for `query` finds among `items`: all of them
/// for an empty query, else those that match it without regard to case.
pub open spec fn search_results(items: Seq<PackageRecord>, query: Seq<char>) -> Seq<
    PackageRecord,
> {
    if query.len() == 0 {
        items
    } else {
        items.filter(is_match(lowercase(query)))
    }
}

/// The row to select after the list was filtered. A target row is kept as
/// far as the list on display reaches; without a target the first search
/// result is selected, if there is one.
pub open spec fn selection_after_filter(
    preserve: Option<usize>,
    is_searching: bool,
    items_len: nat,
    results_len: nat,
) -> Option<usize> {
    match preserve {
        Some(target) => {
            let shown = if is_searching {
                results_len
            } else {
                items_len
            };
            if shown == 0 {
                None
            } else if target < shown - 1 {
                Some(target)
            } else {
                Some((shown - 1) as usize)
            }
        },
        None => if results_len > 0 {
            Some(0)
        } else {
            None
        },
    }
}

/// The application after the search was applied to the list at `now`.
pub open spec fn after_apply_filter(state: AppState, preserve: Option<usize>, now: u64) -> AppState {
    let results = search_results(state.items, state.search_query);
    after_reset_scroll(
        AppState {
            filtered_items: results,
            selected: selection_after_filter(
                preserve,
                state.is_searching,
                state.items.len(),
                results.len(),
            ),
            ..state
        },
        now,
    )
}

/// The application after a search was started at `now`: the selection is
/// remembered, the query is empty, and every package is a result.
pub open spec fn after_start_search(state: AppState, now: u64) -> AppState {
    after_apply_filter(
        AppState {
            pre_search_selection: state.selected,
            is_searching: true,
            search_query: Seq::empty(),
            column_scroll_offset: 0,
            ..state
        },
        None,
        now,
    )
}

/// The row of the whole list to select when a search ends: that of the
/// package that was selected among the results, else the first row, else
/// none.
pub open spec fn selection_after_search(state: AppState) -> Option<usize> {
    let found = match selected_record(state) {
        Some(record) => first_match(names_of_records(state.items), record.name),
        None => -1,
    };
    if found >= 0 {
        Some(found as usize)
    } else if state.items.len() > 0 {
        Some(0)
    } else {
        None
    }
}

/// The identifiers of a list of records, in order.
pub open spec fn names_of_records(records: Seq<PackageRecord>) -> Seq<Seq<char>> {
    records.map_values(|record: PackageRecord| record.name)
}

/// The application after the search was ended at `now`.
pub open spec fn after_end_search(state: AppState, now: u64) -> AppState {
    after_reset_scroll(
        AppState {
            is_searching: false,
            search_query: Seq::empty(),
            selected: selection_after_search(state),
            column_scroll_offset: 0,
            ..state
        },
        now,
    )
}

/// The application after the outcome of a bulk query was taken in at `now`:
/// the repository takes the outcome, the list is read from it anew, the
/// search is applied again, and the columns start at the first.
pub open spec fn after_refresh_packages(
    state: AppState,
    outcome: Result<BrewInfoResponse, FetchError>,
    preserve: Option<usize>,
    now: u64,
) -> AppState {
    let refreshed = after_refresh(state.repository, outcome, now);
    AppState {
        column_scroll_offset: 0,
        ..after_apply_filter(
            AppState {
                repository: after_read(refreshed, now),
                items: listed(refreshed, now),
                ..state
            },
            preserve,
            now,
        )
    }
}

/// Whether `needle` stands in `hay` at `at`.
fn matches_at(hay: &Vec<char>, needle: &Vec<char>, at: usize) -> (found: bool)
    requires
        at + needle.len() <= hay.len(),
    ensures
        found == occurs_at(hay@, needle@, at as int),
{
    let mut j: usize = 0;
    while j < needle.len()
        invariant
            j <= needle.len(),
            at + needle.len() <= hay.len(),
            forall|k: int| 0 <= k < j ==> hay@[at + k] == needle@[k],
        decreases needle.len() - j,
    {
        if hay[at + j] != needle[j] {
            proof {
                let part = hay@.subrange(at as int, at + needle.len());
                assert(part[j as int] != needle@[j as int]);
            }
            return false;
        }
        j = j + 1;
    }
    assert(hay@.subrange(at as int, at + needle.len()) =~= needle@);
    true
}

/// Whether `needle` stands somewhere in `hay`.
pub fn contains_chars(hay: &Vec<char>, needle: &Vec<char>) -> (found: bool)
    ensures
        found == contains_text(hay@, needle@),
{
    if needle.len() > hay.len() {
        return false;
    }
    if needle.len() == 0 {
        assert(hay@.subrange(0, 0) =~= needle@);
        assert(occurs_at(hay@, needle@, 0));
        return true;
    }
    let last = hay.len() - needle.len();
    let mut i: usize = 0;
    while i <= last
        invariant
            i <= last + 1,
            last == hay.len() - needle.len(),
            last < usize::MAX,
            forall|k: int| 0 <= k < i ==> !occurs_at(hay@, needle@, k),
        decreases last + 1 - i,
    {
        if matches_at(hay, needle, i) {
            return true;
        }
        i = i + 1;
    }
    false
}

/// Whether a package matches a query that is in lower case already.
fn package_matches(package: &PackageInfo, query: &Vec<char>) -> (matches: bool)
    ensures
        matches == matches_query(package@, query@),
{
    let name = to_chars(package.name.as_str().to_lowercase().as_str());
    if contains_chars(&name, query) {
        return true;
    }
    let description = to_chars(package.description.as_str().to_lowercase().as_str());
    contains_chars(&description, query)
}

/// The packages that a search for `query` finds among `items`.
fn search(items: &Vec<PackageInfo>, query: &str) -> (results: Vec<PackageInfo>)
    ensures
        records_of(results@) == search_results(records_of(items@), query@),
{
    if query.is_empty() {
        let results = items.clone();
        assert(records_of(results@) =~= records_of(items@));
        return results;
    }
    let lower = to_chars(query.to_lowercase().as_str());
    let ghost all = records_of(items@);
    let ghost test = is_match(lower@);
    let mut results: Vec<PackageInfo> = Vec::new();
    let mut i: usize = 0;
    proof {
        lemma_filter_empty(test);
        assert(all.take(0) =~= Seq::<PackageRecord>::empty());
        assert(records_of(results@) =~= all.take(0).filter(test));
    }
    while i < items.len()
        invariant
            i <= items.len(),
            all == records_of(items@),
            test == is_match(lower@),
            records_of(results@) == all.take(i as int).filter(test),
        decreases items.len() - i,
    {
        let package = &items[i];
        proof {
            assert(all.take(i + 1) =~= all.take(i as int).push(package@));
            lemma_filter_push(all.take(i as int), package@, test);
        }
        if package_matches(package, &lower) {
            let copy = package.clone();
            assert(records_of(results@.push(copy)) =~= records_of(results@).push(copy@));
            results.push(copy);
        }
        i = i + 1;
    }
    assert(all.take(all.len() as int) =~= all);
    results
}

/// Finds the first package named `name`.
pub fn position_of_package(items: &Vec<PackageInfo>, name: &String) -> (position: Option<usize>)
    ensures
        match position {
            Some(k) => k < items.len() && k == first_match(
                names_of_records(records_of(items@)),
                name@,
            ),
            None => first_match(names_of_records(records_of(items@)), name@) == -1,
        },
{
    let ghost names = names_of_records(records_of(items@));
    let mut i: usize = 0;
    while i < items.len()
        invariant
            i <= items.len(),
            names == names_of_records(records_of(items@)),
            forall|j: int| 0 <= j < i ==> names[j] != name@,
        decreases items.len() - i,
    {
        if items[i].name == *name {
            proof {
                lemma_first_match(names, name@, i as int);
            }
            return Some(i);
        }
        i = i + 1;
    }
    proof {
        lemma_first_match(names, name@, -1);
    }
    None
}

impl App {
    /// An application that shows what the repository lists at `now`, with
    /// the cursor on the first row.
    pub fn new(repository: HomebrewRepository, now: u64) -> (app: Self)
        ensures
            app@ == (AppState {
                items: listed(repository@, now),
                selected: Some(0),
                scroll_offset: 0,
                last_interaction: now,
                should_quit: false,
                search_query: Seq::empty(),
                filtered_items: listed(repository@, now),
                is_searching: false,
                pre_search_selection: None,
                status_messages: Seq::empty(),
                repository: after_read(repository@, now),
                current_columns: 1,
                rows_per_column: 0,
                column_scroll_offset: 0,
                is_updating: false,
                update_package_name: None,
                update_start_time: None,
                update_stage: UpdateStage::Idle,
                is_uninstalling: false,
                real_update_called: false,
                real_action_pending: false,
                pending_uninstall_package: None,
                modal_state: ModalState::Closed,
            }),
    {
        let mut repository = repository;
        let items = repository.get_all_packages(now);
        let filtered_items = items.clone();
        assert(records_of(filtered_items@) =~= records_of(items@));
        let mut app = App {
            filtered_items,
            items,
            list_state: ListSelection::new(),
            scroll_offset: 0,
            last_interaction: now,
            should_quit: false,
            search_query: String::new(),
            is_searching: false,
            pre_search_selection: None,
            status_messages: std::collections::VecDeque::new(),
            repository,
            current_columns: 1,
            rows_per_column: 0,
            column_scroll_offset: 0,
            is_updating: false,
            update_package_name: None,
            update_start_time: None,
            update_stage: UpdateStage::Idle,
            is_uninstalling: false,
            real_update_called: false,
            real_action_pending: false,
            pending_uninstall_package: None,
            modal_state: ModalState::Closed,
        };
        app.list_state.select(Some(0));
        assert(app@.status_messages =~= Seq::empty());
        app
    }

    /// Applies the search to the list at `now` and puts the cursor on the
    /// first result.
    pub fn apply_filter(&mut self, now: u64)
        ensures
            final(self)@ == after_apply_filter(old(self)@, None, now),
    {
        self.apply_filter_with_selection(None, now);
    }

    /// Applies the search to the list at `now`. Where `preserve_selection`
    /// names a row, the cursor is put on it, or on the last row of the list
    /// on display if that is shorter.
    pub fn apply_filter_with_selection(&mut self, preserve_selection: Option<usize>, now: u64)
        ensures
            final(self)@ == after_apply_filter(old(self)@, preserve_selection, now),
    {
        self.filtered_items = search(&self.items, self.search_query.as_str());
        match preserve_selection {
            Some(target_index) => {
                let max_index = if self.is_searching {
                    self.filtered_items.len()
                } else {
                    self.items.len()
                };
                if max_index > 0 {
                    let clamped_index = if target_index < max_index - 1 {
                        target_index
                    } else {
                        max_index - 1
                    };
                    self.list_state.select(Some(clamped_index));
                } else {
                    self.list_state.select(None);
                }
            },
            None => {
                if self.filtered_items.len() > 0 {
                    self.list_state.select(Some(0));
                } else {
                    self.list_state.select(None);
                }
            },
        }
        self.reset_scroll(now);
    }

    /// Starts a search at `now`.
    pub fn start_search(&mut self, now: u64)
        ensures
            final(self)@ == after_start_search(old(self)@, now),
    {
        self.pre_search_selection = self.list_state.selected();
        self.is_searching = true;
        self.search_query = String::new();
        self.reset_column_scroll();
        self.apply_filter(now);
    }

    /// Ends the search at `now` and keeps the cursor on the package that was
    /// selected among the results.
    pub fn end_search(&mut self, now: u64)
        ensures
            final(self)@ == after_end_search(old(self)@, now),
    {
        let selected_package_name = match self.get_selected_package() {
            Some(package) => Some(package.name.clone()),
            None => None,
        };
        self.is_searching = false;
        self.search_query = String::new();
        let found = match selected_package_name {
            Some(package_name) => position_of_package(&self.items, &package_name),
            None => None,
        };
        match found {
            Some(index) => {
                self.list_state.select(Some(index));
            },
            None => {
                if self.items.len() > 0 {
                    self.list_state.select(Some(0));
                } else {
                    self.list_state.select(None);
                }
            },
        }
        self.column_scroll_offset = 0;
        self.reset_scroll(now);
    }

    /// Adds a character to the query of the search that is on, at `now`.
    pub fn add_search_char(&mut self, c: char, now: u64)
        ensures
            final(self)@ == if old(self)@.is_searching {
                after_apply_filter(
                    AppState { search_query: old(self)@.search_query.push(c), ..old(self)@ },
                    None,
                    now,
                )
            } else {
                old(self)@
            },
    {
        if self.is_searching {
            self.search_query.push(c);
            self.apply_filter(now);
        }
    }

    /// Takes the last character off the query of the search that is on, at
    /// `now`.
    pub fn remove_search_char(&mut self, now: u64)
        ensures
            final(self)@ == if old(self)@.is_searching && old(self)@.search_query.len() > 0 {
                after_apply_filter(
                    AppState { search_query: old(self)@.search_query.drop_last(), ..old(self)@ },
                    None,
                    now,
                )
            } else {
                old(self)@
            },
    {
        if self.is_searching && !self.search_query.as_str().is_empty() {
            self.search_query.pop();
            self.apply_filter(now);
        }
    }

    /// Takes in the outcome of a bulk query at `now` and shows the list
    /// anew, with the cursor on the first row.
    pub fn refresh_packages(&mut self, outcome: Result<BrewInfoResponse, FetchError>, now: u64)
        ensures
            final(self)@ == after_refresh_packages(old(self)@, outcome, None, now),
    {
        self.refresh_packages_with_selection(outcome, None, now);
    }

    /// Takes in the outcome of a bulk query at `now` and shows the list
    /// anew, with the cursor on the row `preserve_selection` as far as the
    /// list reaches.
    pub fn refresh_packages_with_selection(
        &mut self,
        outcome: Result<BrewInfoResponse, FetchError>,
        preserve_selection: Option<usize>,
        now: u64,
    )
        ensures
            final(self)@ == after_refresh_packages(old(self)@, outcome, preserve_selection, now),
    {
        self.repository.refresh_all_packages(outcome, now);
        self.items = self.repository.get_all_packages(now);
        self.apply_filter_with_selection(preserve_selection, now);
        self.reset_column_scroll();
    }
}

} // verus!
