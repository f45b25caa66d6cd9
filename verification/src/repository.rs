//! The directory of installed packages, the cache of package details and
//! the list of recently removed packages.
//!
//! The repository never talks to the package manager itself. Its caller runs
//! the queries and hands over what came back; the repository decides when a
//! query is due and what to make of its outcome.

use vstd::prelude::*;
use vstd::string::*;
use crate::brew_info_response::{
    directly_installed, find_newest_install, is_directly_installed, newest_install, BrewCask,
    BrewFormulae, BrewInfoResponse,
};
use crate::helpers::{cask_record, formula_record};
use crate::clock::{elapsed, elapsed_since};
use crate::keyed::{marks_within, KeyedList};
use crate::package_info::{records_of, PackageInfo, PackageRecord, PackageType};
use crate::scheduler::{
    accepts, after_animation, after_finish, after_forget, after_poll, after_request,
    idle_scheduler, poll_result, DetailScheduler, SchedulerState,
};
use crate::text::{
    first_match, join, lemma_filter_empty, lemma_filter_push, lemma_first_match, text_of,
};

verus! {

/// Why a query of the package manager gave no report.
#[derive(Debug, Clone, PartialEq, Eq)]
pub enum FetchError {
    /// The query could not be run or ended in failure. This may pass.
    Unavailable(String),
    /// The query ran, and what it printed is no report.
    Malformed(String),
}

/// Why a query gave no report, as mathematical values.
pub enum ErrorView {
    Unavailable(Seq<char>),
    Malformed(Seq<char>),
}

impl View for FetchError {
    type V = ErrorView;

    open spec fn view(&self) -> ErrorView {
        match *self {
            FetchError::Unavailable(message) => ErrorView::Unavailable(message@),
            FetchError::Malformed(message) => ErrorView::Malformed(message@),
        }
    }
}

impl FetchError {
    /// The error in words.
    pub open spec fn text(self) -> Seq<char> {
        match self {
            FetchError::Unavailable(message) => message@,
            FetchError::Malformed(message) => message@,
        }
    }

    /// The error in words.
    pub fn message(&self) -> (message: String)
        ensures
            message@ == self.text(),
    {
        match self {
            FetchError::Unavailable(message) => message.clone(),
            FetchError::Malformed(message) => message.clone(),
        }
    }
}

/// The record shown when the package manager reports no package.
pub open spec fn no_packages_record() -> PackageRecord {
    PackageRecord {
        name: "no-packages"@,
        description: "No packages are currently installed via Homebrew. Use 'brew install <package>' to install packages."@,
        homepage: "https://brew.sh"@,
        current_version: "1.0.0"@,
        installed_version: None,
        package_type: PackageType::Unknown,
        tap: None,
        outdated: false,
        caveats: None,
        installed_at: None,
    }
}

/// The record shown in place of a report that could not be had.
pub open spec fn error_record(message: Seq<char>) -> PackageRecord {
    PackageRecord {
        name: "homebrew-error"@,
        description: "Error loading packages from Homebrew: "@ + message
            + ". Make sure Homebrew is installed and accessible."@,
        homepage: "https://brew.sh"@,
        current_version: "1.0.0"@,
        installed_version: None,
        package_type: PackageType::Unknown,
        tap: None,
        outdated: false,
        caveats: None,
        installed_at: None,
    }
}

/// Whether a formula was installed for its own sake.
pub open spec fn is_direct_formula() -> spec_fn(BrewFormulae) -> bool {
    |formula: BrewFormulae| directly_installed(formula.installed@)
}

/// The records of the formulae that were installed for their own sake.
pub open spec fn formula_records(formulae: Seq<BrewFormulae>) -> Seq<PackageRecord> {
    formulae.filter(is_direct_formula()).map_values(|formula: BrewFormulae| formula_record(formula))
}

/// The records of the casks.
pub open spec fn cask_records(casks: Seq<BrewCask>) -> Seq<PackageRecord> {
    casks.map_values(|cask: BrewCask| cask_record(cask))
}

/// The directory that a report stands for: the formulae that were installed
/// for their own sake, then the casks.
pub open spec fn response_records(response: BrewInfoResponse) -> Seq<PackageRecord> {
    formula_records(response.formulae@) + cask_records(response.casks@)
}

/// The directory to show for the outcome of a bulk query: the report's own
/// where it has any package, and a single record that explains where it has
/// none or where there is no report.
pub open spec fn loaded_records(outcome: Result<BrewInfoResponse, FetchError>) -> Seq<
    PackageRecord,
> {
    match outcome {
        Ok(response) => if response_records(response).len() == 0 {
            seq![no_packages_record()]
        } else {
            response_records(response)
        },
        Err(error) => seq![error_record(error.text())],
    }
}

/// A read of the directory asks the package manager anew when the last
/// report is older than this many milliseconds.
pub const REFRESH_INTERVAL_MS: u64 = 30000;

/// A removed package stays off the directory for this many milliseconds.
pub const TOMBSTONE_TTL_MS: u64 = 120000;

/// What the repository holds.
pub struct RepositoryState {
    /// The directory as last reported.
    pub installed: Seq<PackageRecord>,
    /// The details that were fetched, by identifier.
    pub details: Map<Seq<char>, PackageRecord>,
    /// The packages that were removed of late, each with the time of its
    /// removal in milliseconds.
    pub removed: Map<Seq<char>, u64>,
    /// The scheduler of detail requests.
    pub scheduler: SchedulerState,
    /// When the package manager was last asked for the whole directory.
    pub last_refresh: u64,
    /// Whether the next read is to ask again, however young the report.
    pub refresh_forced: bool,
}

/// The records that fetched details stand for.
pub open spec fn details_of(cache: Map<Seq<char>, PackageInfo>) -> Map<Seq<char>, PackageRecord> {
    cache.map_values(|info: PackageInfo| info@)
}

/// Whether a read at `now` is to ask the package manager first: when a
/// refresh was forced, or the last report is older than the interval.
pub open spec fn refresh_due(state: RepositoryState, now: u64) -> bool {
    state.refresh_forced || elapsed(now, state.last_refresh) > REFRESH_INTERVAL_MS
}

/// The repository after a read at `now`: removals that are older than the
/// time to live are forgotten.
pub open spec fn after_read(state: RepositoryState, now: u64) -> RepositoryState {
    RepositoryState { removed: marks_within(state.removed, now, TOMBSTONE_TTL_MS), ..state }
}

/// Whether a record is not among the removed.
pub open spec fn is_listed(removed: Map<Seq<char>, u64>) -> spec_fn(PackageRecord) -> bool {
    |record: PackageRecord| !removed.contains_key(record.name)
}

/// What a read at `now` returns: the directory without the packages whose
/// removal is no older than the time to live.
pub open spec fn listed(state: RepositoryState, now: u64) -> Seq<PackageRecord> {
    state.installed.filter(is_listed(after_read(state, now).removed))
}

/// The repository after the outcome of a bulk query has come in at `now`. A
/// report replaces the directory, and so does the notice of a report that
/// could not be read; where the query itself failed the directory stays as
/// it was. Either way the report counts as made at `now`, and no refresh is
/// forced any more. The removed packages stay removed.
pub open spec fn after_refresh(
    state: RepositoryState,
    outcome: Result<BrewInfoResponse, FetchError>,
    now: u64,
) -> RepositoryState {
    RepositoryState {
        installed: match outcome {
            Err(FetchError::Unavailable(_)) => state.installed,
            _ => loaded_records(outcome),
        },
        last_refresh: now,
        refresh_forced: false,
        ..state
    }
}

/// The repository after `name` was removed at `now`: its details are
/// dropped, the scheduler forgets it, it is marked as removed at `now`, and
/// the next read is to ask the package manager again.
pub open spec fn after_tombstone(state: RepositoryState, name: Seq<char>, now: u64) -> RepositoryState {
    RepositoryState {
        details: state.details.remove(name),
        removed: state.removed.insert(name, now),
        scheduler: after_forget(state.scheduler, name),
        refresh_forced: true,
        ..state
    }
}

/// Every record of a report: all formulae, then all casks.
pub open spec fn every_record(response: BrewInfoResponse) -> Seq<PackageRecord> {
    response.formulae@.map_values(|formula: BrewFormulae| formula_record(formula)) + cask_records(
        response.casks@,
    )
}

/// The details after the records were written into them one by one, each
/// under its own identifier.
pub open spec fn with_details(
    details: Map<Seq<char>, PackageRecord>,
    records: Seq<PackageRecord>,
) -> Map<Seq<char>, PackageRecord>
    decreases records.len(),
{
    if records.len() == 0 {
        details
    } else {
        with_details(details, records.drop_last()).insert(records.last().name, records.last())
    }
}

/// The repository after the fetch of the details of `name` has ended. Every
/// record of a report is written into the details; a failed fetch leaves
/// them as they were. The scheduler is told that the fetch has ended.
pub open spec fn after_fetch(
    state: RepositoryState,
    name: Seq<char>,
    outcome: Result<BrewInfoResponse, FetchError>,
) -> RepositoryState {
    RepositoryState {
        details: match outcome {
            Ok(response) => with_details(state.details, every_record(response)),
            Err(_) => state.details,
        },
        scheduler: after_finish(state.scheduler, name),
        ..state
    }
}

/// Something that happens to the directory.
pub enum DirectoryEvent {
    /// The directory was read.
    Read(u64),
    /// The outcome of a bulk query came in.
    Refreshed(Result<BrewInfoResponse, FetchError>, u64),
    /// A refresh was forced.
    Forced,
}

/// The repository after an event.
pub open spec fn after_directory_event(state: RepositoryState, event: DirectoryEvent) -> RepositoryState {
    match event {
        DirectoryEvent::Read(now) => after_read(state, now),
        DirectoryEvent::Refreshed(outcome, now) => after_refresh(state, outcome, now),
        DirectoryEvent::Forced => RepositoryState { refresh_forced: true, ..state },
    }
}

/// The repository after a course of events.
pub open spec fn after_directory_events(
    state: RepositoryState,
    events: Seq<DirectoryEvent>,
) -> RepositoryState
    decreases events.len(),
{
    if events.len() == 0 {
        state
    } else {
        after_directory_events(after_directory_event(state, events[0]), events.skip(1))
    }
}

/// Whether every read among the events happens no more than the time to
/// live after `since`.
pub open spec fn reads_within_ttl(events: Seq<DirectoryEvent>, since: u64) -> bool {
    forall|i: int|
        0 <= i < events.len() ==> (#[trigger] events[i] matches DirectoryEvent::Read(at) ==> elapsed(
            at,
            since,
        ) <= TOMBSTONE_TTL_MS)
}

/// A removal that is no older than the time to live at every read stays on
/// record through reads, reports and forced refreshes.
proof fn lemma_removal_stays_on_record(
    state: RepositoryState,
    name: Seq<char>,
    removed_at: u64,
    events: Seq<DirectoryEvent>,
)
    requires
        state.removed.contains_key(name),
        state.removed[name] == removed_at,
        reads_within_ttl(events, removed_at),
    ensures
        after_directory_events(state, events).removed.contains_key(name),
        after_directory_events(state, events).removed[name] == removed_at,
    decreases events.len(),
{
    if events.len() > 0 {
        let next = after_directory_event(state, events[0]);
        let rest = events.skip(1);
        assert forall|i: int| 0 <= i < rest.len() implies (#[trigger] rest[i] matches DirectoryEvent::Read(
            at,
        ) ==> elapsed(at, removed_at) <= TOMBSTONE_TTL_MS) by {
            assert(rest[i] == events[i + 1]);
        }
        lemma_removal_stays_on_record(next, name, removed_at, rest);
    }
}

/// A package that was removed at `removed_at` is on no list that is read
/// no more than the time to live later. This holds through every course of
/// reads, bulk reports and forced refreshes in between, whatever the
/// reports say of the package.
pub proof fn removed_package_stays_hidden_throughout(
    state: RepositoryState,
    name: Seq<char>,
    removed_at: u64,
    events: Seq<DirectoryEvent>,
    now: u64,
)
    requires
        reads_within_ttl(events, removed_at),
        elapsed(now, removed_at) <= TOMBSTONE_TTL_MS,
    ensures
        forall|i: int|
            0 <= i < listed(
                after_directory_events(after_tombstone(state, name, removed_at), events),
                now,
            ).len() ==> (#[trigger] listed(
                after_directory_events(after_tombstone(state, name, removed_at), events),
                now,
            )[i]).name != name,
{
    let marked = after_tombstone(state, name, removed_at);
    lemma_removal_stays_on_record(marked, name, removed_at, events);
    let later = after_directory_events(marked, events);
    assert(after_read(later, now).removed.contains_key(name));
    broadcast use Seq::lemma_filter_pred;

}

/// Once the removal of a package is older than the time to live, a read
/// forgets it, and the package is listed again if the directory holds it.
pub proof fn removed_package_may_reappear(
    state: RepositoryState,
    name: Seq<char>,
    removed_at: u64,
    now: u64,
    i: int,
)
    requires
        elapsed(now, removed_at) > TOMBSTONE_TTL_MS,
        0 <= i < state.installed.len(),
        state.installed[i].name == name,
    ensures
        !after_read(after_tombstone(state, name, removed_at), now).removed.contains_key(name),
        listed(after_tombstone(state, name, removed_at), now).contains(state.installed[i]),
{
    let marked = after_tombstone(state, name, removed_at);
    let removed = after_read(marked, now).removed;
    assert(is_listed(removed)(state.installed[i]));
    broadcast use Seq::lemma_filter_contains;

    assert(marked.installed[i] == state.installed[i]);
}

/// A forced refresh makes the next read ask the package manager, whenever
/// it comes; and so does the removal of a package.
pub proof fn forced_refresh_is_due(state: RepositoryState, name: Seq<char>, at: u64, now: u64)
    ensures
        refresh_due(RepositoryState { refresh_forced: true, ..state }, now),
        refresh_due(after_tombstone(state, name, at), now),
        refresh_due(after_read(after_tombstone(state, name, at), at), now),
{
}

/// After a bulk query at `refreshed_at`, reads ask for no further one as
/// long as no refresh is forced and no more than the interval has passed:
/// a read itself changes neither the time of the last report nor the flag.
pub proof fn fresh_report_is_served(
    state: RepositoryState,
    outcome: Result<BrewInfoResponse, FetchError>,
    refreshed_at: u64,
    first_read: u64,
    second_read: u64,
)
    requires
        elapsed(first_read, refreshed_at) <= REFRESH_INTERVAL_MS,
        elapsed(second_read, refreshed_at) <= REFRESH_INTERVAL_MS,
    ensures
        !refresh_due(after_refresh(state, outcome, refreshed_at), first_read),
        !refresh_due(
            after_read(after_refresh(state, outcome, refreshed_at), first_read),
            second_read,
        ),
{
}

/// The names of the reported formulae, in order.
pub open spec fn formula_names(formulae: Seq<BrewFormulae>) -> Seq<Seq<char>> {
    formulae.map_values(|formula: BrewFormulae| formula.name@)
}

/// The tokens of the reported casks, in order.
pub open spec fn cask_tokens(casks: Seq<BrewCask>) -> Seq<Seq<char>> {
    casks.map_values(|cask: BrewCask| cask.token@)
}

/// The fresh record of a formula. Its installed version and time are those
/// of the newest installation by time and version; the current version is
/// the stable one, else the head, else a fixed word.
pub open spec fn fresh_formula_record(formula: BrewFormulae) -> PackageRecord {
    let newest = newest_install(formula.installed@);
    PackageRecord {
        name: formula.name@,
        description: formula.desc@,
        homepage: match formula.homepage {
            Some(homepage) => homepage@,
            None => "No homepage available"@,
        },
        current_version: match formula.versions.stable {
            Some(stable) => stable@,
            None => match formula.versions.head {
                Some(head) => head@,
                None => "unknown"@,
            },
        },
        installed_version: if newest >= 0 {
            Some(formula.installed@[newest].version@)
        } else {
            None
        },
        package_type: PackageType::Formulae,
        tap: text_of(formula.tap),
        outdated: formula.outdated,
        caveats: text_of(formula.caveats),
        installed_at: if newest >= 0 {
            formula.installed@[newest].time
        } else {
            None
        },
    }
}

/// The fresh record of a cask. A missing description is made from the
/// cask's first name, or from its token where it has no name.
pub open spec fn fresh_cask_record(cask: BrewCask) -> PackageRecord {
    PackageRecord {
        name: cask.token@,
        description: match cask.desc {
            Some(desc) => desc@,
            None => (if cask.name@.len() > 0 {
                cask.name@[0]@
            } else {
                cask.token@
            }) + " (Cask application)"@,
        },
        homepage: match cask.homepage {
            Some(homepage) => homepage@,
            None => "No homepage available"@,
        },
        current_version: cask.version@,
        installed_version: text_of(cask.installed),
        package_type: PackageType::Cask,
        tap: text_of(cask.tap),
        outdated: cask.outdated,
        caveats: text_of(cask.caveats),
        installed_at: None,
    }
}

/// The fresh record of the package `name` in a report on it: that of the
/// first formula of that name, provided it was installed for its own sake;
/// where no formula has the name, that of the first cask with that token.
pub open spec fn fresh_record(response: BrewInfoResponse, name: Seq<char>) -> Option<
    PackageRecord,
> {
    let f = first_match(formula_names(response.formulae@), name);
    let c = first_match(cask_tokens(response.casks@), name);
    if f >= 0 {
        if directly_installed(response.formulae@[f].installed@) {
            Some(fresh_formula_record(response.formulae@[f]))
        } else {
            None
        }
    } else if c >= 0 {
        Some(fresh_cask_record(response.casks@[c]))
    } else {
        None
    }
}

/// What is known of a package after a query for it alone: its fresh record
/// where there is a report, and the error of the query, kind and words,
/// where there is none.
pub open spec fn refreshed_package(
    outcome: Result<BrewInfoResponse, FetchError>,
    name: Seq<char>,
) -> Result<Option<PackageRecord>, ErrorView> {
    match outcome {
        Ok(response) => Ok(fresh_record(response, name)),
        Err(error) => Err(error@),
    }
}

/// What came of a refresh of one package, as mathematical values.
pub open spec fn refresh_view(result: Result<Option<PackageInfo>, FetchError>) -> Result<
    Option<PackageRecord>,
    ErrorView,
> {
    match result {
        Ok(Some(info)) => Ok(Some(info@)),
        Ok(None) => Ok(None),
        Err(error) => Err(error@),
    }
}

/// Makes the fresh record of a formula.
fn fresh_formula(formula: &BrewFormulae) -> (info: PackageInfo)
    ensures
        info@ == fresh_formula_record(*formula),
{
    let (installed_version, installed_at) = match find_newest_install(&formula.installed) {
        Some(newest) => {
            let install = &formula.installed[newest];
            (Some(install.version.clone()), install.time)
        },
        None => (None, None),
    };
    let homepage = match &formula.homepage {
        Some(homepage) => homepage.clone(),
        None => "No homepage available".to_string(),
    };
    let current_version = match &formula.versions.stable {
        Some(stable) => stable.clone(),
        None => match &formula.versions.head {
            Some(head) => head.clone(),
            None => "unknown".to_string(),
        },
    };
    PackageInfo::new(
        formula.name.clone(),
        formula.desc.clone(),
        homepage,
        current_version,
        installed_version,
        PackageType::Formulae,
        formula.tap.clone(),
        formula.outdated,
        formula.caveats.clone(),
        installed_at,
    )
}

/// Makes the fresh record of a cask.
fn fresh_cask(cask: &BrewCask) -> (info: PackageInfo)
    ensures
        info@ == fresh_cask_record(*cask),
{
    let description = match &cask.desc {
        Some(desc) => desc.clone(),
        None => {
            if cask.name.len() > 0 {
                join(cask.name[0].as_str(), " (Cask application)")
            } else {
                join(cask.token.as_str(), " (Cask application)")
            }
        },
    };
    let homepage = match &cask.homepage {
        Some(homepage) => homepage.clone(),
        None => "No homepage available".to_string(),
    };
    PackageInfo::new(
        cask.token.clone(),
        description,
        homepage,
        cask.version.clone(),
        cask.installed.clone(),
        PackageType::Cask,
        cask.tap.clone(),
        cask.outdated,
        cask.caveats.clone(),
        None,
    )
}

/// Finds the first formula named `name`.
fn find_formula(formulae: &Vec<BrewFormulae>, name: &String) -> (position: Option<usize>)
    ensures
        match position {
            Some(k) => k < formulae.len() && k == first_match(formula_names(formulae@), name@),
            None => first_match(formula_names(formulae@), name@) == -1,
        },
{
    let ghost names = formula_names(formulae@);
    let mut i: usize = 0;
    while i < formulae.len()
        invariant
            i <= formulae.len(),
            names == formula_names(formulae@),
            forall|j: int| 0 <= j < i ==> names[j] != name@,
        decreases formulae.len() - i,
    {
        if formulae[i].name == *name {
            proof {
                lemma_first_match(names, name@, i as int);
            }
            return Some(i);
        }
        i = i + 1;
    }
    proof {
        lemma_first_match(names, name@, -1);
    }
    None
}

/// Finds the first cask with the token `name`.
fn find_cask(casks: &Vec<BrewCask>, name: &String) -> (position: Option<usize>)
    ensures
        match position {
            Some(k) => k < casks.len() && k == first_match(cask_tokens(casks@), name@),
            None => first_match(cask_tokens(casks@), name@) == -1,
        },
{
    let ghost tokens = cask_tokens(casks@);
    let mut i: usize = 0;
    while i < casks.len()
        invariant
            i <= casks.len(),
            tokens == cask_tokens(casks@),
            forall|j: int| 0 <= j < i ==> tokens[j] != name@,
        decreases casks.len() - i,
    {
        if casks[i].token == *name {
            proof {
                lemma_first_match(tokens, name@, i as int);
            }
            return Some(i);
        }
        i = i + 1;
    }
    proof {
        lemma_first_match(tokens, name@, -1);
    }
    None
}

/// The directory of installed packages, with the details that were fetched
/// and the packages that were removed of late.
pub struct HomebrewRepository {
    installed_packages: Vec<PackageInfo>,
    cache: KeyedList<PackageInfo>,
    uninstalled_packages: KeyedList<u64>,
    scheduler: DetailScheduler,
    last_refresh: u64,
    refresh_forced: bool,
}

impl View for HomebrewRepository {
    type V = RepositoryState;

    closed spec fn view(&self) -> RepositoryState {
        RepositoryState {
            installed: records_of(self.installed_packages@),
            details: details_of(self.cache@),
            removed: self.uninstalled_packages@,
            scheduler: self.scheduler@,
            last_refresh: self.last_refresh,
            refresh_forced: self.refresh_forced,
        }
    }
}

impl HomebrewRepository {
    /// Creates the record shown when the package manager reports no package.
    pub fn create_no_packages_placeholder() -> (info: PackageInfo)
        ensures
            info@ == no_packages_record(),
    {
        PackageInfo::new(
            "no-packages".to_string(),
            "No packages are currently installed via Homebrew. Use 'brew install <package>' to install packages.".to_string(),
            "https://brew.sh".to_string(),
            "1.0.0".to_string(),
            None,
            PackageType::Unknown,
            None,
            false,
            None,
            None,
        )
    }

    /// Creates the record shown in place of a report that could not be had.
    pub fn create_error_placeholder(err: &str) -> (info: PackageInfo)
        ensures
            info@ == error_record(err@),
    {
        let mut description = join("Error loading packages from Homebrew: ", err);
        description.append(". Make sure Homebrew is installed and accessible.");
        PackageInfo::new(
            "homebrew-error".to_string(),
            description,
            "https://brew.sh".to_string(),
            "1.0.0".to_string(),
            None,
            PackageType::Unknown,
            None,
            false,
            None,
            None,
        )
    }

    /// Turns a report into the list of directly installed packages.
    pub fn process_brew_response(brew_response: BrewInfoResponse) -> (packages: Vec<PackageInfo>)
        ensures
            records_of(packages@) == response_records(brew_response),
    {
        let mut packages: Vec<PackageInfo> = Vec::new();
        let ghost formulae = brew_response.formulae@;
        let ghost casks = brew_response.casks@;
        let mut i: usize = 0;
        proof {
            lemma_filter_empty(is_direct_formula());
            assert(formulae.take(0) =~= Seq::<BrewFormulae>::empty());
            assert(records_of(packages@) =~= formula_records(formulae.take(0)));
        }
        while i < brew_response.formulae.len()
            invariant
                i <= brew_response.formulae.len(),
                formulae == brew_response.formulae@,
                records_of(packages@) == formula_records(formulae.take(i as int)),
            decreases brew_response.formulae.len() - i,
        {
            let formula = &brew_response.formulae[i];
            proof {
                assert(formulae.take(i + 1) =~= formulae.take(i as int).push(*formula));
                lemma_filter_push(formulae.take(i as int), *formula, is_direct_formula());
            }
            if is_directly_installed(formula) {
                let info = PackageInfo::from(formula);
                proof {
                    let kept = formulae.take(i as int).filter(is_direct_formula());
                    assert(records_of(packages@.push(info)) =~= records_of(packages@).push(info@));
                    assert(kept.push(*formula).map_values(
                        |formula: BrewFormulae| formula_record(formula),
                    ) =~= kept.map_values(|formula: BrewFormulae| formula_record(formula)).push(
                        formula_record(*formula),
                    ));
                }
                packages.push(info);
            }
            i = i + 1;
        }
        assert(formulae.take(formulae.len() as int) =~= formulae);
        let ghost from_formulae = records_of(packages@);
        let mut j: usize = 0;
        proof {
            assert(casks.take(0) =~= Seq::<BrewCask>::empty());
            assert(records_of(packages@) =~= from_formulae + cask_records(casks.take(0)));
        }
        while j < brew_response.casks.len()
            invariant
                j <= brew_response.casks.len(),
                casks == brew_response.casks@,
                from_formulae == formula_records(brew_response.formulae@),
                records_of(packages@) == from_formulae + cask_records(casks.take(j as int)),
            decreases brew_response.casks.len() - j,
        {
            let cask = &brew_response.casks[j];
            let info = PackageInfo::from(cask);
            proof {
                assert(casks.take(j + 1) =~= casks.take(j as int).push(*cask));
                assert(records_of(packages@.push(info)) =~= records_of(packages@).push(info@));
                assert(cask_records(casks.take(j as int).push(*cask)) =~= cask_records(
                    casks.take(j as int),
                ).push(cask_record(*cask)));
                assert((from_formulae + cask_records(casks.take(j as int))).push(info@)
                    =~= from_formulae + cask_records(casks.take(j as int)).push(info@));
            }
            packages.push(info);
            j = j + 1;
        }
        assert(casks.take(casks.len() as int) =~= casks);
        packages
    }

    /// Makes the directory to show for the outcome of a bulk query.
    pub fn load_installed_packages(outcome: Result<BrewInfoResponse, FetchError>) -> (packages: Vec<
        PackageInfo,
    >)
        ensures
            records_of(packages@) == loaded_records(outcome),
    {
        match outcome {
            Ok(brew_response) => {
                let mut packages = Self::process_brew_response(brew_response);
                if packages.len() == 0 {
                    let placeholder = Self::create_no_packages_placeholder();
                    assert(records_of(packages@.push(placeholder)) =~= seq![no_packages_record()]);
                    packages.push(placeholder);
                }
                packages
            },
            Err(err) => {
                let message = err.message();
                let placeholder = Self::create_error_placeholder(message.as_str());
                let mut packages: Vec<PackageInfo> = Vec::new();
                assert(records_of(packages@.push(placeholder)) =~= seq![error_record(err.text())]);
                packages.push(placeholder);
                packages
            },
        }
    }

    /// A repository that starts with the outcome of a first bulk query, made
    /// at `now`. At the start there is no older directory to fall back to:
    /// whatever went wrong is shown as a record.
    pub fn new(outcome: Result<BrewInfoResponse, FetchError>, now: u64) -> (repository: Self)
        ensures
            repository@.installed == loaded_records(outcome),
            repository@.details == Map::<Seq<char>, PackageRecord>::empty(),
            repository@.removed == Map::<Seq<char>, u64>::empty(),
            repository@.scheduler == idle_scheduler(now),
            repository@.last_refresh == now,
            !repository@.refresh_forced,
    {
        let installed_packages = Self::load_installed_packages(outcome);
        let repository = HomebrewRepository {
            installed_packages,
            cache: KeyedList::new(),
            uninstalled_packages: KeyedList::new(),
            scheduler: DetailScheduler::new(now),
            last_refresh: now,
            refresh_forced: false,
        };
        assert(repository@.details =~= Map::<Seq<char>, PackageRecord>::empty());
        repository
    }

    /// Whether a read at `now` is to be preceded by a bulk query.
    pub fn refresh_due(&self, now: u64) -> (due: bool)
        ensures
            due == refresh_due(self@, now),
    {
        self.refresh_forced || elapsed_since(now, self.last_refresh) > REFRESH_INTERVAL_MS
    }

    /// Makes the next read ask the package manager, however young the last
    /// report is.
    pub fn force_refresh(&mut self)
        ensures
            final(self)@ == (RepositoryState { refresh_forced: true, ..old(self)@ }),
    {
        self.refresh_forced = true;
    }

    /// Reads the directory at `now`. Removals older than the time to live
    /// are forgotten first; then the directory is returned without the packages
    /// that are still marked as removed, whether or not the last report
    /// lists them.
    pub fn get_all_packages(&mut self, now: u64) -> (packages: Vec<PackageInfo>)
        ensures
            final(self)@ == after_read(old(self)@, now),
            records_of(packages@) == listed(old(self)@, now),
    {
        self.uninstalled_packages.retain_within(now, TOMBSTONE_TTL_MS);
        let ghost removed = self.uninstalled_packages@;
        let ghost installed = records_of(self.installed_packages@);
        let mut packages: Vec<PackageInfo> = Vec::new();
        let mut i: usize = 0;
        proof {
            lemma_filter_empty(is_listed(removed));
            assert(installed.take(0) =~= Seq::<PackageRecord>::empty());
            assert(records_of(packages@) =~= installed.take(0).filter(is_listed(removed)));
        }
        while i < self.installed_packages.len()
            invariant
                i <= self.installed_packages.len(),
                installed == records_of(self.installed_packages@),
                removed == self.uninstalled_packages@,
                records_of(packages@) == installed.take(i as int).filter(is_listed(removed)),
            decreases self.installed_packages.len() - i,
        {
            let package = &self.installed_packages[i];
            proof {
                assert(installed.take(i + 1) =~= installed.take(i as int).push(package@));
                lemma_filter_push(installed.take(i as int), package@, is_listed(removed));
            }
            if !self.uninstalled_packages.contains_key(package.name.as_str()) {
                let copy = package.clone();
                assert(records_of(packages@.push(copy)) =~= records_of(packages@).push(copy@));
                packages.push(copy);
            }
            i = i + 1;
        }
        assert(installed.take(installed.len() as int) =~= installed);
        packages
    }

    /// Takes in the outcome of a bulk query made at `now`. A report replaces
    /// the directory; where the query itself failed, the last good directory
    /// stays.
    pub fn refresh_all_packages(&mut self, outcome: Result<BrewInfoResponse, FetchError>, now: u64)
        ensures
            final(self)@ == after_refresh(old(self)@, outcome, now),
    {
        match outcome {
            Err(FetchError::Unavailable(_)) => {},
            _ => {
                self.installed_packages = Self::load_installed_packages(outcome);
            },
        }
        self.last_refresh = now;
        self.refresh_forced = false;
    }

    /// Marks `package_name` as removed at `now`: its details are dropped,
    /// the scheduler forgets it, it stays off the directory for the time to
    /// live, and the next read asks the package manager again.
    pub fn clear_package_cache(&mut self, package_name: &str, now: u64)
        ensures
            final(self)@ == after_tombstone(old(self)@, package_name@, now),
    {
        self.cache.remove(package_name);
        assert(details_of(self.cache@) =~= details_of(old(self).cache@).remove(package_name@));
        self.scheduler.forget(package_name);
        self.uninstalled_packages.insert(package_name.to_string(), now);
        self.refresh_forced = true;
    }

    /// Picks the fresh record of `package_name` out of the outcome of a
    /// query for that package alone. There is none where the report does not
    /// hold the package, or holds it as a formula that was pulled in by
    /// another package. A failed query is handed on as it is.
    pub fn refresh_package(
        &self,
        package_name: &str,
        outcome: Result<BrewInfoResponse, FetchError>,
    ) -> (refreshed: Result<Option<PackageInfo>, FetchError>)
        ensures
            refresh_view(refreshed) == refreshed_package(outcome, package_name@),
            outcome matches Err(error) ==> refreshed == Err::<Option<PackageInfo>, FetchError>(
                error,
            ),
    {
        match outcome {
            Ok(brew_response) => {
                let name = package_name.to_string();
                match find_formula(&brew_response.formulae, &name) {
                    Some(f) => {
                        let formula = &brew_response.formulae[f];
                        if is_directly_installed(formula) {
                            Ok(Some(fresh_formula(formula)))
                        } else {
                            Ok(None)
                        }
                    },
                    None => match find_cask(&brew_response.casks, &name) {
                        Some(c) => Ok(Some(fresh_cask(&brew_response.casks[c]))),
                        None => Ok(None),
                    },
                }
            },
            Err(error) => Err(error),
        }
    }

    /// Asks for the details of `name` at `now`. Says whether the request was
    /// queued.
    pub fn request_details(&mut self, name: &str, priority: bool, now: u64) -> (queued: bool)
        ensures
            queued == accepts(old(self)@.scheduler, name@, now),
            final(self)@ == (RepositoryState {
                scheduler: after_request(old(self)@.scheduler, name@, priority, now),
                ..old(self)@
            }),
    {
        self.scheduler.request_details(name, priority, now)
    }

    /// Looks for work, as the worker does once per round: returns the
    /// package whose details are to be fetched now, if any. A request for a
    /// package whose details are known is dropped in silence.
    pub fn next_detail_request(&mut self) -> (fetch: Option<String>)
        ensures
            text_of(fetch) == poll_result(old(self)@.scheduler, old(self)@.details.dom()),
            final(self)@ == (RepositoryState {
                scheduler: after_poll(old(self)@.scheduler, old(self)@.details.dom()),
                ..old(self)@
            }),
    {
        assert(details_of(self.cache@).dom() =~= self.cache@.dom());
        self.scheduler.next_request(&self.cache)
    }

    /// Takes in the outcome of the fetch of the details of `name`. Every
    /// record of a report is written into the details; a failed fetch is
    /// passed over in silence. Either way the scheduler is free again.
    pub fn store_details(&mut self, name: &str, outcome: Result<BrewInfoResponse, FetchError>)
        ensures
            final(self)@ == after_fetch(old(self)@, name@, outcome),
    {
        match outcome {
            Ok(response) => {
                let ghost before = details_of(self.cache@);
                let ghost from_formulae = response.formulae@.map_values(
                    |formula: BrewFormulae| formula_record(formula),
                );
                let ghost from_casks = cask_records(response.casks@);
                let mut i: usize = 0;
                assert(from_formulae.take(0) =~= Seq::<PackageRecord>::empty());
                while i < response.formulae.len()
                    invariant
                        i <= response.formulae.len(),
                        from_formulae == response.formulae@.map_values(
                            |formula: BrewFormulae| formula_record(formula),
                        ),
                        details_of(self.cache@) == with_details(
                            before,
                            from_formulae.take(i as int),
                        ),
                        self.installed_packages == old(self).installed_packages,
                        self.uninstalled_packages == old(self).uninstalled_packages,
                        self.scheduler == old(self).scheduler,
                        self.last_refresh == old(self).last_refresh,
                        self.refresh_forced == old(self).refresh_forced,
                    decreases response.formulae.len() - i,
                {
                    let info = PackageInfo::from(&response.formulae[i]);
                    proof {
                        let longer = from_formulae.take(i + 1);
                        assert(longer.drop_last() =~= from_formulae.take(i as int));
                        assert(longer.last() == info@);
                        assert(details_of(self.cache@.insert(info.name@, info)) =~= details_of(
                            self.cache@,
                        ).insert(info.name@, info@));
                    }
                    self.cache.insert(info.name.clone(), info);
                    i = i + 1;
                }
                assert(from_formulae.take(from_formulae.len() as int) =~= from_formulae);
                let mut j: usize = 0;
                assert(from_formulae + from_casks.take(0) =~= from_formulae);
                while j < response.casks.len()
                    invariant
                        j <= response.casks.len(),
                        from_casks == cask_records(response.casks@),
                        details_of(self.cache@) == with_details(
                            before,
                            from_formulae + from_casks.take(j as int),
                        ),
                        self.installed_packages == old(self).installed_packages,
                        self.uninstalled_packages == old(self).uninstalled_packages,
                        self.scheduler == old(self).scheduler,
                        self.last_refresh == old(self).last_refresh,
                        self.refresh_forced == old(self).refresh_forced,
                    decreases response.casks.len() - j,
                {
                    let info = PackageInfo::from(&response.casks[j]);
                    proof {
                        let longer = from_formulae + from_casks.take(j + 1);
                        assert(longer.drop_last() =~= from_formulae + from_casks.take(j as int));
                        assert(longer.last() == info@);
                        assert(details_of(self.cache@.insert(info.name@, info)) =~= details_of(
                            self.cache@,
                        ).insert(info.name@, info@));
                    }
                    self.cache.insert(info.name.clone(), info);
                    j = j + 1;
                }
                assert(from_casks.take(from_casks.len() as int) =~= from_casks);
            },
            Err(_) => {},
        }
        self.scheduler.finish_request(name);
    }

    /// The details of `name`, if they were fetched.
    pub fn cached_details(&self, name: &str) -> (details: Option<PackageInfo>)
        ensures
            match details {
                Some(info) => self@.details.contains_key(name@) && info@ == self@.details[name@],
                None => !self@.details.contains_key(name@),
            },
    {
        match self.cache.get(name) {
            Some(info) => Some(info.clone()),
            None => None,
        }
    }

    /// The scheduler of detail requests, to be read.
    pub fn scheduler(&self) -> (scheduler: &DetailScheduler)
        ensures
            scheduler@ == self@.scheduler,
    {
        &self.scheduler
    }

    /// Reads the animation clock at `now` and returns the frame to show.
    pub fn advance_animation(&mut self, now: u64) -> (frame: u8)
        ensures
            final(self)@ == (RepositoryState {
                scheduler: after_animation(old(self)@.scheduler, now),
                ..old(self)@
            }),
            frame == final(self)@.scheduler.frame,
    {
        self.scheduler.advance_animation(now)
    }

    /// Whether `name` is marked as removed.
    pub fn is_removed(&self, name: &str) -> (removed: bool)
        ensures
            removed == self@.removed.contains_key(name@),
    {
        self.uninstalled_packages.contains_key(name)
    }
}

} // verus!
