//! The details of the selected package, with a placeholder while they are
//! being fetched.

use vstd::prelude::*;
use vstd::string::*;
use crate::app::{App, AppState};
use crate::navigation::selected_record;
use crate::package_info::{PackageInfo, PackageRecord};
use crate::repository::RepositoryState;
use crate::scheduler::after_request;

verus! {

/// The words shown in place of a description that is being fetched, with
/// one to three dots by the frame of the loading animation.
pub open spec fn loading_text(frame: u8) -> Seq<char> {
    if frame == 0 {
        "Loading details."@
    } else if frame == 1 {
        "Loading details.."@
    } else {
        "Loading details..."@
    }
}

/// What is shown of the selected package at `now`: its fetched details
/// where there are any, else its record from the list with the loading
/// words for a description. Nothing where no package is selected.
pub open spec fn details_on_display(state: AppState) -> Option<PackageRecord> {
    match selected_record(state) {
        Some(record) => if state.repository.details.contains_key(record.name) {
            Some(state.repository.details[record.name])
        } else {
            Some(
                PackageRecord {
                    description: loading_text(state.repository.scheduler.frame),
                    ..record
                },
            )
        },
        None => None,
    }
}

/// The application after the details of the selected package were asked
/// for at `now`: where they are not known yet, an urgent request for them
/// was made.
pub open spec fn after_details_shown(state: AppState, now: u64) -> AppState {
    match selected_record(state) {
        Some(record) => if state.repository.details.contains_key(record.name) {
            state
        } else {
            AppState {
                repository: RepositoryState {
                    scheduler: after_request(state.repository.scheduler, record.name, true, now),
                    ..state.repository
                },
                ..state
            }
        },
        None => state,
    }
}

/// The words shown in place of a description that is being fetched.
pub fn loading_placeholder(frame: u8) -> (text: String)
    ensures
        text@ == loading_text(frame),
{
    if frame == 0 {
        "Loading details.".to_string()
    } else if frame == 1 {
        "Loading details..".to_string()
    } else {
        "Loading details...".to_string()
    }
}

impl App {
    /// The package to show in full at `now`: the selected one, with its
    /// fetched details. While the details are not known, they are asked for
    /// urgently, every time anew, and the package is shown as the list has
    /// it, with the loading words for a description.
    pub fn selected_details(&mut self, now: u64) -> (details: Option<PackageInfo>)
        ensures
            final(self)@ == after_details_shown(old(self)@, now),
            match details {
                Some(info) => details_on_display(old(self)@) == Some(info@),
                None => details_on_display(old(self)@) is None,
            },
    {
        let listed = match self.get_selected_package() {
            Some(package) => package.clone(),
            None => {
                return None;
            },
        };
        match self.repository.cached_details(listed.name.as_str()) {
            Some(details) => Some(details),
            None => {
                let description = loading_placeholder(self.repository.scheduler().loading_frame());
                self.repository.request_details(listed.name.as_str(), true, now);
                Some(
                    PackageInfo::new(
                        listed.name,
                        description,
                        listed.homepage,
                        listed.current_version,
                        listed.installed_version,
                        listed.package_type,
                        listed.tap,
                        listed.outdated,
                        listed.caveats,
                        listed.installed_at,
                    ),
                )
            },
        }
    }
}

} // verus!
