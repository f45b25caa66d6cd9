//! The package manager's report, as plain values.
//!
//! A report lists formulae and casks with the fields that the rest of the
//! library reads. Turning the package manager's output into these values is
//! the caller's business.

use std::cmp::Ordering;
use vstd::prelude::*;
use crate::helpers::compare_homebrew_versions;
use crate::version::{version_order, version_order_is_total, version_order_is_transitive};

verus! {

/// One installation of a formula.
#[derive(Debug)]
pub struct BrewInstalled {
    pub version: String,
    /// When it was installed, in seconds since the Unix epoch.
    pub time: Option<u64>,
    pub installed_as_dependency: bool,
    pub installed_on_request: bool,
}

/// The versions that a formula offers.
#[derive(Debug)]
pub struct BrewVersions {
    pub stable: Option<String>,
    pub head: Option<String>,
}

/// A formula as reported.
#[derive(Debug)]
pub struct BrewFormulae {
    pub name: String,
    pub tap: Option<String>,
    pub desc: String,
    pub homepage: Option<String>,
    pub versions: BrewVersions,
    pub installed: Vec<BrewInstalled>,
    pub outdated: bool,
    pub caveats: Option<String>,
}

/// A cask as reported.
#[derive(Debug)]
pub struct BrewCask {
    pub token: String,
    pub tap: Option<String>,
    pub name: Vec<String>,
    pub desc: Option<String>,
    pub homepage: Option<String>,
    pub version: String,
    pub installed: Option<String>,
    pub outdated: bool,
    pub caveats: Option<String>,
}

/// A whole report: formulae first, then casks.
#[derive(Debug)]
pub struct BrewInfoResponse {
    pub formulae: Vec<BrewFormulae>,
    pub casks: Vec<BrewCask>,
}

/// The time by which installations are ranked: a missing time counts as 0.
pub open spec fn install_time(install: BrewInstalled) -> u64 {
    match install.time {
        Some(time) => time,
        None => 0,
    }
}

/// Whether an installation was asked for, rather than pulled in by another
/// package.
pub open spec fn is_direct_install(install: BrewInstalled) -> bool {
    install.installed_on_request || !install.installed_as_dependency
}

/// Whether one of the installations was asked for.
pub open spec fn directly_installed(installed: Seq<BrewInstalled>) -> bool {
    exists|i: int| 0 <= i < installed.len() && is_direct_install(#[trigger] installed[i])
}

/// Whether one of the formula's installations was asked for.
pub fn is_directly_installed(formula: &BrewFormulae) -> (direct: bool)
    ensures
        direct == directly_installed(formula.installed@),
{
    let mut i: usize = 0;
    while i < formula.installed.len()
        invariant
            i <= formula.installed.len(),
            forall|j: int| 0 <= j < i ==> !is_direct_install(#[trigger] formula.installed@[j]),
        decreases formula.installed.len() - i,
    {
        let install = &formula.installed[i];
        if install.installed_on_request || !install.installed_as_dependency {
            return true;
        }
        i = i + 1;
    }
    false
}

/// The position of the latest installation by time: the last one among those
/// with the greatest time. -1 where there is no installation.
pub open spec fn latest_install(installed: Seq<BrewInstalled>) -> int
    decreases installed.len(),
{
    if installed.len() == 0 {
        -1
    } else {
        let before = latest_install(installed.drop_last());
        if before >= 0 && install_time(installed[before]) > install_time(installed.last()) {
            before
        } else {
            installed.len() - 1
        }
    }
}

/// The latest installation is one of the list, none has a greater time, and
/// none after it has the same time.
pub proof fn latest_install_is_last_greatest(installed: Seq<BrewInstalled>)
    ensures
        installed.len() == 0 ==> latest_install(installed) == -1,
        installed.len() > 0 ==> 0 <= latest_install(installed) < installed.len(),
        forall|j: int|
            0 <= j < installed.len() ==> install_time(#[trigger] installed[j]) <= install_time(
                installed[latest_install(installed)],
            ),
        forall|j: int|
            latest_install(installed) < j < installed.len() ==> install_time(
                #[trigger] installed[j],
            ) < install_time(installed[latest_install(installed)]),
    decreases installed.len(),
{
    if installed.len() > 0 {
        let front = installed.drop_last();
        latest_install_is_last_greatest(front);
        let k = latest_install(installed);
        assert forall|j: int| 0 <= j < installed.len() implies install_time(
            #[trigger] installed[j],
        ) <= install_time(installed[k]) by {
            if j < front.len() {
                assert(front[j] == installed[j]);
            }
        }
        assert forall|j: int| k < j < installed.len() implies install_time(
            #[trigger] installed[j],
        ) < install_time(installed[k]) by {
            if j < front.len() {
                assert(front[j] == installed[j]);
            }
        }
    }
}

/// Finds the latest installation by time.
pub fn find_latest_install(installed: &Vec<BrewInstalled>) -> (position: Option<usize>)
    ensures
        match position {
            Some(k) => k < installed.len() && k == latest_install(installed@),
            None => installed.len() == 0 && latest_install(installed@) == -1,
        },
{
    if installed.len() == 0 {
        return None;
    }
    let mut best: usize = 0;
    let mut i: usize = 1;
    proof {
        let first = installed@.take(1);
        assert(first.drop_last().len() == 0);
        assert(latest_install(first.drop_last()) == -1);
        assert(latest_install(first) == 0);
    }
    while i < installed.len()
        invariant
            1 <= i <= installed.len(),
            best < i,
            best == latest_install(installed@.take(i as int)),
        decreases installed.len() - i,
    {
        let ghost shorter = installed@.take(i as int);
        let ghost longer = installed@.take(i + 1);
        proof {
            assert(longer.drop_last() =~= shorter);
            assert(longer.last() == installed@[i as int]);
            assert(longer[best as int] == installed@[best as int]);
        }
        let best_time = match installed[best].time {
            Some(time) => time,
            None => 0,
        };
        let time = match installed[i].time {
            Some(time) => time,
            None => 0,
        };
        if !(best_time > time) {
            best = i;
        }
        i = i + 1;
    }
    assert(installed@.take(installed.len() as int) =~= installed@);
    Some(best)
}

/// The order of two installations: by time, and between equal times by
/// version. Negative where `a` is the older, positive where it is the newer.
pub open spec fn install_order(a: BrewInstalled, b: BrewInstalled) -> int {
    if install_time(a) < install_time(b) {
        -1
    } else if install_time(a) > install_time(b) {
        1
    } else {
        version_order(a.version@, b.version@)
    }
}

/// The position of the newest installation by time and version: the last one
/// among those that no other is newer than. -1 where there is none.
pub open spec fn newest_install(installed: Seq<BrewInstalled>) -> int
    decreases installed.len(),
{
    if installed.len() == 0 {
        -1
    } else {
        let before = newest_install(installed.drop_last());
        if before >= 0 && install_order(installed[before], installed.last()) > 0 {
            before
        } else {
            installed.len() - 1
        }
    }
}

/// The order of installations is an order: swapping the two flips its sign,
/// and it is transitive.
proof fn lemma_install_order(a: BrewInstalled, b: BrewInstalled, c: BrewInstalled)
    ensures
        install_order(b, a) == -install_order(a, b),
        install_order(a, a) == 0,
        install_order(a, b) <= 0 && install_order(b, c) <= 0 ==> install_order(a, c) <= 0,
{
    version_order_is_total(a.version@, b.version@);
    version_order_is_transitive(a.version@, b.version@, c.version@);
}

/// The newest installation is one of the list, none is newer than it, and
/// every one after it is older.
pub proof fn newest_install_is_last_newest(installed: Seq<BrewInstalled>)
    ensures
        installed.len() == 0 ==> newest_install(installed) == -1,
        installed.len() > 0 ==> 0 <= newest_install(installed) < installed.len(),
        forall|j: int|
            0 <= j < installed.len() ==> install_order(
                #[trigger] installed[j],
                installed[newest_install(installed)],
            ) <= 0,
        forall|j: int|
            newest_install(installed) < j < installed.len() ==> install_order(
                #[trigger] installed[j],
                installed[newest_install(installed)],
            ) < 0,
    decreases installed.len(),
{
    if installed.len() > 0 {
        let front = installed.drop_last();
        newest_install_is_last_newest(front);
        let k = newest_install(installed);
        let before = newest_install(front);
        let last = installed.last();
        if before >= 0 {
            assert(front[before] == installed[before]);
            lemma_install_order(installed[before], last, last);
        }
        lemma_install_order(last, last, last);
        assert forall|j: int| 0 <= j < installed.len() implies install_order(
            #[trigger] installed[j],
            installed[k],
        ) <= 0 by {
            if j < front.len() {
                assert(front[j] == installed[j]);
                lemma_install_order(installed[j], installed[before], last);
            }
        }
        assert forall|j: int| k < j < installed.len() implies install_order(
            #[trigger] installed[j],
            installed[k],
        ) < 0 by {
            if j < front.len() {
                assert(front[j] == installed[j]);
            }
        }
    }
}

/// Whether `a` is newer than `b`, by time and then by version.
pub fn install_is_newer(a: &BrewInstalled, b: &BrewInstalled) -> (newer: bool)
    ensures
        newer == (install_order(*a, *b) > 0),
{
    let a_time: u64 = match a.time {
        Some(time) => time,
        None => 0,
    };
    let b_time: u64 = match b.time {
        Some(time) => time,
        None => 0,
    };
    if a_time < b_time {
        false
    } else if a_time > b_time {
        true
    } else {
        match compare_homebrew_versions(a.version.as_str(), b.version.as_str()) {
            Ordering::Greater => true,
            Ordering::Equal => false,
            Ordering::Less => false,
        }
    }
}

/// Finds the newest installation by time and version.
pub fn find_newest_install(installed: &Vec<BrewInstalled>) -> (position: Option<usize>)
    ensures
        match position {
            Some(k) => k < installed.len() && k == newest_install(installed@),
            None => installed.len() == 0 && newest_install(installed@) == -1,
        },
{
    if installed.len() == 0 {
        return None;
    }
    let mut best: usize = 0;
    let mut i: usize = 1;
    proof {
        let first = installed@.take(1);
        assert(first.drop_last().len() == 0);
        assert(newest_install(first.drop_last()) == -1);
        assert(newest_install(first) == 0);
    }
    while i < installed.len()
        invariant
            1 <= i <= installed.len(),
            best < i,
            best == newest_install(installed@.take(i as int)),
        decreases installed.len() - i,
    {
        proof {
            let shorter = installed@.take(i as int);
            let longer = installed@.take(i + 1);
            assert(longer.drop_last() =~= shorter);
            assert(longer.last() == installed@[i as int]);
            assert(longer[best as int] == installed@[best as int]);
        }
        if !install_is_newer(&installed[best], &installed[i]) {
            best = i;
        }
        i = i + 1;
    }
    assert(installed@.take(installed.len() as int) =~= installed@);
    Some(best)
}

} // verus!
