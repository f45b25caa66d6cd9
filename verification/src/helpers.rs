//! Version comparison and "time ago" wording.

use std::cmp::Ordering;
use vstd::prelude::*;
use vstd::string::*;
use crate::brew_info_response::{find_latest_install, latest_install, BrewCask, BrewFormulae};
use crate::package_info::{PackageInfo, PackageRecord, PackageType};
use crate::text::{decimal_digits, decimal_string, join, text_of, to_chars};
use crate::version::{
    base_order, compare_components, find_last_underscore, parse_components, parse_number_in,
    version_base, version_order, version_revision,
};

verus! {

/// The seconds of a minute.
pub const MINUTE: u64 = 60;

/// The seconds of an hour.
pub const HOUR: u64 = 60 * MINUTE;

/// The seconds of a day.
pub const DAY: u64 = 24 * HOUR;

/// The seconds of a week.
pub const WEEK: u64 = 7 * DAY;

/// A month is counted as thirty days.
pub const MONTH: u64 = 30 * DAY;

/// A year is counted as 365 days.
pub const YEAR: u64 = 365 * DAY;

/// `count` units ago, in words: "1 minute ago", "5 minutes ago".
pub open spec fn counted_ago(count: nat, unit: Seq<char>) -> Seq<char> {
    if count == 1 {
        "1 "@ + unit + " ago"@
    } else {
        decimal_digits(count) + " "@ + unit + "s ago"@
    }
}

/// How long ago `seconds` seconds were, in words, in the largest unit that
/// has begun: minutes from one minute on, hours from one hour on, then days,
/// weeks, months of thirty days and years of 365 days.
pub open spec fn time_ago_text(seconds: nat) -> Seq<char> {
    if seconds < MINUTE {
        "just now"@
    } else if seconds < HOUR {
        counted_ago(seconds / (MINUTE as nat), "minute"@)
    } else if seconds < DAY {
        counted_ago(seconds / (HOUR as nat), "hour"@)
    } else if seconds < WEEK {
        counted_ago(seconds / (DAY as nat), "day"@)
    } else if seconds < MONTH {
        counted_ago(seconds / (WEEK as nat), "week"@)
    } else if seconds < YEAR {
        counted_ago(seconds / (MONTH as nat), "month"@)
    } else {
        counted_ago(seconds / (YEAR as nat), "year"@)
    }
}

/// Words `count` units ago.
fn format_counted(count: u64, unit: &str) -> (text: String)
    ensures
        text@ == counted_ago(count as nat, unit@),
{
    if count == 1 {
        let mut text = join("1 ", unit);
        text.append(" ago");
        text
    } else {
        let mut text = decimal_string(count);
        text.append(" ");
        text.append(unit);
        text.append("s ago");
        text
    }
}

/// Formats a duration in seconds into a human-readable "time ago" string.
pub fn format_time_ago(seconds: u64) -> (text: String)
    ensures
        text@ == time_ago_text(seconds as nat),
{
    if seconds < MINUTE {
        "just now".to_string()
    } else if seconds < HOUR {
        format_counted(seconds / MINUTE, "minute")
    } else if seconds < DAY {
        format_counted(seconds / HOUR, "hour")
    } else if seconds < WEEK {
        format_counted(seconds / DAY, "day")
    } else if seconds < MONTH {
        format_counted(seconds / WEEK, "week")
    } else if seconds < YEAR {
        format_counted(seconds / MONTH, "month")
    } else {
        format_counted(seconds / YEAR, "year")
    }
}

/// The ordering that a sign stands for: negative is `Less`, zero `Equal`,
/// positive `Greater`.
pub open spec fn ordering_of(sign: int) -> Ordering {
    if sign < 0 {
        Ordering::Less
    } else if sign == 0 {
        Ordering::Equal
    } else {
        Ordering::Greater
    }
}

/// Splits a version string into its base and its revision number:
/// `"76.1_2"` gives `("76.1", 2)`, `"3.2.4"` gives `("3.2.4", 0)`.
pub fn split_version_revision(version: &str) -> (parts: (String, u32))
    ensures
        parts.0@ == version_base(version@),
        parts.1 == version_revision(version@),
{
    let chars = to_chars(version);
    match find_last_underscore(&chars) {
        Some(position) => {
            let base = version.substring_char(0, position).to_string();
            let revision = match parse_number_in(&chars, position + 1, chars.len()) {
                Some(number) => number,
                None => 0,
            };
            (base, revision)
        },
        None => (version.to_string(), 0),
    }
}

/// Compares two dotted bases numerically, component by component, a missing
/// component counting as zero: `"3.10.1"` is greater than `"3.2.4"`.
pub fn compare_version_strings(a: &str, b: &str) -> (order: Ordering)
    ensures
        order == ordering_of(base_order(a@, b@)),
{
    let a_parts = parse_components(&to_chars(a));
    let b_parts = parse_components(&to_chars(b));
    let sign = compare_components(&a_parts, &b_parts);
    if sign < 0 {
        Ordering::Less
    } else if sign > 0 {
        Ordering::Greater
    } else {
        Ordering::Equal
    }
}

/// Compares two Homebrew version strings, revision suffixes (`_N`)
/// included: first by base, then, between equal bases, by revision.
pub fn compare_homebrew_versions(a: &str, b: &str) -> (order: Ordering)
    ensures
        order == ordering_of(version_order(a@, b@)),
{
    let (a_base, a_rev) = split_version_revision(a);
    let (b_base, b_rev) = split_version_revision(b);
    match compare_version_strings(a_base.as_str(), b_base.as_str()) {
        Ordering::Less => Ordering::Less,
        Ordering::Greater => Ordering::Greater,
        Ordering::Equal => {
            if a_rev < b_rev {
                Ordering::Less
            } else if a_rev > b_rev {
                Ordering::Greater
            } else {
                Ordering::Equal
            }
        },
    }
}

/// The names joined by ", ".
pub open spec fn joined_names(names: Seq<String>) -> Seq<char>
    decreases names.len(),
{
    if names.len() == 0 {
        Seq::<char>::empty()
    } else if names.len() == 1 {
        names[0]@
    } else {
        joined_names(names.drop_last()) + ", "@ + names.last()@
    }
}

/// The record that stands for a reported formula. Its installed version and
/// time are those of the latest installation; a missing homepage and a
/// missing stable version are replaced by fixed words.
pub open spec fn formula_record(formula: BrewFormulae) -> PackageRecord {
    let latest = latest_install(formula.installed@);
    PackageRecord {
        name: formula.name@,
        description: formula.desc@,
        homepage: match formula.homepage {
            Some(homepage) => homepage@,
            None => "No homepage available"@,
        },
        current_version: match formula.versions.stable {
            Some(stable) => stable@,
            None => "unknown"@,
        },
        installed_version: if latest >= 0 {
            Some(formula.installed@[latest].version@)
        } else {
            None
        },
        package_type: PackageType::Formulae,
        tap: text_of(formula.tap),
        outdated: formula.outdated,
        caveats: text_of(formula.caveats),
        installed_at: if latest >= 0 {
            formula.installed@[latest].time
        } else {
            None
        },
    }
}

/// The record that stands for a reported cask. A missing description is
/// replaced by the cask's names, or by fixed words where it has none; the
/// tap is marked as a cask's.
pub open spec fn cask_record(cask: BrewCask) -> PackageRecord {
    PackageRecord {
        name: cask.token@,
        description: match cask.desc {
            Some(desc) => desc@,
            None => if cask.name@.len() == 0 {
                "No description available"@
            } else {
                joined_names(cask.name@)
            },
        },
        homepage: match cask.homepage {
            Some(homepage) => homepage@,
            None => "No homepage available"@,
        },
        current_version: cask.version@,
        installed_version: text_of(cask.installed),
        package_type: PackageType::Cask,
        tap: match cask.tap {
            Some(tap) => Some(tap@ + " (cask)"@),
            None => None,
        },
        outdated: cask.outdated,
        caveats: text_of(cask.caveats),
        installed_at: None,
    }
}

/// Joins the names with ", ".
pub fn join_names(names: &Vec<String>) -> (text: String)
    ensures
        text@ == joined_names(names@),
{
    let mut text = String::new();
    let mut i: usize = 0;
    while i < names.len()
        invariant
            i <= names.len(),
            text@ == joined_names(names@.take(i as int)),
        decreases names.len() - i,
    {
        proof {
            let shorter = names@.take(i as int);
            let longer = names@.take(i + 1);
            assert(longer.drop_last() =~= shorter);
            assert(longer.last() == names@[i as int]);
            if i == 0 {
                assert(longer[0] == names@[0]);
                assert(text@ + names@[0]@ =~= names@[0]@);
            }
        }
        if i > 0 {
            text.append(", ");
        }
        text.append(names[i].as_str());
        i = i + 1;
    }
    assert(names@.take(names.len() as int) =~= names@);
    text
}

/// Converts a reported formula to a package record.
pub fn brew_formulae_to_package_info(formula: &BrewFormulae) -> (info: PackageInfo)
    ensures
        info@ == formula_record(*formula),
{
    let (installed_version, installed_at) = match find_latest_install(&formula.installed) {
        Some(latest) => {
            let install = &formula.installed[latest];
            (Some(install.version.clone()), install.time)
        },
        None => (None, None),
    };
    let homepage = match &formula.homepage {
        Some(homepage) => homepage.clone(),
        None => "No homepage available".to_string(),
    };
    let current_version = match &formula.versions.stable {
        Some(stable) => stable.clone(),
        None => "unknown".to_string(),
    };
    PackageInfo::new(
        formula.name.clone(),
        formula.desc.clone(),
        homepage,
        current_version,
        installed_version,
        PackageType::Formulae,
        formula.tap.clone(),
        formula.outdated,
        formula.caveats.clone(),
        installed_at,
    )
}

/// Converts a reported cask to a package record.
pub fn brew_cask_to_package_info(cask: &BrewCask) -> (info: PackageInfo)
    ensures
        info@ == cask_record(*cask),
{
    let description = match &cask.desc {
        Some(desc) => desc.clone(),
        None => {
            if cask.name.len() == 0 {
                "No description available".to_string()
            } else {
                join_names(&cask.name)
            }
        },
    };
    let homepage = match &cask.homepage {
        Some(homepage) => homepage.clone(),
        None => "No homepage available".to_string(),
    };
    let tap = match &cask.tap {
        Some(tap) => Some(join(tap.as_str(), " (cask)")),
        None => None,
    };
    PackageInfo::new(
        cask.token.clone(),
        description,
        homepage,
        cask.version.clone(),
        cask.installed.clone(),
        PackageType::Cask,
        tap,
        cask.outdated,
        cask.caveats.clone(),
        None,
    )
}

} // verus!
