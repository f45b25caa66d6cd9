//! A package as the library knows it.

use std::cmp::Ordering;
use vstd::prelude::*;
use vstd::string::*;
use crate::brew_info_response::{BrewCask, BrewFormulae};
use crate::clock::unix_seconds_now;
use crate::helpers::{
    brew_cask_to_package_info, brew_formulae_to_package_info, cask_record,
    compare_homebrew_versions, format_time_ago, formula_record, time_ago_text,
};
use crate::text::{join, text_of};
use crate::version::version_order;

verus! {

/// The kind of a package.
#[derive(Debug, Clone, Copy, PartialEq, Eq, Structural)]
pub enum PackageType {
    Formulae,
    Cask,
    Unknown,
}

/// A package with its metadata. A record is never changed field by field: a
/// fresh one takes its place.
#[derive(Debug)]
pub struct PackageInfo {
    /// The identifier: the stable key of the package.
    pub name: String,
    pub description: String,
    pub homepage: String,
    /// The latest version on offer.
    pub current_version: String,
    pub installed_version: Option<String>,
    pub package_type: PackageType,
    pub tap: Option<String>,
    pub outdated: bool,
    pub caveats: Option<String>,
    /// When it was installed, in seconds since the Unix epoch.
    pub installed_at: Option<u64>,
}

/// What a package record holds, as mathematical values.
pub struct PackageRecord {
    pub name: Seq<char>,
    pub description: Seq<char>,
    pub homepage: Seq<char>,
    pub current_version: Seq<char>,
    pub installed_version: Option<Seq<char>>,
    pub package_type: PackageType,
    pub tap: Option<Seq<char>>,
    pub outdated: bool,
    pub caveats: Option<Seq<char>>,
    pub installed_at: Option<u64>,
}

impl View for PackageInfo {
    type V = PackageRecord;

    open spec fn view(&self) -> PackageRecord {
        PackageRecord {
            name: self.name@,
            description: self.description@,
            homepage: self.homepage@,
            current_version: self.current_version@,
            installed_version: text_of(self.installed_version),
            package_type: self.package_type,
            tap: text_of(self.tap),
            outdated: self.outdated,
            caveats: text_of(self.caveats),
            installed_at: self.installed_at,
        }
    }
}

/// The records of a list of packages, in order.
pub open spec fn records_of(packages: Seq<PackageInfo>) -> Seq<PackageRecord> {
    packages.map_values(|p: PackageInfo| p@)
}

/// An update is available when the installed version is strictly older than
/// the current one.
pub open spec fn has_update(record: PackageRecord) -> bool {
    record.installed_version matches Some(installed) && version_order(
        installed,
        record.current_version,
    ) < 0
}

/// The installed version with a remark on whether it is the latest.
pub open spec fn installation_status_text(record: PackageRecord) -> Seq<char> {
    match record.installed_version {
        Some(installed) => if has_update(record) {
            installed + " (update available)"@
        } else {
            installed + " (up to date)"@
        },
        None => "Not installed"@,
    }
}

/// The name behind a sign for the package's kind.
pub open spec fn display_name_text(record: PackageRecord) -> Seq<char> {
    match record.package_type {
        PackageType::Formulae => "⚙️ "@ + record.name,
        PackageType::Cask => "🍺 "@ + record.name,
        PackageType::Unknown => record.name,
    }
}

/// How long before `now` the package was installed, in words; nothing where
/// the time of installation is unknown or lies after `now`. Both times are
/// in seconds since the Unix epoch.
pub open spec fn installed_ago_text(record: PackageRecord, now: u64) -> Option<Seq<char>> {
    match record.installed_at {
        Some(at) => if now >= at {
            Some(time_ago_text((now - at) as nat))
        } else {
            None
        },
        None => None,
    }
}

impl Clone for PackageInfo {
    fn clone(&self) -> (copy: Self)
        ensures
            copy == *self,
    {
        PackageInfo {
            name: self.name.clone(),
            description: self.description.clone(),
            homepage: self.homepage.clone(),
            current_version: self.current_version.clone(),
            installed_version: self.installed_version.clone(),
            package_type: self.package_type,
            tap: self.tap.clone(),
            outdated: self.outdated,
            caveats: self.caveats.clone(),
            installed_at: self.installed_at,
        }
    }
}

impl PackageInfo {
    /// Creates a record from all of its fields.
    #[allow(clippy::too_many_arguments)]
    pub fn new(
        name: String,
        description: String,
        homepage: String,
        current_version: String,
        installed_version: Option<String>,
        package_type: PackageType,
        tap: Option<String>,
        outdated: bool,
        caveats: Option<String>,
        installed_at: Option<u64>,
    ) -> (info: Self)
        ensures
            info == (PackageInfo {
                name,
                description,
                homepage,
                current_version,
                installed_version,
                package_type,
                tap,
                outdated,
                caveats,
                installed_at,
            }),
    {
        Self {
            name,
            description,
            homepage,
            current_version,
            installed_version,
            package_type,
            tap,
            outdated,
            caveats,
            installed_at,
        }
    }

    /// Creates a record that is not outdated, has no caveats and no known
    /// time of installation.
    pub fn new_with_type(
        name: String,
        description: String,
        homepage: String,
        current_version: String,
        installed_version: Option<String>,
        package_type: PackageType,
        tap: Option<String>,
    ) -> (info: Self)
        ensures
            info == (PackageInfo {
                name,
                description,
                homepage,
                current_version,
                installed_version,
                package_type,
                tap,
                outdated: false,
                caveats: None,
                installed_at: None,
            }),
    {
        Self {
            name,
            description,
            homepage,
            current_version,
            installed_version,
            package_type,
            tap,
            outdated: false,
            caveats: None,
            installed_at: None,
        }
    }

    /// Creates a record from all of its fields, caveats included.
    #[allow(clippy::too_many_arguments)]
    pub fn new_with_caveats(
        name: String,
        description: String,
        homepage: String,
        current_version: String,
        installed_version: Option<String>,
        package_type: PackageType,
        tap: Option<String>,
        outdated: bool,
        caveats: Option<String>,
        installed_at: Option<u64>,
    ) -> (info: Self)
        ensures
            info == (PackageInfo {
                name,
                description,
                homepage,
                current_version,
                installed_version,
                package_type,
                tap,
                outdated,
                caveats,
                installed_at,
            }),
    {
        Self {
            name,
            description,
            homepage,
            current_version,
            installed_version,
            package_type,
            tap,
            outdated,
            caveats,
            installed_at,
        }
    }

    /// Whether the package is installed.
    pub fn is_installed(&self) -> (installed: bool)
        ensures
            installed == (self.installed_version is Some),
    {
        self.installed_version.is_some()
    }

    /// Whether a newer version than the installed one is on offer.
    pub fn has_update_available(&self) -> (available: bool)
        ensures
            available == has_update(self@),
    {
        match &self.installed_version {
            Some(installed) => {
                match compare_homebrew_versions(installed.as_str(), self.current_version.as_str()) {
                    Ordering::Less => true,
                    Ordering::Equal => false,
                    Ordering::Greater => false,
                }
            },
            None => false,
        }
    }

    /// The installed version with a remark on whether it is the latest.
    pub fn installation_status(&self) -> (status: String)
        ensures
            status@ == installation_status_text(self@),
    {
        match &self.installed_version {
            Some(version) => {
                if self.has_update_available() {
                    join(version.as_str(), " (update available)")
                } else {
                    join(version.as_str(), " (up to date)")
                }
            },
            None => "Not installed".to_string(),
        }
    }

    /// How long before `now` the package was installed, in words. Both times
    /// are in seconds since the Unix epoch.
    pub fn installed_ago_at(&self, now: u64) -> (ago: Option<String>)
        ensures
            text_of(ago) == installed_ago_text(self@, now),
    {
        match self.installed_at {
            Some(timestamp) => {
                if now >= timestamp {
                    Some(format_time_ago(now - timestamp))
                } else {
                    None
                }
            },
            None => None,
        }
    }

    /// How long ago the package was installed, by the wall clock: what
    /// `installed_ago_at` gives for the clock's reading. Nothing where the
    /// time of installation is unknown or the clock cannot be read.
    pub fn installed_ago(&self) -> (ago: Option<String>)
        ensures
            self.installed_at is None ==> ago is None,
            ago is Some ==> exists|now: u64| text_of(ago) == installed_ago_text(self@, now),
    {
        if self.installed_at.is_none() {
            return None;
        }
        match unix_seconds_now() {
            Some(now) => {
                let ago = self.installed_ago_at(now);
                assert(text_of(ago) == installed_ago_text(self@, now));
                ago
            },
            None => None,
        }
    }

    /// The name behind a sign for the package's kind.
    pub fn get_display_name(&self) -> (display: String)
        ensures
            display@ == display_name_text(self@),
    {
        match self.package_type {
            PackageType::Formulae => join("⚙️ ", self.name.as_str()),
            PackageType::Cask => join("🍺 ", self.name.as_str()),
            PackageType::Unknown => self.name.clone(),
        }
    }
}

impl From<&BrewFormulae> for PackageInfo {
    fn from(formula: &BrewFormulae) -> (info: PackageInfo)
        ensures
            info@ == formula_record(*formula),
    {
        brew_formulae_to_package_info(formula)
    }
}

impl vstd::std_specs::convert::FromSpecImpl<&BrewFormulae> for PackageInfo {
    open spec fn obeys_from_spec() -> bool {
        false
    }

    open spec fn from_spec(formula: &BrewFormulae) -> PackageInfo {
        arbitrary()
    }
}

impl From<&BrewCask> for PackageInfo {
    fn from(cask: &BrewCask) -> (info: PackageInfo)
        ensures
            info@ == cask_record(*cask),
    {
        brew_cask_to_package_info(cask)
    }
}

impl vstd::std_specs::convert::FromSpecImpl<&BrewCask> for PackageInfo {
    open spec fn obeys_from_spec() -> bool {
        false
    }

    open spec fn from_spec(cask: &BrewCask) -> PackageInfo {
        arbitrary()
    }
}

} // verus!
