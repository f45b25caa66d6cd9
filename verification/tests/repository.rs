use brew_explorer::brew_info_response::{
    BrewCask, BrewFormulae, BrewInfoResponse, BrewInstalled, BrewVersions,
};
use brew_explorer::package_info::{PackageInfo, PackageType};
use brew_explorer::repository::{FetchError, HomebrewRepository};

fn install(version: &str, time: Option<u64>, on_request: bool, as_dependency: bool) -> BrewInstalled {
    BrewInstalled {
        version: version.to_string(),
        time,
        installed_as_dependency: as_dependency,
        installed_on_request: on_request,
    }
}

fn formula(name: &str, stable: &str, installed: Vec<BrewInstalled>) -> BrewFormulae {
    BrewFormulae {
        name: name.to_string(),
        tap: Some("homebrew/core".to_string()),
        desc: format!("{} description", name),
        homepage: Some(format!("https://example.com/{}", name)),
        versions: BrewVersions { stable: Some(stable.to_string()), head: None },
        installed,
        outdated: false,
        caveats: None,
    }
}

fn direct(name: &str, version: &str) -> BrewFormulae {
    formula(name, version, vec![install(version, Some(100), true, false)])
}

fn cask(token: &str, version: &str) -> BrewCask {
    BrewCask {
        token: token.to_string(),
        tap: Some("homebrew/cask".to_string()),
        name: vec![format!("{} App", token), format!("{} Alias", token)],
        desc: None,
        homepage: None,
        version: version.to_string(),
        installed: Some(version.to_string()),
        outdated: false,
        caveats: None,
    }
}

fn report(formulae: Vec<BrewFormulae>, casks: Vec<BrewCask>) -> Result<BrewInfoResponse, FetchError> {
    Ok(BrewInfoResponse { formulae, casks })
}

fn names(packages: &[PackageInfo]) -> Vec<String> {
    packages.iter().map(|p| p.name.clone()).collect()
}

fn three_packages() -> Result<BrewInfoResponse, FetchError> {
    report(vec![direct("a", "1.0"), direct("b", "2.0")], vec![cask("c", "3.0")])
}

#[test]
fn process_brew_response_keeps_direct_formulae_and_all_casks() {
    let response = BrewInfoResponse {
        formulae: vec![
            direct("wget", "1.21"),
            formula("openssl", "3.0", vec![install("3.0", Some(5), false, true)]),
            formula("never", "1.0", vec![]),
            formula(
                "mixed",
                "2.0",
                vec![install("1.9", Some(1), false, true), install("2.0", Some(2), false, false)],
            ),
            formula("asked", "4.0", vec![install("4.0", Some(3), true, true)]),
        ],
        casks: vec![cask("firefox", "130.0"), cask("iterm2", "3.5")],
    };
    let packages = HomebrewRepository::process_brew_response(response);
    assert_eq!(names(&packages), vec!["wget", "mixed", "asked", "firefox", "iterm2"]);
    assert_eq!(packages[0].package_type, PackageType::Formulae);
    assert_eq!(packages[1].installed_version, Some("2.0".to_string()));
    assert_eq!(packages[3].package_type, PackageType::Cask);
    assert_eq!(packages[3].description, "firefox App, firefox Alias");
    assert_eq!(packages[3].homepage, "No homepage available");
}

#[test]
fn empty_report_is_shown_as_a_placeholder() {
    let packages = HomebrewRepository::load_installed_packages(report(vec![], vec![]));
    assert_eq!(packages.len(), 1);
    assert_eq!(packages[0].name, "no-packages");
    assert_eq!(
        packages[0].description,
        "No packages are currently installed via Homebrew. Use 'brew install <package>' to install packages."
    );
    assert_eq!(packages[0].homepage, "https://brew.sh");
    assert_eq!(packages[0].current_version, "1.0.0");
    assert_eq!(packages[0].installed_version, None);
    assert_eq!(packages[0].package_type, PackageType::Unknown);
    assert_eq!(packages[0].tap, None);
    // A report with nothing but dependencies counts as empty too.
    let only_dependencies =
        report(vec![formula("openssl", "3.0", vec![install("3.0", None, false, true)])], vec![]);
    let packages = HomebrewRepository::load_installed_packages(only_dependencies);
    assert_eq!(names(&packages), vec!["no-packages"]);
    let placeholder = HomebrewRepository::create_no_packages_placeholder();
    assert_eq!(placeholder.name, "no-packages");
}

#[test]
fn failed_report_is_shown_as_an_error_placeholder() {
    let outcome = Err(FetchError::Malformed("expected value at line 1 column 1".to_string()));
    let packages = HomebrewRepository::load_installed_packages(outcome);
    assert_eq!(packages.len(), 1);
    assert_eq!(packages[0].name, "homebrew-error");
    assert_eq!(
        packages[0].description,
        "Error loading packages from Homebrew: expected value at line 1 column 1. Make sure Homebrew is installed and accessible."
    );
    assert_eq!(packages[0].homepage, "https://brew.sh");
    assert_eq!(packages[0].package_type, PackageType::Unknown);
    let placeholder = HomebrewRepository::create_error_placeholder("no brew");
    assert_eq!(
        placeholder.description,
        "Error loading packages from Homebrew: no brew. Make sure Homebrew is installed and accessible."
    );
    assert_eq!(FetchError::Unavailable("x".to_string()).message(), "x");
    assert_eq!(FetchError::Malformed("y".to_string()).message(), "y");
}

#[test]
fn new_repository_shows_the_first_report() {
    let mut repository = HomebrewRepository::new(three_packages(), 1_000);
    assert_eq!(names(&repository.get_all_packages(1_000)), vec!["a", "b", "c"]);
    assert!(!repository.refresh_due(1_000));
    assert!(repository.cached_details("a").is_none());
    assert!(!repository.is_removed("a"));
    assert_eq!(repository.scheduler().queued(), 0);
    // At the start there is nothing to fall back to.
    let mut broken =
        HomebrewRepository::new(Err(FetchError::Unavailable("brew: not found".to_string())), 0);
    let shown = broken.get_all_packages(0);
    assert_eq!(names(&shown), vec!["homebrew-error"]);
    assert_eq!(
        shown[0].description,
        "Error loading packages from Homebrew: brew: not found. Make sure Homebrew is installed and accessible."
    );
}

#[test]
fn refresh_is_due_after_thirty_seconds_or_when_forced() {
    let mut repository = HomebrewRepository::new(three_packages(), 1_000);
    assert!(!repository.refresh_due(1_000));
    assert!(!repository.refresh_due(31_000));
    assert!(repository.refresh_due(31_001));
    // A clock that went back counts as no time passed.
    assert!(!repository.refresh_due(0));
    repository.force_refresh();
    assert!(repository.refresh_due(1_000));
    repository.refresh_all_packages(three_packages(), 2_000);
    assert!(!repository.refresh_due(2_000));
    assert!(!repository.refresh_due(32_000));
    assert!(repository.refresh_due(32_001));
}

#[test]
fn two_reads_within_thirty_seconds_ask_for_one_report() {
    let mut repository = HomebrewRepository::new(three_packages(), 0);
    let mut bulk_queries = 0;
    for now in [40_000u64, 40_100, 55_000, 70_000, 70_001] {
        if repository.refresh_due(now) {
            bulk_queries += 1;
            repository.refresh_all_packages(three_packages(), now);
        }
        assert_eq!(repository.get_all_packages(now).len(), 3);
    }
    // One at 40 000, and the next only at 70 001.
    assert_eq!(bulk_queries, 2);
}

#[test]
fn failed_refresh_keeps_the_last_good_directory() {
    let mut repository = HomebrewRepository::new(three_packages(), 0);
    repository.force_refresh();
    repository.refresh_all_packages(Err(FetchError::Unavailable("timeout".to_string())), 50_000);
    assert_eq!(names(&repository.get_all_packages(50_000)), vec!["a", "b", "c"]);
    // The attempt counts: the next one is due thirty seconds later.
    assert!(!repository.refresh_due(80_000));
    assert!(repository.refresh_due(80_001));
    repository.refresh_all_packages(report(vec![direct("z", "9")], vec![]), 90_000);
    assert_eq!(names(&repository.get_all_packages(90_000)), vec!["z"]);
}

#[test]
fn unreadable_report_is_shown_as_an_error_placeholder() {
    let mut repository = HomebrewRepository::new(three_packages(), 0);
    repository.refresh_all_packages(Err(FetchError::Malformed("bad json".to_string())), 50_000);
    let shown = repository.get_all_packages(50_000);
    assert_eq!(names(&shown), vec!["homebrew-error"]);
    assert_eq!(
        shown[0].description,
        "Error loading packages from Homebrew: bad json. Make sure Homebrew is installed and accessible."
    );
}

#[test]
fn removed_package_is_hidden_for_two_minutes() {
    let mut repository = HomebrewRepository::new(three_packages(), 0);
    repository.clear_package_cache("b", 10_000);
    assert!(repository.is_removed("b"));
    assert!(repository.refresh_due(10_000));
    assert_eq!(names(&repository.get_all_packages(10_000)), vec!["a", "c"]);
    // The package manager still reports b: it stays hidden.
    repository.refresh_all_packages(three_packages(), 11_000);
    assert_eq!(names(&repository.get_all_packages(11_000)), vec!["a", "c"]);
    assert_eq!(names(&repository.get_all_packages(129_999)), vec!["a", "c"]);
    // Two minutes after the removal it is two minutes old, and no older.
    assert_eq!(names(&repository.get_all_packages(130_000)), vec!["a", "c"]);
    assert!(repository.is_removed("b"));
    // Once the removal is older than two minutes, the package may come back.
    assert_eq!(names(&repository.get_all_packages(130_001)), vec!["a", "b", "c"]);
    assert!(!repository.is_removed("b"));
    assert_eq!(names(&repository.get_all_packages(10_000)), vec!["a", "b", "c"]);
}

#[test]
fn removal_of_an_unlisted_package_hides_nothing_else() {
    let mut repository = HomebrewRepository::new(three_packages(), 0);
    repository.clear_package_cache("nope", 0);
    repository.clear_package_cache("a", 0);
    repository.clear_package_cache("a", 60_000);
    assert_eq!(names(&repository.get_all_packages(100_000)), vec!["b", "c"]);
    // The second removal of a counts from its own time.
    assert_eq!(names(&repository.get_all_packages(180_000)), vec!["b", "c"]);
    assert_eq!(names(&repository.get_all_packages(180_001)), vec!["a", "b", "c"]);
}

#[test]
fn fetched_details_are_cached() {
    let mut repository = HomebrewRepository::new(three_packages(), 0);
    assert!(repository.request_details("a", false, 100));
    assert!(!repository.request_details("a", true, 200));
    assert_eq!(repository.next_detail_request(), Some("a".to_string()));
    assert_eq!(repository.scheduler().status(), Some("Loading details for a".to_string()));
    // The answer holds the package, something pulled in with it, and a cask.
    let answer = report(
        vec![
            direct("a", "1.5"),
            formula("libfoo", "0.1", vec![install("0.1", None, false, true)]),
        ],
        vec![cask("a-gui", "1.0")],
    );
    repository.store_details("a", answer);
    assert_eq!(repository.scheduler().current_request(), None);
    assert_eq!(repository.scheduler().status(), None);
    let details = repository.cached_details("a").expect("a is cached");
    assert_eq!(details.current_version, "1.5");
    assert_eq!(details.description, "a description");
    assert_eq!(repository.cached_details("libfoo").expect("every record").name, "libfoo");
    assert_eq!(
        repository.cached_details("a-gui").expect("casks too").package_type,
        PackageType::Cask
    );
    assert!(repository.cached_details("b").is_none());
    // A request for what is cached is queued, and dropped by the worker.
    assert!(repository.request_details("a", true, 5_000));
    assert_eq!(repository.next_detail_request(), None);
    assert_eq!(repository.scheduler().taken_over(), 0);
}

#[test]
fn later_details_replace_earlier_ones() {
    let mut repository = HomebrewRepository::new(three_packages(), 0);
    repository.store_details("a", report(vec![direct("a", "1.0"), direct("a", "1.1")], vec![]));
    assert_eq!(repository.cached_details("a").expect("cached").current_version, "1.1");
    repository.store_details("a", report(vec![direct("a", "2.0")], vec![]));
    assert_eq!(repository.cached_details("a").expect("cached").current_version, "2.0");
}

#[test]
fn failed_fetch_is_swallowed() {
    let mut repository = HomebrewRepository::new(three_packages(), 0);
    assert!(repository.request_details("a", true, 100));
    assert_eq!(repository.next_detail_request(), Some("a".to_string()));
    repository.store_details("a", Err(FetchError::Unavailable("network".to_string())));
    assert!(repository.cached_details("a").is_none());
    assert_eq!(repository.scheduler().current_request(), None);
    assert_eq!(repository.scheduler().status(), None);
    // Nothing is retried by itself; the next display asks again, and may at once.
    assert_eq!(repository.next_detail_request(), None);
    assert!(repository.request_details("a", true, 101));
    assert_eq!(repository.next_detail_request(), Some("a".to_string()));
}

#[test]
fn removal_drops_details_and_markers() {
    let mut repository = HomebrewRepository::new(three_packages(), 0);
    repository.store_details("b", report(vec![direct("b", "2.0")], vec![]));
    assert!(repository.cached_details("b").is_some());
    assert!(repository.request_details("a", false, 10));
    assert_eq!(repository.next_detail_request(), Some("a".to_string()));
    assert!(repository.request_details("b", false, 20));
    repository.clear_package_cache("b", 30);
    assert!(repository.cached_details("b").is_none());
    assert!(!repository.scheduler().is_pending("b"));
    assert_eq!(repository.scheduler().current_request(), Some("a".to_string()));
    repository.clear_package_cache("a", 40);
    assert_eq!(repository.scheduler().current_request(), None);
    assert!(!repository.scheduler().is_pending("a"));
}

#[test]
fn refresh_package_takes_the_newest_installation() {
    let repository = HomebrewRepository::new(three_packages(), 0);
    let mut wget = formula(
        "wget",
        "1.21",
        vec![
            install("1.20", Some(50), true, false),
            install("1.21", Some(90), true, false),
            install("1.21_1", Some(90), true, false),
            install("1.19", Some(90), true, false),
            install("9.9", None, true, false),
        ],
    );
    wget.versions = BrewVersions { stable: None, head: Some("HEAD-abc".to_string()) };
    wget.tap = None;
    wget.outdated = true;
    wget.caveats = Some("careful".to_string());
    let answer = report(vec![direct("other", "1"), wget, direct("wget", "0.0")], vec![cask("wget", "7")]);
    let refreshed = repository.refresh_package("wget", answer).expect("a report").expect("found");
    assert_eq!(refreshed.name, "wget");
    assert_eq!(refreshed.installed_version, Some("1.21_1".to_string()));
    assert_eq!(refreshed.installed_at, Some(90));
    assert_eq!(refreshed.current_version, "HEAD-abc");
    assert_eq!(refreshed.package_type, PackageType::Formulae);
    assert_eq!(refreshed.tap, None);
    assert!(refreshed.outdated);
    assert_eq!(refreshed.caveats, Some("careful".to_string()));
    assert_eq!(refreshed.homepage, "https://example.com/wget");
}

#[test]
fn refresh_package_takes_the_last_of_equal_installations() {
    let repository = HomebrewRepository::new(three_packages(), 0);
    let mut twice = formula(
        "x",
        "1.0",
        vec![install("1.0", Some(5), true, false), install("1.0.0", Some(5), true, false)],
    );
    twice.versions = BrewVersions { stable: None, head: None };
    let refreshed = repository.refresh_package("x", report(vec![twice], vec![])).unwrap().unwrap();
    assert_eq!(refreshed.installed_version, Some("1.0.0".to_string()));
    assert_eq!(refreshed.current_version, "unknown");
}

#[test]
fn refresh_package_passes_over_dependencies_and_strangers() {
    let repository = HomebrewRepository::new(three_packages(), 0);
    let dependency = formula("openssl", "3.0", vec![install("3.0", Some(1), false, true)]);
    // The formula of that name decides, even with a cask of the same token.
    let answer = report(vec![dependency], vec![cask("openssl", "1")]);
    assert_eq!(repository.refresh_package("openssl", answer).map(|p| p.map(|i| i.name)), Ok(None));
    let answer = report(vec![direct("a", "1")], vec![cask("c", "1")]);
    assert_eq!(repository.refresh_package("b", answer).map(|p| p.map(|i| i.name)), Ok(None));
    let failed = Err(FetchError::Unavailable("exit status 1".to_string()));
    assert_eq!(
        repository.refresh_package("b", failed).map(|p| p.map(|i| i.name)),
        Err(FetchError::Unavailable("exit status 1".to_string()))
    );
}

#[test]
fn refresh_package_describes_a_cask_by_its_first_name() {
    let repository = HomebrewRepository::new(three_packages(), 0);
    let answer = report(vec![direct("a", "1")], vec![cask("other", "1"), cask("firefox", "130.0")]);
    let refreshed = repository.refresh_package("firefox", answer).unwrap().unwrap();
    assert_eq!(refreshed.name, "firefox");
    assert_eq!(refreshed.description, "firefox App (Cask application)");
    assert_eq!(refreshed.tap, Some("homebrew/cask".to_string()));
    assert_eq!(refreshed.package_type, PackageType::Cask);
    assert_eq!(refreshed.current_version, "130.0");
    assert_eq!(refreshed.installed_version, Some("130.0".to_string()));
    assert_eq!(refreshed.installed_at, None);
    assert_eq!(refreshed.homepage, "No homepage available");
    let mut nameless = cask("bare", "2");
    nameless.name = vec![];
    let refreshed = repository.refresh_package("bare", report(vec![], vec![nameless])).unwrap().unwrap();
    assert_eq!(refreshed.description, "bare (Cask application)");
    let mut described = cask("said", "2");
    described.desc = Some("Says things".to_string());
    let refreshed = repository.refresh_package("said", report(vec![], vec![described])).unwrap().unwrap();
    assert_eq!(refreshed.description, "Says things");
}
