use brew_explorer::keyed::KeyedList;
use brew_explorer::package_info::{PackageInfo, PackageType};
use brew_explorer::scheduler::DetailScheduler;

fn nothing_known() -> KeyedList<PackageInfo> {
    KeyedList::new()
}

fn known(names: &[&str]) -> KeyedList<PackageInfo> {
    let mut list = KeyedList::new();
    for name in names {
        list.insert(
            name.to_string(),
            PackageInfo::new_with_type(
                name.to_string(),
                "d".to_string(),
                "h".to_string(),
                "1".to_string(),
                None,
                PackageType::Formulae,
                None,
            ),
        );
    }
    list
}

#[test]
fn scheduler_starts_idle() {
    let mut scheduler = DetailScheduler::new(7);
    assert_eq!(scheduler.queued(), 0);
    assert_eq!(scheduler.taken_over(), 0);
    assert_eq!(scheduler.current_request(), None);
    assert_eq!(scheduler.status(), None);
    assert_eq!(scheduler.loading_frame(), 0);
    assert_eq!(scheduler.next_request(&nothing_known()), None);
}

#[test]
fn repeated_request_within_a_second_is_dropped() {
    let mut scheduler = DetailScheduler::new(0);
    assert!(scheduler.request_details("wget", false, 1_000));
    assert!(!scheduler.request_details("wget", false, 1_000));
    assert!(!scheduler.request_details("wget", true, 1_999));
    // A clock that went back counts as no time passed.
    assert!(!scheduler.request_details("wget", true, 10));
    assert_eq!(scheduler.queued(), 1);
    assert!(scheduler.is_pending("wget"));
    // Exactly one fetch comes of it.
    assert_eq!(scheduler.next_request(&nothing_known()), Some("wget".to_string()));
    scheduler.finish_request("wget");
    assert_eq!(scheduler.next_request(&nothing_known()), None);
}

#[test]
fn request_after_the_window_is_queued_again() {
    let mut scheduler = DetailScheduler::new(0);
    assert!(scheduler.request_details("wget", false, 1_000));
    assert!(scheduler.request_details("wget", false, 2_000));
    assert_eq!(scheduler.queued(), 2);
    // Another package is not held back by the first one's marker.
    assert!(scheduler.request_details("curl", false, 2_000));
    assert_eq!(scheduler.queued(), 3);
    // Of the two requests for wget only the newer one is taken over. It has
    // the same time as the request for curl and was queued before it.
    assert_eq!(scheduler.next_request(&nothing_known()), Some("wget".to_string()));
    assert_eq!(scheduler.taken_over(), 1);
    scheduler.finish_request("wget");
    assert_eq!(scheduler.next_request(&nothing_known()), Some("curl".to_string()));
    assert_eq!(scheduler.taken_over(), 0);
}

#[test]
fn request_for_the_current_package_is_dropped() {
    let mut scheduler = DetailScheduler::new(0);
    assert!(scheduler.request_details("jq", false, 0));
    assert_eq!(scheduler.next_request(&nothing_known()), Some("jq".to_string()));
    assert_eq!(scheduler.current_request(), Some("jq".to_string()));
    assert_eq!(scheduler.status(), Some("Loading details for jq".to_string()));
    // Long after the window, jq is still in the worker's hands.
    assert!(!scheduler.request_details("jq", true, 60_000));
    assert_eq!(scheduler.queued(), 0);
    scheduler.finish_request("jq");
    assert_eq!(scheduler.current_request(), None);
    assert_eq!(scheduler.status(), None);
    assert!(!scheduler.is_pending("jq"));
    // The fetch has ended, and so has the marker: jq may be asked for at once.
    assert!(scheduler.request_details("jq", true, 60_000));
}

#[test]
fn priority_request_is_served_first() {
    let mut scheduler = DetailScheduler::new(0);
    assert!(scheduler.request_details("slow", false, 10));
    assert!(scheduler.request_details("fast", true, 20));
    assert_eq!(scheduler.next_request(&nothing_known()), Some("fast".to_string()));
    assert_eq!(scheduler.taken_over(), 1);
    scheduler.finish_request("fast");
    assert_eq!(scheduler.next_request(&nothing_known()), Some("slow".to_string()));
    scheduler.finish_request("slow");
    assert_eq!(scheduler.next_request(&nothing_known()), None);
}

#[test]
fn priority_request_overtakes_what_the_worker_took_over_before() {
    let mut scheduler = DetailScheduler::new(0);
    assert!(scheduler.request_details("a", false, 1));
    assert!(scheduler.request_details("b", false, 2));
    assert_eq!(scheduler.next_request(&nothing_known()), Some("a".to_string()));
    scheduler.finish_request("a");
    assert!(scheduler.request_details("urgent", true, 3));
    assert_eq!(scheduler.next_request(&nothing_known()), Some("urgent".to_string()));
    scheduler.finish_request("urgent");
    assert_eq!(scheduler.next_request(&nothing_known()), Some("b".to_string()));
}

#[test]
fn equal_priority_is_served_in_order_of_enqueue_time() {
    let mut scheduler = DetailScheduler::new(0);
    assert!(scheduler.request_details("second", false, 20));
    assert!(scheduler.request_details("third", false, 30));
    // Queued last, with the earliest time.
    assert!(scheduler.request_details("first", false, 10));
    // Same time as "third", queued after it.
    assert!(scheduler.request_details("fourth", false, 30));
    let mut served = Vec::new();
    while let Some(name) = scheduler.next_request(&nothing_known()) {
        scheduler.finish_request(&name);
        served.push(name);
    }
    assert_eq!(served, vec!["first", "second", "third", "fourth"]);
}

#[test]
fn only_the_newest_request_for_a_package_survives() {
    let mut scheduler = DetailScheduler::new(0);
    assert!(scheduler.request_details("a", false, 0));
    assert!(scheduler.request_details("b", false, 1));
    // After the window, a is asked for again, now urgently.
    assert!(scheduler.request_details("a", true, 2_000));
    assert_eq!(scheduler.queued(), 3);
    assert_eq!(scheduler.next_request(&nothing_known()), Some("a".to_string()));
    // Two requests were taken over, not three, and one was served.
    assert_eq!(scheduler.queued(), 0);
    assert_eq!(scheduler.taken_over(), 1);
    scheduler.finish_request("a");
    assert_eq!(scheduler.next_request(&nothing_known()), Some("b".to_string()));
    scheduler.finish_request("b");
    assert_eq!(scheduler.next_request(&nothing_known()), None);
}

#[test]
fn request_for_known_details_is_dropped_in_silence() {
    let mut scheduler = DetailScheduler::new(0);
    assert!(scheduler.request_details("jq", true, 0));
    assert!(scheduler.request_details("wget", false, 0));
    let cache = known(&["jq"]);
    // One request per round: jq is taken and dropped, wget waits.
    assert_eq!(scheduler.next_request(&cache), None);
    assert_eq!(scheduler.current_request(), None);
    assert_eq!(scheduler.status(), None);
    assert_eq!(scheduler.taken_over(), 1);
    assert_eq!(scheduler.next_request(&cache), Some("wget".to_string()));
    assert_eq!(scheduler.taken_over(), 0);
}

#[test]
fn worker_is_busy_while_a_fetch_is_outstanding() {
    let mut scheduler = DetailScheduler::new(0);
    assert!(scheduler.request_details("a", false, 0));
    assert!(scheduler.request_details("b", false, 0));
    assert_eq!(scheduler.next_request(&nothing_known()), Some("a".to_string()));
    assert!(scheduler.request_details("c", false, 0));
    assert_eq!(scheduler.next_request(&nothing_known()), None);
    assert_eq!(scheduler.next_request(&nothing_known()), None);
    assert_eq!(scheduler.queued(), 1);
    assert_eq!(scheduler.taken_over(), 1);
    assert_eq!(scheduler.current_request(), Some("a".to_string()));
    scheduler.finish_request("a");
    assert_eq!(scheduler.next_request(&nothing_known()), Some("b".to_string()));
}

#[test]
fn forget_clears_marker_and_current() {
    let mut scheduler = DetailScheduler::new(0);
    assert!(scheduler.request_details("a", false, 0));
    assert!(scheduler.request_details("b", false, 0));
    assert_eq!(scheduler.next_request(&nothing_known()), Some("a".to_string()));
    scheduler.forget("b");
    assert!(!scheduler.is_pending("b"));
    assert_eq!(scheduler.current_request(), Some("a".to_string()));
    scheduler.forget("a");
    assert!(!scheduler.is_pending("a"));
    assert_eq!(scheduler.current_request(), None);
    // The status is left to the end of the fetch.
    assert_eq!(scheduler.status(), Some("Loading details for a".to_string()));
    assert!(scheduler.request_details("a", false, 1));
}

#[test]
fn loading_animation_cycles_on_its_own_clock() {
    let mut scheduler = DetailScheduler::new(1_000);
    assert_eq!(scheduler.advance_animation(1_000), 0);
    assert_eq!(scheduler.advance_animation(1_399), 0);
    assert_eq!(scheduler.advance_animation(1_400), 1);
    assert_eq!(scheduler.loading_frame(), 1);
    assert_eq!(scheduler.advance_animation(1_799), 1);
    assert_eq!(scheduler.advance_animation(1_800), 2);
    assert_eq!(scheduler.advance_animation(5_000), 0);
    assert_eq!(scheduler.advance_animation(5_100), 0);
    // A clock that went back moves nothing.
    assert_eq!(scheduler.advance_animation(0), 0);
    assert_eq!(scheduler.advance_animation(5_400), 1);
    // A fetch that ends does not touch the animation.
    assert!(scheduler.request_details("a", false, 0));
    assert_eq!(scheduler.next_request(&nothing_known()), Some("a".to_string()));
    scheduler.finish_request("a");
    assert_eq!(scheduler.loading_frame(), 1);
}
