use brew_explorer::helpers::{
    compare_homebrew_versions, compare_version_strings, format_time_ago, split_version_revision,
};
use std::cmp::Ordering;

#[test]
fn test_compare_homebrew_versions_with_revisions() {
    // Test revision comparison
    assert_eq!(compare_homebrew_versions("76.1", "76.1_2"), Ordering::Less);
    assert_eq!(compare_homebrew_versions("76.1_2", "76.1"), Ordering::Greater);
    assert_eq!(compare_homebrew_versions("3.2.4", "3.2.4_4"), Ordering::Less);
    assert_eq!(compare_homebrew_versions("3.2.4_4", "3.2.4"), Ordering::Greater);

    // Test equal versions
    assert_eq!(compare_homebrew_versions("76.1", "76.1"), Ordering::Equal);
    assert_eq!(compare_homebrew_versions("76.1_2", "76.1_2"), Ordering::Equal);

    // Test different base versions
    assert_eq!(compare_homebrew_versions("76.1", "76.2"), Ordering::Less);
    assert_eq!(compare_homebrew_versions("76.2", "76.1"), Ordering::Greater);

    // Test mixed scenarios
    assert_eq!(compare_homebrew_versions("76.1_5", "76.2"), Ordering::Less);
    assert_eq!(compare_homebrew_versions("76.2", "76.1_5"), Ordering::Greater);
}

#[test]
fn test_split_version_revision() {
    assert_eq!(split_version_revision("76.1"), ("76.1".to_string(), 0));
    assert_eq!(split_version_revision("76.1_2"), ("76.1".to_string(), 2));
    assert_eq!(split_version_revision("3.2.4_4"), ("3.2.4".to_string(), 4));
    assert_eq!(split_version_revision("1.0.0"), ("1.0.0".to_string(), 0));
}

#[test]
fn test_compare_version_strings() {
    assert_eq!(compare_version_strings("3.2.4", "3.2.4"), Ordering::Equal);
    assert_eq!(compare_version_strings("3.2.3", "3.2.4"), Ordering::Less);
    assert_eq!(compare_version_strings("3.2.4", "3.2.3"), Ordering::Greater);
    assert_eq!(compare_version_strings("3.10.1", "3.2.4"), Ordering::Greater);
    assert_eq!(compare_version_strings("3.2.4", "3.10.1"), Ordering::Less);
}

#[test]
fn missing_components_count_as_zero() {
    assert_eq!(compare_version_strings("1.0", "1.0.0"), Ordering::Equal);
    assert_eq!(compare_version_strings("1", "1.0.1"), Ordering::Less);
    assert_eq!(compare_version_strings("", "0.0"), Ordering::Equal);
    assert_eq!(compare_homebrew_versions("2", "1.9.9_7"), Ordering::Greater);
}

#[test]
fn pieces_that_are_no_numbers_are_dropped() {
    // "1.beta.3" reads as the components 1 and 3.
    assert_eq!(compare_version_strings("1.beta.3", "1.3"), Ordering::Equal);
    assert_eq!(compare_version_strings("1..3", "1.3"), Ordering::Equal);
    // A piece too large for 32 bits is no number.
    assert_eq!(compare_version_strings("1.4294967295", "1.4294967294"), Ordering::Greater);
    assert_eq!(compare_version_strings("1.4294967296.7", "1.7"), Ordering::Equal);
    // A leading plus sign is read, a minus sign is not.
    assert_eq!(compare_version_strings("+5", "5"), Ordering::Equal);
    assert_eq!(compare_version_strings("-5", ""), Ordering::Equal);
    assert_eq!(compare_version_strings("+", ""), Ordering::Equal);
    assert_eq!(compare_version_strings("007", "7"), Ordering::Equal);
}

#[test]
fn revision_is_read_after_the_last_underscore() {
    assert_eq!(split_version_revision("1_2_3"), ("1_2".to_string(), 3));
    assert_eq!(split_version_revision("1.0_"), ("1.0".to_string(), 0));
    assert_eq!(split_version_revision("1.0_rc1"), ("1.0".to_string(), 0));
    assert_eq!(split_version_revision("_7"), ("".to_string(), 7));
    assert_eq!(split_version_revision(""), ("".to_string(), 0));
    assert_eq!(split_version_revision("1.0_4294967296"), ("1.0".to_string(), 0));
    assert_eq!(split_version_revision("é_1"), ("é".to_string(), 1));
}

#[test]
fn version_order_agrees_with_itself_on_samples() {
    let samples = [
        "", "1", "1.0", "1.0.0", "1.0_1", "1.0.1", "1.2", "1.10", "2", "3.2.4", "3.2.4_4",
        "3.2.5", "76.1", "76.1_2", "76.2", "x", "1.x_3",
    ];
    for a in samples {
        assert_eq!(compare_homebrew_versions(a, a), Ordering::Equal);
        for b in samples {
            let ab = compare_homebrew_versions(a, b);
            assert_eq!(compare_homebrew_versions(b, a), ab.reverse());
            for c in samples {
                let bc = compare_homebrew_versions(b, c);
                if ab != Ordering::Greater && bc != Ordering::Greater {
                    let ac = compare_homebrew_versions(a, c);
                    assert_ne!(ac, Ordering::Greater);
                    if ab == Ordering::Less || bc == Ordering::Less {
                        assert_eq!(ac, Ordering::Less);
                    }
                }
            }
        }
    }
}

#[test]
fn time_ago_wording() {
    assert_eq!(format_time_ago(0), "just now");
    assert_eq!(format_time_ago(59), "just now");
    assert_eq!(format_time_ago(60), "1 minute ago");
    assert_eq!(format_time_ago(119), "1 minute ago");
    assert_eq!(format_time_ago(120), "2 minutes ago");
    assert_eq!(format_time_ago(3599), "59 minutes ago");
    assert_eq!(format_time_ago(3600), "1 hour ago");
    assert_eq!(format_time_ago(7200), "2 hours ago");
    assert_eq!(format_time_ago(86399), "23 hours ago");
    assert_eq!(format_time_ago(86400), "1 day ago");
    assert_eq!(format_time_ago(6 * 86400), "6 days ago");
    assert_eq!(format_time_ago(7 * 86400), "1 week ago");
    assert_eq!(format_time_ago(29 * 86400), "4 weeks ago");
    assert_eq!(format_time_ago(30 * 86400), "1 month ago");
    assert_eq!(format_time_ago(364 * 86400), "12 months ago");
    assert_eq!(format_time_ago(365 * 86400), "1 year ago");
    assert_eq!(format_time_ago(730 * 86400), "2 years ago");
    assert_eq!(format_time_ago(u64::MAX), "584942417355 years ago");
}

#[test]
fn revision_is_read_as_the_standard_library_reads_a_u32() {
    let pieces = [
        "", "0", "7", "007", "+7", "-7", "+", "-", "+0", "-0", "++1", "+-1", "4294967295",
        "4294967296", "04294967295", "99999999999999999999", "1a", "a1", " 1", "1 ", "1.5",
        "0x10", "1e3", "٣", "１", "1\u{0}", "+4294967295", "+4294967296",
    ];
    for piece in pieces {
        let version = format!("1.0_{}", piece);
        let expected = piece.parse::<u32>().unwrap_or(0);
        assert_eq!(split_version_revision(&version), ("1.0".to_string(), expected), "{:?}", piece);
    }
}

#[test]
fn base_is_compared_as_the_standard_library_splits_and_reads_it() {
    let bases = [
        "", ".", "..", "1", "1.", ".1", "1..2", "1.2.3", "1.+2.3", "1.-2.3", "1.x.3", "10.0",
        "9.99", "4294967295.1", "4294967296.1", "0.0.0.1", "1 .2", "٣.1",
    ];
    fn parts(base: &str) -> Vec<u32> {
        base.split('.').filter_map(|s| s.parse().ok()).collect()
    }
    fn padded(parts: &[u32], len: usize) -> Vec<u32> {
        let mut padded = parts.to_vec();
        padded.resize(len, 0);
        padded
    }
    for a in bases {
        for b in bases {
            let (pa, pb) = (parts(a), parts(b));
            let len = pa.len().max(pb.len());
            let expected = padded(&pa, len).cmp(&padded(&pb, len));
            assert_eq!(compare_version_strings(a, b), expected, "{:?} and {:?}", a, b);
        }
    }
}
