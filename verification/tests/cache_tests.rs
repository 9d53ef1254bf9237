use astra::cache::{apply_directory_cache, distinct_directories, get_dir_mtime, DirectoryState};
use astra::discovery::DiscoveredImage;

fn image(directory: &str, name: &str) -> DiscoveredImage {
    DiscoveredImage {
        base_name: name.to_string(),
        directory: directory.to_string(),
        fits_path: Some(format!("{}/{}.fit", directory, name)),
        jpeg_path: None,
        is_stacked: false,
    }
}

fn state(path: &str, modified: Option<i64>, cached: Option<i64>) -> DirectoryState {
    DirectoryState { path: path.to_string(), modified, cached }
}

#[test]
fn modification_time_is_stored_as_signed_seconds() {
    assert_eq!(get_dir_mtime(None), None);
    assert_eq!(get_dir_mtime(Some(0)), Some(0));
    assert_eq!(get_dir_mtime(Some(1_700_000_000)), Some(1_700_000_000));
    assert_eq!(get_dir_mtime(Some(i64::MAX as u64)), Some(i64::MAX));
    assert_eq!(get_dir_mtime(Some(i64::MAX as u64 + 1)), Some(i64::MIN));
    assert_eq!(get_dir_mtime(Some(u64::MAX)), Some(-1));
}

#[test]
fn directories_are_listed_once_in_order_of_first_occurrence() {
    let images = vec![image("/b", "1"), image("/a", "1"), image("/b", "2"), image("/c", "1"), image("/a", "2")];
    assert_eq!(distinct_directories(&images), vec!["/b", "/a", "/c"]);
    assert!(distinct_directories(&Vec::new()).is_empty());
}

#[test]
fn an_unchanged_tree_is_skipped_as_a_whole() {
    let images = vec![image("/a", "1"), image("/a", "2"), image("/b", "1")];
    let states = vec![state("/a", Some(100), Some(100)), state("/b", Some(200), Some(200))];
    let decision = apply_directory_cache(images, &states);
    assert!(decision.kept.is_empty());
    assert_eq!(decision.skipped, 3);
    assert_eq!(decision.unchanged, vec!["/a", "/b"]);
    assert!(decision.changed.is_empty());
}

#[test]
fn a_changed_directory_is_scanned_again_as_a_whole() {
    let images = vec![image("/a", "1"), image("/b", "1"), image("/a", "2"), image("/a", "new")];
    let states = vec![state("/a", Some(101), Some(100)), state("/b", Some(200), Some(200))];
    let decision = apply_directory_cache(images, &states);
    let kept: Vec<&str> = decision.kept.iter().map(|i| i.base_name.as_str()).collect();
    assert_eq!(kept, vec!["1", "2", "new"]);
    assert!(decision.kept.iter().all(|i| i.directory == "/a"));
    assert_eq!(decision.skipped, 1);
    assert_eq!(decision.changed, vec![("/a".to_string(), 101)]);
    assert_eq!(decision.unchanged, vec!["/b"]);
}

#[test]
fn a_directory_without_record_is_scanned() {
    let images = vec![image("/a", "1"), image("/never-listed", "1")];
    let states = vec![state("/a", Some(5), None)];
    let decision = apply_directory_cache(images, &states);
    assert_eq!(decision.kept.len(), 2);
    assert_eq!(decision.skipped, 0);
    assert_eq!(
        decision.changed,
        vec![("/a".to_string(), 5), ("/never-listed".to_string(), 0)]
    );
}

#[test]
fn an_unreadable_modification_time_counts_as_zero() {
    let images = vec![image("/a", "1"), image("/b", "1")];
    let states = vec![state("/a", None, Some(0)), state("/b", None, Some(7))];
    let decision = apply_directory_cache(images, &states);
    assert_eq!(decision.skipped, 1);
    assert_eq!(decision.unchanged, vec!["/a"]);
    assert_eq!(decision.changed, vec![("/b".to_string(), 0)]);
}

#[test]
fn the_last_state_of_a_directory_counts() {
    let images = vec![image("/a", "1")];
    let states = vec![state("/a", Some(1), Some(1)), state("/a", Some(2), Some(1))];
    let decision = apply_directory_cache(images, &states);
    assert_eq!(decision.kept.len(), 1);
    assert_eq!(decision.changed, vec![("/a".to_string(), 2)]);
}

#[test]
fn what_a_scan_records_makes_the_next_scan_skip() {
    let first = apply_directory_cache(
        vec![image("/a", "1"), image("/a", "2")],
        &vec![state("/a", Some(1234), None)],
    );
    assert_eq!(first.kept.len(), 2);
    let recorded = first.changed[0].1;
    let second = apply_directory_cache(
        vec![image("/a", "1"), image("/a", "2")],
        &vec![state("/a", Some(1234), Some(recorded))],
    );
    assert!(second.kept.is_empty());
    assert_eq!(second.skipped, 2);
    let third = apply_directory_cache(
        vec![image("/a", "1"), image("/a", "2"), image("/a", "3")],
        &vec![state("/a", Some(1300), Some(recorded))],
    );
    assert_eq!(third.kept.len(), 3);
    assert_eq!(third.skipped, 0);
}
