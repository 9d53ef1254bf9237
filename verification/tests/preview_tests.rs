use astra::collect::{
    get_sub_directory, goes_on, is_light_frame, is_light_frame_named, sub_directory_candidates,
    CollectProgress, CollectRawFilesResult, CopyOutcome, PathLevel, SeenDirectories,
};
use astra::discovery::{DiscoveredImage, FileEntry};
use astra::preview::{preview_bulk_scan, SAMPLE_LIMIT};

fn image(i: usize, fits: bool, jpeg: bool, stacked: bool) -> DiscoveredImage {
    DiscoveredImage {
        base_name: format!("img_{}", i),
        directory: "/d".to_string(),
        fits_path: if fits { Some(format!("/d/img_{}.fit", i)) } else { None },
        jpeg_path: if jpeg { Some(format!("/d/img_{}.jpg", i)) } else { None },
        is_stacked: stacked,
    }
}

fn level(path: &str, name: Option<&str>) -> PathLevel {
    PathLevel { path: path.to_string(), name: name.map(|n| n.to_string()) }
}

fn entry(name: &str, extension: Option<&str>, is_file: bool) -> FileEntry {
    FileEntry {
        path: format!("/t_sub/{}", name),
        parent: "/t_sub".to_string(),
        file_name: name.to_string(),
        stem: None,
        extension: extension.map(|e| e.to_string()),
        is_dir: !is_file,
        is_file,
    }
}

#[test]
fn preview_counts_the_images() {
    let images = vec![
        image(0, true, true, true),
        image(1, true, false, false),
        image(2, false, true, false),
        image(3, true, true, true),
    ];
    let preview = preview_bulk_scan(&images);
    assert_eq!(preview.total_images, 4);
    assert_eq!(preview.stacked_images, 2);
    assert_eq!(preview.raw_subframes, 2);
    assert_eq!(preview.with_fits, 3);
    assert_eq!(preview.with_jpeg, 3);
    assert_eq!(preview.sample_files.len(), 4);
    assert_eq!(preview.sample_files[1].name, "img_1");
    assert_eq!(preview.sample_files[1].directory, "/d");
    assert!(preview.sample_files[1].has_fits && !preview.sample_files[1].has_jpeg);
    assert!(!preview.sample_files[1].is_stacked && preview.sample_files[3].is_stacked);
}

#[test]
fn preview_samples_the_first_images() {
    let images: Vec<DiscoveredImage> = (0..25).map(|i| image(i, true, false, i % 2 == 0)).collect();
    let preview = preview_bulk_scan(&images);
    assert_eq!(preview.total_images, 25);
    assert_eq!(preview.stacked_images, 13);
    assert_eq!(preview.raw_subframes, 12);
    assert_eq!(preview.sample_files.len(), SAMPLE_LIMIT);
    assert_eq!(preview.sample_files[9].name, "img_9");
}

#[test]
fn preview_of_nothing() {
    let preview = preview_bulk_scan(&Vec::new());
    assert_eq!(preview.total_images, 0);
    assert_eq!(preview.stacked_images + preview.raw_subframes, 0);
    assert!(preview.sample_files.is_empty());
}

#[test]
fn subframes_lie_beside_the_target_directory() {
    let ancestors = vec![level("/data/M42", Some("M42")), level("/data", Some("data")), level("/", None)];
    let c = sub_directory_candidates(&ancestors).unwrap();
    assert_eq!(c.container, "/data");
    assert_eq!(c.sub_name, "M42_sub");
    assert_eq!(c.base, "/data/M42");
}

#[test]
fn a_directory_named_stacked_is_stepped_over() {
    let ancestors = vec![
        level("/data/M42/Stacked", Some("Stacked")),
        level("/data/M42", Some("M42")),
        level("/data", Some("data")),
        level("/", None),
    ];
    let c = sub_directory_candidates(&ancestors).unwrap();
    assert_eq!((c.container.as_str(), c.sub_name.as_str(), c.base.as_str()), ("/data", "M42_sub", "/data/M42"));
    let lower = vec![level("/data/M42/stacked", Some("stacked")), level("/data/M42", Some("M42"))];
    let c = sub_directory_candidates(&lower).unwrap();
    assert_eq!(c.sub_name, "stacked_sub");
}

#[test]
fn paths_without_enough_directories_have_no_candidates() {
    assert!(sub_directory_candidates(&Vec::new()).is_none());
    assert!(sub_directory_candidates(&vec![level("/", None)]).is_none());
    assert!(sub_directory_candidates(&vec![level("/data", Some("data"))]).is_none());
    assert!(sub_directory_candidates(&vec![level("/Stacked", Some("Stacked")), level("/", None)]).is_none());
    assert!(sub_directory_candidates(&vec![
        level("/Stacked", Some("Stacked")),
        level("/", None),
        level("", None)
    ])
    .is_none());
}

#[test]
fn the_directory_that_exists_is_chosen() {
    let pick = |s, l| get_sub_directory("/data/M42_sub".to_string(), "/data/M42/Light".to_string(), s, l);
    assert_eq!(pick(true, true), "/data/M42_sub");
    assert_eq!(pick(true, false), "/data/M42_sub");
    assert_eq!(pick(false, true), "/data/M42/Light");
    assert_eq!(pick(false, false), "/data/M42_sub");
}

#[test]
fn light_frames_are_told_by_name_and_extension() {
    assert!(is_light_frame(&entry("Light_M42_1.fit", Some("fit"), true)));
    assert!(is_light_frame(&entry("LIGHT_M42_1.FITS", Some("FITS"), true)));
    assert!(!is_light_frame(&entry("Light_M42_1.jpg", Some("jpg"), true)));
    assert!(!is_light_frame(&entry("LightM42.fit", Some("fit"), true)));
    assert!(!is_light_frame(&entry("Stacked_M42.fit", Some("fit"), true)));
    assert!(!is_light_frame(&entry("Light_M42", None, true)));
    assert!(!is_light_frame(&entry("Light_M42.fit", Some("fit"), false)));
}

#[test]
fn copying_is_counted() {
    let mut result = CollectRawFilesResult::new();
    result.file_copied(2_500_000);
    result.file_copied(700_000);
    result.file_skipped();
    result.copy_failed("Light_3.fit", "disk full");
    assert_eq!(result.files_copied, 2);
    assert_eq!(result.files_skipped, 2);
    assert_eq!(result.bytes_copied, 3_200_000);
    assert_eq!(result.errors, vec!["Failed to copy Light_3.fit: disk full"]);
    let done = CollectProgress::complete(4, &result);
    assert_eq!(done.current_file, "Copied 2 files (3 MB)");
    assert_eq!((done.current, done.total, done.percent), (4, 4, 100));
    assert_eq!(done.phase, "complete");
    result.file_copied(u64::MAX);
    assert_eq!(result.bytes_copied, u64::MAX);
}

#[test]
fn reports_of_gathering_subframes() {
    let start = CollectProgress::scanning();
    assert_eq!(start.current_file, "Scanning for subframes...");
    assert_eq!(start.phase, "scanning");
    let none = CollectProgress::found(0);
    assert_eq!((none.current_file.as_str(), none.percent, none.phase.as_str()), ("No subframe files found", 100, "complete"));
    let some = CollectProgress::found(12);
    assert_eq!((some.current_file.as_str(), some.total, some.percent, some.phase.as_str()), ("Found 12 files to copy", 12, 0, "copying"));
    let at = CollectProgress::at_file(2, 12, "Light_3.fit", false);
    assert_eq!((at.current, at.percent, at.current_file.as_str(), at.cancelled), (3, 25, "Light_3.fit", false));
    assert_eq!(at.phase, "copying");
    let stop = CollectProgress::at_file(2, 12, "Light_3.fit", true);
    assert_eq!((stop.current, stop.percent, stop.current_file.as_str(), stop.cancelled), (2, 16, "Cancelled", true));
    assert_eq!(stop.phase, "cancelled");
}

#[test]
fn light_frames_are_told_by_their_lowered_names() {
    let fit = Some("fit".to_string());
    assert!(is_light_frame_named(true, "light_m42_1.fit", &fit));
    assert!(is_light_frame_named(true, "light_", &Some("fits".to_string())));
    assert!(!is_light_frame_named(false, "light_m42_1.fit", &fit));
    assert!(!is_light_frame_named(true, "Light_m42_1.fit", &fit));
    assert!(!is_light_frame_named(true, "light_m42_1.fit", &Some("FIT".to_string())));
    assert!(!is_light_frame_named(true, "light_m42_1.jpg", &Some("jpg".to_string())));
    assert!(!is_light_frame_named(true, "light_m42_1", &None));
}

#[test]
fn each_file_is_taken_in_by_what_became_of_it() {
    let mut result = CollectRawFilesResult::new();
    result.file_done("Light_1.fit", CopyOutcome::Copied(1_500_000));
    result.file_done("Light_2.fit", CopyOutcome::Exists);
    result.file_done("Light_3.fit", CopyOutcome::Failed("disk full".to_string()));
    result.file_done("Light_4.fit", CopyOutcome::Copied(500_000));
    assert_eq!((result.files_copied, result.files_skipped, result.bytes_copied), (2, 2, 2_000_000));
    assert_eq!(result.errors, vec!["Failed to copy Light_3.fit: disk full"]);
}

#[test]
fn a_directory_is_searched_once() {
    let mut seen = SeenDirectories::new();
    assert!(seen.take("/data/M42_sub"));
    assert!(!seen.take("/data/M42_sub"));
    assert!(seen.take("/data/M31_sub"));
    assert!(!seen.take("/data/M42_sub"));
    assert!(goes_on(false));
    assert!(!goes_on(true));
}
