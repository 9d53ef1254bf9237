use astra::cache::{apply_directory_cache, distinct_directories, DirectoryState};
use astra::dedup::{partition_duplicates, DedupIndex};
use astra::discovery::{DiscoveredImage, FileEntry};
use astra::header::{HeaderCard, HeaderValue};
use astra::metadata::{parse_fits_metadata, FitsMetadata};
use astra::process::{batch_bounds, process_single_image, ProcessedImage};
use astra::progress::{walk_progress, ScanProgress};
use astra::records::{new_membership, NewCollection, NewCollectionImage, NewImage};
use astra::scan::{
    scanning_report, BulkScanInput, BulkScanResult, ItemKind, ItemPlan, LookupOutcome,
    Placement, Resolution, ScanRun, TaskOutcome,
};
use astra::session::SessionKey;
use astra::walker::scan_directory_with_progress;

/// A catalogue kept in memory.
struct Store {
    collections: Vec<NewCollection>,
    images: Vec<NewImage>,
    memberships: Vec<NewCollectionImage>,
    directories: Vec<(String, i64)>,
    fail_create_collection: bool,
    fail_create_image: bool,
    fail_link: bool,
    lookups: usize,
}

impl Store {
    fn empty() -> Store {
        Store {
            collections: Vec::new(),
            images: Vec::new(),
            memberships: Vec::new(),
            directories: Vec::new(),
            fail_create_collection: false,
            fail_create_image: false,
            fail_link: false,
            lookups: 0,
        }
    }

    fn index(&self) -> DedupIndex {
        let paths: Vec<String> = self.images.iter().filter_map(|i| i.url.clone()).collect();
        let images: Vec<(String, String)> =
            self.images.iter().filter_map(|i| i.url.clone().map(|u| (u, i.id.clone()))).collect();
        let links: Vec<(String, String)> =
            self.memberships.iter().map(|m| (m.collection_id.clone(), m.image_id.clone())).collect();
        DedupIndex::build(&paths, &images, &links)
    }

    fn lookup(&mut self, name: &str) -> LookupOutcome {
        self.lookups += 1;
        match self.collections.iter().find(|c| c.name == name) {
            Some(c) => LookupOutcome::Found(c.id.clone()),
            None => LookupOutcome::Missing,
        }
    }

    fn link(&mut self, link: NewCollectionImage) -> Result<(), String> {
        if self.fail_link {
            return Err("locked".to_string());
        }
        self.memberships.push(link);
        Ok(())
    }
}

fn card(key: &str, text: &str) -> HeaderCard {
    HeaderCard {
        key: key.to_string(),
        raw: format!("Some(CharacterString({:?}))", text),
        value: Some(HeaderValue::Text(text.to_string())),
    }
}

fn raw_entry(directory: &str, name: &str) -> FileEntry {
    FileEntry {
        path: format!("{}/{}.fit", directory, name),
        parent: directory.to_string(),
        file_name: format!("{}.fit", name),
        stem: Some(name.to_string()),
        extension: Some("fit".to_string()),
        is_dir: false,
        is_file: true,
    }
}

fn processed(name: &str, object: Option<&str>, date_obs: Option<&str>) -> ProcessedImage {
    let mut cards = Vec::new();
    if let Some(o) = object {
        cards.push(card("OBJECT", o));
    }
    if let Some(d) = date_obs {
        cards.push(card("DATE-OBS", d));
    }
    let discovered = DiscoveredImage {
        base_name: name.to_string(),
        directory: "/data".to_string(),
        fits_path: Some(format!("/data/{}.fit", name)),
        jpeg_path: None,
        is_stacked: false,
    };
    process_single_image(discovered, Some(Ok(parse_fits_metadata(&cards))), None)
}

/// Writes one processed image, as a scan does.
fn write_item(
    run: &mut ScanRun,
    store: &mut Store,
    index: &DedupIndex,
    item: ProcessedImage,
    tags: &Option<String>,
) -> ScanProgress {
    let step = run.begin_item(&item);
    let collection_id = match step.plan {
        ItemPlan::Skip => return step.event,
        ItemPlan::Place { collection_id } => collection_id,
        ItemPlan::Resolve { key, name } => {
            let outcome = store.lookup(&name);
            match run.collection_looked_up(ItemKind::New, &key, outcome, "local-user", "/data", tags) {
                Resolution::Place { collection_id } => collection_id,
                Resolution::Abandon => return step.event,
                Resolution::Create { record, provenance } => {
                    assert_eq!(record.name, name);
                    assert!(provenance.auto_imported);
                    let outcome = if store.fail_create_collection {
                        Err("disk full".to_string())
                    } else {
                        let id = record.id.clone();
                        store.collections.push(record);
                        Ok(id)
                    };
                    match run.collection_created(ItemKind::New, &key, outcome) {
                        Some(id) => id,
                        None => return step.event,
                    }
                }
            }
        }
    };
    let metadata: &FitsMetadata = item.metadata.as_ref().unwrap();
    let placement = run.place_item(
        &item.discovered,
        metadata,
        item.thumbnail.clone(),
        Some("{}".to_string()),
        &collection_id,
        index,
        "local-user",
        tags,
    );
    match placement {
        Placement::Duplicate { link } => {
            if let Some(link) = link {
                let _ = store.link(link);
            }
        }
        Placement::Insert { image } => {
            if store.fail_create_image {
                run.image_insert_failed(&item.discovered.base_name, "constraint failed");
            } else {
                let link = new_membership(&collection_id, &image.id);
                store.images.push(image);
                match store.link(link) {
                    Ok(()) => run.image_inserted(None),
                    Err(e) => run.image_inserted(Some(&e)),
                }
            }
        }
    }
    step.event
}

fn write_all(store: &mut Store, items: Vec<ProcessedImage>) -> BulkScanResult {
    let index = store.index();
    let mut run = ScanRun::begin();
    let total = items.len();
    assert!(run.discovered(total).proceed);
    assert!(run.duplicates_filtered(total, 0, false).proceed);
    for item in items {
        write_item(&mut run, store, &index, item, &None);
    }
    run.finish()
}

#[test]
fn three_raw_files_of_two_sessions() {
    let entries = vec![
        raw_entry("/data", "Light_M42_1"),
        raw_entry("/data", "Light_M42_2"),
        raw_entry("/data", "Light_unknown"),
    ];
    let input = BulkScanInput {
        directory: "/data".to_string(),
        tags: None,
        stacked_only: false,
        max_files: None,
    };
    let mut store = Store::empty();
    let mut run = ScanRun::begin();
    let found = scan_directory_with_progress(&entries, input.stacked_only, input.max_files, &Vec::new()).images;
    assert!(run.discovered(found.len()).proceed);
    let states: Vec<DirectoryState> = distinct_directories(&found)
        .into_iter()
        .map(|path| DirectoryState { path, modified: Some(1000), cached: None })
        .collect();
    let decision = apply_directory_cache(found, &states);
    assert!(run
        .cache_checked(decision.kept.len(), decision.changed.len(), decision.skipped, decision.unchanged.len(), false)
        .proceed);
    let index = store.index();
    let split = partition_duplicates(decision.kept, &index);
    assert!(run.duplicates_filtered(split.new_images.len(), split.duplicate_images.len(), false).proceed);
    assert_eq!(run.batches(), 1);
    assert_eq!(batch_bounds(split.new_images.len(), 0), (0, 3));
    assert!(run.batch_started(0, 3, false).proceed);
    let headers = [
        vec![card("OBJECT", "M42"), card("DATE-OBS", "2024-01-14T23:00:00")],
        vec![card("OBJECT", "M42"), card("DATE-OBS", "2024-01-15T01:30:00")],
        vec![card("OBJECT", "M31")],
    ];
    for (image, cards) in split.new_images.into_iter().zip(headers.iter()) {
        let item = process_single_image(image, Some(Ok(parse_fits_metadata(cards))), None);
        write_item(&mut run, &mut store, &index, item, &input.tags);
    }
    for (path, mtime) in &decision.changed {
        store.directories.push((path.clone(), *mtime));
    }
    let result = run.finish();
    assert_eq!(result.images_imported, 3);
    assert_eq!(result.collections_created, 2);
    assert_eq!(result.images_skipped, 0);
    assert!(result.errors.is_empty());
    let mut names: Vec<&str> = store.collections.iter().map(|c| c.name.as_str()).collect();
    names.sort();
    assert_eq!(names, vec!["2024-01-14", "Unknown Session"]);
    assert_eq!(store.images.len(), 3);
    assert_eq!(store.memberships.len(), 3);
    let dated = store.collections.iter().find(|c| c.name == "2024-01-14").unwrap();
    let in_dated = store.memberships.iter().filter(|m| m.collection_id == dated.id).count();
    assert_eq!(in_dated, 2);
    assert_eq!(store.directories, vec![("/data".to_string(), 1000)]);
    assert_eq!(store.lookups, 2);
}

#[test]
fn two_frames_of_one_night_share_one_collection() {
    let mut store = Store::empty();
    let result = write_all(
        &mut store,
        vec![
            processed("a", Some("M42"), Some("2024-01-14T23:00:00")),
            processed("b", Some("M31"), Some("2024-01-15T01:00:00")),
        ],
    );
    assert_eq!(result.collections_created, 1);
    assert_eq!(result.images_imported, 2);
    assert_eq!(store.collections.len(), 1);
    assert_eq!(store.collections[0].name, "2024-01-14");
    assert!(store.memberships.iter().all(|m| m.collection_id == store.collections[0].id));
    assert_eq!(store.lookups, 1);
}

#[test]
fn frames_of_two_nights_get_two_collections() {
    let mut store = Store::empty();
    let result = write_all(
        &mut store,
        vec![
            processed("a", None, Some("2024-01-14T23:00:00")),
            processed("b", None, Some("2024-01-15T12:00:00")),
        ],
    );
    assert_eq!(result.collections_created, 2);
    assert_eq!(store.collections.len(), 2);
}

#[test]
fn the_unknown_session_is_created_once_over_two_scans() {
    let mut store = Store::empty();
    let first = write_all(&mut store, vec![processed("a", None, None), processed("b", None, Some("garbage"))]);
    assert_eq!(first.collections_created, 1);
    assert_eq!(first.images_imported, 2);
    store.images.clear();
    let second = write_all(&mut store, vec![processed("c", None, None)]);
    assert_eq!(second.collections_created, 0);
    assert_eq!(second.images_imported, 1);
    let unknown: Vec<&NewCollection> =
        store.collections.iter().filter(|c| c.name == "Unknown Session").collect();
    assert_eq!(unknown.len(), 1);
    assert!(store.memberships.iter().all(|m| m.collection_id == unknown[0].id));
}

#[test]
fn a_duplicate_is_skipped_and_linked_once() {
    let mut store = Store::empty();
    let first = write_all(&mut store, vec![processed("a", None, Some("2024-01-14T23:00:00"))]);
    assert_eq!(first.images_imported, 1);
    let image_id = store.images[0].id.clone();
    store.memberships.clear();

    let second = write_all(&mut store, vec![processed("a", None, Some("2024-01-14T23:00:00"))]);
    assert_eq!(second.images_imported, 0);
    assert_eq!(second.images_skipped, 1);
    assert_eq!(second.collections_created, 0);
    assert_eq!(store.images.len(), 1);
    assert_eq!(store.memberships.len(), 1);
    assert_eq!(store.memberships[0].image_id, image_id);
    assert_eq!(store.memberships[0].collection_id, store.collections[0].id);

    let third = write_all(&mut store, vec![processed("a", None, Some("2024-01-14T23:00:00"))]);
    assert_eq!(third.images_skipped, 1);
    assert_eq!(store.images.len(), 1);
    assert_eq!(store.memberships.len(), 1);
}

#[test]
fn images_that_cannot_be_written_are_skipped_with_their_error() {
    let mut store = Store::empty();
    let broken = process_single_image(
        DiscoveredImage {
            base_name: "bad".to_string(),
            directory: "/data".to_string(),
            fits_path: Some("/data/bad.fit".to_string()),
            jpeg_path: None,
            is_stacked: false,
        },
        Some(Err("truncated".to_string())),
        None,
    );
    let preview_only = process_single_image(
        DiscoveredImage {
            base_name: "only".to_string(),
            directory: "/data".to_string(),
            fits_path: None,
            jpeg_path: Some("/data/only.jpg".to_string()),
            is_stacked: false,
        },
        None,
        Some(Ok("data:thumb".to_string())),
    );
    let result = write_all(&mut store, vec![broken, preview_only, processed("good", None, None)]);
    assert_eq!(result.images_imported, 1);
    assert_eq!(result.images_skipped, 2);
    assert_eq!(result.errors, vec!["Failed to parse /data/bad.fit: truncated"]);
    assert_eq!(store.images.len(), 1);
}

#[test]
fn a_failed_lookup_skips_the_image() {
    let mut run = ScanRun::begin();
    let item = processed("a", None, None);
    let step = run.begin_item(&item);
    assert!(matches!(&step.plan, ItemPlan::Resolve { key: SessionKey::Unknown, name } if name == "Unknown Session"));
    let r = run.collection_looked_up(
        ItemKind::New,
        &SessionKey::Unknown,
        LookupOutcome::Failed("database is locked".to_string()),
        "u",
        "/data",
        &None,
    );
    assert!(matches!(r, Resolution::Abandon));
    let result = run.finish();
    assert_eq!(result.errors, vec!["Failed to check for existing collection: database is locked"]);
    assert_eq!((result.images_imported, result.images_skipped, result.collections_created), (0, 1, 0));
}

#[test]
fn a_collection_that_cannot_be_created_is_tried_again_for_the_next_image() {
    let mut store = Store::empty();
    store.fail_create_collection = true;
    let result = write_all(&mut store, vec![processed("a", None, None), processed("b", None, None)]);
    assert_eq!(result.collections_created, 0);
    assert_eq!(result.images_imported, 0);
    assert_eq!(result.images_skipped, 2);
    assert_eq!(
        result.errors,
        vec!["Failed to create collection: disk full", "Failed to create collection: disk full"]
    );
    assert_eq!(store.lookups, 2);
}

#[test]
fn an_image_that_cannot_be_inserted_is_skipped() {
    let mut store = Store::empty();
    store.fail_create_image = true;
    let result = write_all(&mut store, vec![processed("a", None, None)]);
    assert_eq!(result.images_imported, 0);
    assert_eq!(result.images_skipped, 1);
    assert_eq!(result.collections_created, 1);
    assert_eq!(result.errors, vec!["Failed to create image a: constraint failed"]);
}

#[test]
fn an_image_counts_as_imported_where_only_the_link_failed() {
    let mut store = Store::empty();
    store.fail_link = true;
    let result = write_all(&mut store, vec![processed("a", None, None)]);
    assert_eq!(result.images_imported, 1);
    assert_eq!(result.errors, vec!["Failed to add image to collection: locked"]);
}

#[test]
fn a_cancelled_scan_keeps_what_it_counted() {
    let mut store = Store::empty();
    let index = store.index();
    let mut run = ScanRun::begin();
    run.discovered(250);
    run.duplicates_filtered(240, 10, false);
    assert_eq!(run.batches(), 3);
    assert!(run.batch_started(0, 100, false).proceed);
    for i in 0..3 {
        write_item(&mut run, &mut store, &index, processed(&format!("i{}", i), None, None), &None);
    }
    let stop = run.batch_started(1, 100, true);
    assert!(!stop.proceed);
    assert_eq!(stop.events.len(), 1);
    let report = &stop.events[0];
    assert!(report.cancelled);
    assert_eq!(report.current_file, "Cancelled");
    assert_eq!((report.current, report.total, report.percent, report.skipped), (13, 250, 5, 10));
    assert_eq!(run.images_imported(), 3);
    let result = run.finish();
    assert_eq!(result.images_imported, 3);
    assert_eq!(result.images_skipped, 10);
    assert_eq!(result.collections_created, 1);
    assert_eq!(store.images.len(), 3);
    assert_eq!(store.memberships.len(), 3);
}

#[test]
fn a_scan_that_finds_nothing_ends_at_once() {
    let mut run = ScanRun::begin();
    let step = run.discovered(0);
    assert!(!step.proceed);
    assert_eq!(step.events.len(), 1);
    assert_eq!(step.events[0].current_file, "No images found");
    assert_eq!((step.events[0].current, step.events[0].total, step.events[0].percent), (0, 0, 100));
    let result = run.finish();
    assert_eq!((result.images_imported, result.images_skipped, result.collections_created), (0, 0, 0));
}

#[test]
fn a_scan_of_an_unchanged_tree_imports_nothing() {
    let found = vec![
        DiscoveredImage {
            base_name: "a".to_string(),
            directory: "/data".to_string(),
            fits_path: Some("/data/a.fit".to_string()),
            jpeg_path: None,
            is_stacked: false,
        },
        DiscoveredImage {
            base_name: "b".to_string(),
            directory: "/data".to_string(),
            fits_path: Some("/data/b.fit".to_string()),
            jpeg_path: None,
            is_stacked: false,
        },
    ];
    let states = vec![DirectoryState { path: "/data".to_string(), modified: Some(7), cached: Some(7) }];
    let mut run = ScanRun::begin();
    assert!(run.discovered(found.len()).proceed);
    let decision = apply_directory_cache(found, &states);
    let step = run.cache_checked(
        decision.kept.len(),
        decision.changed.len(),
        decision.skipped,
        decision.unchanged.len(),
        false,
    );
    assert!(!step.proceed);
    assert_eq!(step.events.len(), 2);
    assert_eq!(
        step.events[0].current_file,
        "Found 0 images in 0 changed directories (2 skipped from 1 unchanged)"
    );
    assert_eq!(step.events[1].current_file, "All 1 directories unchanged since last scan");
    assert_eq!((step.events[1].current, step.events[1].total, step.events[1].percent), (2, 2, 100));
    assert_eq!(step.events[1].skipped, 2);
    let result = run.finish();
    assert_eq!(result.images_imported, 0);
    assert_eq!(result.images_skipped, 2);
}

#[test]
fn reports_of_the_steps_before_the_batches() {
    let start = scanning_report("/data");
    assert_eq!(start.current_file, "Scanning: /data...");
    assert_eq!((start.current, start.total, start.percent, start.skipped, start.cancelled), (0, 0, 0, 0, false));
    assert_eq!(walk_progress(150, 42).current_file, "Scanned 150 files, found 42 images...");

    let mut run = ScanRun::begin();
    let step = run.discovered(40);
    assert_eq!(step.events[0].current_file, "Checking directory cache...");
    assert_eq!(step.events[0].total, 40);

    let step = run.cache_checked(40, 3, 0, 0, false);
    assert!(step.proceed);
    assert_eq!(step.events[0].current_file, "Found 40 images, loading database...");
    assert_eq!(step.events[1].current_file, "Loading database (40 images to check)...");
    assert_eq!(run.images_skipped(), 0);

    let step = run.existing_loaded(1234, false);
    assert!(step.proceed);
    assert_eq!(step.events[0].current_file, "Loaded 1234 existing image records...");
    assert!(!run.existing_loaded(0, true).proceed);

    let step = run.index_loaded(false);
    assert!(step.proceed);
    assert_eq!(step.events[0].current_file, "Checking for duplicates...");
    assert!(!run.index_loaded(true).proceed);

    let step = run.duplicates_filtered(30, 10, false);
    assert!(step.proceed);
    assert_eq!(step.events.len(), 1);
    assert_eq!(step.events[0].current_file, "Found 30 new images (10 duplicates skipped)");
    assert_eq!(step.events[0].skipped, 10);
    assert_eq!(run.images_skipped(), 10);

    let step = run.batch_started(0, 30, false);
    assert_eq!(step.events[0].current_file, "Processing batch 1/1 (30 images)...");
    assert_eq!((step.events[0].current, step.events[0].total, step.events[0].percent), (10, 40, 25));

    let item = run.begin_item(&processed("first", None, None));
    assert_eq!(item.event.current_file, "first");
    assert_eq!((item.event.current, item.event.percent, item.event.skipped), (11, 27, 10));

    let update = run.cache_update_started(3).unwrap();
    assert_eq!(update.current_file, "Updating cache for 3 directories...");
    assert_eq!((update.current, update.total, update.percent), (40, 40, 99));
    assert!(run.cache_update_started(0).is_none());
}

#[test]
fn images_skipped_by_the_cache_and_duplicates_add_up() {
    let mut run = ScanRun::begin();
    run.discovered(10);
    let step = run.cache_checked(6, 1, 4, 1, false);
    assert!(step.proceed);
    assert_eq!(step.events[0].current_file, "Found 6 images in 1 changed directories (4 skipped from 1 unchanged)");
    assert_eq!(run.images_skipped(), 4);
    let step = run.duplicates_filtered(5, 1, false);
    assert_eq!(step.events[0].skipped, 1);
    assert_eq!(run.images_skipped(), 5);
}

#[test]
fn every_image_found_is_counted_once() {
    let mut store = Store::empty();
    store.fail_create_image = false;
    let index = store.index();
    let mut run = ScanRun::begin();
    run.discovered(9);
    run.cache_checked(7, 1, 2, 1, false);
    run.duplicates_filtered(4, 3, false);
    run.batch_started(0, 4, false);
    let broken = process_single_image(
        DiscoveredImage {
            base_name: "bad".to_string(),
            directory: "/data".to_string(),
            fits_path: Some("/data/bad.fit".to_string()),
            jpeg_path: None,
            is_stacked: false,
        },
        Some(Err("truncated".to_string())),
        None,
    );
    write_item(&mut run, &mut store, &index, processed("a", None, None), &None);
    write_item(&mut run, &mut store, &index, broken, &None);
    store.fail_create_image = true;
    write_item(&mut run, &mut store, &index, processed("b", None, None), &None);
    store.fail_create_image = false;
    write_item(&mut run, &mut store, &index, processed("c", None, Some("2024-01-14T23:00:00")), &None);
    let result = run.finish();
    assert_eq!(result.images_imported, 2);
    assert_eq!(result.images_skipped, 7);
    assert_eq!(result.images_imported + result.images_skipped, 9);
    assert_eq!(result.errors.len(), 2);
}

#[test]
fn a_duplicate_set_apart_by_the_filter_is_linked_once() {
    let mut store = Store::empty();
    let first = write_all(&mut store, vec![processed("a", None, Some("2024-01-14T23:00:00"))]);
    assert_eq!(first.images_imported, 1);
    let image_id = store.images[0].id.clone();
    let collection_id = store.collections[0].id.clone();
    store.memberships.clear();

    let mut index = store.index();
    let mut run = ScanRun::begin();
    run.discovered(1);
    run.duplicates_filtered(0, 1, false);
    let duplicate = processed("a", None, None).discovered;
    let stored_date = Some("2024-01-14T23:00:00".to_string());
    let plan = run.plan_duplicate(&stored_date);
    let (key, name) = match plan {
        ItemPlan::Resolve { key, name } => (key, name),
        _ => panic!("the collection is not known yet"),
    };
    assert_eq!(name, "2024-01-14");
    let outcome = store.lookup(&name);
    let placed = run.collection_looked_up(ItemKind::Duplicate, &key, outcome, "u", "/data", &None);
    assert!(matches!(&placed, Resolution::Place { collection_id: id } if *id == collection_id));
    assert!(matches!(run.plan_duplicate(&stored_date), ItemPlan::Place { collection_id: id } if id == collection_id));

    let link = run.link_duplicate(&duplicate, &collection_id, &index).unwrap();
    assert_eq!((link.collection_id.as_str(), link.image_id.as_str()), (collection_id.as_str(), image_id.as_str()));
    index.add_membership(link.collection_id.clone(), link.image_id.clone());
    store.memberships.push(link);
    assert!(run.link_duplicate(&duplicate, &collection_id, &index).is_none());

    let result = run.finish();
    assert_eq!((result.images_imported, result.images_skipped, result.collections_created), (0, 1, 0));
    assert_eq!(store.images.len(), 1);
    assert_eq!(store.memberships.len(), 1);
}

#[test]
fn a_duplicate_whose_collection_cannot_be_found_is_not_skipped_again() {
    let mut run = ScanRun::begin();
    run.discovered(1);
    run.duplicates_filtered(0, 1, false);
    let r = run.collection_looked_up(
        ItemKind::Duplicate,
        &SessionKey::Unknown,
        LookupOutcome::Failed("locked".to_string()),
        "u",
        "/data",
        &None,
    );
    assert!(matches!(r, Resolution::Abandon));
    assert!(run.collection_created(ItemKind::Duplicate, &SessionKey::Unknown, Err("full".to_string())).is_none());
    let result = run.finish();
    assert_eq!(result.images_skipped, 1);
    assert_eq!(result.errors.len(), 2);
}

#[test]
fn results_of_tasks_are_taken_or_dropped() {
    assert!(ScanRun::goes_on(false));
    assert!(!ScanRun::goes_on(true));
    let mut run = ScanRun::begin();
    let taken = run.take_result(TaskOutcome::Finished(processed("a", None, None)));
    assert_eq!(taken.unwrap().discovered.base_name, "a");
    assert!(run.take_result(TaskOutcome::CalledOff).is_none());
    assert!(run.take_result(TaskOutcome::Failed("worker died".to_string())).is_none());
    let result = run.finish();
    assert_eq!(result.images_skipped, 1);
    assert_eq!(result.errors, vec!["Task failed: worker died"]);
}

#[test]
fn a_scan_with_only_duplicates_ends_after_the_filter() {
    let mut run = ScanRun::begin();
    run.discovered(5);
    let step = run.duplicates_filtered(0, 5, false);
    assert!(!step.proceed);
    assert_eq!(step.events.len(), 2);
    assert_eq!(step.events[1].current_file, "All images already exist");
    assert_eq!((step.events[1].current, step.events[1].percent, step.events[1].skipped), (5, 100, 5));
    assert_eq!(run.finish().images_skipped, 5);
}

#[test]
fn a_scan_cancelled_after_the_filter_says_so() {
    let mut run = ScanRun::begin();
    run.discovered(5);
    let step = run.duplicates_filtered(3, 2, true);
    assert!(!step.proceed);
    assert_eq!(step.events.len(), 2);
    assert!(step.events[1].cancelled);
    assert_eq!(step.events[1].current_file, "Cancelled");
    assert_eq!((step.events[1].current, step.events[1].percent, step.events[1].skipped), (0, 0, 2));
    let silent = ScanRun::begin().cache_checked(3, 1, 0, 0, true);
    assert!(!silent.proceed);
    assert!(silent.events.iter().all(|e| !e.cancelled));
}

#[test]
fn a_task_that_failed_is_counted_as_skipped() {
    let mut run = ScanRun::begin();
    run.task_failed("join error");
    let result = run.finish();
    assert_eq!(result.images_skipped, 1);
    assert_eq!(result.errors, vec!["Task failed: join error"]);
}
