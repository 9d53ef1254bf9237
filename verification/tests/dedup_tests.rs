use astra::dedup::{
    membership_to_add, partition_duplicates, storage_path, DedupIndex, Memberships,
};
use astra::discovery::DiscoveredImage;

fn image(name: &str, fits: bool, jpeg: bool) -> DiscoveredImage {
    DiscoveredImage {
        base_name: name.to_string(),
        directory: "/d".to_string(),
        fits_path: if fits { Some(format!("/d/{}.fit", name)) } else { None },
        jpeg_path: if jpeg { Some(format!("/d/{}.jpg", name)) } else { None },
        is_stacked: false,
    }
}

fn strings(items: &[&str]) -> Vec<String> {
    items.iter().map(|s| s.to_string()).collect()
}

fn pairs(items: &[(&str, &str)]) -> Vec<(String, String)> {
    items.iter().map(|(a, b)| (a.to_string(), b.to_string())).collect()
}

#[test]
fn the_preview_is_the_storage_path_where_there_is_one() {
    assert_eq!(storage_path(&image("a", true, true)).as_deref(), Some("/d/a.jpg"));
    assert_eq!(storage_path(&image("a", false, true)).as_deref(), Some("/d/a.jpg"));
    assert_eq!(storage_path(&image("a", true, false)).as_deref(), Some("/d/a.fit"));
    assert_eq!(storage_path(&image("a", false, false)), None);
}

#[test]
fn images_are_split_by_their_storage_path() {
    let index = DedupIndex::build(&strings(&["/d/a.jpg", "/d/c.fit", "/d/b.fit"]), &Vec::new(), &Vec::new());
    let images = vec![
        image("a", true, true),
        image("b", true, true),
        image("c", true, false),
        image("d", true, false),
        image("e", false, false),
    ];
    let split = partition_duplicates(images, &index);
    let new: Vec<&str> = split.new_images.iter().map(|i| i.base_name.as_str()).collect();
    let old: Vec<&str> = split.duplicate_images.iter().map(|i| i.base_name.as_str()).collect();
    assert_eq!(new, vec!["b", "d", "e"]);
    assert_eq!(old, vec!["a", "c"]);
}

#[test]
fn an_empty_catalogue_has_no_duplicates() {
    let index = DedupIndex::new();
    assert_eq!(index.path_count(), 0);
    let split = partition_duplicates(vec![image("a", true, true)], &index);
    assert_eq!(split.new_images.len(), 1);
    assert!(split.duplicate_images.is_empty());
}

#[test]
fn the_index_answers_what_it_was_built_from() {
    let index = DedupIndex::build(
        &strings(&["/d/a.jpg", "/d/b.jpg", "/d/a.jpg"]),
        &pairs(&[("/d/a.jpg", "img-1"), ("/d/b.jpg", "img-2"), ("/d/a.jpg", "img-3")]),
        &pairs(&[("col-1", "img-1"), ("col-2", "img-2"), ("col-1", "img-2")]),
    );
    assert_eq!(index.path_count(), 2);
    assert!(index.contains_path("/d/a.jpg"));
    assert!(!index.contains_path("/d/a.fit"));
    assert_eq!(index.image_id("/d/a.jpg").as_deref(), Some("img-3"));
    assert_eq!(index.image_id("/d/b.jpg").as_deref(), Some("img-2"));
    assert_eq!(index.image_id("/d/c.jpg"), None);
    assert!(index.is_member("col-1", "img-1"));
    assert!(index.is_member("col-1", "img-2"));
    assert!(index.is_member("col-2", "img-2"));
    assert!(!index.is_member("col-2", "img-1"));
    assert!(!index.is_member("col-3", "img-1"));
    assert!(!index.is_member("img-1", "col-1"));
}

#[test]
fn a_link_is_needed_once() {
    let mut index = DedupIndex::build(
        &strings(&["/d/a.jpg"]),
        &pairs(&[("/d/a.jpg", "img-1")]),
        &pairs(&[("col-1", "img-1")]),
    );
    assert_eq!(membership_to_add(&index, "col-1", "/d/a.jpg"), None);
    assert_eq!(membership_to_add(&index, "col-2", "/d/a.jpg").as_deref(), Some("img-1"));
    assert_eq!(membership_to_add(&index, "col-2", "/d/unknown.jpg"), None);
    index.add_membership("col-2".to_string(), "img-1".to_string());
    assert_eq!(membership_to_add(&index, "col-2", "/d/a.jpg"), None);
}

#[test]
fn memberships_tell_pairs_apart() {
    let mut set = Memberships::new();
    assert!(!set.contains("ab", "c"));
    set.insert("ab".to_string(), "c".to_string());
    assert!(set.contains("ab", "c"));
    assert!(!set.contains("a", "bc"));
    assert!(!set.contains("c", "ab"));
    set.insert("a".to_string(), "bc".to_string());
    set.insert("ab".to_string(), "d".to_string());
    assert!(set.contains("a", "bc") && set.contains("ab", "d") && set.contains("ab", "c"));
    assert!(!set.contains("a", "c") && !set.contains("a", "d"));
}
