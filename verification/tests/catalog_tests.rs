use astra::catalog::{build_description, build_location, build_tags, mentions_seestar};
use astra::discovery::DiscoveredImage;
use astra::header::{FloatValue, Number};
use astra::metadata::FitsMetadata;
use astra::records::{
    image_record, new_membership, new_scanned_directory, new_session_collection,
    session_collection, session_provenance, ID_LENGTH,
};
use astra::session::{CalendarDate, SessionKey};

fn float_of(x: f64) -> Number {
    Number::Float(FloatValue {
        bits: x.to_bits(),
        truncated: x as i32,
        one_decimal: format!("{:.1}", x),
        six_decimals: format!("{:.6}", x),
    })
}

fn full_metadata() -> FitsMetadata {
    let mut m = FitsMetadata::new();
    m.object_name = Some("M42".to_string());
    m.telescope = Some("Seestar S50".to_string());
    m.exposure = Some(float_of(10.04));
    m.stacked_frames = Some(120);
    m.gain = Some(80);
    m.filter = Some("LP".to_string());
    m.image_width = Some(1080);
    m.image_height = Some(1920);
    m.date_obs = Some("2024-01-14T23:00:00".to_string());
    m.ra = Some("83.822000".to_string());
    m.dec = Some("-5.391000".to_string());
    m
}

#[test]
fn description_lists_present_fields_in_order() {
    assert_eq!(
        build_description(&full_metadata()),
        "**Object:** M42\n**Telescope:** Seestar S50\n**Exposure:** 10.0s\n\
         **Stacked Frames:** 120\n**Gain:** 80\n**Filter:** LP\n\
         **Resolution:** 1080x1920\n**Date:** 2024-01-14T23:00:00"
    );
}

#[test]
fn description_omits_absent_fields() {
    assert_eq!(build_description(&FitsMetadata::new()), "");
    let mut m = FitsMetadata::new();
    m.gain = Some(-5);
    assert_eq!(build_description(&m), "**Gain:** -5");
    m.object_name = Some("NGC 7000".to_string());
    m.date_obs = Some("2024-03-10".to_string());
    assert_eq!(build_description(&m), "**Object:** NGC 7000\n**Gain:** -5\n**Date:** 2024-03-10");
}

#[test]
fn resolution_needs_width_and_height() {
    let mut m = FitsMetadata::new();
    m.image_width = Some(1080);
    assert_eq!(build_description(&m), "");
    m.image_height = Some(1920);
    assert_eq!(build_description(&m), "**Resolution:** 1080x1920");
    m.image_width = None;
    assert_eq!(build_description(&m), "");
}

#[test]
fn whole_exposure_gets_a_decimal() {
    let mut m = FitsMetadata::new();
    m.exposure = Some(Number::Whole(30));
    assert_eq!(build_description(&m), "**Exposure:** 30.0s");
    m.exposure = Some(float_of(0.25));
    assert_eq!(build_description(&m), format!("**Exposure:** {:.1}s", 0.25f64));
}

#[test]
fn tags_join_user_and_detected_tags() {
    let user = Some("winter, orion".to_string());
    let seestar = Some("ZWO SeeStar S50".to_string());
    assert_eq!(build_tags(&user, true, &seestar).as_deref(), Some("winter, orion, stacked, seestar"));
    assert_eq!(build_tags(&None, true, &seestar).as_deref(), Some("stacked, seestar"));
    assert_eq!(build_tags(&None, false, &seestar).as_deref(), Some("seestar"));
    assert_eq!(build_tags(&user, false, &None).as_deref(), Some("winter, orion"));
    assert_eq!(build_tags(&None, true, &Some("Newton 200".to_string())).as_deref(), Some("stacked"));
    assert_eq!(build_tags(&None, false, &None), None);
    assert_eq!(build_tags(&None, false, &Some("See Star".to_string())), None);
    assert_eq!(build_tags(&None, false, &Some("SEESTAR".to_string())).as_deref(), Some("seestar"));
}

#[test]
fn location_needs_both_coordinates() {
    let ra = Some("83.822000".to_string());
    let dec = Some("-5.391000".to_string());
    assert_eq!(build_location(&ra, &dec).as_deref(), Some("83.822000, -5.391000"));
    assert_eq!(build_location(&ra, &None), None);
    assert_eq!(build_location(&None, &dec), None);
    assert_eq!(build_location(&None, &None), None);
}

#[test]
fn image_row_is_built_from_the_image_and_its_metadata() {
    let discovered = DiscoveredImage {
        base_name: "Stacked_10_M42".to_string(),
        directory: "/data/M42".to_string(),
        fits_path: Some("/data/M42/Stacked_10_M42.fit".to_string()),
        jpeg_path: Some("/data/M42/Stacked_10_M42.jpg".to_string()),
        is_stacked: true,
    };
    let row = image_record(
        "img-1".to_string(),
        "local-user",
        &discovered,
        &full_metadata(),
        &Some("winter".to_string()),
        Some("{}".to_string()),
        Some("data:thumb".to_string()),
    );
    assert_eq!(row.id, "img-1");
    assert_eq!(row.user_id, "local-user");
    assert_eq!(row.collection_id, None);
    assert_eq!(row.filename, "Stacked_10_M42");
    assert_eq!(row.url.as_deref(), Some("/data/M42/Stacked_10_M42.jpg"));
    assert_eq!(row.summary.as_deref(), Some("M42"));
    assert_eq!(row.description, Some(build_description(&full_metadata())));
    assert_eq!(row.content_type.as_deref(), Some("image/jpeg"));
    assert!(!row.favorite);
    assert_eq!(row.tags.as_deref(), Some("winter, stacked, seestar"));
    assert_eq!(row.visibility.as_deref(), Some("private"));
    assert_eq!(row.location.as_deref(), Some("83.822000, -5.391000"));
    assert_eq!(row.annotations, None);
    assert_eq!(row.metadata.as_deref(), Some("{}"));
    assert_eq!(row.thumbnail.as_deref(), Some("data:thumb"));
}

#[test]
fn collection_rows_of_dated_and_unknown_sessions() {
    let night = SessionKey::Night(CalendarDate::new(2024, 1, 14).unwrap());
    let row = session_collection(
        "col-1".to_string(),
        "local-user",
        night.collection_name(),
        &night,
        "/data",
        &Some("winter".to_string()),
    );
    assert_eq!(row.id, "col-1");
    assert_eq!(row.name, "2024-01-14");
    assert_eq!(row.description.as_deref(), Some("Auto-imported from /data"));
    assert_eq!(row.visibility, "private");
    assert_eq!(row.template.as_deref(), Some("astrolog"));
    assert_eq!(row.tags.as_deref(), Some("winter"));
    assert!(!row.favorite && !row.archived && row.metadata.is_none());
    let provenance = session_provenance(&night, "/data");
    assert_eq!(provenance.session_date.as_deref(), Some("2024-01-14"));
    assert!(provenance.auto_imported);
    assert_eq!(provenance.source_directory, "/data");

    let unknown = SessionKey::Unknown;
    let row = new_session_collection("u", unknown.collection_name(), &unknown, "/data", &None);
    assert_eq!(row.name, "Unknown Session");
    assert_eq!(row.description.as_deref(), Some("Auto-imported from /data (no date metadata)"));
    assert_eq!(row.tags, None);
    assert!(!row.id.is_empty());
    assert_eq!(session_provenance(&unknown, "/data").session_date, None);
}

#[test]
fn fresh_rows_get_identifiers_of_their_own() {
    let a = new_membership("col-1", "img-1");
    let b = new_membership("col-1", "img-1");
    assert_eq!((a.collection_id.as_str(), a.image_id.as_str()), ("col-1", "img-1"));
    assert_ne!(a.id, b.id);
    assert_eq!(a.id.len(), ID_LENGTH);
    assert_eq!(ID_LENGTH, 36);
    let d = new_scanned_directory("local-user", "/data/M42", 1234, "2024-01-15T08:00:00+00:00");
    assert_eq!(d.user_id, "local-user");
    assert_eq!(d.path, "/data/M42");
    assert_eq!(d.fs_modified_at, 1234);
    assert_eq!(d.last_scanned_at, "2024-01-15T08:00:00+00:00");
    assert_eq!(d.image_count, 0);
    assert_eq!(d.id.len(), 36);
}

#[test]
fn a_seestar_is_known_by_its_lowered_name() {
    assert!(mentions_seestar("zwo seestar s50"));
    assert!(mentions_seestar("seestar"));
    assert!(!mentions_seestar("Seestar"));
    assert!(!mentions_seestar("see star"));
    assert!(!mentions_seestar(""));
}
