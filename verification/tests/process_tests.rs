use astra::discovery::DiscoveredImage;
use astra::metadata::FitsMetadata;
use astra::process::{
    batch_bounds, batch_count, encode_thumbnail, generate_thumbnail, needs_thumbnail,
    process_single_image,
    progress_percent,
    task_failure, thumbnail_data_url, BATCH_SIZE, MAX_PARALLEL_PROCESSING, THUMBNAIL_QUALITY,
    THUMBNAIL_SIZE,
};
use base64::Engine;

fn found(fits: bool, jpeg: bool) -> DiscoveredImage {
    DiscoveredImage {
        base_name: "a".to_string(),
        directory: "/d".to_string(),
        fits_path: if fits { Some("/d/a.fit".to_string()) } else { None },
        jpeg_path: if jpeg { Some("/d/a.jpg".to_string()) } else { None },
        is_stacked: false,
    }
}

fn metadata_named(name: &str) -> FitsMetadata {
    let mut m = FitsMetadata::new();
    m.object_name = Some(name.to_string());
    m
}

#[test]
fn limits_of_the_processing_stage() {
    assert_eq!(MAX_PARALLEL_PROCESSING, 4);
    assert_eq!(BATCH_SIZE, 100);
    assert_eq!(THUMBNAIL_SIZE, 300);
    assert_eq!(THUMBNAIL_QUALITY, 80);
}

#[test]
fn batches_are_counted_by_rounding_up() {
    assert_eq!(batch_count(0), 0);
    assert_eq!(batch_count(1), 1);
    assert_eq!(batch_count(100), 1);
    assert_eq!(batch_count(101), 2);
    assert_eq!(batch_count(250), 3);
    assert_eq!(batch_count(usize::MAX), usize::MAX / 100 + 1);
}

#[test]
fn batches_cover_the_images_in_order() {
    assert_eq!(batch_bounds(250, 0), (0, 100));
    assert_eq!(batch_bounds(250, 1), (100, 200));
    assert_eq!(batch_bounds(250, 2), (200, 250));
    assert_eq!(batch_bounds(100, 0), (0, 100));
    assert_eq!(batch_bounds(1, 0), (0, 1));
}

#[test]
fn percent_is_the_whole_share() {
    assert_eq!(progress_percent(0, 0), 0);
    assert_eq!(progress_percent(0, 10), 0);
    assert_eq!(progress_percent(1, 3), 33);
    assert_eq!(progress_percent(2, 3), 66);
    assert_eq!(progress_percent(3, 3), 100);
    assert_eq!(progress_percent(999, 1000), 99);
    assert_eq!(progress_percent(usize::MAX, usize::MAX), 100);
}

#[test]
fn percent_is_never_more_than_a_hundred() {
    assert_eq!(progress_percent(1, 0), 100);
    assert_eq!(progress_percent(3, 1), 100);
    assert_eq!(progress_percent(usize::MAX, 1), 100);
    assert_eq!(progress_percent(101, 100), 100);
}

#[test]
fn data_url_wraps_base64_of_the_bytes() {
    assert_eq!(thumbnail_data_url(&b"foo".to_vec()), "data:image/jpeg;base64,Zm9v");
    assert_eq!(thumbnail_data_url(&b"fo".to_vec()), "data:image/jpeg;base64,Zm8=");
    assert_eq!(thumbnail_data_url(&vec![0xff, 0xd8, 0xff]), "data:image/jpeg;base64,/9j/");
    assert_eq!(thumbnail_data_url(&Vec::new()), "data:image/jpeg;base64,");
}

fn decode_url(url: &str) -> image::DynamicImage {
    let encoded = url.strip_prefix("data:image/jpeg;base64,").unwrap();
    let jpeg = base64::engine::general_purpose::STANDARD.decode(encoded).unwrap();
    assert_eq!(&jpeg[..3], &[0xff, 0xd8, 0xff]);
    assert_eq!(&jpeg[jpeg.len() - 2..], &[0xff, 0xd9]);
    image::load_from_memory(&jpeg).unwrap()
}

#[test]
fn encoded_pixels_are_a_jpeg_in_a_data_url() {
    let pixels: Vec<u8> = (0..4 * 3 * 3).map(|i| (i * 7 % 256) as u8).collect();
    let url = encode_thumbnail(&pixels, 4, 3).unwrap();
    let decoded = decode_url(&url);
    assert_eq!((decoded.width(), decoded.height()), (4, 3));
    assert_eq!(encode_thumbnail(&pixels, 4, 3).unwrap(), url);
}

#[test]
fn encoding_fails_where_the_pixels_do_not_fill_the_image() {
    let error = encode_thumbnail(&vec![0u8; 10], 2, 2).unwrap_err();
    assert!(error.starts_with("Failed to encode thumbnail: "));
    let error = encode_thumbnail(&vec![0u8; 12], 65536, 65536).unwrap_err();
    assert!(error.starts_with("Failed to encode thumbnail: "));
}

#[test]
fn encoding_fails_for_a_size_that_cannot_be_encoded() {
    let error = encode_thumbnail(&Vec::new(), 0, 0).unwrap_err();
    assert!(error.starts_with("Failed to encode thumbnail: "));
    assert!(error.len() > "Failed to encode thumbnail: ".len());
    let error = encode_thumbnail(&Vec::new(), 0, 5).unwrap_err();
    assert!(error.starts_with("Failed to encode thumbnail: "));
    let wide = vec![0u8; 65536 * 3];
    let error = encode_thumbnail(&wide, 65536, 1).unwrap_err();
    assert!(error.starts_with("Failed to encode thumbnail: "));
    assert!(encode_thumbnail(&vec![0u8; 65535 * 3], 65535, 1).is_ok());
}

#[test]
fn a_thumbnail_fits_the_thumbnail_size() {
    for (width, height, expected) in [
        (1200, 800, (300, 200)),
        (800, 1200, (200, 300)),
        (300, 300, (300, 300)),
        (301, 300, (300, 299)),
        (3000, 10, (300, 1)),
        (1, 5000, (1, 300)),
        (1, 1, (300, 300)),
        (150, 100, (300, 200)),
    ] {
        let url = generate_thumbnail(&image::DynamicImage::new_rgba8(width, height)).unwrap();
        let decoded = decode_url(&url);
        assert!(decoded.width() <= THUMBNAIL_SIZE && decoded.height() <= THUMBNAIL_SIZE);
        assert!(decoded.width() >= 1 && decoded.height() >= 1);
        assert_eq!((decoded.width(), decoded.height()), expected);
    }
}

#[test]
fn a_thumbnail_of_an_empty_image_fails() {
    for (width, height) in [(0, 0), (0, 10), (10, 0)] {
        let error = generate_thumbnail(&image::DynamicImage::new_rgb8(width, height)).unwrap_err();
        assert_eq!(error, "Failed to encode thumbnail: the image is empty");
    }
}

#[test]
fn a_decoded_image_with_thumbnail() {
    let p = process_single_image(
        found(true, true),
        Some(Ok(metadata_named("M42"))),
        Some(Ok("data:thumb".to_string())),
    );
    assert_eq!(p.metadata.unwrap().object_name.as_deref(), Some("M42"));
    assert_eq!(p.thumbnail.as_deref(), Some("data:thumb"));
    assert!(p.error.is_none());
    assert_eq!(p.discovered.base_name, "a");
}

#[test]
fn a_failed_decode_fails_the_image() {
    let p = process_single_image(
        found(true, true),
        Some(Err("bad header".to_string())),
        Some(Ok("data:thumb".to_string())),
    );
    assert_eq!(p.error.as_deref(), Some("Failed to parse /d/a.fit: bad header"));
    assert!(p.metadata.is_none());
    assert!(p.thumbnail.is_none());
}

#[test]
fn a_failed_thumbnail_does_not_fail_the_image() {
    let p = process_single_image(
        found(true, true),
        Some(Ok(metadata_named("M42"))),
        Some(Err("broken jpeg".to_string())),
    );
    assert!(p.error.is_none());
    assert!(p.metadata.is_some());
    assert!(p.thumbnail.is_none());
}

#[test]
fn outcomes_for_files_that_the_image_lacks_are_ignored() {
    let p = process_single_image(
        found(false, true),
        Some(Err("should not count".to_string())),
        Some(Ok("t".to_string())),
    );
    assert!(p.error.is_none() && p.metadata.is_none());
    assert_eq!(p.thumbnail.as_deref(), Some("t"));
    let q = process_single_image(found(true, false), Some(Ok(metadata_named("x"))), Some(Ok("t".to_string())));
    assert!(q.thumbnail.is_none() && q.metadata.is_some());
    let r = process_single_image(found(true, true), None, None);
    assert!(r.metadata.is_none() && r.thumbnail.is_none() && r.error.is_none());
}

#[test]
fn a_task_that_broke_off_is_an_error() {
    let p = task_failure(found(true, true), "worker died");
    assert_eq!(p.error.as_deref(), Some("Task panicked: worker died"));
    assert!(p.metadata.is_none() && p.thumbnail.is_none());
}

#[test]
fn a_thumbnail_is_made_unless_decoding_failed() {
    assert!(needs_thumbnail(&found(true, true), &Some(Ok(metadata_named("M42")))));
    assert!(!needs_thumbnail(&found(true, true), &Some(Err("bad".to_string()))));
    assert!(needs_thumbnail(&found(true, true), &None));
    assert!(needs_thumbnail(&found(false, true), &Some(Err("not counted".to_string()))));
    assert!(needs_thumbnail(&found(false, true), &None));
    assert!(!needs_thumbnail(&found(true, false), &Some(Ok(metadata_named("M42")))));
    assert!(!needs_thumbnail(&found(false, false), &None));
}

#[test]
fn a_bitmap_with_a_longer_buffer_still_gives_its_thumbnail() {
    let mut buffer = vec![120u8; 300 * 300 * 3];
    buffer.extend_from_slice(&[9u8; 17]);
    let bitmap = image::RgbImage::from_raw(300, 300, buffer).unwrap();
    let url = generate_thumbnail(&image::DynamicImage::ImageRgb8(bitmap)).unwrap();
    let decoded = decode_url(&url);
    assert_eq!((decoded.width(), decoded.height()), (300, 300));
    let exact = image::RgbImage::from_raw(300, 300, vec![120u8; 300 * 300 * 3]).unwrap();
    assert_eq!(generate_thumbnail(&image::DynamicImage::ImageRgb8(exact)).unwrap(), url);
}

#[test]
fn a_thumbnail_shows_the_bitmap_it_was_made_of() {
    let dark = image::DynamicImage::ImageRgb8(image::RgbImage::from_pixel(600, 400, image::Rgb([10, 10, 10])));
    let light = image::DynamicImage::ImageRgb8(image::RgbImage::from_pixel(600, 400, image::Rgb([240, 240, 240])));
    let dark_url = generate_thumbnail(&dark).unwrap();
    let light_url = generate_thumbnail(&light).unwrap();
    assert_ne!(dark_url, light_url);
    let shown = decode_url(&light_url).to_rgb8();
    assert_eq!((shown.width(), shown.height()), (300, 200));
    assert!(shown.get_pixel(150, 100).0.iter().all(|c| *c > 200));
    let shown = decode_url(&dark_url).to_rgb8();
    assert!(shown.get_pixel(150, 100).0.iter().all(|c| *c < 50));
}
