//! A preview of what a scan would import, made from the images found without
//! touching the catalogue.

use vstd::prelude::*;
use crate::discovery::{images_view, DiscoveredImage, DiscoveredImageView};

verus! {

/// The largest number of sample files in a preview.
pub const SAMPLE_LIMIT: usize = 10;

/// One image of a preview.
pub struct PreviewFile {
    pub name: String,
    pub directory: String,
    pub has_fits: bool,
    pub has_jpeg: bool,
    pub is_stacked: bool,
}

/// An image of a preview as mathematical values.
pub struct PreviewFileView {
    pub name: Seq<char>,
    pub directory: Seq<char>,
    pub has_fits: bool,
    pub has_jpeg: bool,
    pub is_stacked: bool,
}

impl View for PreviewFile {
    type V = PreviewFileView;

    open spec fn view(&self) -> PreviewFileView {
        PreviewFileView {
            name: self.name@,
            directory: self.directory@,
            has_fits: self.has_fits,
            has_jpeg: self.has_jpeg,
            is_stacked: self.is_stacked,
        }
    }
}

/// What a scan would import.
pub struct BulkScanPreview {
    pub total_images: usize,
    pub stacked_images: usize,
    pub raw_subframes: usize,
    pub with_fits: usize,
    pub with_jpeg: usize,
    /// The first images found, at most `SAMPLE_LIMIT` of them.
    pub sample_files: Vec<PreviewFile>,
}

/// The views of a list of preview files.
pub open spec fn samples_view(samples: Seq<PreviewFile>) -> Seq<PreviewFileView> {
    samples.map_values(|p: PreviewFile| p@)
}

/// The number of `items` that are stacked images.
pub open spec fn count_stacked(items: Seq<DiscoveredImageView>) -> nat
    decreases items.len(),
{
    if items.len() == 0 {
        0
    } else {
        count_stacked(items.drop_last()) + if items.last().is_stacked {
            1nat
        } else {
            0nat
        }
    }
}

/// The number of `items` that have a raw frame.
pub open spec fn count_with_fits(items: Seq<DiscoveredImageView>) -> nat
    decreases items.len(),
{
    if items.len() == 0 {
        0
    } else {
        count_with_fits(items.drop_last()) + if items.last().fits_path is Some {
            1nat
        } else {
            0nat
        }
    }
}

/// The number of `items` that have a preview.
pub open spec fn count_with_jpeg(items: Seq<DiscoveredImageView>) -> nat
    decreases items.len(),
{
    if items.len() == 0 {
        0
    } else {
        count_with_jpeg(items.drop_last()) + if items.last().jpeg_path is Some {
            1nat
        } else {
            0nat
        }
    }
}

/// An image as a preview shows it.
pub open spec fn sample_of(item: DiscoveredImageView) -> PreviewFileView {
    PreviewFileView {
        name: item.base_name,
        directory: item.directory,
        has_fits: item.fits_path is Some,
        has_jpeg: item.jpeg_path is Some,
        is_stacked: item.is_stacked,
    }
}

/// The samples of a preview: the first images, at most `SAMPLE_LIMIT`.
pub open spec fn samples_of(items: Seq<DiscoveredImageView>) -> Seq<PreviewFileView> {
    Seq::new(
        if items.len() < SAMPLE_LIMIT {
            items.len()
        } else {
            SAMPLE_LIMIT as nat
        },
        |i: int| sample_of(items[i]),
    )
}

/// Summarises the images that a walk found.
pub fn preview_bulk_scan(images: &Vec<DiscoveredImage>) -> (r: BulkScanPreview)
    ensures
        r.total_images == images.len(),
        r.stacked_images == count_stacked(images_view(images@)),
        r.raw_subframes == images.len() - count_stacked(images_view(images@)),
        r.with_fits == count_with_fits(images_view(images@)),
        r.with_jpeg == count_with_jpeg(images_view(images@)),
        samples_view(r.sample_files@) == samples_of(images_view(images@)),
{
    let ghost all = images_view(images@);
    let mut stacked: usize = 0;
    let mut subframes: usize = 0;
    let mut with_fits: usize = 0;
    let mut with_jpeg: usize = 0;
    let mut samples: Vec<PreviewFile> = Vec::new();
    let mut i: usize = 0;
    assert(samples_view(samples@) =~= samples_of(all.take(0)));
    while i < images.len()
        invariant
            i <= images.len(),
            all == images_view(images@),
            stacked == count_stacked(all.take(i as int)),
            stacked + subframes == i,
            with_fits == count_with_fits(all.take(i as int)),
            with_fits <= i,
            with_jpeg == count_with_jpeg(all.take(i as int)),
            with_jpeg <= i,
            samples_view(samples@) == samples_of(all.take(i as int)),
        decreases images.len() - i,
    {
        let image = &images[i];
        assert(all.take(i + 1).drop_last() =~= all.take(i as int));
        assert(all.take(i + 1).last() == image@);
        if image.is_stacked {
            stacked += 1;
        } else {
            subframes += 1;
        }
        if image.fits_path.is_some() {
            with_fits += 1;
        }
        if image.jpeg_path.is_some() {
            with_jpeg += 1;
        }
        let ghost before = samples_view(samples@);
        if samples.len() < SAMPLE_LIMIT {
            samples.push(
                PreviewFile {
                    name: image.base_name.clone(),
                    directory: image.directory.clone(),
                    has_fits: image.fits_path.is_some(),
                    has_jpeg: image.jpeg_path.is_some(),
                    is_stacked: image.is_stacked,
                },
            );
            assert(samples_view(samples@) =~= before.push(sample_of(image@)));
        }
        assert(samples_view(samples@) =~= samples_of(all.take(i + 1)));
        i += 1;
    }
    assert(all.take(images.len() as int) =~= all);
    BulkScanPreview {
        total_images: images.len(),
        stacked_images: stacked,
        raw_subframes: subframes,
        with_fits,
        with_jpeg,
        sample_files: samples,
    }
}

} // verus!
