//! Progress reports of a scan: coarse steps, each with a counter and a label
//! for the user.

use vstd::prelude::*;
use vstd::string::StringExecFns;
use crate::decimal::{decimal_text, push_count};
use crate::process::{percent_of, progress_percent};
use crate::text::owned;

verus! {

/// One progress report of a scan.
pub struct ScanProgress {
    /// The number of images dealt with so far.
    pub current: usize,
    /// The number of images to deal with.
    pub total: usize,
    /// What the scan is doing, or the name of the image it is at.
    pub current_file: String,
    /// How far the scan is, from 0 to 100.
    pub percent: u8,
    /// The number of images skipped so far.
    pub skipped: usize,
    /// Whether the scan was cancelled.
    pub cancelled: bool,
}

/// A progress report as mathematical values.
pub struct ScanProgressView {
    pub current: usize,
    pub total: usize,
    pub current_file: Seq<char>,
    pub percent: u8,
    pub skipped: usize,
    pub cancelled: bool,
}

impl View for ScanProgress {
    type V = ScanProgressView;

    open spec fn view(&self) -> ScanProgressView {
        ScanProgressView {
            current: self.current,
            total: self.total,
            current_file: self.current_file@,
            percent: self.percent,
            skipped: self.skipped,
            cancelled: self.cancelled,
        }
    }
}

/// The views of a list of progress reports.
pub open spec fn reports_view(reports: Seq<ScanProgress>) -> Seq<ScanProgressView> {
    reports.map_values(|p: ScanProgress| p@)
}

/// A report of a step before any image is dealt with.
pub open spec fn step_report(total: usize, label: Seq<char>, skipped: usize) -> ScanProgressView {
    ScanProgressView {
        current: 0,
        total,
        current_file: label,
        percent: 0,
        skipped,
        cancelled: false,
    }
}

/// A report that the scan is through with all `total` images.
pub open spec fn done_report(total: usize, label: Seq<char>, skipped: usize) -> ScanProgressView {
    ScanProgressView {
        current: total,
        total,
        current_file: label,
        percent: 100,
        skipped,
        cancelled: false,
    }
}

/// A report in the middle of the work: `current` of `total` images are dealt
/// with, and the percentage follows from that.
pub open spec fn running_report(
    current: usize,
    total: usize,
    label: Seq<char>,
    skipped: usize,
    cancelled: bool,
) -> ScanProgressView {
    ScanProgressView {
        current,
        total,
        current_file: label,
        percent: percent_of(current as nat, total as nat) as u8,
        skipped,
        cancelled,
    }
}

/// The label of the report that a scan of `directory` begins.
pub open spec fn scanning_label(directory: Seq<char>) -> Seq<char> {
    "Scanning: "@ + directory + "..."@
}

/// The label of a report from the middle of the directory walk.
pub open spec fn walk_label(files_scanned: usize, images_found: usize) -> Seq<char> {
    "Scanned "@ + decimal_text(files_scanned as int) + " files, found "@ + decimal_text(
        images_found as int,
    ) + " images..."@
}

/// The label of the report on what the directory cache decided.
pub open spec fn cache_summary_label(
    kept: usize,
    changed_dirs: usize,
    skipped: usize,
    unchanged_dirs: usize,
) -> Seq<char> {
    if skipped > 0 {
        "Found "@ + decimal_text(kept as int) + " images in "@ + decimal_text(changed_dirs as int)
            + " changed directories ("@ + decimal_text(skipped as int) + " skipped from "@
            + decimal_text(unchanged_dirs as int) + " unchanged)"@
    } else {
        "Found "@ + decimal_text(kept as int) + " images, loading database..."@
    }
}

/// The label of the report that every directory is unchanged.
pub open spec fn all_unchanged_label(unchanged_dirs: usize) -> Seq<char> {
    "All "@ + decimal_text(unchanged_dirs as int) + " directories unchanged since last scan"@
}

/// The label of the report that the catalogue is being loaded.
pub open spec fn loading_label(kept: usize) -> Seq<char> {
    "Loading database ("@ + decimal_text(kept as int) + " images to check)..."@
}

/// The label of the report that the existing records are loaded.
pub open spec fn loaded_label(existing: usize) -> Seq<char> {
    "Loaded "@ + decimal_text(existing as int) + " existing image records..."@
}

/// The label of the report on new images and duplicates.
pub open spec fn new_images_label(new_images: usize, duplicates: usize) -> Seq<char> {
    "Found "@ + decimal_text(new_images as int) + " new images ("@ + decimal_text(
        duplicates as int,
    ) + " duplicates skipped)"@
}

/// The label of the report that a batch begins.
pub open spec fn batch_label(number: usize, batches: usize, size: usize) -> Seq<char> {
    "Processing batch "@ + decimal_text(number as int) + "/"@ + decimal_text(batches as int)
        + " ("@ + decimal_text(size as int) + " images)..."@
}

/// The label of the report that the directory cache is being updated.
pub open spec fn cache_update_label(directories: usize) -> Seq<char> {
    "Updating cache for "@ + decimal_text(directories as int) + " directories..."@
}

impl ScanProgress {
    /// A report of a step before any image is dealt with.
    pub fn step(total: usize, label: String, skipped: usize) -> (r: ScanProgress)
        ensures
            r@ == step_report(total, label@, skipped),
    {
        ScanProgress { current: 0, total, current_file: label, percent: 0, skipped, cancelled: false }
    }

    /// A report that the scan is through.
    pub fn done(total: usize, label: String, skipped: usize) -> (r: ScanProgress)
        ensures
            r@ == done_report(total, label@, skipped),
    {
        ScanProgress {
            current: total,
            total,
            current_file: label,
            percent: 100,
            skipped,
            cancelled: false,
        }
    }

    /// A report in the middle of the work.
    pub fn running(current: usize, total: usize, label: String, skipped: usize, cancelled: bool) -> (r:
        ScanProgress)
        ensures
            r@ == running_report(current, total, label@, skipped, cancelled),
    {
        ScanProgress {
            current,
            total,
            current_file: label,
            percent: progress_percent(current, total),
            skipped,
            cancelled,
        }
    }
}

/// The label of the report that a scan of `directory` begins.
pub fn label_scanning(directory: &str) -> (r: String)
    ensures
        r@ == scanning_label(directory@),
{
    let mut s = owned("Scanning: ");
    s.append(directory);
    s.append("...");
    s
}

/// The label of a report from the middle of the directory walk.
pub fn label_walk(files_scanned: usize, images_found: usize) -> (r: String)
    ensures
        r@ == walk_label(files_scanned, images_found),
{
    let mut s = owned("Scanned ");
    push_count(&mut s, files_scanned);
    s.append(" files, found ");
    push_count(&mut s, images_found);
    s.append(" images...");
    s
}

/// The label of the report on what the directory cache decided.
pub fn label_cache_summary(kept: usize, changed_dirs: usize, skipped: usize, unchanged_dirs: usize) -> (r:
    String)
    ensures
        r@ == cache_summary_label(kept, changed_dirs, skipped, unchanged_dirs),
{
    let mut s = owned("Found ");
    push_count(&mut s, kept);
    if skipped > 0 {
        s.append(" images in ");
        push_count(&mut s, changed_dirs);
        s.append(" changed directories (");
        push_count(&mut s, skipped);
        s.append(" skipped from ");
        push_count(&mut s, unchanged_dirs);
        s.append(" unchanged)");
    } else {
        s.append(" images, loading database...");
    }
    s
}

/// The label of the report that every directory is unchanged.
pub fn label_all_unchanged(unchanged_dirs: usize) -> (r: String)
    ensures
        r@ == all_unchanged_label(unchanged_dirs),
{
    let mut s = owned("All ");
    push_count(&mut s, unchanged_dirs);
    s.append(" directories unchanged since last scan");
    s
}

/// The label of the report that the catalogue is being loaded.
pub fn label_loading(kept: usize) -> (r: String)
    ensures
        r@ == loading_label(kept),
{
    let mut s = owned("Loading database (");
    push_count(&mut s, kept);
    s.append(" images to check)...");
    s
}

/// The label of the report that the existing records are loaded.
pub fn label_loaded(existing: usize) -> (r: String)
    ensures
        r@ == loaded_label(existing),
{
    let mut s = owned("Loaded ");
    push_count(&mut s, existing);
    s.append(" existing image records...");
    s
}

/// The label of the report on new images and duplicates.
pub fn label_new_images(new_images: usize, duplicates: usize) -> (r: String)
    ensures
        r@ == new_images_label(new_images, duplicates),
{
    let mut s = owned("Found ");
    push_count(&mut s, new_images);
    s.append(" new images (");
    push_count(&mut s, duplicates);
    s.append(" duplicates skipped)");
    s
}

/// The label of the report that a batch begins. Batches are numbered from
/// one here.
pub fn label_batch(number: usize, batches: usize, size: usize) -> (r: String)
    ensures
        r@ == batch_label(number, batches, size),
{
    let mut s = owned("Processing batch ");
    push_count(&mut s, number);
    s.append("/");
    push_count(&mut s, batches);
    s.append(" (");
    push_count(&mut s, size);
    s.append(" images)...");
    s
}

/// The label of the report that the directory cache is being updated.
pub fn label_cache_update(directories: usize) -> (r: String)
    ensures
        r@ == cache_update_label(directories),
{
    let mut s = owned("Updating cache for ");
    push_count(&mut s, directories);
    s.append(" directories...");
    s
}

/// The report of a directory walk in progress.
pub fn walk_progress(files_scanned: usize, images_found: usize) -> (r: ScanProgress)
    ensures
        r@ == step_report(0, walk_label(files_scanned, images_found), 0),
{
    ScanProgress::step(0, label_walk(files_scanned, images_found), 0)
}

} // verus!
