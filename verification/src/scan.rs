//! The course of a bulk scan.
//!
//! A scan walks a directory, leaves out unchanged directories and images that
//! the catalogue already holds, processes the rest in batches and writes them
//! to the catalogue. Walking, reading and writing are the caller's part. What
//! is decided at each step, what is counted and what is reported stands here:
//! the caller tells a `ScanRun` what happened and is told how to go on.

use vstd::prelude::*;
use vstd::hash_map::StringHashMap;
use vstd::string::StringExecFns;
use crate::count::{bump, one_more, plus, sum};
use crate::dedup::{
    is_duplicate, link_needed, membership_to_add, storage_path, storage_path_of, text_map_view,
    DedupIndex,
};
use crate::discovery::DiscoveredImage;
use crate::metadata::{FitsMetadata, FitsMetadataView};
use crate::process::{batch_count, batches_of, ProcessedImage, ProcessedImageView};
use crate::records::{
    is_image_row, is_session_row, new_image_record, new_membership, new_session_collection,
    provenance_date, session_provenance, CollectionProvenance, NewCollection, NewCollectionImage,
    NewImage, ID_LENGTH,
};
use crate::session::{collection_name_of, session_key_of, SessionKey, SessionKeyView};
use crate::progress::{
    all_unchanged_label, batch_label, cache_summary_label, cache_update_label, done_report,
    label_all_unchanged, label_batch, label_cache_summary, label_cache_update, label_loaded,
    label_loading, label_new_images, label_scanning, loaded_label, loading_label,
    new_images_label, reports_view, running_report, scanning_label, step_report, ScanProgress,
    ScanProgressView,
};
use crate::text::{opt_view, owned, views};

verus! {

/// What to scan and how.
pub struct BulkScanInput {
    /// The directory to scan with everything below it.
    pub directory: String,
    /// Tags for every image imported.
    pub tags: Option<String>,
    /// Whether raw subframes are left out.
    pub stacked_only: bool,
    /// The largest number of images to import, if there is a limit.
    pub max_files: Option<usize>,
}

/// What a scan did.
pub struct BulkScanResult {
    /// The number of images imported.
    pub images_imported: usize,
    /// The number of collections created.
    pub collections_created: usize,
    /// The number of images skipped.
    pub images_skipped: usize,
    /// What went wrong with single images.
    pub errors: Vec<String>,
}

/// What a scan did, as mathematical values.
pub struct BulkScanResultView {
    pub images_imported: usize,
    pub collections_created: usize,
    pub images_skipped: usize,
    pub errors: Seq<Seq<char>>,
}

impl View for BulkScanResult {
    type V = BulkScanResultView;

    open spec fn view(&self) -> BulkScanResultView {
        BulkScanResultView {
            images_imported: self.images_imported,
            collections_created: self.collections_created,
            images_skipped: self.images_skipped,
            errors: views(self.errors@),
        }
    }
}

/// The state of a scan as mathematical values.
pub struct ScanRunView {
    /// What the scan did so far.
    pub result: BulkScanResultView,
    /// The number of images that the walk found.
    pub total_discovered: usize,
    /// The number of images left out because the catalogue holds them.
    pub skipped_duplicates: usize,
    /// The number of images to process.
    pub total_to_process: usize,
    /// The number of processed images taken up for writing.
    pub images_processed: usize,
    /// The collection of each session met so far, by the collection's name.
    pub sessions: Map<Seq<char>, Seq<char>>,
}

/// The state of a scan that has done nothing yet.
pub open spec fn fresh_run() -> ScanRunView {
    ScanRunView {
        result: BulkScanResultView {
            images_imported: 0,
            collections_created: 0,
            images_skipped: 0,
            errors: Seq::empty(),
        },
        total_discovered: 0,
        skipped_duplicates: 0,
        total_to_process: 0,
        images_processed: 0,
        sessions: Map::empty(),
    }
}

/// What the caller is told after a step: the reports to send out, and
/// whether the scan goes on. Where it does not, the scan is over and its
/// result stands.
pub struct Step {
    pub events: Vec<ScanProgress>,
    pub proceed: bool,
}

/// The state with another number of skipped images.
pub open spec fn with_skipped(run: ScanRunView, skipped: usize) -> ScanRunView {
    ScanRunView { result: BulkScanResultView { images_skipped: skipped, ..run.result }, ..run }
}

/// The state with one more error.
pub open spec fn with_error(run: ScanRunView, error: Seq<char>) -> ScanRunView {
    ScanRunView {
        result: BulkScanResultView { errors: run.result.errors.push(error), ..run.result },
        ..run
    }
}

/// The state with one more image skipped.
pub open spec fn with_one_skipped(run: ScanRunView) -> ScanRunView {
    with_skipped(run, one_more(run.result.images_skipped))
}

/// The number of images dealt with: the duplicates left out and the
/// processed images taken up.
pub open spec fn dealt_with(run: ScanRunView) -> usize {
    plus(run.skipped_duplicates, run.images_processed)
}

/// The state after the walk found `total` images.
pub open spec fn after_walk(run: ScanRunView, total: usize) -> ScanRunView {
    ScanRunView { total_discovered: total, ..run }
}

/// The state after the directory cache left `skipped` images out.
pub open spec fn after_cache_check(run: ScanRunView, skipped: usize) -> ScanRunView {
    with_skipped(run, plus(run.result.images_skipped, skipped))
}

/// Whether a scan goes on after the directory cache kept `kept` images.
pub open spec fn goes_on_after_cache(kept: usize, cancelled: bool) -> bool {
    kept != 0 && !cancelled
}

/// The state after `duplicates` images were found in the catalogue and
/// `new_images` were not: the duplicates are skipped, in addition to what was
/// skipped before.
pub open spec fn after_duplicate_filter(
    run: ScanRunView,
    new_images: usize,
    duplicates: usize,
) -> ScanRunView {
    ScanRunView {
        skipped_duplicates: duplicates,
        total_to_process: new_images,
        ..with_skipped(run, plus(run.result.images_skipped, duplicates))
    }
}

/// Whether a scan goes on to its batches after the duplicates were set apart.
pub open spec fn goes_on_after_filter(new_images: usize, cancelled: bool) -> bool {
    new_images != 0 && !cancelled
}

/// Whether a batch is begun.
pub open spec fn batch_goes_on(cancelled: bool) -> bool {
    !cancelled
}

/// The report for a scan that was cancelled before its first batch.
pub open spec fn cancelled_at_start(total: usize, skipped: usize) -> ScanProgressView {
    ScanProgressView {
        current: 0,
        total,
        current_file: "Cancelled"@,
        percent: 0,
        skipped,
        cancelled: true,
    }
}

/// The report that the directory cache is being updated.
pub open spec fn cache_update_report(total: usize, directories: usize, skipped: usize) -> ScanProgressView {
    ScanProgressView {
        current: total,
        total,
        current_file: cache_update_label(directories),
        percent: 99,
        skipped,
        cancelled: false,
    }
}

/// The message for a task that broke off.
pub open spec fn task_failed_text(reason: Seq<char>) -> Seq<char> {
    "Task failed: "@ + reason
}

/// A scan under way.
pub struct ScanRun {
    result: BulkScanResult,
    total_discovered: usize,
    skipped_duplicates: usize,
    total_to_process: usize,
    images_processed: usize,
    sessions: StringHashMap<String>,
}

impl View for ScanRun {
    type V = ScanRunView;

    closed spec fn view(&self) -> ScanRunView {
        ScanRunView {
            result: self.result@,
            total_discovered: self.total_discovered,
            skipped_duplicates: self.skipped_duplicates,
            total_to_process: self.total_to_process,
            images_processed: self.images_processed,
            sessions: text_map_view(self.sessions@),
        }
    }
}

/// The report that a scan of `directory` begins.
pub fn scanning_report(directory: &str) -> (r: ScanProgress)
    ensures
        r@ == step_report(0, scanning_label(directory@), 0),
{
    ScanProgress::step(0, label_scanning(directory), 0)
}

impl ScanRun {
    /// A scan that has done nothing yet.
    pub fn begin() -> (run: ScanRun)
        ensures
            run@ == fresh_run(),
    {
        let run = ScanRun {
            result: BulkScanResult {
                images_imported: 0,
                collections_created: 0,
                images_skipped: 0,
                errors: Vec::new(),
            },
            total_discovered: 0,
            skipped_duplicates: 0,
            total_to_process: 0,
            images_processed: 0,
            sessions: StringHashMap::new(),
        };
        assert(run@.result.errors =~= Seq::empty());
        assert(run@.sessions =~= Map::empty());
        run
    }

    /// The walk is over and found `total` images. A scan that found nothing
    /// ends here.
    pub fn discovered(&mut self, total: usize) -> (step: Step)
        ensures
            final(self)@ == after_walk(old(self)@, total),
            step.proceed == (total != 0),
            reports_view(step.events@) == if total == 0 {
                seq![done_report(0, "No images found"@, 0)]
            } else {
                seq![step_report(total, "Checking directory cache..."@, 0)]
            },
    {
        self.total_discovered = total;
        let mut events: Vec<ScanProgress> = Vec::new();
        if total == 0 {
            events.push(ScanProgress::done(0, owned("No images found"), 0));
            assert(reports_view(events@) =~= seq![done_report(0, "No images found"@, 0)]);
            Step { events, proceed: false }
        } else {
            events.push(ScanProgress::step(total, owned("Checking directory cache..."), 0));
            assert(reports_view(events@) =~= seq![
                step_report(total, "Checking directory cache..."@, 0),
            ]);
            Step { events, proceed: true }
        }
    }

    /// The directory cache has decided: `kept` images of `changed_dirs`
    /// directories go on, `skipped` images of `unchanged_dirs` directories are
    /// left out and counted as skipped. A scan with nothing left ends here; a
    /// cancelled one ends without a further report.
    pub fn cache_checked(
        &mut self,
        kept: usize,
        changed_dirs: usize,
        skipped: usize,
        unchanged_dirs: usize,
        cancelled: bool,
    ) -> (step: Step)
        ensures
            final(self)@ == after_cache_check(old(self)@, skipped),
            step.proceed == goes_on_after_cache(kept, cancelled),
            reports_view(step.events@) == seq![
                step_report(
                    old(self)@.total_discovered,
                    cache_summary_label(kept, changed_dirs, skipped, unchanged_dirs),
                    skipped,
                ),
                if kept == 0 {
                    done_report(
                        old(self)@.total_discovered,
                        all_unchanged_label(unchanged_dirs),
                        skipped,
                    )
                } else {
                    step_report(old(self)@.total_discovered, loading_label(kept), skipped)
                },
            ],
    {
        let total = self.total_discovered;
        self.result.images_skipped = sum(self.result.images_skipped, skipped);
        let mut events: Vec<ScanProgress> = Vec::new();
        events.push(
            ScanProgress::step(
                total,
                label_cache_summary(kept, changed_dirs, skipped, unchanged_dirs),
                skipped,
            ),
        );
        let ghost first = events@[0]@;
        if kept == 0 {
            events.push(ScanProgress::done(total, label_all_unchanged(unchanged_dirs), skipped));
            assert(reports_view(events@) =~= seq![first, events@[1]@]);
            Step { events, proceed: false }
        } else {
            events.push(ScanProgress::step(total, label_loading(kept), skipped));
            assert(reports_view(events@) =~= seq![first, events@[1]@]);
            Step { events, proceed: !cancelled }
        }
    }

    /// The storage paths of the catalogue are loaded, `existing` of them. A
    /// cancelled scan ends here.
    pub fn existing_loaded(&self, existing: usize, cancelled: bool) -> (step: Step)
        ensures
            step.proceed == !cancelled,
            reports_view(step.events@) == seq![
                step_report(self@.total_discovered, loaded_label(existing), 0),
            ],
    {
        let mut events: Vec<ScanProgress> = Vec::new();
        events.push(ScanProgress::step(self.total_discovered, label_loaded(existing), 0));
        assert(reports_view(events@) =~= seq![events@[0]@]);
        Step { events, proceed: !cancelled }
    }

    /// The deduplication index is built. A cancelled scan ends here.
    pub fn index_loaded(&self, cancelled: bool) -> (step: Step)
        ensures
            step.proceed == !cancelled,
            reports_view(step.events@) == seq![
                step_report(self@.total_discovered, "Checking for duplicates..."@, 0),
            ],
    {
        let mut events: Vec<ScanProgress> = Vec::new();
        events.push(
            ScanProgress::step(self.total_discovered, owned("Checking for duplicates..."), 0),
        );
        assert(reports_view(events@) =~= seq![events@[0]@]);
        Step { events, proceed: !cancelled }
    }

    /// The images are set apart: `new_images` to process, `duplicates` that
    /// the catalogue holds. The duplicates count as skipped, beside the images
    /// that the directory cache left out. A scan with nothing new ends here,
    /// and so does a cancelled one.
    pub fn duplicates_filtered(&mut self, new_images: usize, duplicates: usize, cancelled: bool) -> (step:
        Step)
        ensures
            final(self)@ == after_duplicate_filter(old(self)@, new_images, duplicates),
            step.proceed == goes_on_after_filter(new_images, cancelled),
            reports_view(step.events@) == {
                let first = step_report(
                    old(self)@.total_discovered,
                    new_images_label(new_images, duplicates),
                    duplicates,
                );
                if new_images == 0 {
                    seq![
                        first,
                        done_report(
                            old(self)@.total_discovered,
                            "All images already exist"@,
                            duplicates,
                        ),
                    ]
                } else if cancelled {
                    seq![first, cancelled_at_start(old(self)@.total_discovered, duplicates)]
                } else {
                    seq![first]
                }
            },
    {
        let total = self.total_discovered;
        self.result.images_skipped = sum(self.result.images_skipped, duplicates);
        self.skipped_duplicates = duplicates;
        self.total_to_process = new_images;
        let mut events: Vec<ScanProgress> = Vec::new();
        events.push(ScanProgress::step(total, label_new_images(new_images, duplicates), duplicates));
        let ghost first = events@[0]@;
        if new_images == 0 {
            events.push(ScanProgress::done(total, owned("All images already exist"), duplicates));
            assert(reports_view(events@) =~= seq![first, events@[1]@]);
            Step { events, proceed: false }
        } else if cancelled {
            events.push(
                ScanProgress {
                    current: 0,
                    total,
                    current_file: owned("Cancelled"),
                    percent: 0,
                    skipped: duplicates,
                    cancelled: true,
                },
            );
            assert(reports_view(events@) =~= seq![first, events@[1]@]);
            Step { events, proceed: false }
        } else {
            assert(reports_view(events@) =~= seq![first]);
            Step { events, proceed: true }
        }
    }

    /// The number of batches of this scan.
    pub fn batches(&self) -> (n: usize)
        ensures
            n == batches_of(self@.total_to_process as nat),
    {
        batch_count(self.total_to_process)
    }

    /// A batch of `batch_len` images is about to begin; batches are counted
    /// from zero. A cancelled scan ends here, with a report that says so.
    pub fn batch_started(&self, batch_index: usize, batch_len: usize, cancelled: bool) -> (step: Step)
        ensures
            step.proceed == batch_goes_on(cancelled),
            reports_view(step.events@) == seq![
                running_report(
                    dealt_with(self@),
                    self@.total_discovered,
                    if cancelled {
                        "Cancelled"@
                    } else {
                        batch_label(
                            one_more(batch_index),
                            batches_of(self@.total_to_process as nat) as usize,
                            batch_len,
                        )
                    },
                    self@.result.images_skipped,
                    cancelled,
                ),
            ],
    {
        let current = sum(self.skipped_duplicates, self.images_processed);
        let label = if cancelled {
            owned("Cancelled")
        } else {
            label_batch(bump(batch_index), self.batches(), batch_len)
        };
        let mut events: Vec<ScanProgress> = Vec::new();
        events.push(
            ScanProgress::running(
                current,
                self.total_discovered,
                label,
                self.result.images_skipped,
                cancelled,
            ),
        );
        assert(reports_view(events@) =~= seq![events@[0]@]);
        Step { events, proceed: !cancelled }
    }

    /// The processing of an image broke off and gave nothing: the image is
    /// skipped and the reason recorded.
    pub fn task_failed(&mut self, reason: &str)
        ensures
            final(self)@ == with_one_skipped(with_error(old(self)@, task_failed_text(reason@))),
    {
        let mut message = owned("Task failed: ");
        message.append(reason);
        self.result.errors.push(message);
        self.result.images_skipped = bump(self.result.images_skipped);
        assert(views(self.result.errors@) =~= views(old(self).result.errors@).push(
            task_failed_text(reason@),
        ));
    }

    /// The report before the directory cache is updated for `directories`
    /// directories, if there is any to update.
    pub fn cache_update_started(&self, directories: usize) -> (r: Option<ScanProgress>)
        ensures
            match r {
                Some(p) => directories != 0 && p@ == cache_update_report(
                    self@.total_discovered,
                    directories,
                    self@.result.images_skipped,
                ),
                None => directories == 0,
            },
    {
        if directories == 0 {
            None
        } else {
            Some(
                ScanProgress {
                    current: self.total_discovered,
                    total: self.total_discovered,
                    current_file: label_cache_update(directories),
                    percent: 99,
                    skipped: self.result.images_skipped,
                    cancelled: false,
                },
            )
        }
    }

    /// The number of images imported so far.
    pub fn images_imported(&self) -> (n: usize)
        ensures
            n == self@.result.images_imported,
    {
        self.result.images_imported
    }

    /// The number of collections created so far.
    pub fn collections_created(&self) -> (n: usize)
        ensures
            n == self@.result.collections_created,
    {
        self.result.collections_created
    }

    /// The number of images skipped so far.
    pub fn images_skipped(&self) -> (n: usize)
        ensures
            n == self@.result.images_skipped,
    {
        self.result.images_skipped
    }

    /// Ends the scan and hands out what it did. This is the result of a scan
    /// that ran to its end and of one that ended early alike.
    pub fn finish(self) -> (result: BulkScanResult)
        ensures
            result@ == self@.result,
    {
        self.result
    }
}

/// The name of the collection that an image with this metadata belongs to.
pub open spec fn session_name_of(metadata: FitsMetadataView) -> Seq<char> {
    collection_name_of(session_key_of(metadata.date_obs))
}

/// How to go on with a processed image.
pub enum ItemPlan {
    /// The image is skipped: it could not be processed, or it has no metadata.
    Skip,
    /// The collection of the image's session is known; the image is placed.
    Place { collection_id: String },
    /// The collection of the image's session is to be looked up by its name.
    Resolve { key: SessionKey, name: String },
}

/// How to go on with a processed image, as mathematical values.
pub enum ItemPlanView {
    Skip,
    Place { collection_id: Seq<char> },
    Resolve { key: SessionKeyView, name: Seq<char> },
}

impl View for ItemPlan {
    type V = ItemPlanView;

    open spec fn view(&self) -> ItemPlanView {
        match *self {
            ItemPlan::Skip => ItemPlanView::Skip,
            ItemPlan::Place { collection_id } => ItemPlanView::Place {
                collection_id: collection_id@,
            },
            ItemPlan::Resolve { key, name } => ItemPlanView::Resolve { key: key@, name: name@ },
        }
    }
}

/// What the caller is told when a processed image is taken up.
pub struct ItemStep {
    /// The report to send out.
    pub event: ScanProgress,
    /// How to go on with the image.
    pub plan: ItemPlan,
}

/// Whether a processed image can be written: it was processed without error
/// and has metadata.
pub open spec fn is_writable(processed: ProcessedImageView) -> bool {
    processed.error is None && processed.metadata is Some
}

/// How to go on with a processed image in a given state of the scan.
pub open spec fn plan_of(run: ScanRunView, processed: ProcessedImageView) -> ItemPlanView {
    if !is_writable(processed) {
        ItemPlanView::Skip
    } else {
        let name = session_name_of(processed.metadata->0);
        if run.sessions.contains_key(name) {
            ItemPlanView::Place { collection_id: run.sessions[name] }
        } else {
            ItemPlanView::Resolve { key: session_key_of(processed.metadata->0.date_obs), name }
        }
    }
}

/// The state after a processed image is taken up: it is counted as taken up,
/// and an image that cannot be written is counted as skipped, its error
/// recorded.
pub open spec fn taken_up(run: ScanRunView, processed: ProcessedImageView) -> ScanRunView {
    let run = ScanRunView { images_processed: one_more(run.images_processed), ..run };
    if processed.error is Some {
        with_one_skipped(with_error(run, processed.error->0))
    } else if processed.metadata is None {
        with_one_skipped(run)
    } else {
        run
    }
}

/// The report for a processed image that is taken up.
pub open spec fn item_report(run: ScanRunView, processed: ProcessedImageView) -> ScanProgressView {
    running_report(
        plus(run.skipped_duplicates, one_more(run.images_processed)),
        run.total_discovered,
        processed.discovered.base_name,
        run.result.images_skipped,
        false,
    )
}

/// The state with the collection of a session noted.
pub open spec fn with_session(run: ScanRunView, name: Seq<char>, collection_id: Seq<char>) -> ScanRunView {
    ScanRunView { sessions: run.sessions.insert(name, collection_id), ..run }
}

/// The state after a collection was created for a session.
pub open spec fn with_created(run: ScanRunView, name: Seq<char>, collection_id: Seq<char>) -> ScanRunView {
    let run = with_session(run, name, collection_id);
    ScanRunView {
        result: BulkScanResultView {
            collections_created: one_more(run.result.collections_created),
            ..run.result
        },
        ..run
    }
}

/// The state with one more image imported.
pub open spec fn with_import(run: ScanRunView) -> ScanRunView {
    ScanRunView {
        result: BulkScanResultView {
            images_imported: one_more(run.result.images_imported),
            ..run.result
        },
        ..run
    }
}

/// The message for a collection that could not be looked up.
pub open spec fn lookup_failed_text(reason: Seq<char>) -> Seq<char> {
    "Failed to check for existing collection: "@ + reason
}

/// The message for a collection that could not be created.
pub open spec fn create_failed_text(reason: Seq<char>) -> Seq<char> {
    "Failed to create collection: "@ + reason
}

/// The message for an image that could not be written.
pub open spec fn image_failed_text(base_name: Seq<char>, reason: Seq<char>) -> Seq<char> {
    "Failed to create image "@ + base_name + ": "@ + reason
}

/// The message for an image that could not be linked to its collection.
pub open spec fn link_failed_text(reason: Seq<char>) -> Seq<char> {
    "Failed to add image to collection: "@ + reason
}

/// Which image a collection is asked for.
#[derive(Clone, Copy, Debug, PartialEq, Eq, Structural)]
pub enum ItemKind {
    /// An image that the scan took up for writing.
    New,
    /// An image that the filter set apart as a duplicate; it is counted as
    /// skipped already.
    Duplicate,
}

/// The state after an image was given up for a reason: the reason is
/// recorded, and an image that was not counted yet is counted as skipped.
pub open spec fn given_up(run: ScanRunView, kind: ItemKind, reason: Seq<char>) -> ScanRunView {
    match kind {
        ItemKind::New => with_one_skipped(with_error(run, reason)),
        ItemKind::Duplicate => with_error(run, reason),
    }
}

/// What the catalogue answered when a collection was looked up by name.
pub enum LookupOutcome {
    /// There is such a collection, with this identifier.
    Found(String),
    /// There is none.
    Missing,
    /// The lookup failed, for this reason.
    Failed(String),
}

/// How to go on after a lookup.
pub enum Resolution {
    /// The image is placed in this collection.
    Place { collection_id: String },
    /// The collection is to be created from this row, with the provenance
    /// stored in its free-form data.
    Create { record: NewCollection, provenance: CollectionProvenance },
    /// The image is given up.
    Abandon,
}

/// What became of the processing of one image on the workers.
pub enum TaskOutcome {
    /// It ran to its end and gave this.
    Finished(ProcessedImage),
    /// It broke off, for this reason.
    Failed(String),
    /// It was called off before it ended.
    CalledOff,
}

/// How to find the collection of a duplicate whose stored observation
/// timestamp is `date_obs`.
pub open spec fn duplicate_plan_of(run: ScanRunView, date_obs: Option<Seq<char>>) -> ItemPlanView {
    let name = collection_name_of(session_key_of(date_obs));
    if run.sessions.contains_key(name) {
        ItemPlanView::Place { collection_id: run.sessions[name] }
    } else {
        ItemPlanView::Resolve { key: session_key_of(date_obs), name }
    }
}

/// The image to link to a collection for a duplicate: the one stored under
/// its storage path, unless there is none or it is linked already.
pub open spec fn duplicate_link_of(
    index: crate::dedup::DedupIndexView,
    collection_id: Seq<char>,
    discovered: crate::discovery::DiscoveredImageView,
) -> Option<Seq<char>> {
    match storage_path_of(discovered) {
        Some(path) => link_needed(index, collection_id, path),
        None => None,
    }
}

/// Where a processed image goes.
pub enum Placement {
    /// The catalogue holds the image already. It is linked to the collection
    /// by `link` where it was not linked before.
    Duplicate { link: Option<NewCollectionImage> },
    /// The image is new and is to be written from this row.
    Insert { image: NewImage },
}

impl ScanRun {
    /// Takes up a processed image for writing.
    pub fn begin_item(&mut self, processed: &ProcessedImage) -> (step: ItemStep)
        ensures
            final(self)@ == taken_up(old(self)@, processed@),
            step.event@ == item_report(old(self)@, processed@),
            step.plan@ == plan_of(old(self)@, processed@),
    {
        self.images_processed = bump(self.images_processed);
        let event = ScanProgress::running(
            sum(self.skipped_duplicates, self.images_processed),
            self.total_discovered,
            processed.discovered.base_name.clone(),
            self.result.images_skipped,
            false,
        );
        if let Some(error) = &processed.error {
            self.result.errors.push(error.clone());
            self.result.images_skipped = bump(self.result.images_skipped);
            assert(views(self.result.errors@) =~= views(old(self).result.errors@).push(error@));
            return ItemStep { event, plan: ItemPlan::Skip };
        }
        let metadata = match &processed.metadata {
            Some(m) => m,
            None => {
                self.result.images_skipped = bump(self.result.images_skipped);
                return ItemStep { event, plan: ItemPlan::Skip };
            },
        };
        let key = SessionKey::of(&metadata.date_obs);
        let name = key.collection_name();
        let plan = match self.sessions.get(name.as_str()) {
            Some(id) => ItemPlan::Place { collection_id: id.clone() },
            None => ItemPlan::Resolve { key, name },
        };
        ItemStep { event, plan }
    }

    /// Takes in what the catalogue answered when the collection of a session
    /// was looked up by its name. A collection that exists is noted and used.
    /// A collection is created only where there is none. A lookup that failed
    /// gives the image up: the reason is recorded and the image is skipped.
    pub fn collection_looked_up(
        &mut self,
        kind: ItemKind,
        key: &SessionKey,
        outcome: LookupOutcome,
        user_id: &str,
        directory: &str,
        tags: &Option<String>,
    ) -> (r: Resolution)
        ensures
            match outcome {
                LookupOutcome::Found(id) => {
                    &&& final(self)@ == with_session(old(self)@, collection_name_of(key@), id@)
                    &&& r matches Resolution::Place { collection_id }
                    &&& collection_id@ == id@
                },
                LookupOutcome::Missing => {
                    &&& final(self)@ == old(self)@
                    &&& r matches Resolution::Create { record, provenance }
                    &&& record.id@.len() == ID_LENGTH
                    &&& is_session_row(record, key@, user_id@, directory@, opt_view(*tags))
                    &&& opt_view(provenance.session_date) == provenance_date(key@)
                    &&& provenance.auto_imported
                    &&& provenance.source_directory@ == directory@
                },
                LookupOutcome::Failed(reason) => {
                    &&& final(self)@ == given_up(old(self)@, kind, lookup_failed_text(reason@))
                    &&& r is Abandon
                },
            },
    {
        match outcome {
            LookupOutcome::Found(id) => {
                self.sessions.insert(key.collection_name(), id.clone());
                assert(text_map_view(self.sessions@) =~= text_map_view(old(self).sessions@).insert(
                    collection_name_of(key@),
                    id@,
                ));
                Resolution::Place { collection_id: id }
            },
            LookupOutcome::Missing => Resolution::Create {
                record: new_session_collection(
                    user_id,
                    key.collection_name(),
                    key,
                    directory,
                    tags,
                ),
                provenance: session_provenance(key, directory),
            },
            LookupOutcome::Failed(reason) => {
                let mut message = owned("Failed to check for existing collection: ");
                message.append(reason.as_str());
                self.result.errors.push(message);
                match kind {
                    ItemKind::New => {
                        self.result.images_skipped = bump(self.result.images_skipped);
                    },
                    ItemKind::Duplicate => {},
                }
                assert(views(self.result.errors@) =~= views(old(self).result.errors@).push(
                    lookup_failed_text(reason@),
                ));
                Resolution::Abandon
            },
        }
    }

    /// Takes in what came of creating the collection of a session: the
    /// identifier of the new collection, or the reason why there is none. A
    /// new collection is counted and noted, and the image is placed in it. A
    /// failure gives the image up: the reason is recorded and the image is
    /// skipped.
    pub fn collection_created(
        &mut self,
        kind: ItemKind,
        key: &SessionKey,
        outcome: Result<String, String>,
    ) -> (r: Option<String>)
        ensures
            match outcome {
                Ok(id) => final(self)@ == with_created(old(self)@, collection_name_of(key@), id@)
                    && opt_view(r) == Some(id@),
                Err(reason) => final(self)@ == given_up(
                    old(self)@,
                    kind,
                    create_failed_text(reason@),
                ) && r is None,
            },
    {
        match outcome {
            Ok(id) => {
                self.result.collections_created = bump(self.result.collections_created);
                self.sessions.insert(key.collection_name(), id.clone());
                assert(text_map_view(self.sessions@) =~= text_map_view(old(self).sessions@).insert(
                    collection_name_of(key@),
                    id@,
                ));
                Some(id)
            },
            Err(reason) => {
                let mut message = owned("Failed to create collection: ");
                message.append(reason.as_str());
                self.result.errors.push(message);
                match kind {
                    ItemKind::New => {
                        self.result.images_skipped = bump(self.result.images_skipped);
                    },
                    ItemKind::Duplicate => {},
                }
                assert(views(self.result.errors@) =~= views(old(self).result.errors@).push(
                    create_failed_text(reason@),
                ));
                None
            },
        }
    }

    /// Places an image in a collection. An image that the catalogue holds
    /// already is skipped and never written again; it is linked to the
    /// collection where it was not linked before. Any other image is to be
    /// written.
    pub fn place_item(
        &mut self,
        discovered: &DiscoveredImage,
        metadata: &FitsMetadata,
        thumbnail: Option<String>,
        metadata_json: Option<String>,
        collection_id: &str,
        index: &DedupIndex,
        user_id: &str,
        tags: &Option<String>,
    ) -> (r: Placement)
        requires
            index.wf(),
        ensures
            match r {
                Placement::Duplicate { link } => {
                    &&& is_duplicate(discovered@, index@.paths)
                    &&& final(self)@ == with_one_skipped(old(self)@)
                    &&& match link_needed(
                        index@,
                        collection_id@,
                        storage_path_of(discovered@)->0,
                    ) {
                        Some(image_id) => link is Some && link->0.id@.len() == ID_LENGTH
                            && link->0.collection_id@ == collection_id@ && link->0.image_id@
                            == image_id,
                        None => link is None,
                    }
                },
                Placement::Insert { image } => {
                    &&& !is_duplicate(discovered@, index@.paths)
                    &&& final(self)@ == old(self)@
                    &&& image.id@.len() == ID_LENGTH
                    &&& is_image_row(
                        image,
                        user_id@,
                        discovered@,
                        metadata@,
                        opt_view(*tags),
                        opt_view(metadata_json),
                        opt_view(thumbnail),
                    )
                },
            },
    {
        if let Some(path) = storage_path(discovered) {
            if index.contains_path(path.as_str()) {
                self.result.images_skipped = bump(self.result.images_skipped);
                let link = match membership_to_add(index, collection_id, path.as_str()) {
                    Some(image_id) => Some(new_membership(collection_id, image_id.as_str())),
                    None => None,
                };
                return Placement::Duplicate { link };
            }
        }
        Placement::Insert {
            image: new_image_record(user_id, discovered, metadata, tags, metadata_json, thumbnail),
        }
    }

    /// How to find the collection of an image that the filter set apart as a
    /// duplicate. Its header is not read again: `date_obs` is the observation
    /// timestamp that the catalogue holds for it. The collection is the one of
    /// the session, known already or to be looked up; a duplicate is never
    /// skipped a second time.
    pub fn plan_duplicate(&self, date_obs: &Option<String>) -> (plan: ItemPlan)
        ensures
            plan@ == duplicate_plan_of(self@, opt_view(*date_obs)),
    {
        let key = SessionKey::of(date_obs);
        let name = key.collection_name();
        match self.sessions.get(name.as_str()) {
            Some(id) => ItemPlan::Place { collection_id: id.clone() },
            None => ItemPlan::Resolve { key, name },
        }
    }

    /// The link to make for an image that the filter set apart as a
    /// duplicate, once its collection is known: the image that the catalogue
    /// holds under its storage path is linked to the collection, unless it is
    /// linked already. Nothing is counted and no image is written.
    pub fn link_duplicate(
        &self,
        discovered: &DiscoveredImage,
        collection_id: &str,
        index: &DedupIndex,
    ) -> (link: Option<NewCollectionImage>)
        requires
            index.wf(),
        ensures
            match duplicate_link_of(index@, collection_id@, discovered@) {
                Some(image_id) => link is Some && link->0.id@.len() == ID_LENGTH
                    && link->0.collection_id@ == collection_id@ && link->0.image_id@ == image_id,
                None => link is None,
            },
    {
        match storage_path(discovered) {
            Some(path) => match membership_to_add(index, collection_id, path.as_str()) {
                Some(image_id) => Some(new_membership(collection_id, image_id.as_str())),
                None => None,
            },
            None => None,
        }
    }

    /// Whether work on the batch goes on: whether another image is handed to
    /// the workers, and whether the result of another image is waited for. A
    /// scan that is cancelled hands out nothing more and waits for nothing.
    pub fn goes_on(cancelled: bool) -> (r: bool)
        ensures
            r == batch_goes_on(cancelled),
    {
        !cancelled
    }

    /// Takes in what became of the processing of one image, waited for while
    /// the scan was not cancelled. A result goes on to be written. Processing
    /// that broke off skips the image, with the reason recorded. Processing
    /// that was called off leaves no trace.
    pub fn take_result(&mut self, outcome: TaskOutcome) -> (r: Option<ProcessedImage>)
        ensures
            match outcome {
                TaskOutcome::Finished(processed) => final(self)@ == old(self)@ && r == Some(
                    processed,
                ),
                TaskOutcome::Failed(reason) => final(self)@ == with_one_skipped(
                    with_error(old(self)@, task_failed_text(reason@)),
                ) && r is None,
                TaskOutcome::CalledOff => final(self)@ == old(self)@ && r is None,
            },
    {
        match outcome {
            TaskOutcome::Finished(processed) => Some(processed),
            TaskOutcome::Failed(reason) => {
                self.task_failed(reason.as_str());
                None
            },
            TaskOutcome::CalledOff => None,
        }
    }

    /// The image was written. It counts as imported, also where linking it to
    /// its collection failed; the reason of that failure is recorded.
    pub fn image_inserted(&mut self, link_failure: Option<&str>)
        ensures
            final(self)@ == with_import(
                match link_failure {
                    Some(reason) => with_error(old(self)@, link_failed_text(reason@)),
                    None => old(self)@,
                },
            ),
    {
        if let Some(reason) = link_failure {
            let mut message = owned("Failed to add image to collection: ");
            message.append(reason);
            self.result.errors.push(message);
            assert(views(self.result.errors@) =~= views(old(self).result.errors@).push(
                link_failed_text(reason@),
            ));
        }
        self.result.images_imported = bump(self.result.images_imported);
    }

    /// The image could not be written. It is skipped and the reason recorded.
    pub fn image_insert_failed(&mut self, base_name: &str, reason: &str)
        ensures
            final(self)@ == with_one_skipped(
                with_error(old(self)@, image_failed_text(base_name@, reason@)),
            ),
    {
        let mut message = owned("Failed to create image ");
        message.append(base_name);
        message.append(": ");
        message.append(reason);
        self.result.errors.push(message);
        self.result.images_skipped = bump(self.result.images_skipped);
        assert(views(self.result.errors@) =~= views(old(self).result.errors@).push(
            image_failed_text(base_name@, reason@),
        ));
    }
}

/// A scan of a tree in which every directory is unchanged imports nothing:
/// the cache keeps no image, every image found is counted as skipped, and the
/// scan ends before anything is loaded or decoded.
pub proof fn lemma_unchanged_rescan_imports_nothing(
    images: Seq<crate::discovery::DiscoveredImageView>,
    states: Seq<crate::cache::DirectoryStateView>,
    cancelled: bool,
)
    requires
        images.len() <= usize::MAX,
        forall|i: int|
            0 <= i < images.len() ==> crate::cache::unchanged_dirs(states).contains(
                (#[trigger] images[i]).directory,
            ),
    ensures
        ({
            let skip = crate::cache::unchanged_dirs(states);
            let kept = crate::cache::kept_images(images, skip).len() as usize;
            let skipped = crate::cache::skipped_images(images, skip).len() as usize;
            let run = after_cache_check(after_walk(fresh_run(), images.len() as usize), skipped);
            &&& kept == 0
            &&& !goes_on_after_cache(kept, cancelled)
            &&& run.result.images_imported == 0
            &&& run.result.images_skipped == images.len()
        }),
{
    crate::cache::lemma_unchanged_tree_is_skipped(images, states);
}

/// Two images of one session go to one collection, and at most one
/// collection is created for them. The first image makes the scan look the
/// collection up; whether it is found or created then, the second image is
/// placed in the same collection without a lookup, and taking the second up
/// and writing it creates nothing. One collection is created where there was
/// none, and none where there was one.
pub proof fn lemma_same_session_shares_collection(
    run: ScanRunView,
    first: ProcessedImageView,
    second: ProcessedImageView,
    collection_id: Seq<char>,
    found: bool,
)
    requires
        is_writable(first),
        is_writable(second),
        session_name_of(first.metadata->0) == session_name_of(second.metadata->0),
        !run.sessions.contains_key(session_name_of(first.metadata->0)),
    ensures
        ({
            let name = session_name_of(first.metadata->0);
            let resolved = if found {
                with_session(taken_up(run, first), name, collection_id)
            } else {
                with_created(taken_up(run, first), name, collection_id)
            };
            let written = with_import(resolved);
            &&& plan_of(run, first) == (ItemPlanView::Resolve {
                key: session_key_of(first.metadata->0.date_obs),
                name,
            })
            &&& plan_of(written, second) == (ItemPlanView::Place { collection_id })
            &&& resolved.result.collections_created == if found {
                run.result.collections_created
            } else {
                one_more(run.result.collections_created)
            }
            &&& with_import(taken_up(written, second)).result.collections_created
                == resolved.result.collections_created
        }),
{
}

/// An image without a timestamp that can be read belongs to the collection
/// named `Unknown Session`. Where the catalogue has that collection, a scan
/// uses it and creates none: the lookup by name comes first, and a collection
/// that is found is only noted.
pub proof fn lemma_unknown_session_is_reused(
    run: ScanRunView,
    processed: ProcessedImageView,
    collection_id: Seq<char>,
)
    requires
        is_writable(processed),
        match processed.metadata->0.date_obs {
            Some(text) => crate::session::session_date(text) is None,
            None => true,
        },
    ensures
        session_name_of(processed.metadata->0) == crate::session::UNKNOWN_SESSION@,
        plan_of(run, processed) is Place || plan_of(run, processed) == (ItemPlanView::Resolve {
            key: SessionKeyView::Unknown,
            name: crate::session::UNKNOWN_SESSION@,
        }),
        ({
            let found = with_session(
                taken_up(run, processed),
                crate::session::UNKNOWN_SESSION@,
                collection_id,
            );
            &&& found.result.collections_created == run.result.collections_created
            &&& plan_of(found, processed) == (ItemPlanView::Place { collection_id })
        }),
{
}

/// A scan that finds itself cancelled at a checkpoint does not go on, whatever
/// is left to do. Images are taken up only by steps that follow a checkpoint
/// that let the scan go on, so the result of a cancelled scan counts the images
/// taken up before the checkpoint and no others.
pub proof fn lemma_cancelled_scan_does_not_go_on(kept: usize, new_images: usize)
    ensures
        !goes_on_after_cache(kept, true),
        !goes_on_after_filter(new_images, true),
        !batch_goes_on(true),
{
}

} // verus!
