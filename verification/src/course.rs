//! The course of a scan as a whole: what the state of a scan is after a run
//! of images went through the writing steps, whatever the catalogue answered
//! along the way.

use vstd::prelude::*;
use crate::process::ProcessedImageView;
use crate::scan::{
    after_cache_check, after_duplicate_filter, after_walk, create_failed_text, fresh_run, given_up, image_failed_text, is_writable, link_failed_text,
    lookup_failed_text, plan_of, session_name_of, taken_up, with_created, with_error,
    with_import, with_one_skipped, with_session, ItemKind, ItemPlanView, ScanRunView,
};

verus! {

/// What the catalogue answered when the collection of a session was asked
/// for.
pub enum Resolved {
    /// The collection exists, with this identifier.
    Found(Seq<char>),
    /// There was none, and one was created with this identifier.
    Created(Seq<char>),
    /// There was none, and creating one failed for this reason.
    CreateFailed(Seq<char>),
    /// The lookup failed for this reason.
    LookupFailed(Seq<char>),
}

/// What came of placing an image in its collection.
pub enum Written {
    /// The catalogue held the image already.
    Duplicate,
    /// The image was written; linking it to the collection may have failed
    /// for the reason given.
    Inserted(Option<Seq<char>>),
    /// Writing the image failed for this reason.
    InsertFailed(Seq<char>),
}

/// What the catalogue answered for one image. An answer counts only where the
/// scan asked: no collection is asked for where the scan knows it or skips
/// the image, and nothing is written for an image that was skipped or given
/// up.
pub struct Answers {
    pub resolved: Resolved,
    pub written: Written,
}

/// The state after an image was placed in its collection.
pub open spec fn after_placing(
    run: ScanRunView,
    item: ProcessedImageView,
    written: Written,
) -> ScanRunView {
    match written {
        Written::Duplicate => with_one_skipped(run),
        Written::Inserted(None) => with_import(run),
        Written::Inserted(Some(reason)) => with_import(with_error(run, link_failed_text(reason))),
        Written::InsertFailed(reason) => with_one_skipped(
            with_error(run, image_failed_text(item.discovered.base_name, reason)),
        ),
    }
}

/// The state after one image went through the writing steps.
pub open spec fn after_item(run: ScanRunView, item: ProcessedImageView, answers: Answers) -> ScanRunView {
    let taken = taken_up(run, item);
    match plan_of(run, item) {
        ItemPlanView::Skip => taken,
        ItemPlanView::Place { collection_id } => after_placing(taken, item, answers.written),
        ItemPlanView::Resolve { key, name } => match answers.resolved {
            Resolved::Found(id) => after_placing(with_session(taken, name, id), item, answers.written),
            Resolved::Created(id) => after_placing(
                with_created(taken, name, id),
                item,
                answers.written,
            ),
            Resolved::CreateFailed(reason) => given_up(
                taken,
                ItemKind::New,
                create_failed_text(reason),
            ),
            Resolved::LookupFailed(reason) => given_up(
                taken,
                ItemKind::New,
                lookup_failed_text(reason),
            ),
        },
    }
}

/// The state after a run of images went through the writing steps one after
/// the other.
pub open spec fn after_items(
    run: ScanRunView,
    items: Seq<ProcessedImageView>,
    answers: Seq<Answers>,
) -> ScanRunView
    recommends
        items.len() == answers.len(),
    decreases items.len(),
{
    if items.len() == 0 || answers.len() == 0 {
        run
    } else {
        after_item(
            after_items(run, items.drop_last(), answers.drop_last()),
            items.last(),
            answers.last(),
        )
    }
}

/// The number of images that a scan has counted, as imported or as skipped.
pub open spec fn counted(run: ScanRunView) -> int {
    run.result.images_imported + run.result.images_skipped
}

/// An image that goes through the writing steps is counted at most once, as
/// imported or as skipped, never as both; an image that was given up is
/// skipped. At most one collection is created for it, and none unless the
/// scan asked for one and the catalogue had none.
pub proof fn lemma_item_counts_at_most_once(
    run: ScanRunView,
    item: ProcessedImageView,
    answers: Answers,
)
    ensures
        counted(run) <= counted(after_item(run, item, answers)) <= counted(run) + 1,
        run.result.images_imported <= after_item(run, item, answers).result.images_imported,
        run.result.images_skipped <= after_item(run, item, answers).result.images_skipped,
        run.result.collections_created <= after_item(
            run,
            item,
            answers,
        ).result.collections_created <= run.result.collections_created + 1,
        after_item(run, item, answers).result.collections_created
            != run.result.collections_created ==> plan_of(run, item) is Resolve
            && answers.resolved is Created,
        after_item(run, item, answers).result.images_imported != run.result.images_imported
            ==> answers.written is Inserted,
{
}

/// Every image that goes through the writing steps is counted once: as
/// imported, or as skipped because the catalogue held it, because it could not
/// be processed or because writing it failed.
pub proof fn lemma_item_is_counted_once(run: ScanRunView, item: ProcessedImageView, answers: Answers)
    requires
        counted(run) < usize::MAX,
    ensures
        counted(after_item(run, item, answers)) == counted(run) + 1,
{
}

/// Every image of a run that goes through the writing steps is counted once,
/// whatever the catalogue answers: a failure with one image does not end the
/// run, and each image ends up as imported or as skipped.
pub proof fn lemma_items_are_counted_once(
    run: ScanRunView,
    items: Seq<ProcessedImageView>,
    answers: Seq<Answers>,
)
    requires
        items.len() == answers.len(),
        counted(run) + items.len() <= usize::MAX,
    ensures
        counted(after_items(run, items, answers)) == counted(run) + items.len(),
    decreases items.len(),
{
    if items.len() > 0 {
        lemma_items_are_counted_once(run, items.drop_last(), answers.drop_last());
        lemma_item_is_counted_once(
            after_items(run, items.drop_last(), answers.drop_last()),
            items.last(),
            answers.last(),
        );
    }
}

/// A scan that runs to its end counts every image that the walk found once:
/// the images that the directory cache left out and the duplicates as
/// skipped, and each new image as imported or as skipped.
pub proof fn lemma_every_image_is_counted_once(
    found: usize,
    left_out: usize,
    duplicates: usize,
    items: Seq<ProcessedImageView>,
    answers: Seq<Answers>,
)
    requires
        items.len() == answers.len(),
        left_out + duplicates + items.len() == found,
    ensures
        counted(
            after_items(
                after_duplicate_filter(
                    after_cache_check(after_walk(fresh_run(), found), left_out),
                    items.len() as usize,
                    duplicates,
                ),
                items,
                answers,
            ),
        ) == found,
{
    let start = after_duplicate_filter(
        after_cache_check(after_walk(fresh_run(), found), left_out),
        items.len() as usize,
        duplicates,
    );
    assert(counted(start) == left_out + duplicates);
    lemma_items_are_counted_once(start, items, answers);
}

/// A scan counts only the images that it took up. After any run of images,
/// whatever the catalogue answered, the number of images counted has grown by
/// at most the number of images in the run, and so has the number of
/// collections created. A scan that is cancelled after these images therefore
/// reports nothing of the images that were still being processed.
pub proof fn lemma_scan_counts_only_what_it_took_up(
    run: ScanRunView,
    items: Seq<ProcessedImageView>,
    answers: Seq<Answers>,
)
    requires
        items.len() == answers.len(),
    ensures
        counted(run) <= counted(after_items(run, items, answers)) <= counted(run) + items.len(),
        run.result.collections_created <= after_items(
            run,
            items,
            answers,
        ).result.collections_created <= run.result.collections_created + items.len(),
        after_items(run, items, answers).total_discovered == run.total_discovered,
        after_items(run, items, answers).skipped_duplicates == run.skipped_duplicates,
    decreases items.len(),
{
    if items.len() > 0 {
        lemma_scan_counts_only_what_it_took_up(run, items.drop_last(), answers.drop_last());
        lemma_item_counts_at_most_once(
            after_items(run, items.drop_last(), answers.drop_last()),
            items.last(),
            answers.last(),
        );
    }
}

/// Within a scan a collection is asked for once: after a run of images in
/// which the collection of a session was found or created, every later
/// image of that session is placed without asking, as long as no answer for
/// the same session comes in between.
pub proof fn lemma_known_session_is_not_asked_again(
    run: ScanRunView,
    item: ProcessedImageView,
    answers: Answers,
    name: Seq<char>,
)
    requires
        run.sessions.contains_key(name),
    ensures
        after_item(run, item, answers).sessions.contains_key(name),
        plan_of(run, item) is Place || plan_of(run, item) is Skip || (plan_of(run, item) matches ItemPlanView::Resolve { name: asked, .. } && asked != name),
        !(plan_of(run, item) is Resolve) ==> after_item(run, item, answers).sessions == run.sessions,
{
}

/// Whether every one of `items` can be written and belongs to the session
/// whose collection is named `name`.
pub open spec fn all_of_session(items: Seq<ProcessedImageView>, name: Seq<char>) -> bool {
    forall|i: int|
        0 <= i < items.len() ==> is_writable(#[trigger] items[i]) && session_name_of(
            items[i].metadata->0,
        ) == name
}

/// One session, one collection: however many images of one session a scan
/// writes, and whatever the catalogue answers, at most one collection is
/// created for them, and none if the scan knew the collection before. Once
/// a collection was created, the scan knows it.
pub proof fn lemma_one_session_one_collection(
    run: ScanRunView,
    items: Seq<ProcessedImageView>,
    answers: Seq<Answers>,
    name: Seq<char>,
)
    requires
        items.len() == answers.len(),
        all_of_session(items, name),
    ensures
        ({
            let end = after_items(run, items, answers);
            &&& run.result.collections_created <= end.result.collections_created
                <= run.result.collections_created + 1
            &&& run.sessions.contains_key(name) ==> end.result.collections_created
                == run.result.collections_created && end.sessions.contains_key(name)
            &&& end.result.collections_created != run.result.collections_created
                ==> end.sessions.contains_key(name)
        }),
    decreases items.len(),
{
    if items.len() > 0 {
        let before = after_items(run, items.drop_last(), answers.drop_last());
        assert(all_of_session(items.drop_last(), name)) by {
            assert forall|i: int| 0 <= i < items.drop_last().len() implies is_writable(
                #[trigger] items.drop_last()[i],
            ) && session_name_of(items.drop_last()[i].metadata->0) == name by {
                assert(items.drop_last()[i] == items[i]);
            }
        }
        lemma_one_session_one_collection(run, items.drop_last(), answers.drop_last(), name);
        assert(is_writable(items.last()) && session_name_of(items.last().metadata->0) == name) by {
            assert(items[items.len() - 1] == items.last());
        }
        lemma_item_counts_at_most_once(before, items.last(), answers.last());
    }
}

} // verus!
