//! The directory walker: it takes the entries of a recursive listing one by
//! one and groups files of one directory and one stem into one image.

use vstd::prelude::*;
use crate::count::{bump, one_more};
use crate::discovery::{
    accepted_kind, classify_entry, entries_view, images_view, names_stacked, DiscoveredImage,
    DiscoveredImageView, FileEntry, FileEntryView, FileKind,
};
use crate::pairs::PairIndex;

verus! {

/// The number of files between two progress reports of a walk.
pub const SCAN_PROGRESS_INTERVAL: usize = 50;

/// Whether `item` is the image of this directory and name.
pub open spec fn same_key(item: DiscoveredImageView, directory: Seq<char>, name: Seq<char>) -> bool {
    item.directory == directory && item.base_name == name
}

/// The position of the image of this directory and name among `items`.
pub open spec fn position(
    items: Seq<DiscoveredImageView>,
    directory: Seq<char>,
    name: Seq<char>,
) -> Option<int>
    decreases items.len(),
{
    if items.len() == 0 {
        None
    } else if same_key(items.last(), directory, name) {
        Some(items.len() - 1)
    } else {
        position(items.drop_last(), directory, name)
    }
}

/// Whether no two of `items` share directory and name.
pub open spec fn distinct_keys(items: Seq<DiscoveredImageView>) -> bool {
    forall|i: int, j: int|
        0 <= i < j < items.len() ==> !same_key(
            #[trigger] items[j],
            (#[trigger] items[i]).directory,
            items[i].base_name,
        )
}

/// Whether an image has a raw frame or a preview.
pub open spec fn has_file(item: DiscoveredImageView) -> bool {
    item.fits_path is Some || item.jpeg_path is Some
}

/// Whether every one of `items` has a raw frame or a preview.
pub open spec fn all_have_files(items: Seq<DiscoveredImageView>) -> bool {
    forall|i: int| 0 <= i < items.len() ==> has_file(#[trigger] items[i])
}

/// `item` with the file at `path` as its raw frame or its preview.
pub open spec fn with_file(
    item: DiscoveredImageView,
    kind: FileKind,
    path: Seq<char>,
) -> DiscoveredImageView {
    match kind {
        FileKind::Raw => DiscoveredImageView { fits_path: Some(path), ..item },
        FileKind::Preview => DiscoveredImageView { jpeg_path: Some(path), ..item },
    }
}

/// The image that the first file of a directory and stem gives, before the
/// file's own path is filled in.
pub open spec fn fresh_item(entry: FileEntryView) -> DiscoveredImageView {
    DiscoveredImageView {
        base_name: entry.stem->0,
        directory: entry.parent,
        fits_path: None,
        jpeg_path: None,
        is_stacked: names_stacked(entry.stem->0),
    }
}

/// The images after a file of the given kind is taken in: the image of its
/// directory and stem gets the file's path, and a new image is added at the
/// end where there was none.
pub open spec fn merged(
    items: Seq<DiscoveredImageView>,
    entry: FileEntryView,
    kind: FileKind,
) -> Seq<DiscoveredImageView> {
    match position(items, entry.parent, entry.stem->0) {
        Some(i) => items.update(i, with_file(items[i], kind, entry.path)),
        None => items.push(with_file(fresh_item(entry), kind, entry.path)),
    }
}

/// The state of a walk as mathematical values.
pub struct WalkerView {
    pub items: Seq<DiscoveredImageView>,
    pub files_scanned: usize,
    pub stacked_only: bool,
    pub max_files: Option<usize>,
}

/// The state of a walk after one more entry of the listing.
pub open spec fn visited(w: WalkerView, entry: FileEntryView) -> WalkerView {
    if entry.is_dir {
        w
    } else {
        match accepted_kind(entry, w.stacked_only) {
            Some(kind) => WalkerView {
                items: merged(w.items, entry, kind),
                files_scanned: one_more(w.files_scanned),
                ..w
            },
            None => WalkerView { files_scanned: one_more(w.files_scanned), ..w },
        }
    }
}

/// Whether the walk ends after this entry: the entry was taken in and the
/// number of images has reached the cap.
pub open spec fn stops_after(w: WalkerView, entry: FileEntryView) -> bool {
    &&& accepted_kind(entry, w.stacked_only) is Some
    &&& w.max_files is Some
    &&& visited(w, entry).items.len() >= w.max_files->0
}

/// Whether a walk in this state reports progress before its next entry.
pub open spec fn at_checkpoint(w: WalkerView) -> bool {
    w.files_scanned as int % SCAN_PROGRESS_INTERVAL as int == 0
}

/// What a walk does at a checkpoint.
#[derive(Clone, Copy, Debug, PartialEq, Eq, Structural)]
pub enum Checkpoint {
    /// No checkpoint is due; the walk goes on.
    NotDue,
    /// The walk was cancelled and ends with what it has found.
    Stop,
    /// The walk goes on and reports how far it is.
    Report { files_scanned: usize, images_found: usize },
}

/// What a walk in state `w` does before its next entry when the cancellation
/// flag reads `cancelled`.
pub open spec fn checkpoint_of(w: WalkerView, cancelled: bool) -> Checkpoint {
    if !at_checkpoint(w) {
        Checkpoint::NotDue
    } else if cancelled {
        Checkpoint::Stop
    } else {
        Checkpoint::Report { files_scanned: w.files_scanned, images_found: w.items.len() as usize }
    }
}

/// `items` cut down to the cap, if there is one.
pub open spec fn capped(items: Seq<DiscoveredImageView>, max_files: Option<usize>) -> Seq<
    DiscoveredImageView,
> {
    match max_files {
        Some(max) => if items.len() > max {
            items.take(max as int)
        } else {
            items
        },
        None => items,
    }
}

/// What `position` says of the image it finds, and of all images where it
/// finds none.
pub proof fn lemma_position(items: Seq<DiscoveredImageView>, directory: Seq<char>, name: Seq<char>)
    ensures
        match position(items, directory, name) {
            Some(i) => 0 <= i < items.len() && same_key(items[i], directory, name),
            None => forall|k: int| 0 <= k < items.len() ==> !same_key(items[k], directory, name),
        },
    decreases items.len(),
{
    if items.len() > 0 && !same_key(items.last(), directory, name) {
        lemma_position(items.drop_last(), directory, name);
        assert forall|k: int| 0 <= k < items.len() && position(items, directory, name)
            is None implies !same_key(items[k], directory, name) by {
            if k < items.len() - 1 {
                assert(items.drop_last()[k] == items[k]);
            }
        }
    }
}

/// Where no two images share a key, `position` finds the image with the key.
pub proof fn lemma_position_unique(
    items: Seq<DiscoveredImageView>,
    directory: Seq<char>,
    name: Seq<char>,
    k: int,
)
    requires
        distinct_keys(items),
        0 <= k < items.len(),
        same_key(items[k], directory, name),
    ensures
        position(items, directory, name) == Some(k),
{
    lemma_position(items, directory, name);
}

/// Taking a file in keeps the keys distinct and every image with a file.
pub proof fn lemma_merged_keeps_validity(
    items: Seq<DiscoveredImageView>,
    entry: FileEntryView,
    kind: FileKind,
)
    requires
        distinct_keys(items),
        all_have_files(items),
    ensures
        distinct_keys(merged(items, entry, kind)),
        all_have_files(merged(items, entry, kind)),
        merged(items, entry, kind).len() >= items.len(),
{
    lemma_position(items, entry.parent, entry.stem->0);
    let after = merged(items, entry, kind);
    match position(items, entry.parent, entry.stem->0) {
        Some(p) => {
            assert forall|i: int, j: int| 0 <= i < j < after.len() implies !same_key(
                #[trigger] after[j],
                (#[trigger] after[i]).directory,
                after[i].base_name,
            ) by {
                assert(after[i].directory == items[i].directory);
                assert(after[i].base_name == items[i].base_name);
                assert(after[j].directory == items[j].directory);
                assert(after[j].base_name == items[j].base_name);
            }
            assert forall|i: int| 0 <= i < after.len() implies has_file(#[trigger] after[i]) by {
                if i != p {
                    assert(after[i] == items[i]);
                }
            }
        },
        None => {
            assert forall|i: int, j: int| 0 <= i < j < after.len() implies !same_key(
                #[trigger] after[j],
                (#[trigger] after[i]).directory,
                after[i].base_name,
            ) by {
                assert(after[i] == items[i]);
                if j < items.len() {
                    assert(after[j] == items[j]);
                }
            }
            assert forall|i: int| 0 <= i < after.len() implies has_file(#[trigger] after[i]) by {
                if i < items.len() {
                    assert(after[i] == items[i]);
                }
            }
        },
    }
}

/// Directory and name of an image, which together identify it.
pub open spec fn key_of(item: DiscoveredImageView) -> (Seq<char>, Seq<char>) {
    (item.directory, item.base_name)
}

/// A walk in progress.
pub struct Walker {
    items: Vec<DiscoveredImage>,
    /// The position in `items` of each image, by directory and name.
    index: PairIndex,
    files_scanned: usize,
    stacked_only: bool,
    max_files: Option<usize>,
}

impl View for Walker {
    type V = WalkerView;

    closed spec fn view(&self) -> WalkerView {
        WalkerView {
            items: images_view(self.items@),
            files_scanned: self.files_scanned,
            stacked_only: self.stacked_only,
            max_files: self.max_files,
        }
    }
}

impl Walker {
    /// Whether the index and the images agree: each image is found under its
    /// directory and name, and nothing else is.
    spec fn indexed(&self) -> bool {
        &&& self.index.wf()
        &&& forall|k: int|
            0 <= k < self.items.len() ==> self.index@.contains_key(
                #[trigger] key_of(self.items@[k]@),
            ) && self.index@[key_of(self.items@[k]@)] == k
        &&& forall|p: (Seq<char>, Seq<char>)| #[trigger]
            self.index@.contains_key(p) ==> self.index@[p] < self.items.len() && key_of(
                self.items@[self.index@[p] as int]@,
            ) == p
    }

    /// Whether the walk is in order: no two images share directory and name,
    /// and every image has a file.
    pub closed spec fn wf(&self) -> bool {
        distinct_keys(self@.items) && all_have_files(self@.items) && self.indexed()
    }

    /// A walk that has seen nothing yet.
    pub fn new(stacked_only: bool, max_files: Option<usize>) -> (w: Walker)
        ensures
            w.wf(),
            w@ == (WalkerView { items: Seq::empty(), files_scanned: 0, stacked_only, max_files }),
    {
        let w = Walker {
            items: Vec::new(),
            index: PairIndex::new(),
            files_scanned: 0,
            stacked_only,
            max_files,
        };
        assert(w@.items =~= Seq::empty());
        w
    }

    /// The number of files seen so far, directories not counted.
    pub fn files_scanned(&self) -> (n: usize)
        ensures
            n == self@.files_scanned,
    {
        self.files_scanned
    }

    /// The number of images found so far.
    pub fn images_found(&self) -> (n: usize)
        ensures
            n == self@.items.len(),
    {
        self.items.len()
    }

    /// In a walk that is in order no two images share directory and name, and
    /// every image has a file.
    pub proof fn lemma_wf(&self)
        requires
            self.wf(),
        ensures
            distinct_keys(self@.items),
            all_have_files(self@.items),
    {
    }

    /// What to do before the next entry, given what the cancellation flag
    /// reads now: nothing where no checkpoint is due, stop where the flag is
    /// set, report the progress otherwise.
    pub fn checkpoint(&self, cancelled: bool) -> (c: Checkpoint)
        ensures
            c == checkpoint_of(self@, cancelled),
    {
        if !self.checkpoint_due() {
            Checkpoint::NotDue
        } else if cancelled {
            Checkpoint::Stop
        } else {
            Checkpoint::Report {
                files_scanned: self.files_scanned,
                images_found: self.items.len(),
            }
        }
    }

    /// Whether progress is reported, and cancellation looked for, before the
    /// next entry.
    pub fn checkpoint_due(&self) -> (due: bool)
        ensures
            due == at_checkpoint(self@),
    {
        self.files_scanned % SCAN_PROGRESS_INTERVAL == 0
    }

    /// The position of the image of this directory and name, if there is one.
    fn find(&self, directory: &str, name: &str) -> (r: Option<usize>)
        requires
            self.wf(),
        ensures
            match r {
                Some(i) => position(self@.items, directory@, name@) == Some(i as int) && i
                    < self.items.len() && self.index@.contains_key((directory@, name@)),
                None => position(self@.items, directory@, name@) is None && !self.index@.contains_key(
                    (directory@, name@),
                ),
            },
    {
        let found = self.index.get(directory, name);
        proof {
            lemma_position(self@.items, directory@, name@);
            match found {
                Some(i) => {
                    assert(key_of(self.items@[i as int]@) == (directory@, name@));
                    lemma_position_unique(self@.items, directory@, name@, i as int);
                },
                None => {
                    if let Some(k) = position(self@.items, directory@, name@) {
                        assert(key_of(self.items@[k]@) == (directory@, name@));
                    }
                },
            }
        }
        found
    }

    /// Takes one entry of the listing in. The result says whether the walk
    /// goes on; it is false once the cap on the number of images is reached.
    pub fn visit(&mut self, entry: &FileEntry) -> (go_on: bool)
        requires
            old(self).wf(),
        ensures
            final(self).wf(),
            final(self)@ == visited(old(self)@, entry@),
            go_on == !stops_after(old(self)@, entry@),
    {
        if entry.is_dir {
            return true;
        }
        self.files_scanned = bump(self.files_scanned);
        let classified = match classify_entry(entry, self.stacked_only) {
            Some(c) => c,
            None => {
                return true;
            },
        };
        let stem = match &entry.stem {
            Some(s) => s,
            None => {
                return true;
            },
        };
        let ghost before = images_view(self.items@);
        proof {
            lemma_merged_keeps_validity(before, entry@, classified.kind);
        }
        match self.find(entry.parent.as_str(), stem.as_str()) {
            Some(at) => {
                match classified.kind {
                    FileKind::Raw => {
                        self.items[at].fits_path = Some(entry.path.clone());
                    },
                    FileKind::Preview => {
                        self.items[at].jpeg_path = Some(entry.path.clone());
                    },
                }
                assert(images_view(self.items@) =~= merged(before, entry@, classified.kind));
                assert forall|k: int| 0 <= k < self.items.len() implies key_of(
                    #[trigger] self.items@[k]@,
                ) == key_of(old(self).items@[k]@) by {}
                assert(self.indexed()) by {
                    assert forall|k: int| 0 <= k < self.items.len() implies self.index@.contains_key(
                        #[trigger] key_of(self.items@[k]@),
                    ) && self.index@[key_of(self.items@[k]@)] == k by {
                        assert(key_of(self.items@[k]@) == key_of(old(self).items@[k]@));
                    }
                    assert forall|p: (Seq<char>, Seq<char>)| #[trigger]
                        self.index@.contains_key(p) implies self.index@[p] < self.items.len()
                        && key_of(self.items@[self.index@[p] as int]@) == p by {
                        let k = self.index@[p] as int;
                        assert(key_of(self.items@[k]@) == key_of(old(self).items@[k]@));
                    }
                }
            },
            None => {
                let at = self.items.len();
                let path = Some(entry.path.clone());
                let item = match classified.kind {
                    FileKind::Raw => DiscoveredImage {
                        base_name: stem.clone(),
                        directory: entry.parent.clone(),
                        fits_path: path,
                        jpeg_path: None,
                        is_stacked: classified.is_stacked,
                    },
                    FileKind::Preview => DiscoveredImage {
                        base_name: stem.clone(),
                        directory: entry.parent.clone(),
                        fits_path: None,
                        jpeg_path: path,
                        is_stacked: classified.is_stacked,
                    },
                };
                self.items.push(item);
                self.index.insert(entry.parent.clone(), stem.clone(), at);
                assert(images_view(self.items@) =~= merged(before, entry@, classified.kind));
                assert(self.indexed()) by {
                    assert forall|k: int| 0 <= k < self.items.len() implies self.index@.contains_key(
                        #[trigger] key_of(self.items@[k]@),
                    ) && self.index@[key_of(self.items@[k]@)] == k by {
                        if k < at {
                            assert(self.items@[k] == old(self).items@[k]);
                            assert(old(self).index@.contains_key(key_of(old(self).items@[k]@)));
                        }
                    }
                    assert forall|p: (Seq<char>, Seq<char>)| #[trigger]
                        self.index@.contains_key(p) implies self.index@[p] < self.items.len()
                        && key_of(self.items@[self.index@[p] as int]@) == p by {
                        if p != (entry.parent@, stem@) {
                            assert(old(self).index@.contains_key(p));
                            let k = old(self).index@[p] as int;
                            assert(self.items@[k] == old(self).items@[k]);
                        }
                    }
                }
            },
        }
        match self.max_files {
            Some(max) => self.items.len() < max,
            None => true,
        }
    }

    /// Ends the walk and hands out the images found, cut down to the cap.
    pub fn finish(self) -> (images: Vec<DiscoveredImage>)
        requires
            self.wf(),
        ensures
            images_view(images@) == capped(self@.items, self@.max_files),
            distinct_keys(images_view(images@)),
            all_have_files(images_view(images@)),
    {
        let mut images = self.items;
        let ghost all = images_view(images@);
        if let Some(max) = self.max_files {
            if images.len() > max {
                images.truncate(max);
                assert(images_view(images@) =~= all.take(max as int));
            }
        }
        images
    }
}

/// The state of a walk that has seen nothing yet.
pub open spec fn start_of_walk(stacked_only: bool, max_files: Option<usize>) -> WalkerView {
    WalkerView { items: Seq::empty(), files_scanned: 0, stacked_only, max_files }
}

/// What the flag reads at the next checkpoint: the first of the readings that
/// are left, and not set once they are used up.
pub open spec fn next_reading(readings: Seq<bool>) -> bool {
    readings.len() > 0 && readings[0]
}

/// The readings that are left after a checkpoint.
pub open spec fn later_readings(readings: Seq<bool>) -> Seq<bool> {
    if readings.len() > 0 {
        readings.drop_first()
    } else {
        readings
    }
}

/// The state and the progress reports after a walk over `entries` that began
/// in state `w` with the reports `reports` already made. `readings` is what
/// the cancellation flag reads at one checkpoint after the other. Before each
/// entry at which a checkpoint is due the flag is read: where it is set the
/// walk ends with what it has, else a report is made. The walk also ends once
/// the cap is reached.
pub open spec fn walked(
    w: WalkerView,
    reports: Seq<(usize, usize)>,
    entries: Seq<FileEntryView>,
    readings: Seq<bool>,
) -> (WalkerView, Seq<(usize, usize)>)
    decreases entries.len(),
{
    if entries.len() == 0 {
        (w, reports)
    } else if at_checkpoint(w) && next_reading(readings) {
        (w, reports)
    } else {
        let reports = if at_checkpoint(w) {
            reports.push((w.files_scanned, w.items.len() as usize))
        } else {
            reports
        };
        let readings = if at_checkpoint(w) {
            later_readings(readings)
        } else {
            readings
        };
        if stops_after(w, entries[0]) {
            (visited(w, entries[0]), reports)
        } else {
            walked(visited(w, entries[0]), reports, entries.drop_first(), readings)
        }
    }
}

/// What a walk over a whole listing yields.
pub struct ScanListing {
    /// The images found, cut down to the cap.
    pub images: Vec<DiscoveredImage>,
    /// The progress reports in order, each the number of files seen and the
    /// number of images found; the last one is made when the walk ends.
    pub progress: Vec<(usize, usize)>,
}

/// Walks over a listing and groups its files into images. `readings` is what
/// the cancellation flag reads at one checkpoint after the other; a walk that
/// finds the flag set ends there and hands out what it has found.
pub fn scan_directory_with_progress(
    entries: &Vec<FileEntry>,
    stacked_only: bool,
    max_files: Option<usize>,
    readings: &Vec<bool>,
) -> (r: ScanListing)
    ensures
        ({
            let end = walked(
                start_of_walk(stacked_only, max_files),
                Seq::empty(),
                entries_view(entries@),
                readings@,
            );
            &&& images_view(r.images@) == capped(end.0.items, max_files)
            &&& r.progress@ == end.1.push((end.0.files_scanned, end.0.items.len() as usize))
        }),
        distinct_keys(images_view(r.images@)),
        all_have_files(images_view(r.images@)),
{
    let mut walker = Walker::new(stacked_only, max_files);
    let mut progress: Vec<(usize, usize)> = Vec::new();
    let ghost all = entries_view(entries@);
    let ghost goal = walked(start_of_walk(stacked_only, max_files), Seq::empty(), all, readings@);
    let ghost mut remaining = all;
    let mut i: usize = 0;
    let mut read: usize = 0;
    assert(all.skip(0) =~= all);
    assert(readings@.skip(0) =~= readings@);
    while i < entries.len()
        invariant_except_break
            remaining == all.skip(i as int),
            goal == walked(walker@, progress@, remaining, readings@.skip(read as int)),
        invariant
            i <= entries.len(),
            read <= readings.len(),
            all == entries_view(entries@),
            walker.wf(),
            walker@.max_files == max_files,
        ensures
            walker.wf(),
            walker@.max_files == max_files,
            goal == (walker@, progress@),
        decreases entries.len() - i,
    {
        assert(remaining[0] == entries@[i as int]@);
        assert(remaining.drop_first() =~= all.skip(i + 1));
        let ghost left = readings@.skip(read as int);
        let cancelled = read < readings.len() && readings[read];
        assert(cancelled == next_reading(left));
        match walker.checkpoint(cancelled) {
            Checkpoint::NotDue => {},
            Checkpoint::Stop => {
                break;
            },
            Checkpoint::Report { files_scanned, images_found } => {
                progress.push((files_scanned, images_found));
                if read < readings.len() {
                    assert(left.drop_first() =~= readings@.skip(read + 1));
                    read += 1;
                }
            },
        }
        let go_on = walker.visit(&entries[i]);
        if !go_on {
            break;
        }
        proof {
            remaining = all.skip(i + 1);
        }
        i += 1;
    }
    progress.push((walker.files_scanned(), walker.images_found()));
    let images = walker.finish();
    ScanListing { images, progress }
}

/// A walk that finds the flag set at a checkpoint ends there: it hands out
/// the state it is in and makes no report for the checkpoint.
pub proof fn lemma_walk_ends_where_the_flag_is_set(
    w: WalkerView,
    reports: Seq<(usize, usize)>,
    entries: Seq<FileEntryView>,
    readings: Seq<bool>,
)
    requires
        at_checkpoint(w),
        next_reading(readings),
    ensures
        walked(w, reports, entries, readings) == (w, reports),
{
}

/// A walk that finds the flag set at its first checkpoint finds nothing: no
/// entry of the listing is looked at, and no report is made before the walk
/// ends.
pub proof fn lemma_cancelled_at_the_start_finds_nothing(
    entries: Seq<FileEntryView>,
    stacked_only: bool,
    max_files: Option<usize>,
    readings: Seq<bool>,
)
    requires
        next_reading(readings),
    ensures
        walked(start_of_walk(stacked_only, max_files), Seq::empty(), entries, readings) == (
            start_of_walk(stacked_only, max_files),
            Seq::<(usize, usize)>::empty(),
        ),
        capped(start_of_walk(stacked_only, max_files).items, max_files).len() == 0,
{
}

/// The next checkpoint is never far: from any number of files seen, a
/// checkpoint is due after at most `SCAN_PROGRESS_INTERVAL` more files. So a
/// walk looks at no more than that many files after the flag was set.
pub proof fn lemma_checkpoint_within_interval(files_scanned: usize)
    ensures
        ({
            let more = SCAN_PROGRESS_INTERVAL - files_scanned % SCAN_PROGRESS_INTERVAL;
            &&& 1 <= more <= SCAN_PROGRESS_INTERVAL
            &&& (files_scanned + more) % (SCAN_PROGRESS_INTERVAL as int) == 0
        }),
{
}

/// Whether `longer` begins with the images of `shorter`, going by directory
/// and name.
pub open spec fn begins_with_keys(
    longer: Seq<DiscoveredImageView>,
    shorter: Seq<DiscoveredImageView>,
) -> bool {
    &&& shorter.len() <= longer.len()
    &&& forall|k: int|
        0 <= k < shorter.len() ==> key_of(#[trigger] longer[k]) == key_of(shorter[k])
}

/// Taking an entry in keeps the images that are there, by directory and name,
/// and in their places.
pub proof fn lemma_visit_keeps_keys(w: WalkerView, entry: FileEntryView)
    ensures
        begins_with_keys(visited(w, entry).items, w.items),
{
    lemma_position(w.items, entry.parent, entry.stem->0);
}

/// A walk keeps the images that were there when it began, by directory and
/// name, and in their places.
pub proof fn lemma_walk_keeps_keys(
    w: WalkerView,
    reports: Seq<(usize, usize)>,
    entries: Seq<FileEntryView>,
    readings: Seq<bool>,
)
    ensures
        begins_with_keys(walked(w, reports, entries, readings).0.items, w.items),
    decreases entries.len(),
{
    if entries.len() > 0 && !(at_checkpoint(w) && next_reading(readings)) {
        lemma_visit_keeps_keys(w, entries[0]);
        if !stops_after(w, entries[0]) {
            let reports2 = if at_checkpoint(w) {
                reports.push((w.files_scanned, w.items.len() as usize))
            } else {
                reports
            };
            let readings2 = if at_checkpoint(w) {
                later_readings(readings)
            } else {
                readings
            };
            lemma_walk_keeps_keys(visited(w, entries[0]), reports2, entries.drop_first(), readings2);
        }
    }
}

/// A cancelled walk hands out a part of what the whole walk would: the images
/// that a walk has found when it ends on a set flag are, by directory and
/// name, the first images of the walk over the same listing that is never
/// cancelled.
pub proof fn lemma_cancelled_walk_finds_a_part(
    w: WalkerView,
    reports: Seq<(usize, usize)>,
    whole_reports: Seq<(usize, usize)>,
    entries: Seq<FileEntryView>,
    readings: Seq<bool>,
)
    ensures
        begins_with_keys(
            walked(w, whole_reports, entries, Seq::empty()).0.items,
            walked(w, reports, entries, readings).0.items,
        ),
    decreases entries.len(),
{
    if entries.len() > 0 {
        if at_checkpoint(w) && next_reading(readings) {
            lemma_walk_keeps_keys(w, whole_reports, entries, Seq::empty());
        } else if !stops_after(w, entries[0]) {
            let reports2 = if at_checkpoint(w) {
                reports.push((w.files_scanned, w.items.len() as usize))
            } else {
                reports
            };
            let whole2 = if at_checkpoint(w) {
                whole_reports.push((w.files_scanned, w.items.len() as usize))
            } else {
                whole_reports
            };
            let readings2 = if at_checkpoint(w) {
                later_readings(readings)
            } else {
                readings
            };
            assert(later_readings(Seq::<bool>::empty()) =~= Seq::<bool>::empty());
            lemma_cancelled_walk_finds_a_part(
                visited(w, entries[0]),
                reports2,
                whole2,
                entries.drop_first(),
                readings2,
            );
        }
    }
}

/// Whether an image has a file of the given kind.
pub open spec fn has_kind(item: DiscoveredImageView, kind: FileKind) -> bool {
    match kind {
        FileKind::Raw => item.fits_path is Some,
        FileKind::Preview => item.jpeg_path is Some,
    }
}

/// Whether the image of this directory and name is among `items` and has a
/// file of the given kind.
pub open spec fn holds_file(
    items: Seq<DiscoveredImageView>,
    directory: Seq<char>,
    name: Seq<char>,
    kind: FileKind,
) -> bool {
    exists|p: int|
        0 <= p < items.len() && #[trigger] same_key(items[p], directory, name) && has_kind(
            items[p],
            kind,
        )
}

/// Whether `longer` begins with the images of `shorter`, each with at least
/// the files it had.
pub open spec fn keeps_files(
    longer: Seq<DiscoveredImageView>,
    shorter: Seq<DiscoveredImageView>,
) -> bool {
    &&& shorter.len() <= longer.len()
    &&& forall|k: int|
        0 <= k < shorter.len() ==> {
            &&& key_of(#[trigger] longer[k]) == key_of(shorter[k])
            &&& shorter[k].fits_path is Some ==> longer[k].fits_path is Some
            &&& shorter[k].jpeg_path is Some ==> longer[k].jpeg_path is Some
        }
}

/// Taking an entry in takes no file away from an image that is there.
pub proof fn lemma_visit_keeps_files(w: WalkerView, entry: FileEntryView)
    ensures
        keeps_files(visited(w, entry).items, w.items),
{
    lemma_position(w.items, entry.parent, entry.stem->0);
}

/// A walk takes no file away from an image that was there when it began.
pub proof fn lemma_walk_keeps_files(
    w: WalkerView,
    reports: Seq<(usize, usize)>,
    entries: Seq<FileEntryView>,
    readings: Seq<bool>,
)
    ensures
        keeps_files(walked(w, reports, entries, readings).0.items, w.items),
    decreases entries.len(),
{
    if entries.len() > 0 && !(at_checkpoint(w) && next_reading(readings)) {
        lemma_visit_keeps_files(w, entries[0]);
        if !stops_after(w, entries[0]) {
            let reports2 = if at_checkpoint(w) {
                reports.push((w.files_scanned, w.items.len() as usize))
            } else {
                reports
            };
            let readings2 = if at_checkpoint(w) {
                later_readings(readings)
            } else {
                readings
            };
            lemma_walk_keeps_files(visited(w, entries[0]), reports2, entries.drop_first(), readings2);
        }
    }
}

/// A walk keeps the images in order: no two share directory and name, and
/// every image has a file.
pub proof fn lemma_walk_keeps_validity(
    w: WalkerView,
    reports: Seq<(usize, usize)>,
    entries: Seq<FileEntryView>,
    readings: Seq<bool>,
)
    requires
        distinct_keys(w.items),
        all_have_files(w.items),
    ensures
        distinct_keys(walked(w, reports, entries, readings).0.items),
        all_have_files(walked(w, reports, entries, readings).0.items),
    decreases entries.len(),
{
    if entries.len() > 0 && !(at_checkpoint(w) && next_reading(readings)) {
        if let Some(kind) = accepted_kind(entries[0], w.stacked_only) {
            lemma_merged_keeps_validity(w.items, entries[0], kind);
        }
        if !stops_after(w, entries[0]) {
            let reports2 = if at_checkpoint(w) {
                reports.push((w.files_scanned, w.items.len() as usize))
            } else {
                reports
            };
            let readings2 = if at_checkpoint(w) {
                later_readings(readings)
            } else {
                readings
            };
            lemma_walk_keeps_validity(
                visited(w, entries[0]),
                reports2,
                entries.drop_first(),
                readings2,
            );
        }
    }
}

/// An entry that is taken in leaves its file with the image of its directory
/// and stem.
pub proof fn lemma_visit_takes_in(w: WalkerView, entry: FileEntryView, kind: FileKind)
    requires
        accepted_kind(entry, w.stacked_only) == Some(kind),
    ensures
        holds_file(visited(w, entry).items, entry.parent, entry.stem->0, kind),
{
    lemma_position(w.items, entry.parent, entry.stem->0);
    let after = visited(w, entry).items;
    let p = match position(w.items, entry.parent, entry.stem->0) {
        Some(p) => p,
        None => w.items.len() as int,
    };
    assert(same_key(after[p], entry.parent, entry.stem->0) && has_kind(after[p], kind));
}

/// In a walk without a cap that is never cancelled, every entry that is taken
/// in leaves its file with the image of its directory and stem, whatever
/// comes before and after it in the listing.
pub proof fn lemma_walk_takes_in(
    w: WalkerView,
    reports: Seq<(usize, usize)>,
    entries: Seq<FileEntryView>,
    at: int,
    kind: FileKind,
)
    requires
        w.max_files is None,
        0 <= at < entries.len(),
        accepted_kind(entries[at], w.stacked_only) == Some(kind),
    ensures
        holds_file(
            walked(w, reports, entries, Seq::empty()).0.items,
            entries[at].parent,
            entries[at].stem->0,
            kind,
        ),
    decreases entries.len(),
{
    let reports2 = if at_checkpoint(w) {
        reports.push((w.files_scanned, w.items.len() as usize))
    } else {
        reports
    };
    let next = visited(w, entries[0]);
    let rest = entries.drop_first();
    let end = walked(w, reports, entries, Seq::empty()).0.items;
    assert(later_readings(Seq::<bool>::empty()) =~= Seq::<bool>::empty());
    assert(end == walked(next, reports2, rest, Seq::empty()).0.items);
    if at == 0 {
        lemma_visit_takes_in(w, entries[0], kind);
        lemma_walk_keeps_files(next, reports2, rest, Seq::empty());
        let p = choose|p: int|
            0 <= p < next.items.len() && #[trigger] same_key(
                next.items[p],
                entries[0].parent,
                entries[0].stem->0,
            ) && has_kind(next.items[p], kind);
        assert(key_of(end[p]) == key_of(next.items[p]));
        assert(same_key(end[p], entries[0].parent, entries[0].stem->0) && has_kind(end[p], kind));
    } else {
        assert(rest[at - 1] == entries[at]);
        lemma_walk_takes_in(next, reports2, rest, at - 1, kind);
    }
}

/// Whether exactly one of `items` is the image of this directory and name,
/// and that image has a raw frame and a preview.
pub open spec fn one_image_with_both(
    items: Seq<DiscoveredImageView>,
    directory: Seq<char>,
    name: Seq<char>,
) -> bool {
    exists|p: int|
        {
            &&& 0 <= p < items.len()
            &&& #[trigger] same_key(items[p], directory, name)
            &&& items[p].fits_path is Some
            &&& items[p].jpeg_path is Some
            &&& forall|k: int|
                0 <= k < items.len() && k != p ==> !same_key(#[trigger] items[k], directory, name)
        }
}

/// Whatever a directory tree holds: where a walk without a cap that is never
/// cancelled takes in a raw frame and a preview of one directory and one
/// stem, anywhere in the listing and in either order, it hands out exactly
/// one image of that directory and stem, with both files, never two.
pub proof fn lemma_listing_pairs_files(
    entries: Seq<FileEntryView>,
    stacked_only: bool,
    raw_at: int,
    preview_at: int,
)
    requires
        0 <= raw_at < entries.len(),
        0 <= preview_at < entries.len(),
        accepted_kind(entries[raw_at], stacked_only) == Some(FileKind::Raw),
        accepted_kind(entries[preview_at], stacked_only) == Some(FileKind::Preview),
        entries[raw_at].parent == entries[preview_at].parent,
        entries[raw_at].stem == entries[preview_at].stem,
    ensures
        one_image_with_both(
            capped(
                walked(start_of_walk(stacked_only, None), Seq::empty(), entries, Seq::empty()).0.items,
                None,
            ),
            entries[raw_at].parent,
            entries[raw_at].stem->0,
        ),
{
    let start = start_of_walk(stacked_only, None);
    let end = walked(start, Seq::empty(), entries, Seq::empty()).0.items;
    let directory = entries[raw_at].parent;
    let name = entries[raw_at].stem->0;
    lemma_walk_keeps_validity(start, Seq::empty(), entries, Seq::empty());
    lemma_walk_takes_in(start, Seq::empty(), entries, raw_at, FileKind::Raw);
    lemma_walk_takes_in(start, Seq::empty(), entries, preview_at, FileKind::Preview);
    let p = choose|p: int|
        0 <= p < end.len() && #[trigger] same_key(end[p], directory, name) && has_kind(
            end[p],
            FileKind::Raw,
        );
    let q = choose|q: int|
        0 <= q < end.len() && #[trigger] same_key(end[q], directory, name) && has_kind(
            end[q],
            FileKind::Preview,
        );
    assert forall|k: int| 0 <= k < end.len() && k != p implies !same_key(
        #[trigger] end[k],
        directory,
        name,
    ) by {
        if k < p {
            assert(!same_key(end[p], end[k].directory, end[k].base_name));
        } else {
            assert(!same_key(end[k], end[p].directory, end[p].base_name));
        }
    }
    assert(q == p);
}

/// A raw frame and a preview of one directory and one stem make one image,
/// which has both paths, whichever of the two files is seen first.
pub proof fn lemma_pair_makes_one_image(w: WalkerView, raw: FileEntryView, preview: FileEntryView)
    requires
        distinct_keys(w.items),
        all_have_files(w.items),
        raw.parent == preview.parent,
        raw.stem == preview.stem,
        accepted_kind(raw, w.stacked_only) == Some(FileKind::Raw),
        accepted_kind(preview, w.stacked_only) == Some(FileKind::Preview),
    ensures
        one_image_of_both(visited(visited(w, raw), preview).items, raw, preview),
        one_image_of_both(visited(visited(w, preview), raw).items, raw, preview),
{
    let directory = raw.parent;
    let name = raw.stem->0;
    lemma_position(w.items, directory, name);
    lemma_merged_keeps_validity(w.items, raw, FileKind::Raw);
    lemma_merged_keeps_validity(w.items, preview, FileKind::Preview);
    let first = visited(w, raw).items;
    lemma_position(first, directory, name);
    lemma_merged_keeps_validity(first, preview, FileKind::Preview);
    let p = match position(w.items, directory, name) {
        Some(p) => p,
        None => w.items.len() as int,
    };
    assert(same_key(first[p], directory, name));
    lemma_position_unique(first, directory, name, p);
    let both = visited(visited(w, raw), preview).items;
    assert(same_key(both[p], directory, name));
    assert(distinct_keys(both));
    assert forall|k: int| 0 <= k < both.len() && k != p implies !same_key(
        #[trigger] both[k],
        directory,
        name,
    ) by {
        if k < p {
            assert(!same_key(both[p], both[k].directory, both[k].base_name));
        } else {
            assert(!same_key(both[k], both[p].directory, both[p].base_name));
        }
    }
    let other = visited(w, preview).items;
    lemma_position(other, directory, name);
    lemma_merged_keeps_validity(other, raw, FileKind::Raw);
    assert(same_key(other[p], directory, name));
    lemma_position_unique(other, directory, name, p);
    let swapped = visited(visited(w, preview), raw).items;
    assert(same_key(swapped[p], directory, name));
    assert(distinct_keys(swapped));
    assert forall|k: int| 0 <= k < swapped.len() && k != p implies !same_key(
        #[trigger] swapped[k],
        directory,
        name,
    ) by {
        if k < p {
            assert(!same_key(swapped[p], swapped[k].directory, swapped[k].base_name));
        } else {
            assert(!same_key(swapped[k], swapped[p].directory, swapped[p].base_name));
        }
    }
}

/// Whether exactly one of `items` is the image of the directory and stem of
/// `raw` and `preview`, and that image has the paths of both.
pub open spec fn one_image_of_both(
    items: Seq<DiscoveredImageView>,
    raw: FileEntryView,
    preview: FileEntryView,
) -> bool {
    exists|p: int|
        {
            &&& 0 <= p < items.len()
            &&& #[trigger] same_key(items[p], raw.parent, raw.stem->0)
            &&& items[p].fits_path == Some(raw.path)
            &&& items[p].jpeg_path == Some(preview.path)
            &&& forall|k: int|
                0 <= k < items.len() && k != p ==> !same_key(
                    #[trigger] items[k],
                    raw.parent,
                    raw.stem->0,
                )
        }
}

} // verus!
