//! The directory change cache: a directory whose modification time is the one
//! recorded at its last scan is skipped as a whole.

use vstd::prelude::*;
use vstd::hash_map::StringHashMap;
use vstd::hash_set::StringHashSet;
use crate::discovery::{images_view, DiscoveredImage, DiscoveredImageView};
use crate::text::views;

verus! {

/// The modification time of a directory in whole seconds since the epoch, as
/// the cache stores it, from the unsigned count that the file system gives.
/// A count beyond the signed range wraps around.
pub open spec fn stored_seconds(seconds: u64) -> i64 {
    if seconds <= i64::MAX as u64 {
        seconds as i64
    } else {
        (seconds - 0x1_0000_0000_0000_0000) as i64
    }
}

/// The modification time of a directory as the cache stores it, absent where
/// the file system gave none.
pub fn get_dir_mtime(seconds_since_epoch: Option<u64>) -> (r: Option<i64>)
    ensures
        r == match seconds_since_epoch {
            Some(s) => Some(stored_seconds(s)),
            None => None,
        },
{
    match seconds_since_epoch {
        Some(s) => if s <= 0x7fff_ffff_ffff_ffff {
            Some(s as i64)
        } else {
            let low: u64 = s - 0x8000_0000_0000_0000;
            Some((low as i64) + i64::MIN)
        },
        None => None,
    }
}

/// What is known of one directory when a scan begins.
pub struct DirectoryState {
    /// The path of the directory.
    pub path: String,
    /// Its modification time now, absent where it could not be read.
    pub modified: Option<i64>,
    /// The modification time recorded at its last scan, absent where there
    /// is no record.
    pub cached: Option<i64>,
}

/// A directory state as mathematical values.
pub struct DirectoryStateView {
    pub path: Seq<char>,
    pub modified: Option<i64>,
    pub cached: Option<i64>,
}

impl View for DirectoryState {
    type V = DirectoryStateView;

    open spec fn view(&self) -> DirectoryStateView {
        DirectoryStateView { path: self.path@, modified: self.modified, cached: self.cached }
    }
}

/// The views of a list of directory states.
pub open spec fn states_view(states: Seq<DirectoryState>) -> Seq<DirectoryStateView> {
    states.map_values(|s: DirectoryState| s@)
}

/// The modification time that a scan works with: the one read, or zero.
pub open spec fn current_mtime(state: DirectoryStateView) -> i64 {
    match state.modified {
        Some(m) => m,
        None => 0,
    }
}

/// Whether a directory is as it was at its last scan: there is a record, and
/// its modification time is exactly the current one.
pub open spec fn is_unchanged(state: DirectoryStateView) -> bool {
    state.cached is Some && state.cached->0 == current_mtime(state)
}

/// The directories that are unchanged. Where a path is listed more than once,
/// its last state counts.
pub open spec fn unchanged_dirs(states: Seq<DirectoryStateView>) -> Set<Seq<char>>
    decreases states.len(),
{
    if states.len() == 0 {
        Set::empty()
    } else if is_unchanged(states.last()) {
        unchanged_dirs(states.drop_last()).insert(states.last().path)
    } else {
        unchanged_dirs(states.drop_last()).remove(states.last().path)
    }
}

/// The current modification time of each directory listed. Where a path is
/// listed more than once, its last state counts.
pub open spec fn mtimes_of(states: Seq<DirectoryStateView>) -> Map<Seq<char>, i64>
    decreases states.len(),
{
    if states.len() == 0 {
        Map::empty()
    } else {
        mtimes_of(states.drop_last()).insert(states.last().path, current_mtime(states.last()))
    }
}

/// The images whose directory is not in `skip`, in their order.
pub open spec fn kept_images(items: Seq<DiscoveredImageView>, skip: Set<Seq<char>>) -> Seq<
    DiscoveredImageView,
>
    decreases items.len(),
{
    if items.len() == 0 {
        Seq::empty()
    } else if skip.contains(items.last().directory) {
        kept_images(items.drop_last(), skip)
    } else {
        kept_images(items.drop_last(), skip).push(items.last())
    }
}

/// The images whose directory is in `skip`, in their order.
pub open spec fn skipped_images(items: Seq<DiscoveredImageView>, skip: Set<Seq<char>>) -> Seq<
    DiscoveredImageView,
>
    decreases items.len(),
{
    if items.len() == 0 {
        Seq::empty()
    } else if skip.contains(items.last().directory) {
        skipped_images(items.drop_last(), skip).push(items.last())
    } else {
        skipped_images(items.drop_last(), skip)
    }
}

/// The directories of `items`, each once, in the order in which they first
/// occur.
pub open spec fn directories_of(items: Seq<DiscoveredImageView>) -> Seq<Seq<char>>
    decreases items.len(),
{
    if items.len() == 0 {
        Seq::empty()
    } else {
        let before = directories_of(items.drop_last());
        if before.contains(items.last().directory) {
            before
        } else {
            before.push(items.last().directory)
        }
    }
}

/// The modification time to record for a directory: its current one, or zero
/// where nothing is known of it.
pub open spec fn mtime_to_record(states: Seq<DirectoryStateView>, directory: Seq<char>) -> i64 {
    if mtimes_of(states).contains_key(directory) {
        mtimes_of(states)[directory]
    } else {
        0
    }
}

/// The directories with their modification times as mathematical values.
pub open spec fn timed_view(dirs: Seq<(String, i64)>) -> Seq<(Seq<char>, i64)> {
    dirs.map_values(|d: (String, i64)| (d.0@, d.1))
}

/// The directories of `items`, each once, in the order in which they first
/// occur.
pub fn distinct_directories(items: &Vec<DiscoveredImage>) -> (dirs: Vec<String>)
    ensures
        views(dirs@) == directories_of(images_view(items@)),
{
    let mut dirs: Vec<String> = Vec::new();
    let mut seen = StringHashSet::new();
    let ghost all = images_view(items@);
    let mut i: usize = 0;
    assert(views(dirs@) =~= Seq::empty());
    while i < items.len()
        invariant
            i <= items.len(),
            all == images_view(items@),
            views(dirs@) == directories_of(all.take(i as int)),
            forall|d: Seq<char>| seen@.contains(d) <==> views(dirs@).contains(d),
        decreases items.len() - i,
    {
        let ghost before = views(dirs@);
        let item = &items[i];
        assert(all.take(i + 1).drop_last() =~= all.take(i as int));
        assert(all.take(i + 1).last() == item@);
        if !seen.contains(item.directory.as_str()) {
            seen.insert(item.directory.clone());
            dirs.push(item.directory.clone());
            assert(views(dirs@) =~= before.push(item@.directory));
            assert forall|d: Seq<char>| seen@.contains(d) <==> views(dirs@).contains(d) by {
                if d == item@.directory {
                    assert(views(dirs@)[before.len() as int] == d);
                } else if before.contains(d) {
                    let k = choose|k: int| 0 <= k < before.len() && before[k] == d;
                    assert(views(dirs@)[k] == d);
                } else if views(dirs@).contains(d) {
                    let k = choose|k: int| 0 <= k < views(dirs@).len() && views(dirs@)[k] == d;
                    assert(before[k] == d);
                }
            }
        }
        i += 1;
    }
    assert(all.take(items.len() as int) =~= all);
    dirs
}

/// What the cache decides of the images found by a walk.
pub struct CacheDecision {
    /// The images of new or changed directories, which go on to be processed.
    pub kept: Vec<DiscoveredImage>,
    /// The new or changed directories that hold an image, each with the
    /// modification time to record for it once the scan is through.
    pub changed: Vec<(String, i64)>,
    /// The unchanged directories that hold an image.
    pub unchanged: Vec<String>,
    /// The number of images skipped because their directory is unchanged.
    pub skipped: usize,
}

/// Sets `images` apart by the state of their directories.
pub fn apply_directory_cache(images: Vec<DiscoveredImage>, states: &Vec<DirectoryState>) -> (r:
    CacheDecision)
    ensures
        images_view(r.kept@) == kept_images(
            images_view(images@),
            unchanged_dirs(states_view(states@)),
        ),
        r.skipped == skipped_images(
            images_view(images@),
            unchanged_dirs(states_view(states@)),
        ).len(),
        r.skipped + r.kept.len() == images.len(),
        views(r.unchanged@) == directories_of(
            skipped_images(images_view(images@), unchanged_dirs(states_view(states@))),
        ),
        timed_view(r.changed@).len() == directories_of(images_view(r.kept@)).len(),
        forall|k: int|
            0 <= k < r.changed.len() ==> (#[trigger] timed_view(r.changed@)[k]) == (
                directories_of(images_view(r.kept@))[k],
                mtime_to_record(states_view(states@), directories_of(images_view(r.kept@))[k]),
            ),
{
    let ghost all_states = states_view(states@);
    let mut skip = StringHashSet::new();
    let mut mtimes: StringHashMap<i64> = StringHashMap::new();
    let mut s: usize = 0;
    while s < states.len()
        invariant
            s <= states.len(),
            all_states == states_view(states@),
            skip@ == unchanged_dirs(all_states.take(s as int)),
            mtimes@ == mtimes_of(all_states.take(s as int)),
        decreases states.len() - s,
    {
        let state = &states[s];
        assert(all_states.take(s + 1).drop_last() =~= all_states.take(s as int));
        assert(all_states.take(s + 1).last() == state@);
        let now: i64 = match state.modified {
            Some(m) => m,
            None => 0,
        };
        let same = match state.cached {
            Some(c) => c == now,
            None => false,
        };
        if same {
            skip.insert(state.path.clone());
        } else {
            skip.remove(state.path.as_str());
        }
        mtimes.insert(state.path.clone(), now);
        s += 1;
    }
    assert(all_states.take(states.len() as int) =~= all_states);

    let ghost all = images_view(images@);
    let mut kept: Vec<DiscoveredImage> = Vec::new();
    let mut dropped: Vec<DiscoveredImage> = Vec::new();
    let mut i: usize = 0;
    assert(images_view(kept@) =~= Seq::empty());
    assert(images_view(dropped@) =~= Seq::empty());
    while i < images.len()
        invariant
            i <= images.len(),
            all == images_view(images@),
            images_view(kept@) == kept_images(all.take(i as int), skip@),
            images_view(dropped@) == skipped_images(all.take(i as int), skip@),
            kept.len() + dropped.len() == i,
        decreases images.len() - i,
    {
        let item = images[i].copy();
        assert(all.take(i + 1).drop_last() =~= all.take(i as int));
        assert(all.take(i + 1).last() == item@);
        let ghost kept_before = images_view(kept@);
        let ghost dropped_before = images_view(dropped@);
        if skip.contains(item.directory.as_str()) {
            dropped.push(item);
            assert(images_view(dropped@) =~= dropped_before.push(all[i as int]));
        } else {
            kept.push(item);
            assert(images_view(kept@) =~= kept_before.push(all[i as int]));
        }
        i += 1;
    }
    assert(all.take(images.len() as int) =~= all);

    let unchanged = distinct_directories(&dropped);
    let names = distinct_directories(&kept);
    let mut changed: Vec<(String, i64)> = Vec::new();
    let mut k: usize = 0;
    while k < names.len()
        invariant
            k <= names.len(),
            changed.len() == k,
            views(names@) == directories_of(images_view(kept@)),
            mtimes@ == mtimes_of(all_states),
            forall|j: int|
                0 <= j < k ==> (#[trigger] timed_view(changed@)[j]) == (
                    views(names@)[j],
                    mtime_to_record(all_states, views(names@)[j]),
                ),
        decreases names.len() - k,
    {
        let name = &names[k];
        let mtime: i64 = match mtimes.get(name.as_str()) {
            Some(m) => *m,
            None => 0,
        };
        let ghost before = timed_view(changed@);
        changed.push((name.clone(), mtime));
        assert(timed_view(changed@) =~= before.push((name@, mtime)));
        assert(views(names@)[k as int] == name@);
        k += 1;
    }
    CacheDecision { kept, changed, unchanged, skipped: dropped.len() }
}

/// Where every image lies in an unchanged directory, none is kept.
pub proof fn lemma_unchanged_tree_is_skipped(
    images: Seq<DiscoveredImageView>,
    states: Seq<DirectoryStateView>,
)
    requires
        forall|i: int|
            0 <= i < images.len() ==> unchanged_dirs(states).contains(
                (#[trigger] images[i]).directory,
            ),
    ensures
        kept_images(images, unchanged_dirs(states)).len() == 0,
        skipped_images(images, unchanged_dirs(states)) == images,
    decreases images.len(),
{
    if images.len() > 0 {
        assert forall|i: int| 0 <= i < images.drop_last().len() implies unchanged_dirs(
            states,
        ).contains((#[trigger] images.drop_last()[i]).directory) by {
            assert(images.drop_last()[i] == images[i]);
        }
        lemma_unchanged_tree_is_skipped(images.drop_last(), states);
        assert(unchanged_dirs(states).contains(images.last().directory)) by {
            assert(images[images.len() - 1] == images.last());
        }
        assert(images.drop_last().push(images.last()) =~= images);
    } else {
        assert(skipped_images(images, unchanged_dirs(states)) =~= images);
    }
}

/// The number of `images` that lie in `directory`.
pub open spec fn count_in(images: Seq<DiscoveredImageView>, directory: Seq<char>) -> nat
    decreases images.len(),
{
    if images.len() == 0 {
        0
    } else if images.last().directory == directory {
        count_in(images.drop_last(), directory) + 1
    } else {
        count_in(images.drop_last(), directory)
    }
}

/// The cache works by whole directories: of a directory that is not
/// unchanged every image is kept, and of an unchanged one none.
pub proof fn lemma_cache_is_per_directory(
    images: Seq<DiscoveredImageView>,
    states: Seq<DirectoryStateView>,
    directory: Seq<char>,
)
    ensures
        !unchanged_dirs(states).contains(directory) ==> count_in(
            kept_images(images, unchanged_dirs(states)),
            directory,
        ) == count_in(images, directory),
        unchanged_dirs(states).contains(directory) ==> count_in(
            kept_images(images, unchanged_dirs(states)),
            directory,
        ) == 0,
    decreases images.len(),
{
    if images.len() > 0 {
        lemma_cache_is_per_directory(images.drop_last(), states, directory);
        let kept_before = kept_images(images.drop_last(), unchanged_dirs(states));
        if !unchanged_dirs(states).contains(images.last().directory) {
            assert(kept_before.push(images.last()).drop_last() =~= kept_before);
        }
    }
}

/// A directory whose state is listed once is unchanged exactly if that state
/// has a record that equals the current modification time.
pub proof fn lemma_single_state_decides(states: Seq<DirectoryStateView>, at: int)
    requires
        0 <= at < states.len(),
        forall|j: int| 0 <= j < states.len() && j != at ==> (#[trigger] states[j]).path != states[at].path,
    ensures
        unchanged_dirs(states).contains(states[at].path) == is_unchanged(states[at]),
    decreases states.len(),
{
    if at < states.len() - 1 {
        assert(states.drop_last()[at] == states[at]);
        assert forall|j: int| 0 <= j < states.drop_last().len() && j != at implies (
        #[trigger] states.drop_last()[j]).path != states.drop_last()[at].path by {
            assert(states.drop_last()[j] == states[j]);
        }
        lemma_single_state_decides(states.drop_last(), at);
    } else {
        lemma_absent_path_is_not_unchanged(states.drop_last(), states[at].path);
    }
}

/// A directory of which no state is listed is not unchanged.
pub proof fn lemma_absent_path_is_not_unchanged(states: Seq<DirectoryStateView>, path: Seq<char>)
    requires
        forall|j: int| 0 <= j < states.len() ==> (#[trigger] states[j]).path != path,
    ensures
        !unchanged_dirs(states).contains(path),
    decreases states.len(),
{
    if states.len() > 0 {
        assert forall|j: int| 0 <= j < states.drop_last().len() implies (
        #[trigger] states.drop_last()[j]).path != path by {
            assert(states.drop_last()[j] == states[j]);
        }
        lemma_absent_path_is_not_unchanged(states.drop_last(), path);
        assert(states[states.len() - 1].path != path);
    }
}

/// A directory whose modification time differs from the one recorded, or
/// that has no record, is scanned again as a whole: every image in it is kept,
/// whatever else the tree holds.
pub proof fn lemma_changed_directory_is_rescanned(
    images: Seq<DiscoveredImageView>,
    states: Seq<DirectoryStateView>,
    at: int,
)
    requires
        0 <= at < states.len(),
        forall|j: int| 0 <= j < states.len() && j != at ==> (#[trigger] states[j]).path != states[at].path,
        !is_unchanged(states[at]),
    ensures
        count_in(kept_images(images, unchanged_dirs(states)), states[at].path) == count_in(
            images,
            states[at].path,
        ),
{
    lemma_single_state_decides(states, at);
    lemma_cache_is_per_directory(images, states, states[at].path);
}

/// A directory is unchanged at the next scan if its modification time is
/// still the one that this scan records for it.
pub proof fn lemma_recorded_directory_is_unchanged(
    states: Seq<DirectoryStateView>,
    at: int,
    next: DirectoryStateView,
)
    requires
        0 <= at < states.len(),
        forall|j: int| 0 <= j < states.len() && j != at ==> (#[trigger] states[j]).path != states[at].path,
        next.path == states[at].path,
        next.modified == states[at].modified,
        next.cached == Some(mtime_to_record(states, states[at].path)),
    ensures
        is_unchanged(next),
{
    lemma_single_mtime(states, at);
}

/// The modification time to record for a directory that is listed once is
/// its current one.
pub proof fn lemma_single_mtime(states: Seq<DirectoryStateView>, at: int)
    requires
        0 <= at < states.len(),
        forall|j: int| 0 <= j < states.len() && j != at ==> (#[trigger] states[j]).path != states[at].path,
    ensures
        mtime_to_record(states, states[at].path) == current_mtime(states[at]),
    decreases states.len(),
{
    if at < states.len() - 1 {
        assert(states.drop_last()[at] == states[at]);
        assert forall|j: int| 0 <= j < states.drop_last().len() && j != at implies (
        #[trigger] states.drop_last()[j]).path != states.drop_last()[at].path by {
            assert(states.drop_last()[j] == states[j]);
        }
        lemma_single_mtime(states.drop_last(), at);
        assert(states[states.len() - 1].path != states[at].path);
    }
}

} // verus!
