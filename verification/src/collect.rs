//! Gathering the raw subframes that belong to stacked images: where they lie,
//! which files count, and the bookkeeping of copying them.

use vstd::prelude::*;
use vstd::hash_set::StringHashSet;
use vstd::string::StringExecFns;
use crate::count::{bump, one_more};
use crate::decimal::{decimal_text, push_count, push_digits};
use crate::discovery::{kind_of_lowered, FileEntry, FileEntryView, FileKind};
use crate::process::{percent_of, progress_percent};
use crate::text::{
    chars_of, has_prefix, lowercase, opt_view, owned, same_chars, same_text, starts_with,
    to_lowercase, views,
};

verus! {

/// Which stacked images to gather subframes for, and where to.
pub struct CollectRawFilesInput {
    /// The paths of the stacked images.
    pub stacked_paths: Vec<String>,
    /// The directory to copy the subframes to.
    pub target_directory: String,
}

/// What gathering subframes did.
pub struct CollectRawFilesResult {
    pub files_copied: usize,
    pub files_skipped: usize,
    pub bytes_copied: u64,
    pub errors: Vec<String>,
}

/// What gathering subframes did, as mathematical values.
pub struct CollectRawFilesResultView {
    pub files_copied: usize,
    pub files_skipped: usize,
    pub bytes_copied: u64,
    pub errors: Seq<Seq<char>>,
}

impl View for CollectRawFilesResult {
    type V = CollectRawFilesResultView;

    open spec fn view(&self) -> CollectRawFilesResultView {
        CollectRawFilesResultView {
            files_copied: self.files_copied,
            files_skipped: self.files_skipped,
            bytes_copied: self.bytes_copied,
            errors: views(self.errors@),
        }
    }
}

/// One progress report of gathering subframes.
pub struct CollectProgress {
    pub current: usize,
    pub total: usize,
    pub current_file: String,
    pub percent: u8,
    pub cancelled: bool,
    /// The phase: `scanning`, `copying`, `cancelled` or `complete`.
    pub phase: String,
}

/// A progress report of gathering subframes as mathematical values.
pub struct CollectProgressView {
    pub current: usize,
    pub total: usize,
    pub current_file: Seq<char>,
    pub percent: u8,
    pub cancelled: bool,
    pub phase: Seq<char>,
}

impl View for CollectProgress {
    type V = CollectProgressView;

    open spec fn view(&self) -> CollectProgressView {
        CollectProgressView {
            current: self.current,
            total: self.total,
            current_file: self.current_file@,
            percent: self.percent,
            cancelled: self.cancelled,
            phase: self.phase@,
        }
    }
}

/// A directory above a stacked image: its path and its own name, which is
/// absent for a root.
pub struct PathLevel {
    pub path: String,
    pub name: Option<String>,
}

/// A directory above a stacked image as mathematical values.
pub struct PathLevelView {
    pub path: Seq<char>,
    pub name: Option<Seq<char>>,
}

impl View for PathLevel {
    type V = PathLevelView;

    open spec fn view(&self) -> PathLevelView {
        PathLevelView { path: self.path@, name: opt_view(self.name) }
    }
}

/// The views of a list of directories.
pub open spec fn levels_view(levels: Seq<PathLevel>) -> Seq<PathLevelView> {
    levels.map_values(|l: PathLevel| l@)
}

/// Where the subframes of a stacked image may lie.
pub struct SubDirectoryCandidates {
    /// The directory that holds the target's directory.
    pub container: String,
    /// The name of the subframe directory beside the target's directory.
    pub sub_name: String,
    /// The target's directory, which may hold a directory `Light`.
    pub base: String,
}

/// How many levels above the stacked image the target's directory lies: one
/// more where the image lies in a directory named `Stacked`.
pub open spec fn base_level(ancestors: Seq<PathLevelView>) -> int {
    if ancestors.len() > 0 && ancestors[0].name == Some("Stacked"@) {
        1
    } else {
        0
    }
}

/// Whether a stacked image whose directories are `ancestors`, the nearest
/// first, has a place for subframes: its directory and the target's directory
/// have names, and the target's directory lies in a directory.
pub open spec fn has_candidates(ancestors: Seq<PathLevelView>) -> bool {
    &&& ancestors.len() > base_level(ancestors) + 1
    &&& ancestors[0].name is Some
    &&& ancestors[base_level(ancestors)].name is Some
}

/// Finds where the subframes of a stacked image may lie, from the directories
/// above the image, the nearest first.
pub fn sub_directory_candidates(ancestors: &Vec<PathLevel>) -> (r: Option<SubDirectoryCandidates>)
    ensures
        match r {
            Some(c) => {
                let base = base_level(levels_view(ancestors@));
                &&& has_candidates(levels_view(ancestors@))
                &&& c.base@ == ancestors@[base].path@
                &&& c.container@ == ancestors@[base + 1].path@
                &&& c.sub_name@ == ancestors@[base].name->0@ + "_sub"@
            },
            None => !has_candidates(levels_view(ancestors@)),
        },
{
    if ancestors.len() == 0 {
        return None;
    }
    let parent_name = match &ancestors[0].name {
        Some(n) => n,
        None => {
            return None;
        },
    };
    let base: usize = if same_text(parent_name.as_str(), "Stacked") {
        1
    } else {
        0
    };
    if ancestors.len() <= base + 1 {
        return None;
    }
    let base_name = match &ancestors[base].name {
        Some(n) => n,
        None => {
            return None;
        },
    };
    let mut sub_name = base_name.clone();
    sub_name.append("_sub");
    Some(
        SubDirectoryCandidates {
            container: ancestors[base + 1].path.clone(),
            sub_name,
            base: ancestors[base].path.clone(),
        },
    )
}

/// The directory of the subframes of a stacked image: the directory beside
/// the target's directory if it exists, else the directory `Light` in the
/// target's directory if that exists, else the first again.
pub fn get_sub_directory(sub_dir: String, light_dir: String, sub_exists: bool, light_exists: bool) -> (r:
    String)
    ensures
        r@ == if sub_exists || !light_exists {
            sub_dir@
        } else {
            light_dir@
        },
{
    if sub_exists {
        sub_dir
    } else if light_exists {
        light_dir
    } else {
        sub_dir
    }
}

/// Whether a file is a raw subframe, given its name and its extension in
/// small letters: the name begins with `light_` and the extension is that of
/// a raw frame.
pub open spec fn is_light_frame_lowered(
    is_file: bool,
    lower_name: Seq<char>,
    lower_extension: Option<Seq<char>>,
) -> bool {
    &&& is_file
    &&& has_prefix(lower_name, "light_"@)
    &&& lower_extension is Some
    &&& kind_of_lowered(lower_extension->0) == Some(FileKind::Raw)
}

/// Whether an entry is a raw subframe: a file whose name begins with
/// `light_` and whose extension is that of a raw frame, in any case.
pub open spec fn is_light_frame_entry(entry: FileEntryView) -> bool {
    is_light_frame_lowered(
        entry.is_file,
        lowercase(entry.file_name),
        match entry.extension {
            Some(e) => Some(lowercase(e)),
            None => None,
        },
    )
}

/// Whether a file is a raw subframe, given its name and its extension in
/// small letters.
pub fn is_light_frame_named(is_file: bool, lower_name: &str, lower_extension: &Option<String>) -> (r:
    bool)
    ensures
        r == is_light_frame_lowered(is_file, lower_name@, opt_view(*lower_extension)),
{
    if !is_file {
        return false;
    }
    let name = chars_of(lower_name);
    let prefix = chars_of("light_");
    if !starts_with(&name, &prefix) {
        return false;
    }
    match lower_extension {
        Some(e) => {
            let lower = chars_of(e.as_str());
            let fit = chars_of("fit");
            let fits = chars_of("fits");
            same_chars(&lower, &fit) || same_chars(&lower, &fits)
        },
        None => false,
    }
}

/// Whether an entry is a raw subframe.
pub fn is_light_frame(entry: &FileEntry) -> (r: bool)
    ensures
        r == is_light_frame_entry(entry@),
{
    let name = to_lowercase(entry.file_name.as_str());
    let extension = match &entry.extension {
        Some(e) => Some(to_lowercase(e.as_str())),
        None => None,
    };
    is_light_frame_named(entry.is_file, name.as_str(), &extension)
}

/// The message for a file that could not be copied.
pub open spec fn copy_failed_text(file_name: Seq<char>, reason: Seq<char>) -> Seq<char> {
    "Failed to copy "@ + file_name + ": "@ + reason
}

/// The label of the report that files are about to be copied.
pub open spec fn found_files_label(total: usize) -> Seq<char> {
    "Found "@ + decimal_text(total as int) + " files to copy"@
}

/// The label of the report that copying is complete, with the size in whole megabytes.
pub open spec fn copied_label(files: usize, bytes: u64) -> Seq<char> {
    "Copied "@ + decimal_text(files as int) + " files ("@ + decimal_text(bytes as int / 1_000_000)
        + " MB)"@
}

/// The sum of two byte counts, at most the largest value.
pub open spec fn more_bytes(a: u64, b: u64) -> u64 {
    if a + b <= u64::MAX {
        (a + b) as u64
    } else {
        u64::MAX
    }
}

impl CollectRawFilesResult {
    /// The result of having done nothing yet.
    pub fn new() -> (r: CollectRawFilesResult)
        ensures
            r@ == (CollectRawFilesResultView {
                files_copied: 0,
                files_skipped: 0,
                bytes_copied: 0,
                errors: Seq::empty(),
            }),
    {
        let r = CollectRawFilesResult {
            files_copied: 0,
            files_skipped: 0,
            bytes_copied: 0,
            errors: Vec::new(),
        };
        assert(r@.errors =~= Seq::empty());
        r
    }

    /// A file was left out because the target already has it.
    pub fn file_skipped(&mut self)
        ensures
            final(self)@ == (CollectRawFilesResultView {
                files_skipped: one_more(old(self)@.files_skipped),
                ..old(self)@
            }),
    {
        self.files_skipped = bump(self.files_skipped);
    }

    /// A file of `bytes` bytes was copied.
    pub fn file_copied(&mut self, bytes: u64)
        ensures
            final(self)@ == (CollectRawFilesResultView {
                files_copied: one_more(old(self)@.files_copied),
                bytes_copied: more_bytes(old(self)@.bytes_copied, bytes),
                ..old(self)@
            }),
    {
        self.files_copied = bump(self.files_copied);
        self.bytes_copied = if self.bytes_copied <= u64::MAX - bytes {
            self.bytes_copied + bytes
        } else {
            u64::MAX
        };
    }

    /// A file could not be copied: it counts as skipped and the reason is
    /// recorded.
    pub fn copy_failed(&mut self, file_name: &str, reason: &str)
        ensures
            final(self)@ == (CollectRawFilesResultView {
                files_skipped: one_more(old(self)@.files_skipped),
                errors: old(self)@.errors.push(copy_failed_text(file_name@, reason@)),
                ..old(self)@
            }),
    {
        let mut message = owned("Failed to copy ");
        message.append(file_name);
        message.append(": ");
        message.append(reason);
        self.errors.push(message);
        self.files_skipped = bump(self.files_skipped);
        assert(views(self.errors@) =~= views(old(self).errors@).push(
            copy_failed_text(file_name@, reason@),
        ));
    }
}

/// What became of copying one file.
pub enum CopyOutcome {
    /// The target has a file of that name already; nothing was copied.
    Exists,
    /// The file was copied; it has this many bytes.
    Copied(u64),
    /// Copying failed, for this reason.
    Failed(String),
}

/// What became of copying one file, as mathematical values.
pub enum CopyOutcomeView {
    Exists,
    Copied(u64),
    Failed(Seq<char>),
}

impl View for CopyOutcome {
    type V = CopyOutcomeView;

    open spec fn view(&self) -> CopyOutcomeView {
        match *self {
            CopyOutcome::Exists => CopyOutcomeView::Exists,
            CopyOutcome::Copied(bytes) => CopyOutcomeView::Copied(bytes),
            CopyOutcome::Failed(reason) => CopyOutcomeView::Failed(reason@),
        }
    }
}

/// The result after one more file: a file that the target has already is
/// skipped, a copied file is counted with its bytes, and a file that could not
/// be copied is skipped with the reason recorded.
pub open spec fn after_file(
    result: CollectRawFilesResultView,
    file_name: Seq<char>,
    outcome: CopyOutcomeView,
) -> CollectRawFilesResultView {
    match outcome {
        CopyOutcomeView::Exists => CollectRawFilesResultView {
            files_skipped: one_more(result.files_skipped),
            ..result
        },
        CopyOutcomeView::Copied(bytes) => CollectRawFilesResultView {
            files_copied: one_more(result.files_copied),
            bytes_copied: more_bytes(result.bytes_copied, bytes),
            ..result
        },
        CopyOutcomeView::Failed(reason) => CollectRawFilesResultView {
            files_skipped: one_more(result.files_skipped),
            errors: result.errors.push(copy_failed_text(file_name, reason)),
            ..result
        },
    }
}

impl CollectRawFilesResult {
    /// Takes in what became of copying the file named `file_name`.
    pub fn file_done(&mut self, file_name: &str, outcome: CopyOutcome)
        ensures
            final(self)@ == after_file(old(self)@, file_name@, outcome@),
    {
        match outcome {
            CopyOutcome::Exists => self.file_skipped(),
            CopyOutcome::Copied(bytes) => self.file_copied(bytes),
            CopyOutcome::Failed(reason) => self.copy_failed(file_name, reason.as_str()),
        }
    }
}

/// Whether the search for subframes and the copying go on: they end where the
/// work was cancelled.
pub open spec fn collecting_goes_on(cancelled: bool) -> bool {
    !cancelled
}

/// Whether the search for subframes and the copying go on.
pub fn goes_on(cancelled: bool) -> (r: bool)
    ensures
        r == collecting_goes_on(cancelled),
{
    !cancelled
}

/// The directories of subframes that were searched already.
pub struct SeenDirectories {
    seen: StringHashSet,
}

impl View for SeenDirectories {
    type V = Set<Seq<char>>;

    closed spec fn view(&self) -> Set<Seq<char>> {
        self.seen@
    }
}

impl SeenDirectories {
    /// No directory was searched yet.
    pub fn new() -> (r: SeenDirectories)
        ensures
            r@ == Set::<Seq<char>>::empty(),
    {
        SeenDirectories { seen: StringHashSet::new() }
    }

    /// Notes a directory as searched and says whether it is searched now: a
    /// directory is searched once, however many stacked images lead to it.
    pub fn take(&mut self, directory: &str) -> (fresh: bool)
        ensures
            fresh == !old(self)@.contains(directory@),
            final(self)@ == old(self)@.insert(directory@),
    {
        self.seen.insert(owned(directory))
    }
}

impl CollectProgress {
    /// The report that the search for subframes begins.
    pub fn scanning() -> (r: CollectProgress)
        ensures
            r@ == (CollectProgressView {
                current: 0,
                total: 0,
                current_file: "Scanning for subframes..."@,
                percent: 0,
                cancelled: false,
                phase: "scanning"@,
            }),
    {
        CollectProgress {
            current: 0,
            total: 0,
            current_file: owned("Scanning for subframes..."),
            percent: 0,
            cancelled: false,
            phase: owned("scanning"),
        }
    }

    /// The report after the search: either nothing was found and the work is
    /// complete, or `total` files are about to be copied.
    pub fn found(total: usize) -> (r: CollectProgress)
        ensures
            r@ == if total == 0 {
                CollectProgressView {
                    current: 0,
                    total: 0,
                    current_file: "No subframe files found"@,
                    percent: 100,
                    cancelled: false,
                    phase: "complete"@,
                }
            } else {
                CollectProgressView {
                    current: 0,
                    total,
                    current_file: found_files_label(total),
                    percent: 0,
                    cancelled: false,
                    phase: "copying"@,
                }
            },
    {
        if total == 0 {
            CollectProgress {
                current: 0,
                total: 0,
                current_file: owned("No subframe files found"),
                percent: 100,
                cancelled: false,
                phase: owned("complete"),
            }
        } else {
            let mut label = owned("Found ");
            push_count(&mut label, total);
            label.append(" files to copy");
            CollectProgress {
                current: 0,
                total,
                current_file: label,
                percent: 0,
                cancelled: false,
                phase: owned("copying"),
            }
        }
    }

    /// The report before the file at position `index`, counted from zero, is
    /// copied; or, where the work was cancelled, the report that it ends
    /// before that file.
    pub fn at_file(index: usize, total: usize, file_name: &str, cancelled: bool) -> (r:
        CollectProgress)
        ensures
            r@ == if cancelled {
                CollectProgressView {
                    current: index,
                    total,
                    current_file: "Cancelled"@,
                    percent: percent_of(index as nat, total as nat) as u8,
                    cancelled: true,
                    phase: "cancelled"@,
                }
            } else {
                CollectProgressView {
                    current: one_more(index),
                    total,
                    current_file: file_name@,
                    percent: percent_of(one_more(index) as nat, total as nat) as u8,
                    cancelled: false,
                    phase: "copying"@,
                }
            },
    {
        if cancelled {
            CollectProgress {
                current: index,
                total,
                current_file: owned("Cancelled"),
                percent: progress_percent(index, total),
                cancelled: true,
                phase: owned("cancelled"),
            }
        } else {
            let current = bump(index);
            CollectProgress {
                current,
                total,
                current_file: owned(file_name),
                percent: progress_percent(current, total),
                cancelled: false,
                phase: owned("copying"),
            }
        }
    }

    /// The report that all `total` files are dealt with.
    pub fn complete(total: usize, result: &CollectRawFilesResult) -> (r: CollectProgress)
        ensures
            r@ == (CollectProgressView {
                current: total,
                total,
                current_file: copied_label(result@.files_copied, result@.bytes_copied),
                percent: 100,
                cancelled: false,
                phase: "complete"@,
            }),
    {
        let mut label = owned("Copied ");
        push_count(&mut label, result.files_copied);
        label.append(" files (");
        push_digits(&mut label, result.bytes_copied / 1_000_000);
        label.append(" MB)");
        CollectProgress {
            current: total,
            total,
            current_file: label,
            percent: 100,
            cancelled: false,
            phase: owned("complete"),
        }
    }
}

} // verus!
