//! What a directory listing yields, and how a file of it is classified.

use vstd::prelude::*;
use crate::text::{
    chars_of, clone_opt, ends_with, has_prefix, has_suffix, lowercase, opt_view, same_chars,
    starts_with, to_lowercase,
};

verus! {

/// One entry of a recursive directory listing, split into its parts.
pub struct FileEntry {
    /// The full path of the entry.
    pub path: String,
    /// The directory that holds the entry.
    pub parent: String,
    /// The last component of the path, empty where it has none.
    pub file_name: String,
    /// The file name without its extension.
    pub stem: Option<String>,
    /// The extension, without the dot.
    pub extension: Option<String>,
    /// Whether the entry is a directory.
    pub is_dir: bool,
    /// Whether the entry is a regular file.
    pub is_file: bool,
}

/// An entry of a listing as mathematical values.
pub struct FileEntryView {
    pub path: Seq<char>,
    pub parent: Seq<char>,
    pub file_name: Seq<char>,
    pub stem: Option<Seq<char>>,
    pub extension: Option<Seq<char>>,
    pub is_dir: bool,
    pub is_file: bool,
}

impl View for FileEntry {
    type V = FileEntryView;

    open spec fn view(&self) -> FileEntryView {
        FileEntryView {
            path: self.path@,
            parent: self.parent@,
            file_name: self.file_name@,
            stem: opt_view(self.stem),
            extension: opt_view(self.extension),
            is_dir: self.is_dir,
            is_file: self.is_file,
        }
    }
}

/// An image found on disk: a raw frame, its preview, or both under one name.
pub struct DiscoveredImage {
    /// The file name shared by the raw frame and the preview.
    pub base_name: String,
    /// The directory that holds them.
    pub directory: String,
    /// The path of the raw frame, if there is one.
    pub fits_path: Option<String>,
    /// The path of the preview, if there is one.
    pub jpeg_path: Option<String>,
    /// Whether the name marks a stacked image.
    pub is_stacked: bool,
}

/// An image found on disk as mathematical values.
pub struct DiscoveredImageView {
    pub base_name: Seq<char>,
    pub directory: Seq<char>,
    pub fits_path: Option<Seq<char>>,
    pub jpeg_path: Option<Seq<char>>,
    pub is_stacked: bool,
}

impl View for DiscoveredImage {
    type V = DiscoveredImageView;

    open spec fn view(&self) -> DiscoveredImageView {
        DiscoveredImageView {
            base_name: self.base_name@,
            directory: self.directory@,
            fits_path: opt_view(self.fits_path),
            jpeg_path: opt_view(self.jpeg_path),
            is_stacked: self.is_stacked,
        }
    }
}

impl DiscoveredImage {
    /// A copy of this image.
    pub fn copy(&self) -> (r: DiscoveredImage)
        ensures
            r@ == self@,
    {
        DiscoveredImage {
            base_name: self.base_name.clone(),
            directory: self.directory.clone(),
            fits_path: clone_opt(&self.fits_path),
            jpeg_path: clone_opt(&self.jpeg_path),
            is_stacked: self.is_stacked,
        }
    }
}

/// The views of a list of images.
pub open spec fn images_view(images: Seq<DiscoveredImage>) -> Seq<DiscoveredImageView> {
    images.map_values(|d: DiscoveredImage| d@)
}

/// The views of a list of entries.
pub open spec fn entries_view(entries: Seq<FileEntry>) -> Seq<FileEntryView> {
    entries.map_values(|e: FileEntry| e@)
}

/// The two kinds of file that make up an image.
#[derive(Clone, Copy, Debug, PartialEq, Eq, Structural)]
pub enum FileKind {
    /// A raw frame with a metadata header.
    Raw,
    /// A preview that can be viewed directly.
    Preview,
}

/// The kind of file that an extension in small letters stands for.
pub open spec fn kind_of_lowered(lower_extension: Seq<char>) -> Option<FileKind> {
    if lower_extension == "fit"@ || lower_extension == "fits"@ {
        Some(FileKind::Raw)
    } else if lower_extension == "jpg"@ || lower_extension == "jpeg"@ {
        Some(FileKind::Preview)
    } else {
        None
    }
}

/// The kind of file that an extension stands for, whatever its case.
pub open spec fn kind_of_extension(extension: Seq<char>) -> Option<FileKind> {
    kind_of_lowered(lowercase(extension))
}

/// Whether a stem names a stacked image.
pub open spec fn names_stacked(stem: Seq<char>) -> bool {
    has_prefix(lowercase(stem), "stacked"@)
}

/// Whether a stem names a raw subframe.
pub open spec fn names_light(stem: Seq<char>) -> bool {
    has_prefix(lowercase(stem), "light"@)
}

/// Whether a stem names a thumbnail written by the camera.
pub open spec fn names_thumbnail(stem: Seq<char>) -> bool {
    has_suffix(lowercase(stem), "thn"@)
}

/// The kind under which an entry is taken into the catalogue, if it is taken
/// at all, given its stem and its extension in small letters. Directories,
/// files whose name begins with `._`, files of other extensions, previews
/// whose stem ends in `thn` and, where only stacked images are wanted, files
/// whose stem begins with `light` are left out.
pub open spec fn accepted_lowered(
    entry: FileEntryView,
    lower_stem: Seq<char>,
    lower_extension: Seq<char>,
    stacked_only: bool,
) -> Option<FileKind> {
    if entry.is_dir || has_prefix(entry.file_name, "._"@) {
        None
    } else {
        match kind_of_lowered(lower_extension) {
            None => None,
            Some(kind) => if kind == FileKind::Preview && has_suffix(lower_stem, "thn"@) {
                None
            } else if stacked_only && has_prefix(lower_stem, "light"@) {
                None
            } else {
                Some(kind)
            },
        }
    }
}

/// The kind under which an entry is taken into the catalogue, if it is taken
/// at all. Directories, files whose name begins with `._`, files of other
/// extensions, files without a stem, camera thumbnails and, where only stacked
/// images are wanted, raw subframes are left out.
pub open spec fn accepted_kind(entry: FileEntryView, stacked_only: bool) -> Option<FileKind> {
    if entry.extension is None || entry.stem is None {
        None
    } else {
        accepted_lowered(
            entry,
            lowercase(entry.stem->0),
            lowercase(entry.extension->0),
            stacked_only,
        )
    }
}

/// What classifying an entry yields: its kind and whether it is stacked.
pub struct Classified {
    pub kind: FileKind,
    pub is_stacked: bool,
}

/// Whether the characters `s` spell `word`.
fn spells(s: &Vec<char>, word: &str) -> (r: bool)
    ensures
        r == (s@ == word@),
{
    let w = chars_of(word);
    same_chars(s, &w)
}

/// Classifies one entry of a listing by its stem and its extension in small
/// letters. The image is stacked where the stem begins with `stacked`.
pub fn classify_lowered(
    entry: &FileEntry,
    lower_stem: &str,
    lower_extension: &str,
    stacked_only: bool,
) -> (r: Option<Classified>)
    ensures
        match r {
            Some(c) => accepted_lowered(entry@, lower_stem@, lower_extension@, stacked_only) == Some(
                c.kind,
            ) && c.is_stacked == has_prefix(lower_stem@, "stacked"@),
            None => accepted_lowered(entry@, lower_stem@, lower_extension@, stacked_only) is None,
        },
{
    if entry.is_dir {
        return None;
    }
    let name = chars_of(entry.file_name.as_str());
    let marker = chars_of("._");
    if starts_with(&name, &marker) {
        return None;
    }
    let extension = chars_of(lower_extension);
    let stem = chars_of(lower_stem);
    let kind = if spells(&extension, "fit") || spells(&extension, "fits") {
        FileKind::Raw
    } else if spells(&extension, "jpg") || spells(&extension, "jpeg") {
        FileKind::Preview
    } else {
        return None;
    };
    let thumbnail = chars_of("thn");
    let is_preview = match kind {
        FileKind::Preview => true,
        FileKind::Raw => false,
    };
    if is_preview && ends_with(&stem, &thumbnail) {
        return None;
    }
    let stacked = chars_of("stacked");
    let light = chars_of("light");
    let is_stacked = starts_with(&stem, &stacked);
    if stacked_only && starts_with(&stem, &light) {
        return None;
    }
    Some(Classified { kind, is_stacked })
}

/// Classifies one entry of a listing.
pub fn classify_entry(entry: &FileEntry, stacked_only: bool) -> (r: Option<Classified>)
    ensures
        match r {
            Some(c) => accepted_kind(entry@, stacked_only) == Some(c.kind) && c.is_stacked
                == names_stacked(entry@.stem->0),
            None => accepted_kind(entry@, stacked_only) is None,
        },
{
    let extension = match &entry.extension {
        Some(e) => to_lowercase(e.as_str()),
        None => {
            return None;
        },
    };
    let stem = match &entry.stem {
        Some(s) => to_lowercase(s.as_str()),
        None => {
            return None;
        },
    };
    classify_lowered(entry, stem.as_str(), extension.as_str(), stacked_only)
}

} // verus!
