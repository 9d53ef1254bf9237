//! The rows that an import hands to the catalogue store.

use vstd::prelude::*;
use vstd::string::StringExecFns;
use crate::catalog::{
    build_description, build_location, build_tags, description_of, location_of, tags_of,
};
use crate::dedup::{storage_path, storage_path_of};

use crate::discovery::{DiscoveredImage, DiscoveredImageView};
use crate::metadata::{FitsMetadata, FitsMetadataView};
use crate::session::{collection_name_of, iso_date_text, SessionKey, SessionKeyView};
use crate::text::{clone_opt, opt_view, owned};

verus! {

/// The visibility of everything that an import creates.
pub const PRIVATE: &'static str = "private";

/// The template of a collection that an import creates.
pub const SESSION_TEMPLATE: &'static str = "astrolog";

/// The content type of an imported image.
pub const IMAGE_CONTENT_TYPE: &'static str = "image/jpeg";

/// The number of characters of an identifier.
pub const ID_LENGTH: usize = 36;

/// Calls `uuid::Uuid::new_v4` and turns the identifier into text. The
/// identifier is random; all that holds of every one is its length, 32
/// digits and four hyphens.
#[verifier::external_body]
fn fresh_id() -> (id: String)
    ensures
        id@.len() == ID_LENGTH,
{
    uuid::Uuid::new_v4().to_string()
}

/// A collection to create.
pub struct NewCollection {
    pub id: String,
    pub user_id: String,
    pub name: String,
    pub description: Option<String>,
    pub visibility: String,
    pub template: Option<String>,
    pub favorite: bool,
    pub tags: Option<String>,
    /// Free-form data as JSON. An import leaves it empty and hands out the
    /// provenance to write there beside the row.
    pub metadata: Option<String>,
    pub archived: bool,
}

/// Where an imported collection comes from; it is stored with the collection.
pub struct CollectionProvenance {
    /// The date of the session, absent for the collection of frames without
    /// a usable timestamp.
    pub session_date: Option<String>,
    pub auto_imported: bool,
    /// The directory that was scanned.
    pub source_directory: String,
}

/// An image to create.
pub struct NewImage {
    pub id: String,
    pub user_id: String,
    pub collection_id: Option<String>,
    pub filename: String,
    pub url: Option<String>,
    pub summary: Option<String>,
    pub description: Option<String>,
    pub content_type: Option<String>,
    pub favorite: bool,
    pub tags: Option<String>,
    pub visibility: Option<String>,
    pub location: Option<String>,
    pub annotations: Option<String>,
    pub metadata: Option<String>,
    pub thumbnail: Option<String>,
}

/// A link between a collection and an image to create.
pub struct NewCollectionImage {
    pub id: String,
    pub collection_id: String,
    pub image_id: String,
}

/// The record of a scanned directory to write.
pub struct NewScannedDirectory {
    pub id: String,
    pub user_id: String,
    pub path: String,
    pub fs_modified_at: i64,
    pub last_scanned_at: String,
    pub image_count: i32,
}

/// The description of a collection that an import creates.
pub open spec fn collection_description(key: SessionKeyView, directory: Seq<char>) -> Seq<char> {
    match key {
        SessionKeyView::Night(_) => "Auto-imported from "@ + directory,
        SessionKeyView::Unknown => "Auto-imported from "@ + directory + " (no date metadata)"@,
    }
}

/// The date that the provenance of a collection names.
pub open spec fn provenance_date(key: SessionKeyView) -> Option<Seq<char>> {
    match key {
        SessionKeyView::Night(d) => Some(iso_date_text(d)),
        SessionKeyView::Unknown => None,
    }
}

/// Whether `record` is the row of the collection of a session.
pub open spec fn is_session_row(
    record: NewCollection,
    key: SessionKeyView,
    user_id: Seq<char>,
    directory: Seq<char>,
    tags: Option<Seq<char>>,
) -> bool {
    &&& record.user_id@ == user_id
    &&& record.name@ == collection_name_of(key)
    &&& opt_view(record.description) == Some(collection_description(key, directory))
    &&& record.visibility@ == PRIVATE@
    &&& opt_view(record.template) == Some(SESSION_TEMPLATE@)
    &&& !record.favorite
    &&& opt_view(record.tags) == tags
    &&& record.metadata is None
    &&& !record.archived
}

/// Whether `image` is the row of an image found on disk.
pub open spec fn is_image_row(
    image: NewImage,
    user_id: Seq<char>,
    discovered: DiscoveredImageView,
    metadata: FitsMetadataView,
    user_tags: Option<Seq<char>>,
    metadata_json: Option<Seq<char>>,
    thumbnail: Option<Seq<char>>,
) -> bool {
    &&& image.user_id@ == user_id
    &&& image.collection_id is None
    &&& image.filename@ == discovered.base_name
    &&& opt_view(image.url) == storage_path_of(discovered)
    &&& opt_view(image.summary) == metadata.object_name
    &&& opt_view(image.description) == Some(description_of(metadata))
    &&& opt_view(image.content_type) == Some(IMAGE_CONTENT_TYPE@)
    &&& !image.favorite
    &&& opt_view(image.tags) == tags_of(user_tags, discovered.is_stacked, metadata.telescope)
    &&& opt_view(image.visibility) == Some(PRIVATE@)
    &&& opt_view(image.location) == location_of(metadata.ra, metadata.dec)
    &&& image.annotations is None
    &&& opt_view(image.metadata) == metadata_json
    &&& opt_view(image.thumbnail) == thumbnail
}

/// The collection of a session, under a given identifier: private, with the
/// session template, not a favourite, not archived, with the tags of the
/// import.
pub fn session_collection(
    id: String,
    user_id: &str,
    name: String,
    key: &SessionKey,
    directory: &str,
    tags: &Option<String>,
) -> (r: NewCollection)
    ensures
        r.id@ == id@,
        r.user_id@ == user_id@,
        r.name@ == name@,
        opt_view(r.description) == Some(collection_description(key@, directory@)),
        r.visibility@ == PRIVATE@,
        opt_view(r.template) == Some(SESSION_TEMPLATE@),
        !r.favorite,
        opt_view(r.tags) == opt_view(*tags),
        r.metadata is None,
        !r.archived,
{
    let mut description = owned("Auto-imported from ");
    description.append(directory);
    match key {
        SessionKey::Night(_) => {},
        SessionKey::Unknown => {
            description.append(" (no date metadata)");
        },
    }
    NewCollection {
        id,
        user_id: owned(user_id),
        name,
        description: Some(description),
        visibility: owned(PRIVATE),
        template: Some(owned(SESSION_TEMPLATE)),
        favorite: false,
        tags: clone_opt(tags),
        metadata: None,
        archived: false,
    }
}

/// The provenance of the collection of a session.
pub fn session_provenance(key: &SessionKey, directory: &str) -> (r: CollectionProvenance)
    ensures
        opt_view(r.session_date) == provenance_date(key@),
        r.auto_imported,
        r.source_directory@ == directory@,
{
    let session_date = match key {
        SessionKey::Night(d) => Some(d.label()),
        SessionKey::Unknown => None,
    };
    CollectionProvenance { session_date, auto_imported: true, source_directory: owned(directory) }
}

/// The collection of a session, under a fresh identifier.
pub fn new_session_collection(
    user_id: &str,
    name: String,
    key: &SessionKey,
    directory: &str,
    tags: &Option<String>,
) -> (r: NewCollection)
    ensures
        r.id@.len() == ID_LENGTH,
        r.user_id@ == user_id@,
        r.name@ == name@,
        opt_view(r.description) == Some(collection_description(key@, directory@)),
        r.visibility@ == PRIVATE@,
        opt_view(r.template) == Some(SESSION_TEMPLATE@),
        !r.favorite,
        opt_view(r.tags) == opt_view(*tags),
        r.metadata is None,
        !r.archived,
{
    session_collection(fresh_id(), user_id, name, key, directory, tags)
}

/// The row of an image, under a given identifier. The image is private, not a
/// favourite, without annotations, and not bound to one collection: its
/// collections are linked to it.
pub fn image_record(
    id: String,
    user_id: &str,
    discovered: &DiscoveredImage,
    metadata: &FitsMetadata,
    user_tags: &Option<String>,
    metadata_json: Option<String>,
    thumbnail: Option<String>,
) -> (r: NewImage)
    ensures
        r.id@ == id@,
        r.user_id@ == user_id@,
        r.collection_id is None,
        r.filename@ == discovered@.base_name,
        opt_view(r.url) == storage_path_of(discovered@),
        opt_view(r.summary) == metadata@.object_name,
        opt_view(r.description) == Some(description_of(metadata@)),
        opt_view(r.content_type) == Some(IMAGE_CONTENT_TYPE@),
        !r.favorite,
        opt_view(r.tags) == tags_of(
            opt_view(*user_tags),
            discovered@.is_stacked,
            metadata@.telescope,
        ),
        opt_view(r.visibility) == Some(PRIVATE@),
        opt_view(r.location) == location_of(metadata@.ra, metadata@.dec),
        r.annotations is None,
        opt_view(r.metadata) == opt_view(metadata_json),
        opt_view(r.thumbnail) == opt_view(thumbnail),
{
    NewImage {
        id,
        user_id: owned(user_id),
        collection_id: None,
        filename: discovered.base_name.clone(),
        url: storage_path(discovered),
        summary: clone_opt(&metadata.object_name),
        description: Some(build_description(metadata)),
        content_type: Some(owned(IMAGE_CONTENT_TYPE)),
        favorite: false,
        tags: build_tags(user_tags, discovered.is_stacked, &metadata.telescope),
        visibility: Some(owned(PRIVATE)),
        location: build_location(&metadata.ra, &metadata.dec),
        annotations: None,
        metadata: metadata_json,
        thumbnail,
    }
}

/// The link between a collection and an image, under a fresh identifier.
pub fn new_membership(collection_id: &str, image_id: &str) -> (r: NewCollectionImage)
    ensures
        r.id@.len() == ID_LENGTH,
        r.collection_id@ == collection_id@,
        r.image_id@ == image_id@,
{
    NewCollectionImage {
        id: fresh_id(),
        collection_id: owned(collection_id),
        image_id: owned(image_id),
    }
}

/// The record of a directory that was scanned at `now`, under a fresh
/// identifier. The number of images is not counted and stays zero.
pub fn new_scanned_directory(user_id: &str, path: &str, fs_modified_at: i64, now: &str) -> (r:
    NewScannedDirectory)
    ensures
        r.id@.len() == ID_LENGTH,
        r.user_id@ == user_id@,
        r.path@ == path@,
        r.fs_modified_at == fs_modified_at,
        r.last_scanned_at@ == now@,
        r.image_count == 0,
{
    NewScannedDirectory {
        id: fresh_id(),
        user_id: owned(user_id),
        path: owned(path),
        fs_modified_at,
        last_scanned_at: owned(now),
        image_count: 0,
    }
}

/// The row of an image, under a fresh identifier.
pub fn new_image_record(
    user_id: &str,
    discovered: &DiscoveredImage,
    metadata: &FitsMetadata,
    user_tags: &Option<String>,
    metadata_json: Option<String>,
    thumbnail: Option<String>,
) -> (r: NewImage)
    ensures
        r.id@.len() == ID_LENGTH,
        is_image_row(
            r,
            user_id@,
            discovered@,
            metadata@,
            opt_view(*user_tags),
            opt_view(metadata_json),
            opt_view(thumbnail),
        ),
{
    image_record(fresh_id(), user_id, discovered, metadata, user_tags, metadata_json, thumbnail)
}

} // verus!
