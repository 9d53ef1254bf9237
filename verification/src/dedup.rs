//! The deduplication index: what the catalogue already holds, loaded once per
//! scan, so that each image found is told from a new one in constant time.

use vstd::prelude::*;
use vstd::hash_map::StringHashMap;
use vstd::hash_set::StringHashSet;
use crate::discovery::{images_view, DiscoveredImage, DiscoveredImageView};
use crate::pairs::PairIndex;
use crate::text::{clone_opt, opt_view};

verus! {

/// A set of pairs of collection and image.
pub struct Memberships {
    pairs: PairIndex,
}

impl View for Memberships {
    type V = Set<(Seq<char>, Seq<char>)>;

    closed spec fn view(&self) -> Set<(Seq<char>, Seq<char>)> {
        self.pairs@.dom()
    }
}

impl Memberships {
    /// Whether the set is in order.
    pub closed spec fn wf(&self) -> bool {
        self.pairs.wf()
    }

    /// The empty set.
    pub fn new() -> (m: Memberships)
        ensures
            m.wf(),
            m@ == Set::<(Seq<char>, Seq<char>)>::empty(),
    {
        let m = Memberships { pairs: PairIndex::new() };
        assert(m@ =~= Set::<(Seq<char>, Seq<char>)>::empty());
        m
    }

    /// Whether the image is in the collection.
    pub fn contains(&self, collection_id: &str, image_id: &str) -> (r: bool)
        requires
            self.wf(),
        ensures
            r == self@.contains((collection_id@, image_id@)),
    {
        self.pairs.get(collection_id, image_id).is_some()
    }

    /// Puts the image into the collection.
    pub fn insert(&mut self, collection_id: String, image_id: String)
        requires
            old(self).wf(),
        ensures
            final(self).wf(),
            final(self)@ == old(self)@.insert((collection_id@, image_id@)),
    {
        self.pairs.insert(collection_id, image_id, 0);
        assert(self@ =~= old(self)@.insert((collection_id@, image_id@)));
    }
}

/// The views of the values of a map from text to text.
pub open spec fn text_map_view(m: Map<Seq<char>, String>) -> Map<Seq<char>, Seq<char>> {
    m.map_values(|s: String| s@)
}

/// What the catalogue already holds, as mathematical values.
pub struct DedupIndexView {
    /// The storage path of every image.
    pub paths: Set<Seq<char>>,
    /// The identifier of the image stored at a path.
    pub image_ids: Map<Seq<char>, Seq<char>>,
    /// The pairs of collection and image that are linked.
    pub memberships: Set<(Seq<char>, Seq<char>)>,
}

/// What the catalogue already holds.
pub struct DedupIndex {
    paths: StringHashSet,
    image_ids: StringHashMap<String>,
    memberships: Memberships,
}

impl View for DedupIndex {
    type V = DedupIndexView;

    closed spec fn view(&self) -> DedupIndexView {
        DedupIndexView {
            paths: self.paths@,
            image_ids: text_map_view(self.image_ids@),
            memberships: self.memberships@,
        }
    }
}

/// The index after the listed paths, images and memberships are taken in, in
/// this order. Of two images stored at one path the later one counts.
pub open spec fn index_of(
    paths: Seq<Seq<char>>,
    images: Seq<(Seq<char>, Seq<char>)>,
    memberships: Seq<(Seq<char>, Seq<char>)>,
) -> DedupIndexView
    decreases paths.len() + images.len() + memberships.len(),
{
    if memberships.len() > 0 {
        let before = index_of(paths, images, memberships.drop_last());
        DedupIndexView { memberships: before.memberships.insert(memberships.last()), ..before }
    } else if images.len() > 0 {
        let before = index_of(paths, images.drop_last(), memberships);
        DedupIndexView {
            image_ids: before.image_ids.insert(images.last().0, images.last().1),
            ..before
        }
    } else if paths.len() > 0 {
        let before = index_of(paths.drop_last(), images, memberships);
        DedupIndexView { paths: before.paths.insert(paths.last()), ..before }
    } else {
        DedupIndexView { paths: Set::empty(), image_ids: Map::empty(), memberships: Set::empty() }
    }
}

/// The views of a list of pairs of texts.
pub open spec fn text_pairs_view(pairs: Seq<(String, String)>) -> Seq<(Seq<char>, Seq<char>)> {
    pairs.map_values(|p: (String, String)| (p.0@, p.1@))
}

impl DedupIndex {
    /// Whether the index is in order.
    pub closed spec fn wf(&self) -> bool {
        self.memberships.wf()
    }

    /// An index of an empty catalogue.
    pub fn new() -> (index: DedupIndex)
        ensures
            index.wf(),
            index@ == index_of(Seq::empty(), Seq::empty(), Seq::empty()),
    {
        let index = DedupIndex {
            paths: StringHashSet::new(),
            image_ids: StringHashMap::new(),
            memberships: Memberships::new(),
        };
        assert(text_map_view(index.image_ids@) =~= Map::empty());
        index
    }

    /// Takes in the storage path of an image of the catalogue.
    pub fn add_path(&mut self, path: String)
        requires
            old(self).wf(),
        ensures
            final(self).wf(),
            final(self)@ == (DedupIndexView { paths: old(self)@.paths.insert(path@), ..old(self)@ }),
    {
        self.paths.insert(path);
    }

    /// Takes in the identifier of the image stored at a path.
    pub fn add_image(&mut self, path: String, image_id: String)
        requires
            old(self).wf(),
        ensures
            final(self).wf(),
            final(self)@ == (DedupIndexView {
                image_ids: old(self)@.image_ids.insert(path@, image_id@),
                ..old(self)@
            }),
    {
        self.image_ids.insert(path, image_id);
        assert(text_map_view(self.image_ids@) =~= text_map_view(old(self).image_ids@).insert(
            path@,
            image_id@,
        ));
    }

    /// Takes in a link between a collection and an image.
    pub fn add_membership(&mut self, collection_id: String, image_id: String)
        requires
            old(self).wf(),
        ensures
            final(self).wf(),
            final(self)@ == (DedupIndexView {
                memberships: old(self)@.memberships.insert((collection_id@, image_id@)),
                ..old(self)@
            }),
    {
        self.memberships.insert(collection_id, image_id);
    }

    /// Builds the index from what the catalogue lists: the storage paths of
    /// its images, the images as path and identifier, and the memberships as
    /// collection and image.
    pub fn build(
        paths: &Vec<String>,
        images: &Vec<(String, String)>,
        memberships: &Vec<(String, String)>,
    ) -> (index: DedupIndex)
        ensures
            index.wf(),
            index@ == index_of(
                crate::text::views(paths@),
                text_pairs_view(images@),
                text_pairs_view(memberships@),
            ),
    {
        let ghost all_paths = crate::text::views(paths@);
        let ghost all_images = text_pairs_view(images@);
        let ghost all_links = text_pairs_view(memberships@);
        let mut index = DedupIndex::new();
        let mut i: usize = 0;
        while i < paths.len()
            invariant
                i <= paths.len(),
                index.wf(),
                all_paths == crate::text::views(paths@),
                index@ == index_of(all_paths.take(i as int), Seq::empty(), Seq::empty()),
            decreases paths.len() - i,
        {
            assert(all_paths.take(i + 1).drop_last() =~= all_paths.take(i as int));
            assert(all_paths.take(i + 1).last() == paths@[i as int]@);
            index.add_path(paths[i].clone());
            i += 1;
        }
        assert(all_paths.take(paths.len() as int) =~= all_paths);
        assert(all_images.take(0) =~= Seq::empty());
        let mut j: usize = 0;
        while j < images.len()
            invariant
                j <= images.len(),
                index.wf(),
                all_images == text_pairs_view(images@),
                index@ == index_of(all_paths, all_images.take(j as int), Seq::empty()),
            decreases images.len() - j,
        {
            assert(all_images.take(j + 1).drop_last() =~= all_images.take(j as int));
            let pair = &images[j];
            assert(all_images.take(j + 1).last() == (pair.0@, pair.1@));
            index.add_image(pair.0.clone(), pair.1.clone());
            j += 1;
        }
        assert(all_images.take(images.len() as int) =~= all_images);
        assert(all_links.take(0) =~= Seq::empty());
        let mut k: usize = 0;
        while k < memberships.len()
            invariant
                k <= memberships.len(),
                index.wf(),
                all_links == text_pairs_view(memberships@),
                index@ == index_of(all_paths, all_images, all_links.take(k as int)),
            decreases memberships.len() - k,
        {
            assert(all_links.take(k + 1).drop_last() =~= all_links.take(k as int));
            let pair = &memberships[k];
            assert(all_links.take(k + 1).last() == (pair.0@, pair.1@));
            index.add_membership(pair.0.clone(), pair.1.clone());
            k += 1;
        }
        assert(all_links.take(memberships.len() as int) =~= all_links);
        index
    }

    /// Whether the catalogue holds an image stored at `path`.
    pub fn contains_path(&self, path: &str) -> (r: bool)
        ensures
            r == self@.paths.contains(path@),
    {
        self.paths.contains(path)
    }

    /// The number of storage paths that the catalogue holds.
    pub fn path_count(&self) -> (n: usize)
        ensures
            n == self@.paths.len(),
    {
        broadcast use vstd::hash_set::group_hash_set_axioms;

        self.paths.len()
    }

    /// The identifier of the image stored at `path`, if the catalogue has one.
    pub fn image_id(&self, path: &str) -> (r: Option<String>)
        ensures
            opt_view(r) == (if self@.image_ids.contains_key(path@) {
                Some(self@.image_ids[path@])
            } else {
                None
            }),
    {
        match self.image_ids.get(path) {
            Some(id) => Some(id.clone()),
            None => None,
        }
    }

    /// Whether the image is linked to the collection.
    pub fn is_member(&self, collection_id: &str, image_id: &str) -> (r: bool)
        requires
            self.wf(),
        ensures
            r == self@.memberships.contains((collection_id@, image_id@)),
    {
        self.memberships.contains(collection_id, image_id)
    }
}

/// The path under which an image is stored in the catalogue: that of its
/// preview, or that of its raw frame where it has no preview.
pub open spec fn storage_path_of(item: DiscoveredImageView) -> Option<Seq<char>> {
    match item.jpeg_path {
        Some(p) => Some(p),
        None => item.fits_path,
    }
}

/// The path under which an image is stored in the catalogue.
pub fn storage_path(item: &DiscoveredImage) -> (r: Option<String>)
    ensures
        opt_view(r) == storage_path_of(item@),
{
    match &item.jpeg_path {
        Some(p) => Some(p.clone()),
        None => clone_opt(&item.fits_path),
    }
}

/// Whether the catalogue already holds an image: it has a storage path, and
/// the path is one of `paths`.
pub open spec fn is_duplicate(item: DiscoveredImageView, paths: Set<Seq<char>>) -> bool {
    storage_path_of(item) is Some && paths.contains(storage_path_of(item)->0)
}

/// The images that the catalogue does not hold yet, in their order.
pub open spec fn new_among(items: Seq<DiscoveredImageView>, paths: Set<Seq<char>>) -> Seq<
    DiscoveredImageView,
>
    decreases items.len(),
{
    if items.len() == 0 {
        Seq::empty()
    } else if is_duplicate(items.last(), paths) {
        new_among(items.drop_last(), paths)
    } else {
        new_among(items.drop_last(), paths).push(items.last())
    }
}

/// The images that the catalogue already holds, in their order.
pub open spec fn duplicates_among(items: Seq<DiscoveredImageView>, paths: Set<Seq<char>>) -> Seq<
    DiscoveredImageView,
>
    decreases items.len(),
{
    if items.len() == 0 {
        Seq::empty()
    } else if is_duplicate(items.last(), paths) {
        duplicates_among(items.drop_last(), paths).push(items.last())
    } else {
        duplicates_among(items.drop_last(), paths)
    }
}

/// The images of a scan, set apart by whether the catalogue holds them.
pub struct DuplicateSplit {
    /// The images to process and import.
    pub new_images: Vec<DiscoveredImage>,
    /// The images that are in the catalogue already.
    pub duplicate_images: Vec<DiscoveredImage>,
}

/// Sets the images that the catalogue already holds apart from the new ones.
pub fn partition_duplicates(images: Vec<DiscoveredImage>, index: &DedupIndex) -> (r: DuplicateSplit)
    ensures
        images_view(r.new_images@) == new_among(images_view(images@), index@.paths),
        images_view(r.duplicate_images@) == duplicates_among(images_view(images@), index@.paths),
        r.new_images.len() + r.duplicate_images.len() == images.len(),
{
    let ghost all = images_view(images@);
    let mut new_images: Vec<DiscoveredImage> = Vec::new();
    let mut duplicate_images: Vec<DiscoveredImage> = Vec::new();
    let mut i: usize = 0;
    assert(images_view(new_images@) =~= Seq::empty());
    assert(images_view(duplicate_images@) =~= Seq::empty());
    while i < images.len()
        invariant
            i <= images.len(),
            all == images_view(images@),
            images_view(new_images@) == new_among(all.take(i as int), index@.paths),
            images_view(duplicate_images@) == duplicates_among(all.take(i as int), index@.paths),
            new_images.len() + duplicate_images.len() == i,
        decreases images.len() - i,
    {
        let item = images[i].copy();
        assert(all.take(i + 1).drop_last() =~= all.take(i as int));
        assert(all.take(i + 1).last() == item@);
        let ghost new_before = images_view(new_images@);
        let ghost old_before = images_view(duplicate_images@);
        let known = match storage_path(&item) {
            Some(path) => index.contains_path(path.as_str()),
            None => false,
        };
        if known {
            duplicate_images.push(item);
            assert(images_view(duplicate_images@) =~= old_before.push(all[i as int]));
        } else {
            new_images.push(item);
            assert(images_view(new_images@) =~= new_before.push(all[i as int]));
        }
        i += 1;
    }
    assert(all.take(images.len() as int) =~= all);
    DuplicateSplit { new_images, duplicate_images }
}

/// The image to link to a collection when the file at `path` is met again:
/// the image stored at the path, unless none is known or it is linked to the
/// collection already.
pub open spec fn link_needed(
    index: DedupIndexView,
    collection_id: Seq<char>,
    path: Seq<char>,
) -> Option<Seq<char>> {
    if index.image_ids.contains_key(path) && !index.memberships.contains(
        (collection_id, index.image_ids[path]),
    ) {
        Some(index.image_ids[path])
    } else {
        None
    }
}

/// The image to link to a collection when the file at `path` is met again.
pub fn membership_to_add(index: &DedupIndex, collection_id: &str, path: &str) -> (r: Option<String>)
    requires
        index.wf(),
    ensures
        opt_view(r) == link_needed(index@, collection_id@, path@),
{
    match index.image_id(path) {
        Some(image_id) => if index.is_member(collection_id, image_id.as_str()) {
            None
        } else {
            Some(image_id)
        },
        None => None,
    }
}

/// An image met again is linked to a collection once: after the link is
/// made, none is needed any more.
pub proof fn lemma_link_is_made_once(
    index: DedupIndexView,
    collection_id: Seq<char>,
    path: Seq<char>,
)
    requires
        link_needed(index, collection_id, path) is Some,
    ensures
        link_needed(
            DedupIndexView {
                memberships: index.memberships.insert(
                    (collection_id, link_needed(index, collection_id, path)->0),
                ),
                ..index
            },
            collection_id,
            path,
        ) is None,
{
}

/// Every image is either new or a duplicate, never both: the two lists
/// together have as many images as there were.
pub proof fn lemma_split_is_complete(items: Seq<DiscoveredImageView>, paths: Set<Seq<char>>)
    ensures
        new_among(items, paths).len() + duplicates_among(items, paths).len() == items.len(),
    decreases items.len(),
{
    if items.len() > 0 {
        lemma_split_is_complete(items.drop_last(), paths);
    }
}

} // verus!
