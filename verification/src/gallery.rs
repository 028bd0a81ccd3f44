//! The ordered collection of source photographs and the options of a run.

use crate::error::GalleryError;
use crate::paths::{is_image_file, is_image_path, join, joined_path, path_stem};
use crate::photo::{
    extracted_exif, parse_image_yaml, sidecar_outcome, Image, ImageView, MetaFile, MetaInfo,
};
use crate::seqs::{
    lemma_filter_empty, lemma_filter_idempotent, lemma_filter_members, lemma_filter_step,
};
use vstd::prelude::*;

verus! {

/// The title of a gallery whose directory holds no metadata file.
pub const DEFAULT_TITLE: &'static str = "Gallery";

/// The name of the metadata file of a gallery, within its input directory.
pub const GALLERY_FILE: &'static str = "gallery.yaml";

/// The size limits of one run: the bounds of a full image and the edge of a
/// thumbnail, in pixels.
#[derive(Debug)]
pub struct GalleryOpts {
    pub max_width: u32,
    pub max_height: u32,
    pub thumbnail_size: u32,
}

impl Default for GalleryOpts {
    /// Full images within 1600 x 1600 pixels, thumbnails of 128 pixels.
    fn default() -> (opts: GalleryOpts)
        ensures
            opts.max_width == 1600,
            opts.max_height == 1600,
            opts.thumbnail_size == 128,
    {
        GalleryOpts { max_width: 1600, max_height: 1600, thumbnail_size: 128 }
    }
}

/// What the metadata file of a gallery holds.
#[derive(Debug)]
pub struct GalleryMetaData {
    pub title: String,
}

/// One entry of the listing of the input directory.
#[derive(Debug)]
pub struct DirEntry {
    pub path: String,
    pub is_dir: bool,
}

/// One file of the input directory, as it was read: its path, its bytes and
/// what was found in the place of its sidecar file.
#[derive(Debug)]
pub struct SourceFile {
    pub path: String,
    pub data: Vec<u8>,
    pub sidecar: MetaFile<Option<MetaInfo>>,
}

/// The ordered collection of photographs of one run, under its title.
#[derive(Debug)]
pub struct Gallery {
    pub title: String,
    pub images: Vec<Image>,
}

/// The mathematical model of a `Gallery`.
pub struct GalleryView {
    pub title: Seq<char>,
    pub images: Seq<ImageView>,
}

/// The models of the images of a sequence, in its order.
pub open spec fn image_views(images: Seq<Image>) -> Seq<ImageView> {
    images.map_values(|image: Image| image@)
}

impl GalleryView {
    /// Whether every photograph of the gallery is called by the stem of its
    /// file.
    pub open spec fn is_named_by_paths(self) -> bool {
        forall|i: int| 0 <= i < self.images.len() ==> (#[trigger] self.images[i]).is_named_by_path()
    }
}

impl View for Gallery {
    type V = GalleryView;

    open spec fn view(&self) -> GalleryView {
        GalleryView { title: self.title@, images: image_views(self.images@) }
    }
}

/// Whether an entry of the input directory is a source photograph: a file,
/// not a directory, whose extension is exactly `jpg` or `jpeg`.
pub open spec fn is_photograph() -> spec_fn(DirEntry) -> bool {
    |entry: DirEntry| !entry.is_dir && is_image_path(entry.path@)
}

/// The path of an entry, as text.
pub open spec fn entry_path() -> spec_fn(DirEntry) -> Seq<char> {
    |entry: DirEntry| entry.path@
}

/// The paths of the source photographs among the entries of the input
/// directory, in the order of the listing.
pub open spec fn image_paths(entries: Seq<DirEntry>) -> Seq<Seq<char>> {
    entries.filter(is_photograph()).map_values(entry_path())
}

/// What a sequence of strings holds, as sequences of characters.
pub open spec fn texts(strings: Seq<String>) -> Seq<Seq<char>> {
    strings.map_values(|s: String| s@)
}

/// Picks the source photographs from the listing of the input directory.
///
/// The order of the listing is kept: nothing is sorted.
pub fn find_image_files(entries: &Vec<DirEntry>) -> (found: Vec<String>)
    ensures
        texts(found@) == image_paths(entries@),
{
    let mut found: Vec<String> = Vec::new();
    let mut i: usize = 0;
    proof {
        lemma_filter_empty(is_photograph());
    }
    while i < entries.len()
        invariant
            i <= entries.len(),
            texts(found@) == image_paths(entries@.take(i as int)),
        decreases entries.len() - i,
    {
        let entry = &entries[i];
        proof {
            lemma_filter_step(entries@, is_photograph(), i as int);
        }
        if !entry.is_dir && is_image_file(entry.path.as_str()) {
            found.push(entry.path.clone());
            assert(image_paths(entries@.take(i + 1)) =~= image_paths(entries@.take(i as int)).push(
                entry.path@,
            ));
        }
        i = i + 1;
    }
    assert(entries@.take(i as int) =~= entries@);
    found
}

/// A path is discovered exactly where the listing holds a file, not a
/// directory, of that path whose extension is `jpg` or `jpeg` to the letter:
/// nothing else is found, and nothing of that kind is left out.
pub proof fn lemma_discovered(entries: Seq<DirEntry>, path: Seq<char>)
    ensures
        image_paths(entries).contains(path) <==> exists|i: int|
            0 <= i < entries.len() && !(#[trigger] entries[i]).is_dir && entries[i].path@ == path
                && is_image_path(path),
{
    let found = entries.filter(is_photograph());
    if image_paths(entries).contains(path) {
        let paths = image_paths(entries);
        let j = choose|j: int| 0 <= j < paths.len() && paths[j] == path;
        lemma_filter_members(entries, is_photograph(), found[j]);
    }
    if exists|i: int|
        0 <= i < entries.len() && !(#[trigger] entries[i]).is_dir && entries[i].path@ == path
            && is_image_path(path) {
        let i = choose|i: int|
            0 <= i < entries.len() && !(#[trigger] entries[i]).is_dir && entries[i].path@ == path
                && is_image_path(path);
        lemma_filter_members(entries, is_photograph(), entries[i]);
        let j = choose|j: int| 0 <= j < found.len() && found[j] == entries[i];
        assert(image_paths(entries)[j] == path);
    }
}

/// Whether a file that was read is a source photograph.
pub open spec fn is_source() -> spec_fn(SourceFile) -> bool {
    |source: SourceFile| is_image_path(source.path@)
}

/// Whether a file that was read stops the run: it is a source photograph
/// whose sidecar file cannot be read as metadata.
pub open spec fn stops_run(source: SourceFile) -> bool {
    is_image_path(source.path@) && source.sidecar is Malformed
}

/// The entry that a source photograph gets in the gallery.
pub open spec fn image_of() -> spec_fn(SourceFile) -> ImageView {
    |source: SourceFile|
        ImageView {
            source_path: source.path@,
            base_name: path_stem(source.path@)->0,
            exif_info: extracted_exif(source.data@),
            meta_info: match sidecar_outcome(source.sidecar) {
                Ok(found) => found,
                Err(_) => None,
            },
        }
}

/// The entries of the source photographs among the files that were read, in
/// their order.
pub open spec fn images_of(sources: Seq<SourceFile>) -> Seq<ImageView> {
    sources.filter(is_source()).map_values(image_of())
}

/// Files that are no photographs do not count: the gallery of all the files
/// of a directory holds the images that the gallery of its photographs
/// holds.
pub proof fn lemma_images_of_photographs(sources: Seq<SourceFile>)
    ensures
        images_of(sources.filter(is_source())) == images_of(sources),
{
    lemma_filter_idempotent(sources, is_source());
}

/// Every image that is made of a source photograph is called by the stem of
/// its file.
pub proof fn lemma_images_named_by_paths(sources: Seq<SourceFile>)
    ensures
        (GalleryView { title: DEFAULT_TITLE@, images: images_of(sources) }).is_named_by_paths(),
{
    let kept = sources.filter(is_source());
    assert forall|i: int| 0 <= i < images_of(sources).len() implies (#[trigger] images_of(
        sources,
    )[i]).is_named_by_path() by {
        lemma_filter_members(sources, is_source(), kept[i]);
    }
}

/// The title of a gallery: that of its metadata file, and `DEFAULT_TITLE`
/// where there is none.
pub open spec fn title_of(meta: MetaFile<Option<GalleryMetaData>>) -> Seq<char> {
    match meta {
        MetaFile::Parsed(Some(data)) => data.title@,
        _ => DEFAULT_TITLE@,
    }
}

impl Gallery {
    /// Where the metadata file of a gallery stands.
    pub fn metadata_path(input_dir: &str) -> (path: String)
        ensures
            path@ == joined_path(input_dir@, GALLERY_FILE@),
    {
        join(input_dir, GALLERY_FILE)
    }

    /// Takes the title of the gallery from what was found in the place of
    /// its metadata file.
    pub fn parse_gallery_yaml(meta: &MetaFile<Option<GalleryMetaData>>) -> (title: Result<
        String,
        GalleryError,
    >)
        ensures
            match title {
                Ok(t) => !(*meta is Malformed) && t@ == title_of(*meta),
                Err(error) => *meta is Malformed && error == GalleryError::MalformedGallery,
            },
    {
        match meta {
            MetaFile::Malformed => Err(GalleryError::MalformedGallery),
            MetaFile::Parsed(Some(data)) => Ok(data.title.clone()),
            _ => Ok(DEFAULT_TITLE.to_owned()),
        }
    }

    /// Builds the gallery of one run from what was read in its input
    /// directory.
    ///
    /// The images are the source photographs among `sources`, in their order.
    /// A metadata file that cannot be read as such stops the run: that of the
    /// gallery first, then the sidecar of the first photograph that has such
    /// a one.
    pub fn from_input_dir(
        meta: &MetaFile<Option<GalleryMetaData>>,
        sources: &Vec<SourceFile>,
    ) -> (gallery: Result<Gallery, GalleryError>)
        ensures
            match gallery {
                Ok(g) => {
                    &&& !(*meta is Malformed)
                    &&& forall|i: int| 0 <= i < sources.len() ==> !stops_run(#[trigger] sources[i])
                    &&& g@ == (GalleryView {
                        title: title_of(*meta),
                        images: images_of(sources@),
                    })
                    &&& g@.is_named_by_paths()
                },
                Err(GalleryError::MalformedGallery) => *meta is Malformed,
                Err(GalleryError::MalformedSidecar { index }) => {
                    &&& !(*meta is Malformed)
                    &&& index < sources.len()
                    &&& stops_run(sources[index as int])
                    &&& forall|i: int| 0 <= i < index ==> !stops_run(#[trigger] sources[i])
                },
            },
    {
        let title = match Gallery::parse_gallery_yaml(meta) {
            Ok(title) => title,
            Err(error) => {
                return Err(error);
            },
        };
        let mut images: Vec<Image> = Vec::new();
        let mut i: usize = 0;
        proof {
            lemma_filter_empty(is_source());
        }
        while i < sources.len()
            invariant
                i <= sources.len(),
                !(*meta is Malformed),
                image_views(images@) == images_of(sources@.take(i as int)),
                forall|j: int| 0 <= j < i ==> !stops_run(#[trigger] sources[j]),
            decreases sources.len() - i,
        {
            let source = &sources[i];
            proof {
                lemma_filter_step(sources@, is_source(), i as int);
            }
            if is_image_file(source.path.as_str()) {
                let meta_info = match parse_image_yaml(&source.sidecar) {
                    Ok(found) => found,
                    Err(_) => {
                        return Err(GalleryError::MalformedSidecar { index: i });
                    },
                };
                let image = Image::from_source_path(
                    source.path.as_str(),
                    source.data.as_slice(),
                    meta_info,
                );
                images.push(image);
                assert(images_of(sources@.take(i + 1)) =~= images_of(sources@.take(i as int)).push(
                    image_of()(*source),
                ));
            }
            i = i + 1;
        }
        assert(sources@.take(i as int) =~= sources@);
        proof {
            lemma_images_named_by_paths(sources@);
        }
        Ok(Gallery { title, images })
    }

    /// The number of images of the gallery.
    pub fn image_count(&self) -> (count: usize)
        ensures
            count == self@.images.len(),
    {
        self.images.len()
    }
}

} // verus!
