//! What the pages of a gallery are rendered from: the data of the index
//! page and of the page of each image, with its neighbours.

use crate::gallery::{Gallery, GalleryOpts, GalleryView};
use crate::paths::text_of;
use crate::photo::{copy_text, ExifInfo, ExifInfoView, Image, ImageView};
use vstd::prelude::*;

verus! {

/// The data of the index page.
#[derive(Debug)]
pub struct IndexTemplate<'a> {
    pub gallery: &'a Gallery,
    pub gallery_opts: &'a GalleryOpts,
}

/// The mathematical model of an `IndexTemplate`.
pub struct IndexTemplateView {
    pub gallery: GalleryView,
    pub gallery_opts: GalleryOpts,
}

impl<'a> View for IndexTemplate<'a> {
    type V = IndexTemplateView;

    open spec fn view(&self) -> IndexTemplateView {
        IndexTemplateView { gallery: self.gallery@, gallery_opts: *self.gallery_opts }
    }
}

/// The data of the page of one image.
///
/// `index` counts from one; `exif` holds `UNKNOWN` for every fact where the
/// image has no EXIF data.
#[derive(Debug)]
pub struct ImageTemplate<'a> {
    pub gallery: &'a Gallery,
    pub gallery_opts: &'a GalleryOpts,
    pub image: &'a Image,
    pub previous_image: Option<&'a Image>,
    pub next_image: Option<&'a Image>,
    pub exif: ExifInfo,
    pub title: Option<String>,
    pub place: Option<String>,
    pub author: Option<String>,
    pub index: usize,
    pub image_count: usize,
}

/// The mathematical model of an `ImageTemplate`.
pub struct ImageTemplateView {
    pub gallery: GalleryView,
    pub gallery_opts: GalleryOpts,
    pub image: ImageView,
    pub previous_image: Option<ImageView>,
    pub next_image: Option<ImageView>,
    pub exif: ExifInfoView,
    pub title: Option<Seq<char>>,
    pub place: Option<Seq<char>>,
    pub author: Option<Seq<char>>,
    pub index: nat,
    pub image_count: nat,
}

/// The model of an optional reference to an image.
pub open spec fn neighbour_view(image: Option<&Image>) -> Option<ImageView> {
    match image {
        Some(i) => Some(i@),
        None => None,
    }
}

impl<'a> View for ImageTemplate<'a> {
    type V = ImageTemplateView;

    open spec fn view(&self) -> ImageTemplateView {
        ImageTemplateView {
            gallery: self.gallery@,
            gallery_opts: *self.gallery_opts,
            image: self.image@,
            previous_image: neighbour_view(self.previous_image),
            next_image: neighbour_view(self.next_image),
            exif: self.exif@,
            title: text_of(self.title),
            place: text_of(self.place),
            author: text_of(self.author),
            index: self.index as nat,
            image_count: self.image_count as nat,
        }
    }
}

/// One file that is copied into the gallery as it is.
#[derive(Debug)]
pub struct StaticFile {
    pub name: String,
    pub data: Vec<u8>,
}

/// The files that are copied into every gallery as they are.
#[derive(Debug)]
pub struct StaticFiles {
    pub files: Vec<StaticFile>,
}

/// The image at `position` of a sequence, and none where the position lies
/// outside it.
pub open spec fn image_at(images: Seq<ImageView>, position: int) -> Option<ImageView> {
    if 0 <= position < images.len() {
        Some(images[position])
    } else {
        None
    }
}

/// The neighbour before the image at `index`: there is none before the
/// first.
pub open spec fn previous_of(images: Seq<ImageView>, index: int) -> Option<ImageView> {
    image_at(images, index - 1)
}

/// The neighbour behind the image at `index`: there is none behind the last.
pub open spec fn next_of(images: Seq<ImageView>, index: int) -> Option<ImageView> {
    image_at(images, index + 1)
}

/// Finds the neighbour before the image at `index`.
pub fn previous_image(gallery: &Gallery, index: usize) -> (neighbour: Option<&Image>)
    ensures
        neighbour_view(neighbour) == previous_of(gallery@.images, index as int),
{
    if index > 0 && index - 1 < gallery.images.len() {
        Some(&gallery.images[index - 1])
    } else {
        None
    }
}

/// Finds the neighbour behind the image at `index`.
pub fn next_image(gallery: &Gallery, index: usize) -> (neighbour: Option<&Image>)
    ensures
        neighbour_view(neighbour) == next_of(gallery@.images, index as int),
{
    if index < gallery.images.len() && index + 1 < gallery.images.len() {
        Some(&gallery.images[index + 1])
    } else {
        None
    }
}

/// Within a gallery nothing wraps around: the first image has no neighbour
/// before it and the last none behind it, every other image has both, and
/// each image is the neighbour before the one behind it.
pub proof fn lemma_neighbours(images: Seq<ImageView>, index: int)
    requires
        0 <= index < images.len(),
    ensures
        previous_of(images, index) is None <==> index == 0,
        next_of(images, index) is None <==> index == images.len() - 1,
        index > 0 ==> previous_of(images, index) == Some(images[index - 1]),
        index < images.len() - 1 ==> next_of(images, index) == Some(images[index + 1]),
        next_of(images, index) is Some ==> previous_of(images, index + 1) == Some(images[index]),
        previous_of(images, index) is Some ==> next_of(images, index - 1) == Some(images[index]),
{
}

/// The facts to show for an image: those of its EXIF data, and `UNKNOWN`
/// throughout where it has none.
pub open spec fn shown_exif(image: ImageView) -> ExifInfoView {
    match image.exif_info {
        Some(info) => info,
        None => ExifInfo::unknown_view(),
    }
}

/// The data of the page of the image at `index` of a gallery.
pub open spec fn context_of(
    gallery: GalleryView,
    index: int,
    opts: GalleryOpts,
) -> ImageTemplateView {
    let image = gallery.images[index];
    ImageTemplateView {
        gallery,
        gallery_opts: opts,
        image,
        previous_image: previous_of(gallery.images, index),
        next_image: next_of(gallery.images, index),
        exif: shown_exif(image),
        title: match image.meta_info {
            Some(meta) => meta.title,
            None => None,
        },
        place: match image.meta_info {
            Some(meta) => meta.place,
            None => None,
        },
        author: match image.meta_info {
            Some(meta) => meta.author,
            None => None,
        },
        index: (index + 1) as nat,
        image_count: gallery.images.len(),
    }
}

/// The page of an image without EXIF data shows `UNKNOWN` for every fact and
/// no time of capture; the page of an image with EXIF data shows its facts.
pub proof fn lemma_shown_facts(gallery: GalleryView, index: int, opts: GalleryOpts)
    requires
        0 <= index < gallery.images.len(),
    ensures
        gallery.images[index].exif_info is None ==> context_of(gallery, index, opts).exif
            == ExifInfo::unknown_view(),
        gallery.images[index].exif_info matches Some(info) ==> context_of(
            gallery,
            index,
            opts,
        ).exif == info,
{
}

/// Assembles the data of the page of the image at `index` of a gallery.
pub fn build_context<'a>(
    gallery: &'a Gallery,
    index: usize,
    opts: &'a GalleryOpts,
) -> (context: ImageTemplate<'a>)
    requires
        index < gallery.images.len(),
    ensures
        context@ == context_of(gallery@, index as int, *opts),
{
    let image = &gallery.images[index];
    let exif = match &image.exif_info {
        Some(info) => info.duplicate(),
        None => ExifInfo::unknown(),
    };
    let (title, place, author) = match &image.meta_info {
        Some(meta) => (copy_text(&meta.title), copy_text(&meta.place), copy_text(&meta.author)),
        None => (None, None, None),
    };
    ImageTemplate {
        gallery,
        gallery_opts: opts,
        image,
        previous_image: previous_image(gallery, index),
        next_image: next_image(gallery, index),
        exif,
        title,
        place,
        author,
        index: index + 1,
        image_count: gallery.images.len(),
    }
}

/// The data of the index page of a gallery.
pub open spec fn index_context_of(gallery: GalleryView, opts: GalleryOpts) -> IndexTemplateView {
    IndexTemplateView { gallery, gallery_opts: opts }
}

/// Assembles the data of the index page of a gallery.
pub fn build_index_context<'a>(
    gallery: &'a Gallery,
    opts: &'a GalleryOpts,
) -> (context: IndexTemplate<'a>)
    ensures
        context@ == index_context_of(gallery@, *opts),
{
    IndexTemplate { gallery, gallery_opts: opts }
}

} // verus!
