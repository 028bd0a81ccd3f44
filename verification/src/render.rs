//! The layout of a generated gallery and the steps that produce it.
//!
//! Nothing here touches a file. The functions say which directories and
//! files a gallery consists of, in which order they are made and from what;
//! the caller carries the steps out.

use crate::error::RenderError;
use crate::gallery::{Gallery, GalleryOpts, GalleryView};
use crate::pages::{
    build_context, build_index_context, context_of, index_context_of, ImageTemplate,
    ImageTemplateView, IndexTemplate, IndexTemplateView, StaticFile, StaticFiles,
};
use crate::paths::{
    file_stem, join, joined_path, lemma_last_dot_of_suffix, name_extension, name_stem, path_stem,
};
use crate::photo::{Image, ImageView};
use crate::raster::{
    decode_jpeg, is_rendition, jpeg_size, raster_height, raster_width, transform,
    transform_refusal,
};
use vstd::prelude::*;
use vstd::string::*;

verus! {

/// The directory of the full images, within the output directory.
pub const IMAGES_DIR: &'static str = "images";

/// The directory of the thumbnails, within the output directory.
pub const THUMBNAILS_DIR: &'static str = "thumbnails";

/// The directory of the static files, within the output directory.
pub const STATIC_DIR: &'static str = "static";

/// The name of the index page.
pub const INDEX_PAGE: &'static str = "index.html";

/// What the name of a page ends in.
pub const PAGE_SUFFIX: &'static str = ".html";

/// What the name of a raster artifact ends in, whatever the source file was
/// called.
pub const IMAGE_SUFFIX: &'static str = ".jpg";

/// Where a raster artifact of the photograph called `base_name` stands:
/// in `directory` within the output directory, under its base name and
/// `IMAGE_SUFFIX`.
pub open spec fn artifact_path(
    output_dir: Seq<char>,
    directory: Seq<char>,
    base_name: Seq<char>,
) -> Seq<char> {
    joined_path(joined_path(output_dir, directory), base_name + IMAGE_SUFFIX@)
}

/// Where the page of the photograph called `base_name` stands: in the output
/// directory, under its base name and `PAGE_SUFFIX`.
pub open spec fn page_path(output_dir: Seq<char>, base_name: Seq<char>) -> Seq<char> {
    joined_path(output_dir, base_name + PAGE_SUFFIX@)
}

/// Where the static file called `name` stands: in `STATIC_DIR` within the
/// output directory, under its own name.
pub open spec fn static_path(output_dir: Seq<char>, name: Seq<char>) -> Seq<char> {
    joined_path(joined_path(output_dir, STATIC_DIR@), name)
}

/// The file name of a raster artifact has the base name of its photograph for
/// its stem and `jpg` for its extension, whatever the source file was called.
pub proof fn lemma_artifact_name(base_name: Seq<char>)
    requires
        base_name.len() > 0,
    ensures
        name_stem(base_name + IMAGE_SUFFIX@) == base_name,
        name_extension(base_name + IMAGE_SUFFIX@) == Some("jpg"@),
{
    reveal_strlit(".jpg");
    reveal_strlit("jpg");
    let name = base_name + IMAGE_SUFFIX@;
    assert(name =~= base_name + seq!['.'] + "jpg"@);
    lemma_last_dot_of_suffix(base_name, "jpg"@);
}

/// The artifacts of a photograph that is called by the stem of its file are
/// named as its page is: by its base name.
pub proof fn lemma_artifacts_named_as_page(
    image: ImageView,
    output_dir: Seq<char>,
    directory: Seq<char>,
)
    requires
        image.is_named_by_path(),
    ensures
        artifact_path(output_dir, directory, path_stem(image.source_path)->0) == artifact_path(
            output_dir,
            directory,
            image.base_name,
        ),
{
}

/// Builds the path of a raster artifact.
fn artifact(output_dir: &str, directory: &str, image_path: &str) -> (path: String)
    requires
        path_stem(image_path@) is Some,
    ensures
        path@ == artifact_path(output_dir@, directory@, path_stem(image_path@)->0),
{
    let name = match file_stem(image_path) {
        Some(stem) => stem.concat(IMAGE_SUFFIX),
        None => String::new(),
    };
    let directory = join(output_dir, directory);
    join(directory.as_str(), name.as_str())
}

/// Where the thumbnail of the photograph at `image_path` stands.
pub fn get_thumbnail_path(output_dir: &str, image_path: &str) -> (path: String)
    requires
        path_stem(image_path@) is Some,
    ensures
        path@ == artifact_path(output_dir@, THUMBNAILS_DIR@, path_stem(image_path@)->0),
{
    artifact(output_dir, THUMBNAILS_DIR, image_path)
}

/// Where the full image of the photograph at `image_path` stands.
pub fn get_target_path(output_dir: &str, image_path: &str) -> (path: String)
    requires
        path_stem(image_path@) is Some,
    ensures
        path@ == artifact_path(output_dir@, IMAGES_DIR@, path_stem(image_path@)->0),
{
    artifact(output_dir, IMAGES_DIR, image_path)
}

/// The two artifacts of one photograph, each with the path at which it is
/// to stand.
#[derive(Debug)]
pub struct RenderedImage {
    pub target_path: String,
    pub full: image::DynamicImage,
    pub thumbnail_path: String,
    pub thumbnail: image::DynamicImage,
}

/// Whether `rendered` holds the artifacts of a photograph of `width` x
/// `height` pixels at `image_path`, each of its size and with its place in
/// the output directory.
pub open spec fn is_rendered(
    rendered: RenderedImage,
    output_dir: Seq<char>,
    image_path: Seq<char>,
    width: nat,
    height: nat,
    opts: GalleryOpts,
) -> bool {
    &&& path_stem(image_path) is Some
    &&& rendered.target_path@ == artifact_path(output_dir, IMAGES_DIR@, path_stem(image_path)->0)
    &&& rendered.thumbnail_path@ == artifact_path(
        output_dir,
        THUMBNAILS_DIR@,
        path_stem(image_path)->0,
    )
    &&& is_rendition(width, height, opts, rendered.full, rendered.thumbnail)
}

/// Why a decoded photograph of `width` x `height` pixels at `image_path`
/// cannot be rendered under `opts`, if it cannot.
pub open spec fn render_refusal(
    image_path: Seq<char>,
    width: nat,
    height: nat,
    opts: GalleryOpts,
) -> Option<RenderError> {
    if path_stem(image_path) is None {
        Some(RenderError::NoFileName)
    } else {
        transform_refusal(width, height, opts)
    }
}

/// Renders the two artifacts of a photograph that has been decoded.
pub fn render_decoded(
    image: &Image,
    source: &image::DynamicImage,
    output_dir: &str,
    opts: &GalleryOpts,
) -> (out: Result<RenderedImage, RenderError>)
    ensures
        match out {
            Ok(rendered) => {
                &&& render_refusal(
                    image.source_path@,
                    raster_width(*source),
                    raster_height(*source),
                    *opts,
                ) is None
                &&& is_rendered(
                    rendered,
                    output_dir@,
                    image.source_path@,
                    raster_width(*source),
                    raster_height(*source),
                    *opts,
                )
            },
            Err(error) => render_refusal(
                image.source_path@,
                raster_width(*source),
                raster_height(*source),
                *opts,
            ) == Some(error),
        },
{
    if file_stem(image.source_path.as_str()).is_none() {
        return Err(RenderError::NoFileName);
    }
    let target_path = get_target_path(output_dir, image.source_path.as_str());
    let thumbnail_path = get_thumbnail_path(output_dir, image.source_path.as_str());
    match transform(source, opts) {
        Ok(rasters) => Ok(
            RenderedImage {
                target_path,
                full: rasters.full,
                thumbnail_path,
                thumbnail: rasters.thumbnail,
            },
        ),
        Err(error) => Err(error),
    }
}

/// Why the photograph at `image_path` cannot be rendered from the bytes
/// `data` under `opts`, if it cannot: its path names no file, its bytes do
/// not decode, or the decoded photograph is refused.
pub open spec fn render_failure(image_path: Seq<char>, data: Seq<u8>, opts: GalleryOpts) -> Option<
    RenderError,
> {
    if path_stem(image_path) is None {
        Some(RenderError::NoFileName)
    } else {
        match jpeg_size(data) {
            None => Some(RenderError::Decode),
            Some((width, height)) => transform_refusal(width, height, opts),
        }
    }
}

/// Renders the two artifacts of a photograph from the bytes of its file.
///
/// The file is decoded once, and both artifacts are derived from what was
/// decoded.
pub fn render_images(
    image: &Image,
    data: &[u8],
    output_dir: &str,
    opts: &GalleryOpts,
) -> (out: Result<RenderedImage, RenderError>)
    ensures
        match out {
            Ok(rendered) => {
                &&& render_failure(image.source_path@, data@, *opts) is None
                &&& jpeg_size(data@) matches Some((width, height)) && is_rendered(
                    rendered,
                    output_dir@,
                    image.source_path@,
                    width,
                    height,
                    *opts,
                )
            },
            Err(error) => render_failure(image.source_path@, data@, *opts) == Some(error),
        },
{
    if file_stem(image.source_path.as_str()).is_none() {
        return Err(RenderError::NoFileName);
    }
    match decode_jpeg(data) {
        Ok(source) => render_decoded(image, &source, output_dir, opts),
        Err(_) => Err(RenderError::Decode),
    }
}

/// What stands at the output path before the run.
#[derive(Debug, Clone, Copy, PartialEq, Eq, Structural)]
pub enum OutputTarget {
    /// Nothing.
    Missing,
    /// A directory, as after an earlier run.
    Directory,
    /// Something that is no directory.
    NotADirectory,
}

/// A page of the gallery, by what it is rendered from.
#[derive(Debug)]
pub enum Page<'a> {
    Index(IndexTemplate<'a>),
    Image(ImageTemplate<'a>),
}

/// The mathematical model of a `Page`.
pub enum PageView {
    Index(IndexTemplateView),
    Image(ImageTemplateView),
}

impl<'a> View for Page<'a> {
    type V = PageView;

    open spec fn view(&self) -> PageView {
        match self {
            Page::Index(context) => PageView::Index(context@),
            Page::Image(context) => PageView::Image(context@),
        }
    }
}

/// One step of the making of a gallery.
#[derive(Debug)]
pub enum Step<'a> {
    /// Make the directory at `path`; one that stands there already is kept.
    CreateDir { path: String },
    /// Render the artifacts of the image at `index` of the gallery and write
    /// them.
    RenderImage { index: usize },
    /// Render `page` and write it to `path`.
    WritePage { path: String, page: Page<'a> },
    /// Write the static file at `index` of the bundle to `path`.
    WriteStaticFile { path: String, index: usize },
}

/// The mathematical model of a `Step`.
pub enum StepView {
    CreateDir { path: Seq<char> },
    RenderImage { index: nat },
    WritePage { path: Seq<char>, page: PageView },
    WriteStaticFile { path: Seq<char>, index: nat },
}

impl<'a> View for Step<'a> {
    type V = StepView;

    open spec fn view(&self) -> StepView {
        match self {
            Step::CreateDir { path } => StepView::CreateDir { path: path@ },
            Step::RenderImage { index } => StepView::RenderImage { index: *index as nat },
            Step::WritePage { path, page } => StepView::WritePage { path: path@, page: page@ },
            Step::WriteStaticFile { path, index } => StepView::WriteStaticFile {
                path: path@,
                index: *index as nat,
            },
        }
    }
}

/// The models of the steps of a sequence, in its order.
pub open spec fn step_views(steps: Seq<Step>) -> Seq<StepView> {
    steps.map_values(|step: Step| step@)
}

/// The names of the files of a bundle, in its order.
pub open spec fn static_names(files: Seq<StaticFile>) -> Seq<Seq<char>> {
    files.map_values(|file: StaticFile| file.name@)
}

/// The directories that every gallery consists of: the output directory,
/// then those of the full images and of the thumbnails.
pub open spec fn scaffold_steps(output_dir: Seq<char>) -> Seq<StepView> {
    seq![
        StepView::CreateDir { path: output_dir },
        StepView::CreateDir { path: joined_path(output_dir, IMAGES_DIR@) },
        StepView::CreateDir { path: joined_path(output_dir, THUMBNAILS_DIR@) },
    ]
}

/// One rendering step for each of `count` images, in their order.
pub open spec fn image_steps(count: nat) -> Seq<StepView> {
    Seq::new(count, |i: int| StepView::RenderImage { index: i as nat })
}

/// The step that writes the index page.
pub open spec fn index_step(
    gallery: GalleryView,
    output_dir: Seq<char>,
    opts: GalleryOpts,
) -> StepView {
    StepView::WritePage {
        path: joined_path(output_dir, INDEX_PAGE@),
        page: PageView::Index(index_context_of(gallery, opts)),
    }
}

/// The steps that write the pages of the images, in their order.
pub open spec fn page_steps(gallery: GalleryView, output_dir: Seq<char>, opts: GalleryOpts) -> Seq<
    StepView,
> {
    Seq::new(
        gallery.images.len(),
        |i: int|
            StepView::WritePage {
                path: page_path(output_dir, gallery.images[i].base_name),
                page: PageView::Image(context_of(gallery, i, opts)),
            },
    )
}

/// The steps that copy the static files: their directory first, then each
/// file in the order of the bundle.
pub open spec fn static_steps(output_dir: Seq<char>, names: Seq<Seq<char>>) -> Seq<StepView> {
    seq![StepView::CreateDir { path: joined_path(output_dir, STATIC_DIR@) }] + Seq::new(
        names.len(),
        |k: int|
            StepView::WriteStaticFile { path: static_path(output_dir, names[k]), index: k as nat },
    )
}

/// The steps that make a gallery, in their order: the directories, the
/// artifacts of each image, the index page, the page of each image, the
/// static files.
pub open spec fn gallery_steps(
    gallery: GalleryView,
    output_dir: Seq<char>,
    opts: GalleryOpts,
    names: Seq<Seq<char>>,
) -> Seq<StepView> {
    scaffold_steps(output_dir) + image_steps(gallery.images.len()) + seq![
        index_step(gallery, output_dir, opts),
    ] + page_steps(gallery, output_dir, opts) + static_steps(output_dir, names)
}

/// The steps of a gallery of `n` images and `m` static files, by position:
/// three directories; then the `n` images; then the index page; then the `n`
/// pages of the images; then the static directory and its `m` files.
pub proof fn lemma_steps_in_order(
    gallery: GalleryView,
    output_dir: Seq<char>,
    opts: GalleryOpts,
    names: Seq<Seq<char>>,
)
    ensures
        ({
            let steps = gallery_steps(gallery, output_dir, opts, names);
            let n = gallery.images.len() as int;
            let m = names.len() as int;
            &&& steps.len() == 2 * n + m + 5
            &&& steps[0] == StepView::CreateDir { path: output_dir }
            &&& steps[1] == StepView::CreateDir { path: joined_path(output_dir, IMAGES_DIR@) }
            &&& steps[2] == StepView::CreateDir { path: joined_path(output_dir, THUMBNAILS_DIR@) }
            &&& forall|i: int|
                0 <= i < n ==> #[trigger] steps[3 + i] == StepView::RenderImage { index: i as nat }
            &&& steps[3 + n] == index_step(gallery, output_dir, opts)
            &&& forall|i: int|
                0 <= i < n ==> #[trigger] steps[4 + n + i] == (StepView::WritePage {
                    path: page_path(output_dir, gallery.images[i].base_name),
                    page: PageView::Image(context_of(gallery, i, opts)),
                })
            &&& steps[4 + 2 * n] == StepView::CreateDir {
                path: joined_path(output_dir, STATIC_DIR@),
            }
            &&& forall|k: int|
                0 <= k < m ==> #[trigger] steps[5 + 2 * n + k] == (StepView::WriteStaticFile {
                    path: static_path(output_dir, names[k]),
                    index: k as nat,
                })
        }),
{
}

/// What a run into `target` does: nothing where something other than a
/// directory stands there, and else the steps of the gallery.
pub open spec fn gallery_plan(
    gallery: GalleryView,
    output_dir: Seq<char>,
    opts: GalleryOpts,
    names: Seq<Seq<char>>,
    target: OutputTarget,
) -> Result<Seq<StepView>, RenderError> {
    if target == OutputTarget::NotADirectory {
        Err(RenderError::NotADirectory)
    } else {
        Ok(gallery_steps(gallery, output_dir, opts, names))
    }
}

/// Plans the writing of the index page of a gallery.
pub fn render_gallery_page<'a>(
    gallery: &'a Gallery,
    output_dir: &str,
    opts: &'a GalleryOpts,
) -> (step: Step<'a>)
    ensures
        step@ == index_step(gallery@, output_dir@, *opts),
{
    Step::WritePage {
        path: join(output_dir, INDEX_PAGE),
        page: Page::Index(build_index_context(gallery, opts)),
    }
}

/// Plans the writing of the page of each image of a gallery, in the order of
/// the images.
pub fn render_image_pages<'a>(
    gallery: &'a Gallery,
    output_dir: &str,
    opts: &'a GalleryOpts,
) -> (steps: Vec<Step<'a>>)
    ensures
        step_views(steps@) == page_steps(gallery@, output_dir@, *opts),
{
    let mut steps: Vec<Step<'a>> = Vec::new();
    let mut index: usize = 0;
    while index < gallery.images.len()
        invariant
            index <= gallery.images.len(),
            steps.len() == index,
            forall|i: int|
                0 <= i < index ==> (#[trigger] steps[i])@ == page_steps(
                    gallery@,
                    output_dir@,
                    *opts,
                )[i],
        decreases gallery.images.len() - index,
    {
        let image = &gallery.images[index];
        let name = image.base_name.clone().concat(PAGE_SUFFIX);
        let step = Step::WritePage {
            path: join(output_dir, name.as_str()),
            page: Page::Image(build_context(gallery, index, opts)),
        };
        steps.push(step);
        index = index + 1;
    }
    steps
}

/// Plans the copying of the static files into a gallery.
pub fn render_static_files<'a>(output_dir: &str, assets: &StaticFiles) -> (steps: Vec<Step<'a>>)
    ensures
        step_views(steps@) == static_steps(output_dir@, static_names(assets.files@)),
{
    let static_dir = join(output_dir, STATIC_DIR);
    let mut steps: Vec<Step<'a>> = Vec::new();
    steps.push(Step::CreateDir { path: static_dir.clone() });
    let mut index: usize = 0;
    let ghost planned = static_steps(output_dir@, static_names(assets.files@));
    while index < assets.files.len()
        invariant
            index <= assets.files.len(),
            steps.len() == index + 1,
            static_dir@ == joined_path(output_dir@, STATIC_DIR@),
            planned == static_steps(output_dir@, static_names(assets.files@)),
            forall|k: int| 0 <= k <= index ==> (#[trigger] steps[k])@ == planned[k],
        decreases assets.files.len() - index,
    {
        let file = &assets.files[index];
        let step = Step::WriteStaticFile {
            path: join(static_dir.as_str(), file.name.as_str()),
            index,
        };
        steps.push(step);
        index = index + 1;
    }
    steps
}

/// Plans the making of a gallery in the output directory.
///
/// Where something other than a directory stands at the output path, the
/// run fails before any step. A directory that stands there already is no
/// obstacle: a second run makes the same gallery in its place.
pub fn render_gallery<'a>(
    gallery: &'a Gallery,
    output_dir: &str,
    opts: &'a GalleryOpts,
    assets: &StaticFiles,
    target: OutputTarget,
) -> (plan: Result<Vec<Step<'a>>, RenderError>)
    ensures
        match plan {
            Ok(steps) => Ok::<Seq<StepView>, RenderError>(step_views(steps@)) == gallery_plan(
                gallery@,
                output_dir@,
                *opts,
                static_names(assets.files@),
                target,
            ),
            Err(error) => Err::<Seq<StepView>, RenderError>(error) == gallery_plan(
                gallery@,
                output_dir@,
                *opts,
                static_names(assets.files@),
                target,
            ),
        },
{
    if target == OutputTarget::NotADirectory {
        return Err(RenderError::NotADirectory);
    }
    let mut steps: Vec<Step<'a>> = Vec::new();
    steps.push(Step::CreateDir { path: output_dir.to_owned() });
    steps.push(Step::CreateDir { path: join(output_dir, IMAGES_DIR) });
    steps.push(Step::CreateDir { path: join(output_dir, THUMBNAILS_DIR) });
    let mut index: usize = 0;
    while index < gallery.images.len()
        invariant
            index <= gallery.images.len(),
            step_views(steps@) == scaffold_steps(output_dir@) + image_steps(index as nat),
        decreases gallery.images.len() - index,
    {
        let ghost before = steps@;
        steps.push(Step::RenderImage { index });
        assert(step_views(steps@) =~= step_views(before).push(
            StepView::RenderImage { index: index as nat },
        ));
        index = index + 1;
    }
    let ghost rendered = steps@;
    let page = render_gallery_page(gallery, output_dir, opts);
    let ghost index_page = page@;
    steps.push(page);
    let ghost indexed = steps@;
    assert(step_views(indexed) =~= step_views(rendered) + seq![index_page]);
    let mut pages = render_image_pages(gallery, output_dir, opts);
    let ghost paged = pages@;
    steps.append(&mut pages);
    let ghost with_pages = steps@;
    assert(step_views(with_pages) =~= step_views(indexed) + step_views(paged));
    let mut copies = render_static_files(output_dir, assets);
    let ghost copied = copies@;
    steps.append(&mut copies);
    assert(step_views(steps@) =~= step_views(with_pages) + step_views(copied));
    Ok(steps)
}

/// A run into an output directory that stands already plans the same steps
/// as a run into a place where nothing stands: a second run with the same
/// input makes the same directories and files as the first, and fails on
/// none of them.
pub proof fn lemma_rerun_plans_the_same(
    gallery: GalleryView,
    output_dir: Seq<char>,
    opts: GalleryOpts,
    names: Seq<Seq<char>>,
)
    ensures
        gallery_plan(gallery, output_dir, opts, names, OutputTarget::Missing) is Ok,
        gallery_plan(gallery, output_dir, opts, names, OutputTarget::Directory) == gallery_plan(
            gallery,
            output_dir,
            opts,
            names,
            OutputTarget::Missing,
        ),
{
}

} // verus!
