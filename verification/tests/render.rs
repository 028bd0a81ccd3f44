use chagaller::error::RenderError;
use chagaller::gallery::{Gallery, GalleryOpts};
use chagaller::pages::{StaticFile, StaticFiles};
use chagaller::photo::Image;
use chagaller::render::{
    get_target_path, get_thumbnail_path, render_decoded, render_gallery, render_gallery_page,
    render_image_pages, render_images, render_static_files, OutputTarget, Page, Step,
};
use chagaller::paths::{extension, file_stem, is_image_file};
use image::{DynamicImage, GenericImageView, ImageFormat};

fn image(path: &str, base_name: &str) -> Image {
    Image {
        source_path: path.to_string(),
        base_name: base_name.to_string(),
        exif_info: None,
        meta_info: None,
    }
}

fn gallery(names: &[&str]) -> Gallery {
    Gallery {
        title: "Gallery".to_string(),
        images: names.iter().map(|n| image(&format!("in/{}.jpeg", n), n)).collect(),
    }
}

fn assets(names: &[&str]) -> StaticFiles {
    StaticFiles {
        files: names
            .iter()
            .map(|n| StaticFile { name: n.to_string(), data: n.as_bytes().to_vec() })
            .collect(),
    }
}

fn jpeg(width: u32, height: u32) -> Vec<u8> {
    let mut out = std::io::Cursor::new(Vec::new());
    DynamicImage::new_rgb8(width, height).write_to(&mut out, ImageFormat::Jpeg).unwrap();
    out.into_inner()
}

fn describe(step: &Step) -> String {
    match step {
        Step::CreateDir { path } => format!("dir {}", path),
        Step::RenderImage { index } => format!("image {}", index),
        Step::WritePage { path, page: Page::Index(context) } => {
            format!("index {} of {}", path, context.gallery.images.len())
        }
        Step::WritePage { path, page: Page::Image(context) } => {
            let name = &context.image.base_name;
            format!("page {} {}/{} {}", path, context.index, context.image_count, name)
        }
        Step::WriteStaticFile { path, index } => format!("static {} {}", path, index),
    }
}

fn described(steps: &[Step]) -> Vec<String> {
    steps.iter().map(describe).collect()
}

#[test]
fn full_image_stands_in_the_images_directory() {
    assert_eq!(get_target_path("out", "in/a.jpg"), "out/images/a.jpg");
    assert_eq!(get_target_path("out", "in/b.jpeg"), "out/images/b.jpg");
    assert_eq!(get_target_path("/srv/www", "c.d.jpeg"), "/srv/www/images/c.d.jpg");
}

#[test]
fn thumbnail_stands_in_the_thumbnails_directory() {
    assert_eq!(get_thumbnail_path("out", "in/a.jpg"), "out/thumbnails/a.jpg");
    assert_eq!(get_thumbnail_path("out", "in/b.jpeg"), "out/thumbnails/b.jpg");
}

#[test]
fn artifact_extension_is_jpg_whatever_the_source_is_called() {
    assert_eq!(get_target_path("out", "in/a.JPEG"), "out/images/a.jpg");
    assert_eq!(get_target_path("out", "in/a"), "out/images/a.jpg");
    assert_eq!(get_thumbnail_path("out", "in/a.PNG"), "out/thumbnails/a.jpg");
}

#[test]
fn artifact_paths_agree_with_std() {
    let cases =
        [("out", "in/a.jpg"), ("out/", "b.jpeg"), ("", "c.jpg"), ("/x/y", "/z/d.e.jpg"), ("o", ".f")];
    for (output_dir, image_path) in cases {
        let name = std::path::Path::new(image_path).file_name().unwrap();
        let mut target = std::path::Path::new(output_dir).join("images").join(name);
        target.set_extension("jpg");
        assert_eq!(get_target_path(output_dir, image_path), target.to_str().unwrap());
        let mut thumbnail = std::path::Path::new(output_dir).join("thumbnails").join(name);
        thumbnail.set_extension("jpg");
        assert_eq!(get_thumbnail_path(output_dir, image_path), thumbnail.to_str().unwrap());
    }
}

#[test]
fn photograph_is_rendered_into_both_artifacts() {
    let opts = GalleryOpts { max_width: 160, max_height: 160, thumbnail_size: 16 };
    let rendered = render_images(&image("in/a.jpeg", "a"), &jpeg(400, 300), "out", &opts).unwrap();
    assert_eq!(rendered.target_path, "out/images/a.jpg");
    assert_eq!(rendered.thumbnail_path, "out/thumbnails/a.jpg");
    assert_eq!(rendered.full.dimensions(), (160, 120));
    assert_eq!(rendered.thumbnail.dimensions(), (16, 16));
}

#[test]
fn decoded_photograph_is_rendered_into_both_artifacts() {
    let opts = GalleryOpts { max_width: 1600, max_height: 1600, thumbnail_size: 128 };
    let source = DynamicImage::new_luma8(4000, 3000);
    let rendered = render_decoded(&image("in/b.jpg", "b"), &source, "site", &opts).unwrap();
    assert_eq!(rendered.target_path, "site/images/b.jpg");
    assert_eq!(rendered.thumbnail_path, "site/thumbnails/b.jpg");
    assert_eq!(rendered.full.dimensions(), (1600, 1200));
    assert_eq!(rendered.thumbnail.dimensions(), (128, 128));
}

#[test]
fn bytes_that_are_no_image_are_refused() {
    let opts = GalleryOpts::default();
    let result = render_images(&image("in/a.jpg", "a"), b"no image", "out", &opts);
    assert_eq!(result.err(), Some(RenderError::Decode));
    let result = render_images(&image("in/a.jpg", "a"), &[], "out", &opts);
    assert_eq!(result.err(), Some(RenderError::Decode));
}

#[test]
fn image_of_another_format_is_refused() {
    let png = b"\x89PNG\r\n\x1a\n\0\0\0\rIHDR\0\0\0\x01\0\0\0\x01\x08\x02\0\0\0";
    let opts = GalleryOpts::default();
    let result = render_images(&image("in/a.jpg", "a"), png, "out", &opts);
    assert_eq!(result.err(), Some(RenderError::Decode));
}

#[test]
fn path_without_a_file_name_is_refused() {
    let opts = GalleryOpts::default();
    let result = render_images(&image("in/..", ""), &jpeg(4, 4), "out", &opts);
    assert_eq!(result.err(), Some(RenderError::NoFileName));
    let result = render_decoded(&image("/", ""), &DynamicImage::new_rgb8(4, 4), "out", &opts);
    assert_eq!(result.err(), Some(RenderError::NoFileName));
}

#[test]
fn decoded_photograph_is_refused_as_its_transform_is() {
    let source = DynamicImage::new_rgb8(4, 4);
    let zero = GalleryOpts { max_width: 0, max_height: 16, thumbnail_size: 16 };
    let result = render_decoded(&image("in/a.jpg", "a"), &source, "out", &zero);
    assert_eq!(result.err(), Some(RenderError::EmptyBounds));
    let huge = GalleryOpts { max_width: u32::MAX, max_height: u32::MAX, thumbnail_size: 16 };
    let result = render_decoded(&image("in/a.jpg", "a"), &source, "out", &huge);
    assert_eq!(result.err(), Some(RenderError::TooLarge));
    let empty = DynamicImage::new_rgb8(0, 0);
    let opts = GalleryOpts::default();
    let result = render_decoded(&image("in/a.jpg", "a"), &empty, "out", &opts);
    assert_eq!(result.err(), Some(RenderError::EmptyImage));
}

#[test]
fn index_page_stands_in_the_output_directory() {
    let g = gallery(&["x", "y"]);
    let opts = GalleryOpts::default();
    let step = render_gallery_page(&g, "out", &opts);
    assert_eq!(describe(&step), "index out/index.html of 2");
}

#[test]
fn image_pages_are_named_by_base_name() {
    let g = gallery(&["x", "y", "z"]);
    let opts = GalleryOpts::default();
    let steps = render_image_pages(&g, "out", &opts);
    assert_eq!(
        described(&steps),
        vec!["page out/x.html 1/3 x", "page out/y.html 2/3 y", "page out/z.html 3/3 z"]
    );
}

#[test]
fn static_files_stand_in_the_static_directory() {
    let steps = render_static_files("out", &assets(&["style.css", "app.js"]));
    assert_eq!(
        described(&steps),
        vec!["dir out/static", "static out/static/style.css 0", "static out/static/app.js 1"]
    );
}

#[test]
fn static_directory_is_made_even_for_an_empty_bundle() {
    let steps = render_static_files("out", &assets(&[]));
    assert_eq!(described(&steps), vec!["dir out/static"]);
}

#[test]
fn gallery_is_made_in_the_order_of_its_parts() {
    let g = gallery(&["x", "y"]);
    let opts = GalleryOpts::default();
    let steps =
        render_gallery(&g, "out", &opts, &assets(&["style.css"]), OutputTarget::Missing).unwrap();
    assert_eq!(
        described(&steps),
        vec![
            "dir out",
            "dir out/images",
            "dir out/thumbnails",
            "image 0",
            "image 1",
            "index out/index.html of 2",
            "page out/x.html 1/2 x",
            "page out/y.html 2/2 y",
            "dir out/static",
            "static out/static/style.css 0",
        ]
    );
}

#[test]
fn output_path_that_is_no_directory_stops_the_run() {
    let g = gallery(&["x"]);
    let opts = GalleryOpts::default();
    let result = render_gallery(&g, "out", &opts, &assets(&[]), OutputTarget::NotADirectory);
    assert_eq!(result.err(), Some(RenderError::NotADirectory));
}

#[test]
fn second_run_makes_the_same_gallery() {
    let g = gallery(&["x", "y", "z"]);
    let opts = GalleryOpts::default();
    let bundle = assets(&["style.css", "app.js"]);
    let first = render_gallery(&g, "out", &opts, &bundle, OutputTarget::Missing).unwrap();
    let second = render_gallery(&g, "out", &opts, &bundle, OutputTarget::Directory).unwrap();
    assert_eq!(described(&first), described(&second));
}

#[test]
fn artifacts_are_image_files_named_by_base_name() {
    for source in ["in/a.jpeg", "in/b.JPG", "in/c", "in/d.e.png"] {
        let stem = file_stem(source);
        for path in [get_target_path("out", source), get_thumbnail_path("out", source)] {
            assert!(is_image_file(&path));
            assert_eq!(extension(&path), Some("jpg".to_string()));
            assert_eq!(file_stem(&path), stem);
        }
    }
}
