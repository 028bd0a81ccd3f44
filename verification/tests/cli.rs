use chagaller::cli::{exit_code, process, Cli, Commands, Outcome};
use chagaller::error::{GalleryError, RenderError};
use chagaller::gallery::{Gallery, GalleryOpts, SourceFile};
use chagaller::pages::StaticFiles;
use chagaller::photo::{Image, MetaFile};
use chagaller::render::OutputTarget;

fn gallery_of(count: usize) -> Gallery {
    Gallery {
        title: "Gallery".to_string(),
        images: (0..count)
            .map(|i| Image {
                source_path: format!("in/{}.jpg", i),
                base_name: format!("{}", i),
                exif_info: None,
                meta_info: None,
            })
            .collect(),
    }
}

#[test]
fn create_defaults_to_the_current_directory_and_gallery() {
    let Commands::Create { input_dir, output_dir } = Commands::create(None, None);
    assert_eq!(input_dir, ".");
    assert_eq!(output_dir, "gallery");
}

#[test]
fn create_takes_the_directories_that_are_named() {
    let command = Commands::create(Some("photos".to_string()), None);
    let Commands::Create { input_dir, output_dir } = command;
    assert_eq!(input_dir, "photos");
    assert_eq!(output_dir, "gallery");
    let cli = Cli { command: Commands::create(None, Some("site".to_string())) };
    let Commands::Create { input_dir, output_dir } = cli.command;
    assert_eq!(input_dir, ".");
    assert_eq!(output_dir, "site");
}

#[test]
fn run_without_images_renders_nothing() {
    let gallery = gallery_of(0);
    let opts = GalleryOpts::default();
    let assets = StaticFiles { files: Vec::new() };
    let outcome = process(&gallery, "out", &opts, &assets, OutputTarget::Missing).unwrap();
    assert!(matches!(outcome, Outcome::NoImages));
    let outcome = process(&gallery, "out", &opts, &assets, OutputTarget::NotADirectory).unwrap();
    assert!(matches!(outcome, Outcome::NoImages));
}

#[test]
fn run_with_images_renders_the_gallery() {
    let gallery = gallery_of(2);
    let opts = GalleryOpts::default();
    let assets = StaticFiles { files: Vec::new() };
    match process(&gallery, "out", &opts, &assets, OutputTarget::Directory).unwrap() {
        Outcome::Rendered { steps } => assert_eq!(steps.len(), 9),
        Outcome::NoImages => panic!("two images were given"),
    }
}

#[test]
fn run_into_a_file_fails() {
    let gallery = gallery_of(1);
    let opts = GalleryOpts::default();
    let assets = StaticFiles { files: Vec::new() };
    let outcome = process(&gallery, "out", &opts, &assets, OutputTarget::NotADirectory);
    assert_eq!(outcome.err(), Some(RenderError::NotADirectory));
}

#[test]
fn exit_code_is_zero_for_a_clean_run_only() {
    assert_eq!(exit_code(false, 0), 0);
    assert_eq!(exit_code(false, 1), 1);
    assert_eq!(exit_code(false, usize::MAX), 1);
    assert_eq!(exit_code(true, 0), 1);
    assert_eq!(exit_code(true, 3), 1);
}

#[test]
fn run_with_a_malformed_sidecar_ends_with_a_failure() {
    let sources = vec![
        SourceFile { path: "in/a.jpg".to_string(), data: Vec::new(), sidecar: MetaFile::Absent },
        SourceFile { path: "in/b.jpg".to_string(), data: Vec::new(), sidecar: MetaFile::Malformed },
    ];
    let gallery = Gallery::from_input_dir(&MetaFile::Absent, &sources);
    assert_eq!(gallery.as_ref().err(), Some(&GalleryError::MalformedSidecar { index: 1 }));
    assert_ne!(exit_code(gallery.is_err(), 0), 0);
}
