//! The run as the command line drives it.

use crate::error::RenderError;
use crate::gallery::{Gallery, GalleryOpts};
use crate::pages::StaticFiles;
use crate::render::{
    gallery_plan, render_gallery, static_names, step_views, OutputTarget, Step, StepView,
};
use vstd::prelude::*;

verus! {

/// The input directory of a run that names none.
pub const DEFAULT_INPUT_DIR: &'static str = ".";

/// The output directory of a run that names none.
pub const DEFAULT_OUTPUT_DIR: &'static str = "gallery";

/// What the command line asks for.
#[derive(Debug)]
pub struct Cli {
    pub command: Commands,
}

/// The commands of the program.
#[derive(Debug)]
pub enum Commands {
    /// Make a gallery in `output_dir` of the photographs in `input_dir`.
    Create { input_dir: String, output_dir: String },
}

impl Commands {
    /// The command that makes a gallery, with the default for each directory
    /// that is not named.
    pub fn create(input_dir: Option<String>, output_dir: Option<String>) -> (command: Commands)
        ensures
            command matches Commands::Create { input_dir: input, output_dir: output } && input@
                == (match input_dir {
                Some(dir) => dir@,
                None => DEFAULT_INPUT_DIR@,
            }) && output@ == (match output_dir {
                Some(dir) => dir@,
                None => DEFAULT_OUTPUT_DIR@,
            }),
    {
        Commands::Create {
            input_dir: match input_dir {
                Some(dir) => dir,
                None => DEFAULT_INPUT_DIR.to_owned(),
            },
            output_dir: match output_dir {
                Some(dir) => dir,
                None => DEFAULT_OUTPUT_DIR.to_owned(),
            },
        }
    }
}

/// What a run comes to.
#[derive(Debug)]
pub enum Outcome<'a> {
    /// The input holds no photograph: nothing is made.
    NoImages,
    /// The gallery is made by these steps, in their order.
    Rendered { steps: Vec<Step<'a>> },
}

/// Decides what a run does with the gallery that was built from its input.
///
/// A gallery without images is a valid end: nothing is rendered, and what
/// stands at the output path is not even looked at.
pub fn process<'a>(
    gallery: &'a Gallery,
    output_dir: &str,
    opts: &'a GalleryOpts,
    assets: &StaticFiles,
    target: OutputTarget,
) -> (outcome: Result<Outcome<'a>, RenderError>)
    ensures
        gallery@.images.len() == 0 ==> outcome matches Ok(Outcome::NoImages),
        gallery@.images.len() > 0 ==> match outcome {
            Ok(Outcome::Rendered { steps }) => Ok::<Seq<StepView>, RenderError>(step_views(steps@))
                == gallery_plan(
                gallery@,
                output_dir@,
                *opts,
                static_names(assets.files@),
                target,
            ),
            Ok(Outcome::NoImages) => false,
            Err(error) => Err::<Seq<StepView>, RenderError>(error) == gallery_plan(
                gallery@,
                output_dir@,
                *opts,
                static_names(assets.files@),
                target,
            ),
        },
{
    if gallery.image_count() > 0 {
        match render_gallery(gallery, output_dir, opts, assets, target) {
            Ok(steps) => Ok(Outcome::Rendered { steps }),
            Err(error) => Err(error),
        }
    } else {
        Ok(Outcome::NoImages)
    }
}

/// The exit status of a run: zero where nothing stopped it and every
/// artifact was written, and one otherwise.
pub fn exit_code(stopped: bool, failed_writes: usize) -> (code: u8)
    ensures
        code == if !stopped && failed_writes == 0 {
            0u8
        } else {
            1u8
        },
{
    if !stopped && failed_writes == 0 {
        0
    } else {
        1
    }
}

} // verus!
