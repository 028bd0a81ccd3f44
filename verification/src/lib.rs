//! Static photo gallery generation: the decisions of the pipeline, verified.
//!
//! The library turns a listing of source photographs into an ordered
//! collection, derives the two raster artifacts of each photograph, and lays
//! out the pages and files of the generated gallery. Reading and writing
//! files is left to the caller; everything that is decided or computed in
//! between is stated and proved here.
//!
//! - [`paths`]: file names, stems and extensions; which files are
//!   photographs.
//! - [`photo`]: one photograph with the facts of its EXIF data and the
//!   overrides of its sidecar file.
//! - [`gallery`]: discovery of the photographs and the building of the
//!   ordered collection.
//! - [`raster`]: the geometry of the full image and of the thumbnail.
//! - [`pages`]: the data of each page, with the neighbours of each image.
//! - [`render`]: the layout of the output directory and the ordered steps
//!   that make it.
//! - [`cli`]: the command, its defaults and the outcome of a run.
//!
//! The outside libraries are called in [`datetime`], [`exif_data`],
//! [`paths`] and [`raster`]. What is assumed of them is stated on the
//! functions that make the calls, and nowhere else.

pub mod cli;
pub mod datetime;
pub mod error;
pub mod exif_data;
pub mod gallery;
pub mod pages;
pub mod paths;
pub mod photo;
pub mod raster;
pub mod render;
pub mod seqs;
