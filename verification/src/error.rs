//! The ways in which a run can fail.

use vstd::prelude::*;

verus! {

/// Why a gallery could not be built from its input.
#[derive(Debug, Clone, Copy, PartialEq, Eq, Structural)]
pub enum GalleryError {
    /// The metadata file of the gallery exists and cannot be read as such.
    MalformedGallery,
    /// The sidecar file of the source with this position among the given
    /// sources exists and cannot be read as such.
    MalformedSidecar { index: usize },
}

/// Why a gallery, or one of its images, could not be rendered.
#[derive(Debug, Clone, Copy, PartialEq, Eq, Structural)]
pub enum RenderError {
    /// Something other than a directory stands at the output path.
    NotADirectory,
    /// The source path names no file.
    NoFileName,
    /// The source bytes are no image that can be decoded.
    Decode,
    /// The decoded image has no pixels.
    EmptyImage,
    /// One of the size limits is zero, so that no image fits within it.
    EmptyBounds,
    /// A raster of the requested size cannot be addressed on this machine.
    TooLarge,
}

} // verus!
