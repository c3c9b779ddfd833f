//! Error taxonomy of the installation pipeline.
//!
//! Every stage returns a typed failure; the pipeline forwards the first one
//! unchanged to the terminal event. Cooperative cancellation is never
//! reported through these types.

use vstd::prelude::*;

verus! {

/// Which of the three release assets a resolution step was after.
#[derive(Clone, Copy, Debug, PartialEq, Eq, Structural)]
pub enum AssetSlot {
    DefVersion,
    DlxVersion,
    Spritepack,
}

/// The part of the release response that a failed resolution was missing.
#[derive(Clone, Copy, Debug, PartialEq, Eq, Structural)]
pub enum ResponseField {
    /// The `assets` list itself is absent.
    Assets,
    /// The asset at the configured index is absent.
    Asset(AssetSlot),
    /// The asset has no download-link field.
    Link(AssetSlot),
    /// The download-link field is not a string.
    LinkText(AssetSlot),
}

/// A malformed or incomplete release-API response.
#[derive(Clone, Copy, Debug, PartialEq, Eq, Structural)]
pub enum ResolutionError {
    /// The response body is not valid JSON.
    InvalidJson,
    /// The response parsed, but the named field was absent or had the wrong
    /// shape.
    MalformedResponse(ResponseField),
}

/// A failed chunked download.
#[derive(Clone, Copy, Debug, PartialEq, Eq, Structural)]
pub enum DownloadError {
    /// The length-probing response carried no parsable content length.
    InvalidContentLen,
    /// A ranged request was answered with a non-success status code.
    InvalidStatusCode(u16),
    /// The transport below the ranged requests failed.
    Transport,
}

/// A failed archive extraction.
#[derive(Clone, Debug, PartialEq, Eq)]
pub enum ExtractionError {
    /// The archive's entry index could not be read.
    CorruptArchive,
    /// An entry's stored path would escape the destination directory; the
    /// offending stored path is carried verbatim.
    UnsafeFilepath(Vec<u8>),
    /// Creating a directory or writing an output file failed.
    Io,
}

/// Any failure of an installation run, tagged with the originating stage.
#[derive(Clone, Debug, PartialEq, Eq)]
pub enum InstallerError {
    Resolution(ResolutionError),
    Download(DownloadError),
    Extraction(ExtractionError),
    /// Temporary storage or the destination tree could not be created.
    Filesystem,
}

} // verus!
