//! The import and export collaborator interfaces. Implementations live
//! outside the core: they own codecs, containers and file handles, and
//! consume frames strictly in increasing order.

use crate::video::VideoSettings;
use vstd::prelude::*;

verus! {

/// A media importer: names the container formats it can read.
pub trait Import {
    /// The file extensions this importer understands.
    fn supported_import_extensions() -> Vec<String>;
}

/// A media exporter: receives every resolved frame, strictly in increasing
/// frame order, between one `begin` and one `end`.
pub trait Export {
    /// Opens the output for a job with the given settings.
    fn begin(&mut self, settings: VideoSettings);

    /// Consumes one frame of tightly packed RGBA bytes, four per pixel.
    fn push_frame(&mut self, keyframe: bool, frame: &[u8]);

    /// Finishes the output and releases the sink.
    fn end(self);
}

} // verus!
