use vstd::prelude::*;

verus! {

/// The failures that the tracking core can report. None of them may bring the
/// host process down: each one ends or skips at most the current map session.
#[derive(Clone, Copy, Debug, PartialEq, Eq, Structural)]
pub enum TrackError {
    /// The latitude or longitude handed to the mapper lies outside the valid
    /// domain of degrees on the globe.
    InvalidCoordinate,
    /// The source bitmap data cannot back a raster of the requested
    /// dimensions; fatal to the render cycle.
    ImageLoadError,
    /// The position provider failed to deliver a usable fix for this cycle.
    ProviderError,
}

} // verus!
