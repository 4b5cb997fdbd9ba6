//! Resolution of the configured output size.
//!
//! The caller may fix either the output width or the output height, never
//! both: the unspecified dimension follows from the source image's aspect
//! ratio. Conflicting requests are rejected here, before any image is loaded.

use vstd::prelude::*;

verus! {

/// Errors in the run configuration, surfaced before any image is loaded.
#[derive(Debug, Clone, Copy, PartialEq, Eq, Structural)]
pub enum ConfigError {
    /// Both a width and a height target were given; they are mutually
    /// exclusive because the source image's aspect ratio is preserved.
    ConflictingDimensions,
}

/// The dimension that the caller fixed for the output image; the other
/// dimension is computed from the source image's aspect ratio.
#[derive(Debug, Clone, Copy, PartialEq, Eq, Structural)]
pub enum ResizeTarget {
    Width(u32),
    Height(u32),
}

/// Height target used when neither a width nor a height is configured.
pub const DEFAULT_HEIGHT: u32 = 1000;

/// Turns the optional width/height options into a single resize target.
/// Exactly one dimension may be given; with neither, the default height
/// applies.
pub fn resolve_target(width: Option<u32>, height: Option<u32>) -> (r: Result<
    ResizeTarget,
    ConfigError,
>)
    ensures
        match r {
            Ok(t) => match (width, height) {
                (Some(_), Some(_)) => false,
                (Some(w), None) => t == ResizeTarget::Width(w),
                (None, Some(h)) => t == ResizeTarget::Height(h),
                (None, None) => t == ResizeTarget::Height(DEFAULT_HEIGHT),
            },
            Err(e) => e == ConfigError::ConflictingDimensions && (width matches Some(_)) && (
            height matches Some(_)),
        },
{
    match (width, height) {
        (Some(_), Some(_)) => Err(ConfigError::ConflictingDimensions),
        (Some(w), None) => Ok(ResizeTarget::Width(w)),
        (None, Some(h)) => Ok(ResizeTarget::Height(h)),
        (None, None) => Ok(ResizeTarget::Height(DEFAULT_HEIGHT)),
    }
}

} // verus!
