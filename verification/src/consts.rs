//! Numeric thresholds for the thumbnail pipeline.

use vstd::prelude::*;

verus! {

/// The size of 1 MiB in bytes.
pub const MIB: u64 = 1_048_576;

/// The maximum file size that an image can be in order to have a thumbnail
/// generated, in bytes (192 MiB).
pub const MAXIMUM_FILE_SIZE: u64 = 192 * MIB;

/// Target pixel area when rasterizing vector images. It is 512x512, but if
/// the source has a non-1:1 aspect ratio the width and height are rederived
/// from this budget to preserve that ratio.
pub const SVG_TARGET_PX: u64 = 262_144;

/// The width, in pixels, that document pages are rendered at: 120 DPI at
/// standard A4 printer paper size, with the aspect ratio maintained.
pub const PDF_RENDER_WIDTH: u16 = 992;

} // verus!
