//! The fixed parameters of the tracking pipeline.

use vstd::prelude::*;

verus! {

/// Number of buckets of the hue histogram.
pub const HISTOGRAM_BUCKETS: i32 = 16;

/// Lower end of the hue range, inclusive.
pub const HUE_MIN: i32 = 0;

/// Upper end of the hue range, exclusive.
pub const HUE_MAX: i32 = 180;

/// Least saturation of a pixel that takes part in tracking.
pub const SATURATION_MIN: i32 = 30;

/// Least value (brightness) of a pixel that takes part in tracking.
pub const VALUE_MIN: i32 = 10;

/// Upper end of saturation and value, exclusive.
pub const CHANNEL_MAX: i32 = 256;

/// Lower end of the range that a histogram is normalized to.
pub const HISTOGRAM_NORM_MIN: i32 = 0;

/// Upper end of the range that a histogram is normalized to.
pub const HISTOGRAM_NORM_MAX: i32 = 255;

/// Iterations after which the mean-shift search stops at the latest.
pub const SEARCH_MAX_ITERATIONS: i32 = 10;

/// Window movement, in pixels, below which the mean-shift search stops.
pub const SEARCH_EPSILON: i32 = 1;

/// Time, in milliseconds, for which a frame is shown and input is polled.
pub const POLL_INTERVAL_MS: i32 = 30;

/// Port on the loopback interface at which the telemetry consumer listens.
pub const TELEMETRY_PORT: u16 = 8001;

} // verus!
