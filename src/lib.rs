//! The integer and structural core of a path tracer: rays, the bounce-limit
//! policy of the radiance estimator, the order in which pixels are produced,
//! and the plain-text PPM encoding of a finished image.
use vstd::prelude::*;

pub mod path;
pub mod ppm;
pub mod raster;
pub mod ray;

verus! {

} // verus!
