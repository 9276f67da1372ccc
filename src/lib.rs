//! User-allocated capture buffers for a video device: a pool of equal regions handed to
//! the driver in rotation and matched back by address when a capture completes, and the
//! format and frame interval descriptions the driver enumerates.

use vstd::prelude::*;

pub mod buffers;
pub mod format;
pub mod fourcc;
pub mod frameinterval;

verus! {

} // verus!
