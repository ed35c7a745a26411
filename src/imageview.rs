use vstd::prelude::*;

verus! {

/// The part of an image that the main window shows.
pub struct ImageViewport {}

} // verus!
