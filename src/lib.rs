//! Conversion between standard-width characters and their halfwidth and
//! fullwidth siblings in the Unicode "Halfwidth and Fullwidth Forms" block.
use vstd::prelude::*;

pub mod laws;
pub mod table;
mod width;

pub use width::{is_nonstandard_width, to_fullwidth, to_halfwidth, to_standard_width};

verus! {

} // verus!
