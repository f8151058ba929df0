use vstd::prelude::*;

verus! {

/// The unit of every coordinate and size: whole canvas pixels.
pub type StandardUnit = i64;

} // verus!
