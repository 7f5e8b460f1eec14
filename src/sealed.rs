use vstd::prelude::*;

verus! {

/// Closes `SmallRangeStorage` to the four widths that this crate implements.
pub trait Sealed {
}

impl Sealed for u16 {
}

impl Sealed for u32 {
}

impl Sealed for u64 {
}

impl Sealed for usize {
}

} // verus!
