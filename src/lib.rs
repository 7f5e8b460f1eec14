//! A half-open range of unsigned integers packed into one integer of the
//! chosen width: the start plus one in the high half, the length plus one in
//! the low half. The packed value is never zero, so an `Option` of a range is
//! no larger than the range itself.
mod sealed;
mod small_range;
pub mod storage;

pub use small_range::SmallRange;
pub use storage::SmallRangeStorage;
