//! Miscellaneous utilities.
mod bitmask;
pub use self::bitmask::Bitmask;

mod bitmask_impls;
