use vstd::prelude::*;

verus! {

/// Trait for types that can be used as the underlying type of a bitmask.
///
/// Implemented for all unsigned integer types. A value is modelled by its bits:
/// `bit(i)` tells whether the `i`'th bit (counting from the least significant)
/// is set, for `0 <= i < width()`.
pub trait Bitmask: Sized + Copy {
    /// Number of bits held by the type.
    spec fn width() -> nat;

    /// Whether the `i`'th bit is set.
    spec fn bit(&self, i: int) -> bool;

    /// Number of bits contained in this type (use this when bounds-checking).
    fn bit_count() -> (r: usize)
        ensures
            r == Self::width(),
    ;

    /// The masks that have exactly one bit set, in order of that bit.
    fn masks() -> (r: Vec<Self>)
        ensures
            r@.len() == Self::width(),
            forall|i: int, j: int|
                0 <= i < Self::width() && 0 <= j < Self::width() ==> #[trigger] r@[i].bit(j) == (i
                    == j),
    ;

    /// Create a new mask with no bits set.
    fn no_bits_set() -> (r: Self)
        ensures
            forall|j: int| 0 <= j < Self::width() ==> !#[trigger] r.bit(j),
    ;

    /// Create a new mask with all bits set.
    fn all_bits_set() -> (r: Self)
        ensures
            forall|j: int| 0 <= j < Self::width() ==> #[trigger] r.bit(j),
    ;

    /// Create a new mask with only the `i`'th bit set.
    fn only_bit(i: usize) -> (r: Self)
        requires
            i < Self::width(),
        ensures
            forall|j: int| 0 <= j < Self::width() ==> #[trigger] r.bit(j) == (j == i),
    ;

    /// Create a new mask with all bits set except for the `i`'th bit.
    fn except_bit(i: usize) -> (r: Self)
        requires
            i < Self::width(),
        ensures
            forall|j: int| 0 <= j < Self::width() ==> #[trigger] r.bit(j) == (j != i),
    ;

    /// Create a new mask with all bits set if `val` is true,
    /// or with all bits except the `i`'th bit if `val` is false.
    fn new_mask_for_bit(i: usize, val: bool) -> (r: Self)
        requires
            i < Self::width(),
        ensures
            forall|j: int| 0 <= j < Self::width() ==> #[trigger] r.bit(j) == (val || j != i),
    {
        if val {
            Self::all_bits_set()
        } else {
            Self::except_bit(i)
        }
    }

    /// Create a new mask that can be used to sync the `i`'th bit of another
    /// bitmask to this one: if the `i`'th bit is set, all bits are set;
    /// otherwise all bits but the `i`'th are set.
    fn mask_for_bit(&self, i: usize) -> (r: Self)
        requires
            i < Self::width(),
        ensures
            forall|j: int|
                0 <= j < Self::width() ==> #[trigger] r.bit(j) == (self.bit(i as int) || j != i),
    ;

    /// Set all bits to true.
    fn set_all_bits(&mut self)
        ensures
            forall|j: int| 0 <= j < Self::width() ==> #[trigger] final(self).bit(j),
    ;

    /// Set all bits to false.
    fn unset_all_bits(&mut self)
        ensures
            forall|j: int| 0 <= j < Self::width() ==> !#[trigger] final(self).bit(j),
    ;

    /// Return true if the `i`'th bit is set.
    fn get_bit(&self, i: usize) -> (r: bool)
        requires
            i < Self::width(),
        ensures
            r == self.bit(i as int),
    ;

    /// Set the `i`'th bit to true.
    fn set_bit(&mut self, i: usize)
        requires
            i < Self::width(),
        ensures
            forall|j: int|
                0 <= j < Self::width() ==> #[trigger] final(self).bit(j) == (j == i || old(
                    self,
                ).bit(j)),
    ;

    /// Set the `i`'th bit to false.
    fn unset_bit(&mut self, i: usize)
        requires
            i < Self::width(),
        ensures
            forall|j: int|
                0 <= j < Self::width() ==> #[trigger] final(self).bit(j) == (j != i && old(
                    self,
                ).bit(j)),
    ;

    /// Set or unset the `i`'th bit according to `val`.
    fn set_bit_if(&mut self, i: usize, val: bool)
        requires
            i < Self::width(),
        ensures
            forall|j: int|
                0 <= j < Self::width() ==> #[trigger] final(self).bit(j) == if j == i {
                    val
                } else {
                    old(self).bit(j)
                },
    {
        if val {
            self.set_bit(i)
        } else {
            self.unset_bit(i)
        }
    }

    /// Switch the `i`'th bit from false to true, or from true to false.
    fn switch_bit(&mut self, i: usize)
        requires
            i < Self::width(),
        ensures
            forall|j: int|
                0 <= j < Self::width() ==> #[trigger] final(self).bit(j) == if j == i {
                    !old(self).bit(j)
                } else {
                    old(self).bit(j)
                },
    ;

    /// Set every bit that is set in `other`.
    fn or_eq(&mut self, other: Self)
        ensures
            forall|j: int|
                0 <= j < Self::width() ==> #[trigger] final(self).bit(j) == (old(self).bit(j)
                    || other.bit(j)),
    ;

    /// Unset every bit that is set in `other`.
    fn filter(&mut self, other: Self)
        ensures
            forall|j: int|
                0 <= j < Self::width() ==> #[trigger] final(self).bit(j) == (old(self).bit(j)
                    && !other.bit(j)),
    ;
}

} // verus!
