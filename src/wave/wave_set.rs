use vstd::prelude::*;

use super::WaveShape;
use crate::util::Bitmask;

verus! {

/// A set of [WaveShape]s that can be computed together, held as a bitmask in
/// which bit `i` stands for the shape with index `i`.
#[derive(Debug, Clone, Copy)]
pub struct WaveSet {
    pub shapes: u8,
}

impl View for WaveSet {
    type V = Set<WaveShape>;

    open spec fn view(&self) -> Set<WaveShape> {
        Set::new(|s: WaveShape| self.shapes.bit(s.index() as int))
    }
}

impl WaveSet {
    /// Whether `shape` is in the set.
    pub fn has_shape(&self, shape: WaveShape) -> (r: bool)
        ensures
            r == self@.contains(shape),
    {
        self.shapes.get_bit(shape.into_usize())
    }

    /// Add `shape` to the set if `set_or_unset` is true, else remove it.
    pub fn set_shape(&mut self, shape: WaveShape, set_or_unset: bool)
        ensures
            final(self)@ == if set_or_unset {
                old(self)@.insert(shape)
            } else {
                old(self)@.remove(shape)
            },
            forall|j: int|
                0 <= j < 8 ==> #[trigger] final(self).shapes.bit(j) == if j == shape.index() {
                    set_or_unset
                } else {
                    old(self).shapes.bit(j)
                },
    {
        self.shapes.set_bit_if(shape.into_usize(), set_or_unset);
        assert(self@ =~= if set_or_unset {
            old(self)@.insert(shape)
        } else {
            old(self)@.remove(shape)
        }) by {
            assert forall|s: WaveShape| #[trigger] self.shapes.bit(s.index() as int) == (if s
                == shape {
                set_or_unset
            } else {
                old(self).shapes.bit(s.index() as int)
            }) by {
                assert(s.index() < 4);
            }
        }
    }
}

impl Default for WaveSet {
    fn default() -> (r: WaveSet)
        ensures
            forall|j: int| 0 <= j < 8 ==> !#[trigger] r.shapes.bit(j),
            r@ == Set::<WaveShape>::empty(),
    {
        let r = WaveSet { shapes: u8::no_bits_set() };
        assert(r@ =~= Set::<WaveShape>::empty()) by {
            assert forall|s: WaveShape| !#[trigger] r@.contains(s) by {
                assert(s.index() < 4);
            }
        }
        r
    }
}

} // verus!
