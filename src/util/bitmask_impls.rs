//! Implementations of `Bitmask` for the unsigned integer types.
use vstd::prelude::*;

use super::Bitmask;

verus! {

/// Whether bit `i` of `x` is set.
pub open spec fn u8_bit(x: u8, i: u8) -> bool {
    (x >> i) & 1u8 == 1u8
}

/// How the bits of a `u8` behave under the operations that `Bitmask` uses.
proof fn lemma_u8_bits()
    by (bit_vector)
    ensures
        forall|j: u8| j < 8 ==> !#[trigger] u8_bit(0u8, j),
        forall|j: u8| j < 8 ==> #[trigger] u8_bit(!0u8, j),
        forall|i: u8, j: u8| i < 8 && j < 8 ==> #[trigger] u8_bit(1u8 << i, j) == (i == j),
        forall|i: u8, j: u8| i < 8 && j < 8 ==> #[trigger] u8_bit(!(1u8 << i), j) == (i != j),
        forall|x: u8, i: u8, j: u8|
            i < 8 && j < 8 ==> #[trigger] u8_bit((x & (1u8 << i)) ^ !(1u8 << i), j) == (u8_bit(
                x,
                i,
            ) || i != j),
        forall|x: u8, i: u8, j: u8|
            i < 8 && j < 8 ==> #[trigger] u8_bit(x | (1u8 << i), j) == (i == j || u8_bit(x, j)),
        forall|x: u8, i: u8, j: u8|
            i < 8 && j < 8 ==> #[trigger] u8_bit(x & !(1u8 << i), j) == (i != j && u8_bit(x, j)),
        forall|x: u8, i: u8, j: u8|
            i < 8 && j < 8 ==> #[trigger] u8_bit(x ^ (1u8 << i), j) == (u8_bit(x, j) != (i
                == j)),
        forall|x: u8, y: u8, j: u8|
            j < 8 ==> #[trigger] u8_bit(x | y, j) == (u8_bit(x, j) || u8_bit(y, j)),
        forall|x: u8, y: u8, j: u8|
            j < 8 ==> #[trigger] u8_bit(x & !y, j) == (u8_bit(x, j) && !u8_bit(y, j)),
{
}

impl Bitmask for u8 {
    open spec fn width() -> nat {
        8
    }

    open spec fn bit(&self, i: int) -> bool {
        0 <= i < 8 && u8_bit(*self, i as u8)
    }

    fn bit_count() -> (r: usize) {
        8
    }

    fn masks() -> (r: Vec<u8>) {
        let mut masks: Vec<u8> = Vec::new();
        let mut i: u8 = 0;
        while i < 8
            invariant
                i <= 8,
                masks@.len() == i,
                forall|k: int, j: int|
                    0 <= k < i && 0 <= j < 8 ==> #[trigger] masks@[k].bit(j) == (k == j),
            decreases 8 - i,
        {
            let mask = 1u8 << i;
            proof {
                lemma_u8_bits();
            }
            assert forall|j: int| 0 <= j < 8 implies #[trigger] mask.bit(j) == (i == j) by {
                assert(u8_bit(1u8 << i, j as u8) == (i == j as u8));
            }
            masks.push(mask);
            i = i + 1;
        }
        masks
    }

    fn no_bits_set() -> (r: u8) {
        proof {
            lemma_u8_bits();
        }
        0
    }

    fn all_bits_set() -> (r: u8) {
        proof {
            lemma_u8_bits();
        }
        !0u8
    }

    fn only_bit(i: usize) -> (r: u8) {
        proof {
            lemma_u8_bits();
        }
        1u8 << (i as u8)
    }

    fn except_bit(i: usize) -> (r: u8) {
        proof {
            lemma_u8_bits();
        }
        !(1u8 << (i as u8))
    }

    fn mask_for_bit(&self, i: usize) -> (r: u8) {
        proof {
            lemma_u8_bits();
        }
        let mask = 1u8 << (i as u8);
        (*self & mask) ^ !mask
    }

    fn set_all_bits(&mut self) {
        proof {
            lemma_u8_bits();
        }
        *self = !0u8;
    }

    fn unset_all_bits(&mut self) {
        proof {
            lemma_u8_bits();
        }
        *self = 0;
    }

    fn get_bit(&self, i: usize) -> (r: bool) {
        (*self >> (i as u8)) & 1 == 1
    }

    fn set_bit(&mut self, i: usize) {
        proof {
            lemma_u8_bits();
        }
        *self = *self | (1u8 << (i as u8));
    }

    fn unset_bit(&mut self, i: usize) {
        proof {
            lemma_u8_bits();
        }
        *self = *self & !(1u8 << (i as u8));
    }

    fn switch_bit(&mut self, i: usize) {
        proof {
            lemma_u8_bits();
        }
        *self = *self ^ (1u8 << (i as u8));
    }

    fn or_eq(&mut self, other: u8) {
        proof {
            lemma_u8_bits();
        }
        *self = *self | other;
    }

    fn filter(&mut self, other: u8) {
        proof {
            lemma_u8_bits();
        }
        *self = *self & !other;
    }
}

/// Whether bit `i` of `x` is set.
pub open spec fn u16_bit(x: u16, i: u16) -> bool {
    (x >> i) & 1u16 == 1u16
}

/// How the bits of a `u16` behave under the operations that `Bitmask` uses.
proof fn lemma_u16_bits()
    by (bit_vector)
    ensures
        forall|j: u16| j < 16 ==> !#[trigger] u16_bit(0u16, j),
        forall|j: u16| j < 16 ==> #[trigger] u16_bit(!0u16, j),
        forall|i: u16, j: u16| i < 16 && j < 16 ==> #[trigger] u16_bit(1u16 << i, j) == (i == j),
        forall|i: u16, j: u16| i < 16 && j < 16 ==> #[trigger] u16_bit(!(1u16 << i), j) == (i != j),
        forall|x: u16, i: u16, j: u16|
            i < 16 && j < 16 ==> #[trigger] u16_bit((x & (1u16 << i)) ^ !(1u16 << i), j) == (u16_bit(
                x,
                i,
            ) || i != j),
        forall|x: u16, i: u16, j: u16|
            i < 16 && j < 16 ==> #[trigger] u16_bit(x | (1u16 << i), j) == (i == j || u16_bit(x, j)),
        forall|x: u16, i: u16, j: u16|
            i < 16 && j < 16 ==> #[trigger] u16_bit(x & !(1u16 << i), j) == (i != j && u16_bit(x, j)),
        forall|x: u16, i: u16, j: u16|
            i < 16 && j < 16 ==> #[trigger] u16_bit(x ^ (1u16 << i), j) == (u16_bit(x, j) != (i
                == j)),
        forall|x: u16, y: u16, j: u16|
            j < 16 ==> #[trigger] u16_bit(x | y, j) == (u16_bit(x, j) || u16_bit(y, j)),
        forall|x: u16, y: u16, j: u16|
            j < 16 ==> #[trigger] u16_bit(x & !y, j) == (u16_bit(x, j) && !u16_bit(y, j)),
{
}

impl Bitmask for u16 {
    open spec fn width() -> nat {
        16
    }

    open spec fn bit(&self, i: int) -> bool {
        0 <= i < 16 && u16_bit(*self, i as u16)
    }

    fn bit_count() -> (r: usize) {
        16
    }

    fn masks() -> (r: Vec<u16>) {
        let mut masks: Vec<u16> = Vec::new();
        let mut i: u16 = 0;
        while i < 16
            invariant
                i <= 16,
                masks@.len() == i,
                forall|k: int, j: int|
                    0 <= k < i && 0 <= j < 16 ==> #[trigger] masks@[k].bit(j) == (k == j),
            decreases 16 - i,
        {
            let mask = 1u16 << i;
            proof {
                lemma_u16_bits();
            }
            assert forall|j: int| 0 <= j < 16 implies #[trigger] mask.bit(j) == (i == j) by {
                assert(u16_bit(1u16 << i, j as u16) == (i == j as u16));
            }
            masks.push(mask);
            i = i + 1;
        }
        masks
    }

    fn no_bits_set() -> (r: u16) {
        proof {
            lemma_u16_bits();
        }
        0
    }

    fn all_bits_set() -> (r: u16) {
        proof {
            lemma_u16_bits();
        }
        !0u16
    }

    fn only_bit(i: usize) -> (r: u16) {
        proof {
            lemma_u16_bits();
        }
        1u16 << (i as u16)
    }

    fn except_bit(i: usize) -> (r: u16) {
        proof {
            lemma_u16_bits();
        }
        !(1u16 << (i as u16))
    }

    fn mask_for_bit(&self, i: usize) -> (r: u16) {
        proof {
            lemma_u16_bits();
        }
        let mask = 1u16 << (i as u16);
        (*self & mask) ^ !mask
    }

    fn set_all_bits(&mut self) {
        proof {
            lemma_u16_bits();
        }
        *self = !0u16;
    }

    fn unset_all_bits(&mut self) {
        proof {
            lemma_u16_bits();
        }
        *self = 0;
    }

    fn get_bit(&self, i: usize) -> (r: bool) {
        (*self >> (i as u16)) & 1 == 1
    }

    fn set_bit(&mut self, i: usize) {
        proof {
            lemma_u16_bits();
        }
        *self = *self | (1u16 << (i as u16));
    }

    fn unset_bit(&mut self, i: usize) {
        proof {
            lemma_u16_bits();
        }
        *self = *self & !(1u16 << (i as u16));
    }

    fn switch_bit(&mut self, i: usize) {
        proof {
            lemma_u16_bits();
        }
        *self = *self ^ (1u16 << (i as u16));
    }

    fn or_eq(&mut self, other: u16) {
        proof {
            lemma_u16_bits();
        }
        *self = *self | other;
    }

    fn filter(&mut self, other: u16) {
        proof {
            lemma_u16_bits();
        }
        *self = *self & !other;
    }
}

/// Whether bit `i` of `x` is set.
pub open spec fn u32_bit(x: u32, i: u32) -> bool {
    (x >> i) & 1u32 == 1u32
}

/// How the bits of a `u32` behave under the operations that `Bitmask` uses.
proof fn lemma_u32_bits()
    by (bit_vector)
    ensures
        forall|j: u32| j < 32 ==> !#[trigger] u32_bit(0u32, j),
        forall|j: u32| j < 32 ==> #[trigger] u32_bit(!0u32, j),
        forall|i: u32, j: u32| i < 32 && j < 32 ==> #[trigger] u32_bit(1u32 << i, j) == (i == j),
        forall|i: u32, j: u32| i < 32 && j < 32 ==> #[trigger] u32_bit(!(1u32 << i), j) == (i != j),
        forall|x: u32, i: u32, j: u32|
            i < 32 && j < 32 ==> #[trigger] u32_bit((x & (1u32 << i)) ^ !(1u32 << i), j) == (u32_bit(
                x,
                i,
            ) || i != j),
        forall|x: u32, i: u32, j: u32|
            i < 32 && j < 32 ==> #[trigger] u32_bit(x | (1u32 << i), j) == (i == j || u32_bit(x, j)),
        forall|x: u32, i: u32, j: u32|
            i < 32 && j < 32 ==> #[trigger] u32_bit(x & !(1u32 << i), j) == (i != j && u32_bit(x, j)),
        forall|x: u32, i: u32, j: u32|
            i < 32 && j < 32 ==> #[trigger] u32_bit(x ^ (1u32 << i), j) == (u32_bit(x, j) != (i
                == j)),
        forall|x: u32, y: u32, j: u32|
            j < 32 ==> #[trigger] u32_bit(x | y, j) == (u32_bit(x, j) || u32_bit(y, j)),
        forall|x: u32, y: u32, j: u32|
            j < 32 ==> #[trigger] u32_bit(x & !y, j) == (u32_bit(x, j) && !u32_bit(y, j)),
{
}

impl Bitmask for u32 {
    open spec fn width() -> nat {
        32
    }

    open spec fn bit(&self, i: int) -> bool {
        0 <= i < 32 && u32_bit(*self, i as u32)
    }

    fn bit_count() -> (r: usize) {
        32
    }

    fn masks() -> (r: Vec<u32>) {
        let mut masks: Vec<u32> = Vec::new();
        let mut i: u32 = 0;
        while i < 32
            invariant
                i <= 32,
                masks@.len() == i,
                forall|k: int, j: int|
                    0 <= k < i && 0 <= j < 32 ==> #[trigger] masks@[k].bit(j) == (k == j),
            decreases 32 - i,
        {
            let mask = 1u32 << i;
            proof {
                lemma_u32_bits();
            }
            assert forall|j: int| 0 <= j < 32 implies #[trigger] mask.bit(j) == (i == j) by {
                assert(u32_bit(1u32 << i, j as u32) == (i == j as u32));
            }
            masks.push(mask);
            i = i + 1;
        }
        masks
    }

    fn no_bits_set() -> (r: u32) {
        proof {
            lemma_u32_bits();
        }
        0
    }

    fn all_bits_set() -> (r: u32) {
        proof {
            lemma_u32_bits();
        }
        !0u32
    }

    fn only_bit(i: usize) -> (r: u32) {
        proof {
            lemma_u32_bits();
        }
        1u32 << (i as u32)
    }

    fn except_bit(i: usize) -> (r: u32) {
        proof {
            lemma_u32_bits();
        }
        !(1u32 << (i as u32))
    }

    fn mask_for_bit(&self, i: usize) -> (r: u32) {
        proof {
            lemma_u32_bits();
        }
        let mask = 1u32 << (i as u32);
        (*self & mask) ^ !mask
    }

    fn set_all_bits(&mut self) {
        proof {
            lemma_u32_bits();
        }
        *self = !0u32;
    }

    fn unset_all_bits(&mut self) {
        proof {
            lemma_u32_bits();
        }
        *self = 0;
    }

    fn get_bit(&self, i: usize) -> (r: bool) {
        (*self >> (i as u32)) & 1 == 1
    }

    fn set_bit(&mut self, i: usize) {
        proof {
            lemma_u32_bits();
        }
        *self = *self | (1u32 << (i as u32));
    }

    fn unset_bit(&mut self, i: usize) {
        proof {
            lemma_u32_bits();
        }
        *self = *self & !(1u32 << (i as u32));
    }

    fn switch_bit(&mut self, i: usize) {
        proof {
            lemma_u32_bits();
        }
        *self = *self ^ (1u32 << (i as u32));
    }

    fn or_eq(&mut self, other: u32) {
        proof {
            lemma_u32_bits();
        }
        *self = *self | other;
    }

    fn filter(&mut self, other: u32) {
        proof {
            lemma_u32_bits();
        }
        *self = *self & !other;
    }
}

/// Whether bit `i` of `x` is set.
pub open spec fn u64_bit(x: u64, i: u64) -> bool {
    (x >> i) & 1u64 == 1u64
}

/// How the bits of a `u64` behave under the operations that `Bitmask` uses.
proof fn lemma_u64_bits()
    by (bit_vector)
    ensures
        forall|j: u64| j < 64 ==> !#[trigger] u64_bit(0u64, j),
        forall|j: u64| j < 64 ==> #[trigger] u64_bit(!0u64, j),
        forall|i: u64, j: u64| i < 64 && j < 64 ==> #[trigger] u64_bit(1u64 << i, j) == (i == j),
        forall|i: u64, j: u64| i < 64 && j < 64 ==> #[trigger] u64_bit(!(1u64 << i), j) == (i != j),
        forall|x: u64, i: u64, j: u64|
            i < 64 && j < 64 ==> #[trigger] u64_bit((x & (1u64 << i)) ^ !(1u64 << i), j) == (u64_bit(
                x,
                i,
            ) || i != j),
        forall|x: u64, i: u64, j: u64|
            i < 64 && j < 64 ==> #[trigger] u64_bit(x | (1u64 << i), j) == (i == j || u64_bit(x, j)),
        forall|x: u64, i: u64, j: u64|
            i < 64 && j < 64 ==> #[trigger] u64_bit(x & !(1u64 << i), j) == (i != j && u64_bit(x, j)),
        forall|x: u64, i: u64, j: u64|
            i < 64 && j < 64 ==> #[trigger] u64_bit(x ^ (1u64 << i), j) == (u64_bit(x, j) != (i
                == j)),
        forall|x: u64, y: u64, j: u64|
            j < 64 ==> #[trigger] u64_bit(x | y, j) == (u64_bit(x, j) || u64_bit(y, j)),
        forall|x: u64, y: u64, j: u64|
            j < 64 ==> #[trigger] u64_bit(x & !y, j) == (u64_bit(x, j) && !u64_bit(y, j)),
{
}

impl Bitmask for u64 {
    open spec fn width() -> nat {
        64
    }

    open spec fn bit(&self, i: int) -> bool {
        0 <= i < 64 && u64_bit(*self, i as u64)
    }

    fn bit_count() -> (r: usize) {
        64
    }

    fn masks() -> (r: Vec<u64>) {
        let mut masks: Vec<u64> = Vec::new();
        let mut i: u64 = 0;
        while i < 64
            invariant
                i <= 64,
                masks@.len() == i,
                forall|k: int, j: int|
                    0 <= k < i && 0 <= j < 64 ==> #[trigger] masks@[k].bit(j) == (k == j),
            decreases 64 - i,
        {
            let mask = 1u64 << i;
            proof {
                lemma_u64_bits();
            }
            assert forall|j: int| 0 <= j < 64 implies #[trigger] mask.bit(j) == (i == j) by {
                assert(u64_bit(1u64 << i, j as u64) == (i == j as u64));
            }
            masks.push(mask);
            i = i + 1;
        }
        masks
    }

    fn no_bits_set() -> (r: u64) {
        proof {
            lemma_u64_bits();
        }
        0
    }

    fn all_bits_set() -> (r: u64) {
        proof {
            lemma_u64_bits();
        }
        !0u64
    }

    fn only_bit(i: usize) -> (r: u64) {
        proof {
            lemma_u64_bits();
        }
        1u64 << (i as u64)
    }

    fn except_bit(i: usize) -> (r: u64) {
        proof {
            lemma_u64_bits();
        }
        !(1u64 << (i as u64))
    }

    fn mask_for_bit(&self, i: usize) -> (r: u64) {
        proof {
            lemma_u64_bits();
        }
        let mask = 1u64 << (i as u64);
        (*self & mask) ^ !mask
    }

    fn set_all_bits(&mut self) {
        proof {
            lemma_u64_bits();
        }
        *self = !0u64;
    }

    fn unset_all_bits(&mut self) {
        proof {
            lemma_u64_bits();
        }
        *self = 0;
    }

    fn get_bit(&self, i: usize) -> (r: bool) {
        (*self >> (i as u64)) & 1 == 1
    }

    fn set_bit(&mut self, i: usize) {
        proof {
            lemma_u64_bits();
        }
        *self = *self | (1u64 << (i as u64));
    }

    fn unset_bit(&mut self, i: usize) {
        proof {
            lemma_u64_bits();
        }
        *self = *self & !(1u64 << (i as u64));
    }

    fn switch_bit(&mut self, i: usize) {
        proof {
            lemma_u64_bits();
        }
        *self = *self ^ (1u64 << (i as u64));
    }

    fn or_eq(&mut self, other: u64) {
        proof {
            lemma_u64_bits();
        }
        *self = *self | other;
    }

    fn filter(&mut self, other: u64) {
        proof {
            lemma_u64_bits();
        }
        *self = *self & !other;
    }
}

/// Whether bit `i` of `x` is set.
pub open spec fn u128_bit(x: u128, i: u128) -> bool {
    (x >> i) & 1u128 == 1u128
}

/// How the bits of a `u128` behave under the operations that `Bitmask` uses.
proof fn lemma_u128_bits()
    by (bit_vector)
    ensures
        forall|j: u128| j < 128 ==> !#[trigger] u128_bit(0u128, j),
        forall|j: u128| j < 128 ==> #[trigger] u128_bit(!0u128, j),
        forall|i: u128, j: u128| i < 128 && j < 128 ==> #[trigger] u128_bit(1u128 << i, j) == (i == j),
        forall|i: u128, j: u128| i < 128 && j < 128 ==> #[trigger] u128_bit(!(1u128 << i), j) == (i != j),
        forall|x: u128, i: u128, j: u128|
            i < 128 && j < 128 ==> #[trigger] u128_bit((x & (1u128 << i)) ^ !(1u128 << i), j) == (u128_bit(
                x,
                i,
            ) || i != j),
        forall|x: u128, i: u128, j: u128|
            i < 128 && j < 128 ==> #[trigger] u128_bit(x | (1u128 << i), j) == (i == j || u128_bit(x, j)),
        forall|x: u128, i: u128, j: u128|
            i < 128 && j < 128 ==> #[trigger] u128_bit(x & !(1u128 << i), j) == (i != j && u128_bit(x, j)),
        forall|x: u128, i: u128, j: u128|
            i < 128 && j < 128 ==> #[trigger] u128_bit(x ^ (1u128 << i), j) == (u128_bit(x, j) != (i
                == j)),
        forall|x: u128, y: u128, j: u128|
            j < 128 ==> #[trigger] u128_bit(x | y, j) == (u128_bit(x, j) || u128_bit(y, j)),
        forall|x: u128, y: u128, j: u128|
            j < 128 ==> #[trigger] u128_bit(x & !y, j) == (u128_bit(x, j) && !u128_bit(y, j)),
{
}

impl Bitmask for u128 {
    open spec fn width() -> nat {
        128
    }

    open spec fn bit(&self, i: int) -> bool {
        0 <= i < 128 && u128_bit(*self, i as u128)
    }

    fn bit_count() -> (r: usize) {
        128
    }

    fn masks() -> (r: Vec<u128>) {
        let mut masks: Vec<u128> = Vec::new();
        let mut i: u128 = 0;
        while i < 128
            invariant
                i <= 128,
                masks@.len() == i,
                forall|k: int, j: int|
                    0 <= k < i && 0 <= j < 128 ==> #[trigger] masks@[k].bit(j) == (k == j),
            decreases 128 - i,
        {
            let mask = 1u128 << i;
            proof {
                lemma_u128_bits();
            }
            assert forall|j: int| 0 <= j < 128 implies #[trigger] mask.bit(j) == (i == j) by {
                assert(u128_bit(1u128 << i, j as u128) == (i == j as u128));
            }
            masks.push(mask);
            i = i + 1;
        }
        masks
    }

    fn no_bits_set() -> (r: u128) {
        proof {
            lemma_u128_bits();
        }
        0
    }

    fn all_bits_set() -> (r: u128) {
        proof {
            lemma_u128_bits();
        }
        !0u128
    }

    fn only_bit(i: usize) -> (r: u128) {
        proof {
            lemma_u128_bits();
        }
        1u128 << (i as u128)
    }

    fn except_bit(i: usize) -> (r: u128) {
        proof {
            lemma_u128_bits();
        }
        !(1u128 << (i as u128))
    }

    fn mask_for_bit(&self, i: usize) -> (r: u128) {
        proof {
            lemma_u128_bits();
        }
        let mask = 1u128 << (i as u128);
        (*self & mask) ^ !mask
    }

    fn set_all_bits(&mut self) {
        proof {
            lemma_u128_bits();
        }
        *self = !0u128;
    }

    fn unset_all_bits(&mut self) {
        proof {
            lemma_u128_bits();
        }
        *self = 0;
    }

    fn get_bit(&self, i: usize) -> (r: bool) {
        (*self >> (i as u128)) & 1 == 1
    }

    fn set_bit(&mut self, i: usize) {
        proof {
            lemma_u128_bits();
        }
        *self = *self | (1u128 << (i as u128));
    }

    fn unset_bit(&mut self, i: usize) {
        proof {
            lemma_u128_bits();
        }
        *self = *self & !(1u128 << (i as u128));
    }

    fn switch_bit(&mut self, i: usize) {
        proof {
            lemma_u128_bits();
        }
        *self = *self ^ (1u128 << (i as u128));
    }

    fn or_eq(&mut self, other: u128) {
        proof {
            lemma_u128_bits();
        }
        *self = *self | other;
    }

    fn filter(&mut self, other: u128) {
        proof {
            lemma_u128_bits();
        }
        *self = *self & !other;
    }
}

} // verus!
