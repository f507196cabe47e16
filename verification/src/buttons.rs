//! Logical button matrix: 16 addressable boolean cells, addressed by a
//! group and an index each in `0..=3`.
//!
//! The cells are held packed in one 16-bit word, cell `(group, index)` at
//! bit `group * 4 + index`. One contiguous group is reserved for the four
//! directional inputs that feed the hat switch.

use vstd::prelude::*;

verus! {

/// The group whose four cells hold the directional inputs.
pub const DPAD_GROUP: u16 = 3;

/// Index of the "up" directional cell within the directional group.
pub const DPAD_UP: u16 = 0;

/// Index of the "right" directional cell within the directional group.
pub const DPAD_RIGHT: u16 = 1;

/// Index of the "down" directional cell within the directional group.
pub const DPAD_DOWN: u16 = 2;

/// Index of the "left" directional cell within the directional group.
pub const DPAD_LEFT: u16 = 3;

/// Whether bit `k` of `w` is set.
pub open spec fn word_bit(w: u16, k: u16) -> bool {
    (w >> k) & 1u16 == 1u16
}

/// 16 boolean cells addressed by (group, index), each in `0..=3`, packed
/// into one word with cell `(group, index)` at bit `group * 4 + index`.
pub struct ButtonMatrix {
    bits: u16,
}

impl ButtonMatrix {
    /// The packed word holding all 16 cells.
    pub closed spec fn spec_word(self) -> u16 {
        self.bits
    }

    /// Whether cell `(group, index)` is pressed.
    pub open spec fn spec_cell(self, group: u16, index: u16) -> bool {
        word_bit(self.spec_word(), (group * 4 + index) as u16)
    }

    /// A matrix with every cell released.
    pub fn new() -> (m: ButtonMatrix)
        ensures
            m.spec_word() == 0,
            forall|g: u16, i: u16| g < 4 && i < 4 ==> !m.spec_cell(g, i),
    {
        let m = ButtonMatrix { bits: 0 };
        proof {
            assert forall|g: u16, i: u16| g < 4 && i < 4 implies !m.spec_cell(g, i) by {
                let k = (g * 4 + i) as u16;
                assert((0u16 >> k) & 1u16 != 1u16) by (bit_vector);
            }
        }
        m
    }

    /// The packed word holding all 16 cells, cell `(group, index)` at bit
    /// `group * 4 + index`.
    pub fn word(&self) -> (w: u16)
        ensures
            w == self.spec_word(),
    {
        self.bits
    }

    /// Whether cell `(group, index)` is pressed.
    pub fn cell(&self, group: u16, index: u16) -> (pressed: bool)
        requires
            group < 4,
            index < 4,
        ensures
            pressed == self.spec_cell(group, index),
    {
        let k: u16 = group * 4 + index;
        (self.bits >> k) & 1 == 1
    }

    /// Set cell `(group, index)` to `pressed`, leaving every other cell as
    /// it was.
    pub fn set_cell(&mut self, group: u16, index: u16, pressed: bool)
        requires
            group < 4,
            index < 4,
        ensures
            final(self).spec_cell(group, index) == pressed,
            forall|g: u16, i: u16|
                g < 4 && i < 4 && !(g == group && i == index) ==> #[trigger] final(self).spec_cell(
                    g,
                    i,
                ) == old(self).spec_cell(g, i),
            forall|k: u16|
                k < 16 && k != group * 4 + index ==> #[trigger] word_bit(
                    final(self).spec_word(),
                    k,
                ) == word_bit(old(self).spec_word(), k),
    {
        let k: u16 = group * 4 + index;
        if pressed {
            self.bits = self.bits | (1u16 << k);
            proof {
                lemma_word_bit_set(old(self).bits, k);
            }
        } else {
            self.bits = self.bits & !(1u16 << k);
            proof {
                lemma_word_bit_clear(old(self).bits, k);
            }
        }
        proof {
            assert forall|g: u16, i: u16|
                g < 4 && i < 4 && !(g == group && i == index) implies #[trigger] self.spec_cell(
                g,
                i,
            ) == old(self).spec_cell(g, i) by {
                let j = (g * 4 + i) as u16;
                assert(j != k && j < 16) by {
                    assert(g * 4 + i < 16);
                    assert(g * 4 + i == group * 4 + index ==> g == group && i == index) by (
                    nonlinear_arith)
                        requires
                            g < 4 && i < 4 && group < 4 && index < 4,
                    ;
                }
            }
        }
    }
}

/// Setting bit `k` by or-ing in `1 << k` sets that bit and leaves every
/// other bit as it was.
proof fn lemma_word_bit_set(w: u16, k: u16)
    by (bit_vector)
    requires
        k < 16,
    ensures
        word_bit(w | (1u16 << k), k),
        forall|j: u16| j < 16 && j != k ==> #[trigger] word_bit(w | (1u16 << k), j) == word_bit(
            w,
            j,
        ),
{
}

/// Clearing bit `k` by and-ing with the complement of `1 << k` clears
/// that bit and leaves every other bit as it was.
proof fn lemma_word_bit_clear(w: u16, k: u16)
    by (bit_vector)
    requires
        k < 16,
    ensures
        !word_bit(w & !(1u16 << k), k),
        forall|j: u16| j < 16 && j != k ==> #[trigger] word_bit(w & !(1u16 << k), j) == word_bit(
            w,
            j,
        ),
{
}

} // verus!
