//! Directional-pad encoder: folds the four directional booleans into a
//! single 8-direction hat-switch code.

use vstd::prelude::*;

verus! {

/// Hat code for "no direction asserted" (centered).
pub const HAT_CENTERED: u16 = 0;

/// Hat code for north (up).
pub const HAT_N: u16 = 1;

/// Hat code for north-east (up + right).
pub const HAT_NE: u16 = 2;

/// Hat code for east (right).
pub const HAT_E: u16 = 3;

/// Hat code for south-east (down + right).
pub const HAT_SE: u16 = 4;

/// Hat code for south (down).
pub const HAT_S: u16 = 5;

/// Hat code for south-west (down + left).
pub const HAT_SW: u16 = 6;

/// Hat code for west (left).
pub const HAT_W: u16 = 7;

/// Hat code for north-west (up + left).
pub const HAT_NW: u16 = 8;

/// The hat code produced by the four directional inputs.
///
/// Diagonals take priority over cardinal directions. Up and down are
/// resolved before left and right: when up is asserted, down is never
/// consulted (up dominates, per the table's don't-care column). When
/// left and right are asserted together the horizontal axis falls back
/// to its non-diagonal reading — the code is the one for neither left
/// nor right.
pub open spec fn spec_hat_code(up: bool, down: bool, left: bool, right: bool) -> u16 {
    if up {
        if left && !right {
            HAT_NW
        } else if right && !left {
            HAT_NE
        } else {
            HAT_N
        }
    } else if down {
        if left && !right {
            HAT_SW
        } else if right && !left {
            HAT_SE
        } else {
            HAT_S
        }
    } else if left && !right {
        HAT_W
    } else if right && !left {
        HAT_E
    } else {
        HAT_CENTERED
    }
}

/// Encode the four directional inputs as one hat-switch code in `0..=8`.
pub fn hat_code(up: bool, down: bool, left: bool, right: bool) -> (code: u16)
    ensures
        code == spec_hat_code(up, down, left, right),
        code <= 8,
{
    if up {
        if left && !right {
            HAT_NW
        } else if right && !left {
            HAT_NE
        } else {
            HAT_N
        }
    } else if down {
        if left && !right {
            HAT_SW
        } else if right && !left {
            HAT_SE
        } else {
            HAT_S
        }
    } else if left && !right {
        HAT_W
    } else if right && !left {
        HAT_E
    } else {
        HAT_CENTERED
    }
}

/// The encoder's full truth table, and its rules for the ambiguous
/// both-asserted inputs.
///
/// The nine rows where at most one of each opposed pair is asserted give
/// exactly the listed codes; when up and down are asserted together the
/// result is the one for up alone, and when left and right are asserted
/// together the result is the one for neither — the horizontal axis
/// falls back to its non-diagonal reading. The encoder is a pure
/// function of its inputs, so equal inputs always give equal codes.
pub proof fn lemma_hat_table()
    ensures
        spec_hat_code(true, false, true, false) == HAT_NW,
        spec_hat_code(true, false, false, true) == HAT_NE,
        spec_hat_code(true, false, false, false) == HAT_N,
        spec_hat_code(false, true, true, false) == HAT_SW,
        spec_hat_code(false, true, false, true) == HAT_SE,
        spec_hat_code(false, true, false, false) == HAT_S,
        spec_hat_code(false, false, true, false) == HAT_W,
        spec_hat_code(false, false, false, true) == HAT_E,
        spec_hat_code(false, false, false, false) == HAT_CENTERED,
        forall|down: bool, left: bool, right: bool|
            #[trigger] spec_hat_code(true, down, left, right) == spec_hat_code(
                true,
                false,
                left,
                right,
            ),
        forall|up: bool, down: bool|
            #[trigger] spec_hat_code(up, down, true, true) == spec_hat_code(
                up,
                down,
                false,
                false,
            ),
{
}

} // verus!
