//! The fixed-layout binary report and its assembly.
//!
//! Field order matches the report descriptor the host parses: the four
//! 16-bit axes x, y, rx, ry, then one 16-bit button field holding the 12
//! discrete button bits (cell `(group, index)` of the matrix at bit
//! `group * 4 + index`, groups `0..=2`) with the 4-bit hat-switch code in
//! the high nibble. Every field is little-endian in the encoded bytes.

use vstd::prelude::*;
use crate::buttons::{ButtonMatrix, word_bit, DPAD_GROUP, DPAD_UP, DPAD_RIGHT, DPAD_DOWN, DPAD_LEFT};
use crate::dpad::spec_hat_code;
use crate::dpad::hat_code;

verus! {

/// Initial resting magnitude written to every axis at construction,
/// roughly the stick's midpoint in the declared 0..=2450 logical range.
pub const AXIS_REST: u16 = 1680;

/// One poll's calibrated magnitudes of the four analog channels, in
/// declared order.
pub struct AxisSample {
    pub x: u16,
    pub y: u16,
    pub rx: u16,
    pub ry: u16,
}

/// The fixed-layout report: four axes in declared order, then the packed
/// button field.
pub struct Report {
    pub x: u16,
    pub y: u16,
    pub rx: u16,
    pub ry: u16,
    pub buttons: u16,
}

/// The packed button field: the low 12 bits of the matrix word (the 12
/// discrete buttons, cell `(group, index)` at bit `group * 4 + index`)
/// with the hat code in the high nibble.
pub open spec fn spec_buttons_field(m: ButtonMatrix, hat: u16) -> u16 {
    (m.spec_word() & 0x0fff) | (hat << 12u16)
}

/// The hat code derived from the matrix's reserved directional group.
pub open spec fn spec_hat_of_matrix(m: ButtonMatrix) -> u16 {
    spec_hat_code(
        m.spec_cell(DPAD_GROUP, DPAD_UP),
        m.spec_cell(DPAD_GROUP, DPAD_DOWN),
        m.spec_cell(DPAD_GROUP, DPAD_LEFT),
        m.spec_cell(DPAD_GROUP, DPAD_RIGHT),
    )
}

/// The report assembled from one poll's axis sample and button matrix.
pub open spec fn spec_assemble(axes: AxisSample, m: ButtonMatrix) -> Report {
    Report {
        x: axes.x,
        y: axes.y,
        rx: axes.rx,
        ry: axes.ry,
        buttons: spec_buttons_field(m, spec_hat_of_matrix(m)),
    }
}

/// The low byte of a 16-bit field's little-endian encoding.
pub open spec fn spec_lo(w: u16) -> u8 {
    (w & 0xff) as u8
}

/// The high byte of a 16-bit field's little-endian encoding.
pub open spec fn spec_hi(w: u16) -> u8 {
    (w >> 8u16) as u8
}

/// The 16-bit field read back from its two little-endian bytes.
pub open spec fn spec_u16_of(lo: u8, hi: u8) -> u16 {
    (lo as u16) | ((hi as u16) << 8u16)
}

impl Report {
    /// The report's ten bytes in descriptor order, each field
    /// little-endian.
    pub open spec fn spec_bytes(self) -> Seq<u8> {
        seq![
            spec_lo(self.x),
            spec_hi(self.x),
            spec_lo(self.y),
            spec_hi(self.y),
            spec_lo(self.rx),
            spec_hi(self.rx),
            spec_lo(self.ry),
            spec_hi(self.ry),
            spec_lo(self.buttons),
            spec_hi(self.buttons),
        ]
    }

    /// The report as constructed, before the first poll: every axis at
    /// its resting magnitude, no button pressed, hat centered.
    pub open spec fn spec_initial() -> Report {
        Report { x: AXIS_REST, y: AXIS_REST, rx: AXIS_REST, ry: AXIS_REST, buttons: 0 }
    }

    /// A fresh report holding the resting state.
    pub fn new() -> (r: Report)
        ensures
            r == Report::spec_initial(),
    {
        Report { x: AXIS_REST, y: AXIS_REST, rx: AXIS_REST, ry: AXIS_REST, buttons: 0 }
    }

    /// Assemble this tick's report: overwrite every axis field from the
    /// sample and the whole button field from the matrix, the hat code
    /// computed from the matrix's directional group.
    pub fn assemble(axes: AxisSample, m: &ButtonMatrix) -> (r: Report)
        ensures
            r == spec_assemble(axes, *m),
    {
        let up = m.cell(DPAD_GROUP, DPAD_UP);
        let right = m.cell(DPAD_GROUP, DPAD_RIGHT);
        let down = m.cell(DPAD_GROUP, DPAD_DOWN);
        let left = m.cell(DPAD_GROUP, DPAD_LEFT);
        let hat = hat_code(up, down, left, right);
        let buttons: u16 = (m.word() & 0x0fff) | (hat << 12u16);
        Report { x: axes.x, y: axes.y, rx: axes.rx, ry: axes.ry, buttons }
    }

    /// Encode the report as its ten bytes in descriptor order.
    pub fn encode(&self) -> (bytes: Vec<u8>)
        ensures
            bytes@ == self.spec_bytes(),
    {
        let mut bytes: Vec<u8> = Vec::new();
        bytes.push((self.x & 0xff) as u8);
        bytes.push((self.x >> 8u16) as u8);
        bytes.push((self.y & 0xff) as u8);
        bytes.push((self.y >> 8u16) as u8);
        bytes.push((self.rx & 0xff) as u8);
        bytes.push((self.rx >> 8u16) as u8);
        bytes.push((self.ry & 0xff) as u8);
        bytes.push((self.ry >> 8u16) as u8);
        bytes.push((self.buttons & 0xff) as u8);
        bytes.push((self.buttons >> 8u16) as u8);
        proof {
            assert(bytes@ =~= self.spec_bytes());
        }
        bytes
    }
}

/// A 16-bit field survives the trip through its two little-endian bytes.
proof fn lemma_u16_le_round_trip(w: u16)
    by (bit_vector)
    ensures
        spec_u16_of(spec_lo(w), spec_hi(w)) == w,
{
}

/// Every field of the encoded report, read back from its two bytes per
/// the descriptor's declared 16-bit width and little-endian byte order,
/// is the field that was packed.
pub proof fn lemma_report_round_trip(r: Report)
    ensures
        spec_u16_of(r.spec_bytes()[0], r.spec_bytes()[1]) == r.x,
        spec_u16_of(r.spec_bytes()[2], r.spec_bytes()[3]) == r.y,
        spec_u16_of(r.spec_bytes()[4], r.spec_bytes()[5]) == r.rx,
        spec_u16_of(r.spec_bytes()[6], r.spec_bytes()[7]) == r.ry,
        spec_u16_of(r.spec_bytes()[8], r.spec_bytes()[9]) == r.buttons,
{
    lemma_u16_le_round_trip(r.x);
    lemma_u16_le_round_trip(r.y);
    lemma_u16_le_round_trip(r.rx);
    lemma_u16_le_round_trip(r.ry);
    lemma_u16_le_round_trip(r.buttons);
}

/// The packed button field's exact bit layout: for groups `0..=2`, bit
/// `group * 4 + index` is cell `(group, index)` of the matrix, and the
/// high nibble is the hat code.
pub proof fn lemma_buttons_field_layout(m: ButtonMatrix, hat: u16)
    requires
        hat <= 8,
    ensures
        forall|g: u16, i: u16|
            g < 3 && i < 4 ==> #[trigger] word_bit(
                spec_buttons_field(m, hat),
                (g * 4 + i) as u16,
            ) == m.spec_cell(g, i),
        spec_buttons_field(m, hat) >> 12u16 == hat,
{
    let w = m.spec_word();
    assert forall|g: u16, i: u16|
        g < 3 && i < 4 implies #[trigger] word_bit(spec_buttons_field(m, hat), (g * 4 + i) as u16)
        == m.spec_cell(g, i) by {
        let k = (g * 4 + i) as u16;
        assert(k < 12);
        assert(k < 12 ==> ((((w & 0x0fff) | (hat << 12u16)) >> k) & 1u16 == (w >> k) & 1u16))
            by (bit_vector);
    }
    assert(hat <= 8 ==> ((w & 0x0fff) | (hat << 12u16)) >> 12u16 == hat) by (bit_vector);
}

/// Toggling exactly one discrete-button cell changes exactly its own bit
/// of the packed button field: two matrices that agree on every cell but
/// `(group, index)` (a non-directional cell) pack, under any one hat
/// code, into fields that agree on every bit but `group * 4 + index`,
/// where each field holds its own matrix's cell.
pub proof fn lemma_button_bit_isolated(m1: ButtonMatrix, m2: ButtonMatrix, group: u16, index: u16, hat: u16)
    requires
        group < 3,
        index < 4,
        hat <= 8,
        forall|g: u16, i: u16|
            g < 4 && i < 4 && !(g == group && i == index) ==> #[trigger] m1.spec_cell(g, i)
                == m2.spec_cell(g, i),
    ensures
        word_bit(spec_buttons_field(m1, hat), (group * 4 + index) as u16) == m1.spec_cell(
            group,
            index,
        ),
        word_bit(spec_buttons_field(m2, hat), (group * 4 + index) as u16) == m2.spec_cell(
            group,
            index,
        ),
        forall|k: u16|
            k < 16 && k != group * 4 + index ==> #[trigger] word_bit(
                spec_buttons_field(m1, hat),
                k,
            ) == word_bit(spec_buttons_field(m2, hat), k),
{
    lemma_buttons_field_layout(m1, hat);
    lemma_buttons_field_layout(m2, hat);
    let w1 = m1.spec_word();
    let w2 = m2.spec_word();
    let kt = (group * 4 + index) as u16;
    assert forall|k: u16| k < 16 && k != kt implies #[trigger] word_bit(w1, k) == word_bit(
        w2,
        k,
    ) by {
        let g = k / 4;
        let i = k % 4;
        assert(g < 4 && i < 4 && g * 4 + i == k);
        assert(!(g == group && i == index));
        assert(m1.spec_cell(g, i) == m2.spec_cell(g, i));
    }
    assert forall|k: u16|
        k < 16 && k != kt implies #[trigger] word_bit(spec_buttons_field(m1, hat), k) == word_bit(
        spec_buttons_field(m2, hat),
        k,
    ) by {
        assert(word_bit(w1, k) == word_bit(w2, k));
        assert((((w1 & 0x0fff) | (hat << 12u16)) >> k) & 1u16 == (((w2 & 0x0fff) | (hat << 12u16))
            >> k) & 1u16) by (bit_vector)
            requires
                word_bit(w1, k) == word_bit(w2, k),
        ;
    }
}

/// With every cell released the assembled button field is all zero bits:
/// no discrete button set and the hat centered, whatever the axes read.
pub proof fn lemma_idle_report(axes: AxisSample, m: ButtonMatrix)
    requires
        m.spec_word() == 0,
    ensures
        spec_assemble(axes, m).buttons == 0,
        spec_assemble(axes, m).spec_bytes()[8] == 0,
        spec_assemble(axes, m).spec_bytes()[9] == 0,
{
    assert forall|g: u16, i: u16| g < 4 && i < 4 implies !m.spec_cell(g, i) by {
        let k = (g * 4 + i) as u16;
        assert((0u16 >> k) & 1u16 != 1u16) by (bit_vector);
    }
    assert(spec_hat_of_matrix(m) == 0);
    assert((0u16 & 0x0fff) | (0u16 << 12u16) == 0u16) by (bit_vector);
    assert((0u16 & 0xff) as u8 == 0 && (0u16 >> 8u16) as u8 == 0) by (bit_vector);
}

/// The hat code stands in the high nibble of the encoded report's last
/// byte, exactly as the directional cells determine it.
pub proof fn lemma_hat_in_high_nibble(axes: AxisSample, m: ButtonMatrix)
    ensures
        spec_assemble(axes, m).spec_bytes()[9] >> 4u8 == spec_hat_of_matrix(m) as u8,
{
    let hat = spec_hat_of_matrix(m);
    assert(hat <= 8);
    lemma_buttons_field_layout(m, hat);
    let w = spec_assemble(axes, m).buttons;
    assert(((w >> 8u16) as u8) >> 4u8 == hat as u8) by (bit_vector)
        requires
            w >> 12u16 == hat && hat <= 8,
    ;
}

/// The directional group never touches the 12 discrete-button bits: any
/// two matrices that agree on the cells of groups `0..=2` pack, under any
/// hat codes, into button fields that agree on bits `0..=11`.
pub proof fn lemma_dpad_leaves_buttons(m1: ButtonMatrix, m2: ButtonMatrix, hat1: u16, hat2: u16)
    requires
        hat1 <= 8,
        hat2 <= 8,
        forall|g: u16, i: u16|
            g < 3 && i < 4 ==> #[trigger] m1.spec_cell(g, i) == m2.spec_cell(g, i),
    ensures
        forall|k: u16|
            k < 12 ==> #[trigger] word_bit(spec_buttons_field(m1, hat1), k) == word_bit(
                spec_buttons_field(m2, hat2),
                k,
            ),
{
    lemma_buttons_field_layout(m1, hat1);
    lemma_buttons_field_layout(m2, hat2);
    assert forall|k: u16| k < 12 implies #[trigger] word_bit(spec_buttons_field(m1, hat1), k)
        == word_bit(spec_buttons_field(m2, hat2), k) by {
        let g = k / 4;
        let i = k % 4;
        assert(g < 3 && i < 4 && g * 4 + i == k);
        assert(m1.spec_cell(g, i) == m2.spec_cell(g, i));
        assert(word_bit(spec_buttons_field(m1, hat1), (g * 4 + i) as u16) == m1.spec_cell(g, i));
        assert(word_bit(spec_buttons_field(m2, hat2), (g * 4 + i) as u16) == m2.spec_cell(g, i));
    }
}

} // verus!
