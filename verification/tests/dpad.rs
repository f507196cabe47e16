use esp_gamepad::dpad::{
    hat_code, HAT_CENTERED, HAT_E, HAT_N, HAT_NE, HAT_NW, HAT_S, HAT_SE, HAT_SW, HAT_W,
};

#[test]
fn hat_table_all_nine_rows() {
    // (up, down, left, right) -> code, per the precedence table.
    assert_eq!(hat_code(true, false, true, false), HAT_NW);
    assert_eq!(hat_code(true, false, false, true), HAT_NE);
    assert_eq!(hat_code(true, false, false, false), HAT_N);
    assert_eq!(hat_code(false, true, true, false), HAT_SW);
    assert_eq!(hat_code(false, true, false, true), HAT_SE);
    assert_eq!(hat_code(false, true, false, false), HAT_S);
    assert_eq!(hat_code(false, false, true, false), HAT_W);
    assert_eq!(hat_code(false, false, false, true), HAT_E);
    assert_eq!(hat_code(false, false, false, false), HAT_CENTERED);
}

#[test]
fn hat_up_rows_ignore_down() {
    // The table's up rows hold for either value of down: up dominates.
    assert_eq!(hat_code(true, true, true, false), HAT_NW);
    assert_eq!(hat_code(true, true, false, true), HAT_NE);
    assert_eq!(hat_code(true, true, false, false), HAT_N);
}

#[test]
fn left_and_right_together_fall_back_to_vertical() {
    // With both horizontal cells asserted the horizontal axis reads as
    // neither: the vertical axis alone decides.
    assert_eq!(hat_code(false, false, true, true), HAT_CENTERED);
    assert_eq!(hat_code(true, false, true, true), HAT_N);
    assert_eq!(hat_code(false, true, true, true), HAT_S);
}

#[test]
fn hat_is_deterministic() {
    // Same input, same output, every call.
    for _ in 0..3 {
        assert_eq!(hat_code(true, true, false, false), HAT_N);
        assert_eq!(hat_code(false, false, true, true), HAT_CENTERED);
    }
}

#[test]
fn hat_codes_stay_in_range() {
    for bits in 0u8..16 {
        let up = bits & 1 != 0;
        let down = bits & 2 != 0;
        let left = bits & 4 != 0;
        let right = bits & 8 != 0;
        assert!(hat_code(up, down, left, right) <= 8);
    }
}
