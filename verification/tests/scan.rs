use esp_gamepad::scan::{
    interpret_level, min_settle_micros, plan_is_settled, scan_plan, ScanStep, Topology,
    DEMUX_SETTLE_MICROS,
};

#[test]
fn demux_plan_shape() {
    // Index encoded on the two select lines (high bit first), the
    // mandatory settle, then the group's input sampled active-low.
    for group in 0u16..4 {
        for index in 0u16..4 {
            let plan = scan_plan(Topology::DemuxActiveLow, group, index);
            assert_eq!(
                plan,
                vec![
                    ScanStep::DriveSelect { line: 1, high: index >= 2 },
                    ScanStep::DriveSelect { line: 0, high: index % 2 == 1 },
                    ScanStep::Settle { micros: DEMUX_SETTLE_MICROS },
                    ScanStep::SampleInput { line: group as u8, active_low: true },
                ]
            );
        }
    }
}

#[test]
fn binary_select_plan_shape() {
    for group in 0u16..4 {
        for index in 0u16..4 {
            let plan = scan_plan(Topology::BinarySelect, group, index);
            assert_eq!(
                plan,
                vec![
                    ScanStep::DriveSelect { line: 1, high: index >= 2 },
                    ScanStep::DriveSelect { line: 0, high: index % 2 == 1 },
                    ScanStep::SampleInput { line: group as u8, active_low: false },
                ]
            );
        }
    }
}

#[test]
fn direct_strobe_plan_lowers_all_before_raising_target() {
    for group in 0u16..4 {
        for index in 0u16..4 {
            let plan = scan_plan(Topology::DirectStrobe, group, index);
            assert_eq!(
                plan,
                vec![
                    ScanStep::DriveSelect { line: 0, high: false },
                    ScanStep::DriveSelect { line: 1, high: false },
                    ScanStep::DriveSelect { line: 2, high: false },
                    ScanStep::DriveSelect { line: 3, high: false },
                    ScanStep::DriveSelect { line: group as u8, high: true },
                    ScanStep::SampleInput { line: index as u8, active_low: false },
                ]
            );
        }
    }
}

#[test]
fn demux_plan_honors_minimum_settle() {
    let min = min_settle_micros(Topology::DemuxActiveLow);
    assert!(min >= 1, "the demultiplexer requires a non-zero settling delay");
    assert_eq!(min, DEMUX_SETTLE_MICROS);
    for group in 0u16..4 {
        for index in 0u16..4 {
            let plan = scan_plan(Topology::DemuxActiveLow, group, index);
            assert!(plan_is_settled(&plan, min));
        }
    }
}

#[test]
fn demux_scan_without_settle_is_flagged() {
    // Simulate skipping or shortening the settle: the plan no longer
    // honors the required minimum and must be rejected.
    let min = min_settle_micros(Topology::DemuxActiveLow);
    let zero_delay = vec![
        ScanStep::DriveSelect { line: 1, high: false },
        ScanStep::DriveSelect { line: 0, high: true },
        ScanStep::Settle { micros: 0 },
        ScanStep::SampleInput { line: 2, active_low: true },
    ];
    assert!(!plan_is_settled(&zero_delay, min));
    let no_delay_step = vec![
        ScanStep::DriveSelect { line: 1, high: false },
        ScanStep::DriveSelect { line: 0, high: true },
        ScanStep::SampleInput { line: 2, active_low: true },
    ];
    assert!(!plan_is_settled(&no_delay_step, min));
    let short_delay = vec![
        ScanStep::DriveSelect { line: 1, high: true },
        ScanStep::Settle { micros: min - 1 },
        ScanStep::SampleInput { line: 0, active_low: true },
    ];
    assert!(!plan_is_settled(&short_delay, min));
}

#[test]
fn settle_accumulates_across_steps() {
    // Two short settles that together reach the minimum count as settled.
    let split = vec![
        ScanStep::DriveSelect { line: 0, high: true },
        ScanStep::Settle { micros: 1 },
        ScanStep::Settle { micros: 1 },
        ScanStep::SampleInput { line: 0, active_low: true },
    ];
    assert!(plan_is_settled(&split, 2));
    // A select change after the settle spoils it.
    let respoiled = vec![
        ScanStep::Settle { micros: 5 },
        ScanStep::DriveSelect { line: 0, high: true },
        ScanStep::SampleInput { line: 0, active_low: true },
    ];
    assert!(!plan_is_settled(&respoiled, 2));
    // A sample with no select change before it needs no settle.
    let untouched = vec![ScanStep::SampleInput { line: 0, active_low: true }];
    assert!(plan_is_settled(&untouched, 2));
}

#[test]
fn other_topologies_need_no_settle() {
    assert_eq!(min_settle_micros(Topology::DirectStrobe), 0);
    assert_eq!(min_settle_micros(Topology::BinarySelect), 0);
    for group in 0u16..4 {
        let plan = scan_plan(Topology::BinarySelect, group, 3);
        assert!(plan_is_settled(&plan, 0));
        let plan = scan_plan(Topology::DirectStrobe, group, 0);
        assert!(plan_is_settled(&plan, 0));
    }
}

#[test]
fn active_polarity_interpretation() {
    // Active-low (demultiplexed): pressed reads as a low level.
    assert!(interpret_level(true, false));
    assert!(!interpret_level(true, true));
    // Active-high: pressed reads as a high level.
    assert!(interpret_level(false, true));
    assert!(!interpret_level(false, false));
}
