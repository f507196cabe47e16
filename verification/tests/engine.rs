use esp_gamepad::buttons::{ButtonMatrix, DPAD_DOWN, DPAD_GROUP, DPAD_RIGHT};
use esp_gamepad::gamepad::Gamepad;
use esp_gamepad::poll::{poll_action, PollAction, IDLE_DELAY_MS};
use esp_gamepad::report::{AxisSample, Report};
use esp_gamepad::scan::{ScanStep, Topology};

#[test]
fn engine_tick_overwrites_whole_report() {
    let mut g = Gamepad::new(Topology::DemuxActiveLow);
    let mut m = ButtonMatrix::new();
    m.set_cell(0, 2, true);
    m.set_cell(DPAD_GROUP, DPAD_DOWN, true);
    m.set_cell(DPAD_GROUP, DPAD_RIGHT, true);
    let axes = AxisSample { x: 10, y: 20, rx: 30, ry: 40 };
    let bytes = g.read(AxisSample { x: axes.x, y: axes.y, rx: axes.rx, ry: axes.ry }, &m);
    let expected = Report::assemble(axes, &m).encode();
    assert_eq!(bytes, expected);
    // down + right is SE = 4; discrete bit 2 is set.
    assert_eq!(bytes[8], 0x04);
    assert_eq!(bytes[9], 0x40);

    // A second tick with different inputs leaves nothing of the first.
    let idle = ButtonMatrix::new();
    let bytes2 = g.read(AxisSample { x: 0, y: 0, rx: 0, ry: 0 }, &idle);
    assert_eq!(bytes2, vec![0, 0, 0, 0, 0, 0, 0, 0, 0, 0]);
}

#[test]
fn engine_plans_under_its_own_topology() {
    let g = Gamepad::new(Topology::BinarySelect);
    let plan = g.plan(2, 1);
    assert_eq!(
        plan,
        vec![
            ScanStep::DriveSelect { line: 1, high: false },
            ScanStep::DriveSelect { line: 0, high: true },
            ScanStep::SampleInput { line: 2, active_low: false },
        ]
    );
}

#[test]
fn poll_scans_only_while_connected() {
    assert_eq!(poll_action(0), PollAction::Idle { delay_ms: IDLE_DELAY_MS });
    assert_eq!(poll_action(1), PollAction::Scan);
    assert_eq!(poll_action(7), PollAction::Scan);
    // The decision follows the count alone: rising from 0 to 1 scans at
    // once, dropping to 0 idles until a peer returns.
    let counts = [0u32, 0, 1, 1, 0, 2];
    let expected = [false, false, true, true, false, true];
    for (c, e) in counts.iter().zip(expected.iter()) {
        assert_eq!(poll_action(*c) == PollAction::Scan, *e);
    }
}

#[test]
fn idle_delay_is_the_long_cadence() {
    assert_eq!(IDLE_DELAY_MS, 200);
}
