//! Digital input scanner: three wiring topologies behind one logical
//! address space of (group, index) cells, each coordinate in `0..=3`.
//!
//! The scanner decides, for each cell, the exact sequence of electrical
//! steps a read takes — which select lines to drive in which order, how
//! long to let an external demultiplexer settle, which input line to
//! sample and at which active level — as a plan of [`ScanStep`]s. The
//! surrounding program performs the steps in order and hands the sampled
//! level back to [`interpret_level`].

use vstd::prelude::*;

verus! {

/// Settling delay, in microseconds, that must elapse after the select
/// lines change before an input is sampled through the external
/// demultiplexer.
pub const DEMUX_SETTLE_MICROS: u32 = 2;

/// The wiring topology, fixed when the device is constructed.
#[derive(Clone, Copy, PartialEq, Eq, Structural, Debug)]
pub enum Topology {
    /// Four dedicated select outputs, one per group; exactly one is
    /// driven high at a time, and one of four inputs (one per index) is
    /// sampled active-high.
    DirectStrobe,
    /// Two select outputs encode the index as a 2-bit pattern; four
    /// inputs (one per group) are sampled active-high.
    BinarySelect,
    /// Two select outputs encode the index as a 2-bit pattern driving an
    /// external demultiplexer; after a mandatory settling delay, four
    /// inputs (one per group) are sampled active-low.
    DemuxActiveLow,
}

/// One electrical step of a scan.
#[derive(Clone, Copy, PartialEq, Eq, Structural, Debug)]
pub enum ScanStep {
    /// Drive select output `line` high or low.
    DriveSelect { line: u8, high: bool },
    /// Wait `micros` microseconds for the select lines to settle.
    Settle { micros: u32 },
    /// Sample input `line`; the cell is pressed when the level matches
    /// the active polarity.
    SampleInput { line: u8, active_low: bool },
}

/// The demultiplexed plan for cell `(group, index)` with a given settling
/// delay: encode the index on the two select lines (high bit first, as
/// the hardware is wired), settle, then sample the group's input
/// active-low.
pub open spec fn spec_demux_plan(group: u16, index: u16, settle_micros: u32) -> Seq<ScanStep> {
    seq![
        ScanStep::DriveSelect { line: 1, high: index >= 2 },
        ScanStep::DriveSelect { line: 0, high: index % 2 == 1 },
        ScanStep::Settle { micros: settle_micros },
        ScanStep::SampleInput { line: group as u8, active_low: true },
    ]
}

/// The plan that reads cell `(group, index)` under a topology.
pub open spec fn spec_scan_plan(t: Topology, group: u16, index: u16) -> Seq<ScanStep> {
    match t {
        Topology::DirectStrobe => seq![
            ScanStep::DriveSelect { line: 0, high: false },
            ScanStep::DriveSelect { line: 1, high: false },
            ScanStep::DriveSelect { line: 2, high: false },
            ScanStep::DriveSelect { line: 3, high: false },
            ScanStep::DriveSelect { line: group as u8, high: true },
            ScanStep::SampleInput { line: index as u8, active_low: false },
        ],
        Topology::BinarySelect => seq![
            ScanStep::DriveSelect { line: 1, high: index >= 2 },
            ScanStep::DriveSelect { line: 0, high: index % 2 == 1 },
            ScanStep::SampleInput { line: group as u8, active_low: false },
        ],
        Topology::DemuxActiveLow => spec_demux_plan(group, index, DEMUX_SETTLE_MICROS),
    }
}

/// The settling delay a topology's plans must honor before each sample.
pub open spec fn spec_min_settle(t: Topology) -> u32 {
    match t {
        Topology::DemuxActiveLow => DEMUX_SETTLE_MICROS,
        _ => 0,
    }
}

/// Whether every sample in the plan happens at least `min` microseconds
/// of settling after the most recent select-line change. `credit` is the
/// settling already accumulated since that change (taken as ample before
/// any change has happened).
pub open spec fn spec_settled_from(plan: Seq<ScanStep>, credit: nat, min: nat) -> bool
    decreases plan.len(),
{
    if plan.len() == 0 {
        true
    } else {
        match plan[0] {
            ScanStep::DriveSelect { .. } => spec_settled_from(plan.drop_first(), 0, min),
            ScanStep::Settle { micros } => spec_settled_from(
                plan.drop_first(),
                credit + micros as nat,
                min,
            ),
            ScanStep::SampleInput { .. } => credit >= min && spec_settled_from(
                plan.drop_first(),
                credit,
                min,
            ),
        }
    }
}

/// Whether every sample in the plan is preceded by at least `min`
/// microseconds of settling since the last select-line change.
pub open spec fn spec_settled(plan: Seq<ScanStep>, min: nat) -> bool {
    spec_settled_from(plan, min, min)
}

/// The select-line `line`'s level after the plan has run, starting from
/// level `init`.
pub open spec fn spec_line_after(plan: Seq<ScanStep>, line: u8, init: bool) -> bool
    decreases plan.len(),
{
    if plan.len() == 0 {
        init
    } else {
        let next = match plan[0] {
            ScanStep::DriveSelect { line: l, high } => if l == line {
                high
            } else {
                init
            },
            _ => init,
        };
        spec_line_after(plan.drop_first(), line, next)
    }
}

/// Build the plan that reads cell `(group, index)` under topology `t`.
pub fn scan_plan(t: Topology, group: u16, index: u16) -> (plan: Vec<ScanStep>)
    requires
        group < 4,
        index < 4,
    ensures
        plan@ == spec_scan_plan(t, group, index),
{
    let mut plan: Vec<ScanStep> = Vec::new();
    match t {
        Topology::DirectStrobe => {
            plan.push(ScanStep::DriveSelect { line: 0, high: false });
            plan.push(ScanStep::DriveSelect { line: 1, high: false });
            plan.push(ScanStep::DriveSelect { line: 2, high: false });
            plan.push(ScanStep::DriveSelect { line: 3, high: false });
            plan.push(ScanStep::DriveSelect { line: group as u8, high: true });
            plan.push(ScanStep::SampleInput { line: index as u8, active_low: false });
        },
        Topology::BinarySelect => {
            plan.push(ScanStep::DriveSelect { line: 1, high: index >= 2 });
            plan.push(ScanStep::DriveSelect { line: 0, high: index % 2 == 1 });
            plan.push(ScanStep::SampleInput { line: group as u8, active_low: false });
        },
        Topology::DemuxActiveLow => {
            plan.push(ScanStep::DriveSelect { line: 1, high: index >= 2 });
            plan.push(ScanStep::DriveSelect { line: 0, high: index % 2 == 1 });
            plan.push(ScanStep::Settle { micros: DEMUX_SETTLE_MICROS });
            plan.push(ScanStep::SampleInput { line: group as u8, active_low: true });
        },
    }
    proof {
        assert(plan@ =~= spec_scan_plan(t, group, index));
    }
    plan
}

/// Turn a sampled level into the cell's pressed state: pressed is a high
/// level on an active-high input and a low level on an active-low one.
pub open spec fn spec_pressed(active_low: bool, level_high: bool) -> bool {
    active_low != level_high
}

/// Interpret a sampled input level under the plan's active polarity.
pub fn interpret_level(active_low: bool, level_high: bool) -> (pressed: bool)
    ensures
        pressed == spec_pressed(active_low, level_high),
{
    active_low != level_high
}

/// The settling delay a topology's plans must honor before each sample.
pub fn min_settle_micros(t: Topology) -> (m: u32)
    ensures
        m == spec_min_settle(t),
{
    match t {
        Topology::DemuxActiveLow => DEMUX_SETTLE_MICROS,
        _ => 0,
    }
}

/// Check that every sample in the plan happens at least `min_micros`
/// of settling after the most recent select-line change.
pub fn plan_is_settled(plan: &Vec<ScanStep>, min_micros: u32) -> (ok: bool)
    ensures
        ok == spec_settled(plan@, min_micros as nat),
{
    let ghost min: nat = min_micros as nat;
    let ghost mut gcredit: nat = min;
    let mut credit: u64 = min_micros as u64;
    let mut ok: bool = true;
    let mut idx: usize = 0;
    proof {
        assert(plan@.skip(0) =~= plan@);
    }
    while idx < plan.len()
        invariant
            idx <= plan.len(),
            min == min_micros as nat,
            credit <= u64::MAX - u32::MAX,
            (credit >= min_micros as u64) == (gcredit >= min),
            credit < min_micros as u64 ==> credit == gcredit,
            spec_settled(plan@, min) == (ok && spec_settled_from(
                plan@.skip(idx as int),
                gcredit,
                min,
            )),
        decreases plan.len() - idx,
    {
        proof {
            assert(plan@.skip(idx as int)[0] == plan@[idx as int]);
            assert(plan@.skip(idx as int).drop_first() =~= plan@.skip(idx as int + 1));
        }
        match plan[idx] {
            ScanStep::DriveSelect { .. } => {
                credit = 0;
                proof {
                    gcredit = 0;
                }
            },
            ScanStep::Settle { micros } => {
                if credit < min_micros as u64 {
                    credit = credit + micros as u64;
                }
                proof {
                    gcredit = gcredit + micros as nat;
                }
            },
            ScanStep::SampleInput { .. } => {
                if credit < min_micros as u64 {
                    ok = false;
                }
            },
        }
        idx = idx + 1;
    }
    proof {
        assert(plan@.skip(idx as int) =~= Seq::<ScanStep>::empty());
    }
    ok
}

/// The demultiplexed plan is settled exactly when its settling delay
/// reaches the required minimum: a plan whose delay falls short of
/// `min` — a zero delay in particular — fails the settling requirement,
/// and one that honors it passes.
pub proof fn lemma_demux_plan_settled_iff(group: u16, index: u16, settle: u32, min: u32)
    ensures
        spec_settled(spec_demux_plan(group, index, settle), min as nat) == (settle >= min),
{
    let m: nat = min as nat;
    let p = spec_demux_plan(group, index, settle);
    let p1 = p.drop_first();
    let p2 = p1.drop_first();
    let p3 = p2.drop_first();
    let p4 = p3.drop_first();
    assert(p1.len() == 3 && p1[0] == p[1] && p1[1] == p[2] && p1[2] == p[3]);
    assert(p2.len() == 2 && p2[0] == p[2] && p2[1] == p[3]);
    assert(p3.len() == 1 && p3[0] == p[3]);
    assert(p4.len() == 0);
    assert(spec_settled_from(p, m, m) == spec_settled_from(p1, 0, m));
    assert(spec_settled_from(p1, 0, m) == spec_settled_from(p2, 0, m));
    assert(spec_settled_from(p2, 0, m) == spec_settled_from(p3, 0 + settle as nat, m));
    assert(spec_settled_from(p3, settle as nat, m) == (settle as nat >= m && spec_settled_from(
        p4,
        settle as nat,
        m,
    )));
    assert(spec_settled_from(p4, settle as nat, m));
}

/// Every plan the scanner builds honors its topology's settling
/// requirement; in the demultiplexed topology that means the full
/// mandatory delay before the sample.
pub proof fn lemma_scan_plan_settled(t: Topology, group: u16, index: u16)
    ensures
        spec_settled(spec_scan_plan(t, group, index), spec_min_settle(t) as nat),
{
    let p = spec_scan_plan(t, group, index);
    match t {
        Topology::DirectStrobe => {
            lemma_settled_no_min(p, spec_min_settle(t) as nat);
        },
        Topology::BinarySelect => {
            lemma_settled_no_min(p, spec_min_settle(t) as nat);
        },
        Topology::DemuxActiveLow => {
            lemma_demux_plan_settled_iff(group, index, DEMUX_SETTLE_MICROS, DEMUX_SETTLE_MICROS);
        },
    }
}

/// With no settling requirement, every plan is settled.
proof fn lemma_settled_from_no_min(plan: Seq<ScanStep>, credit: nat)
    ensures
        spec_settled_from(plan, credit, 0),
    decreases plan.len(),
{
    if plan.len() != 0 {
        match plan[0] {
            ScanStep::DriveSelect { .. } => {
                lemma_settled_from_no_min(plan.drop_first(), 0);
            },
            ScanStep::Settle { micros } => {
                lemma_settled_from_no_min(plan.drop_first(), credit + micros as nat);
            },
            ScanStep::SampleInput { .. } => {
                lemma_settled_from_no_min(plan.drop_first(), credit);
            },
        }
    }
}

/// With no settling requirement, every plan is settled.
proof fn lemma_settled_no_min(plan: Seq<ScanStep>, min: nat)
    requires
        min == 0,
    ensures
        spec_settled(plan, min),
{
    lemma_settled_from_no_min(plan, min);
}

/// After a direct-strobe plan has run, whatever levels the four select
/// lines started at, exactly the target group's select line is high:
/// the plan first forces all four low, then raises the target, so no two
/// groups are left active together.
pub proof fn lemma_direct_strobe_exclusive(group: u16, index: u16, line: u8, init: bool)
    requires
        group < 4,
        index < 4,
        line < 4,
    ensures
        spec_line_after(spec_scan_plan(Topology::DirectStrobe, group, index), line, init) == (line
            == group as u8),
{
    let p = spec_scan_plan(Topology::DirectStrobe, group, index);
    let p1 = p.drop_first();
    let p2 = p1.drop_first();
    let p3 = p2.drop_first();
    let p4 = p3.drop_first();
    let p5 = p4.drop_first();
    let p6 = p5.drop_first();
    assert(p1.len() == 5 && p1[0] == p[1] && p1[1] == p[2] && p1[2] == p[3] && p1[3] == p[4]
        && p1[4] == p[5]);
    assert(p2.len() == 4 && p2[0] == p[2] && p2[1] == p[3] && p2[2] == p[4] && p2[3] == p[5]);
    assert(p3.len() == 3 && p3[0] == p[3] && p3[1] == p[4] && p3[2] == p[5]);
    assert(p4.len() == 2 && p4[0] == p[4] && p4[1] == p[5]);
    assert(p5.len() == 1 && p5[0] == p[5]);
    assert(p6.len() == 0);
    let low0 = if line == 0 {
        false
    } else {
        init
    };
    let low1 = if line == 1 {
        false
    } else {
        low0
    };
    let low2 = if line == 2 {
        false
    } else {
        low1
    };
    let low3 = if line == 3 {
        false
    } else {
        low2
    };
    assert(spec_line_after(p, line, init) == spec_line_after(p1, line, low0));
    assert(spec_line_after(p1, line, low0) == spec_line_after(p2, line, low1));
    assert(spec_line_after(p2, line, low1) == spec_line_after(p3, line, low2));
    assert(spec_line_after(p3, line, low2) == spec_line_after(p4, line, low3));
    assert(!low3);
    assert(spec_line_after(p4, line, low3) == spec_line_after(
        p5,
        line,
        (line == group as u8),
    ));
    assert(spec_line_after(p5, line, (line == group as u8)) == spec_line_after(
        p6,
        line,
        (line == group as u8),
    ));
}

} // verus!
