//! The gamepad engine: owns the one report that each poll tick
//! overwrites, and the wiring topology fixed at construction.

use vstd::prelude::*;
use crate::buttons::ButtonMatrix;
use crate::report::{AxisSample, Report, spec_assemble};
use crate::scan::{ScanStep, Topology, scan_plan, spec_scan_plan};

verus! {

/// The translation engine: one report, overwritten in place every tick,
/// and the scan topology chosen when the device was built.
pub struct Gamepad {
    topology: Topology,
    report: Report,
}

impl Gamepad {
    /// The topology the engine was built with.
    pub closed spec fn spec_topology(self) -> Topology {
        self.topology
    }

    /// The report as of the last tick (the resting state before the
    /// first).
    pub closed spec fn spec_report(self) -> Report {
        self.report
    }

    /// Build the engine for a wiring topology, with the report at its
    /// resting state.
    pub fn new(topology: Topology) -> (g: Gamepad)
        ensures
            g.spec_topology() == topology,
            g.spec_report() == Report::spec_initial(),
    {
        Gamepad { topology, report: Report::new() }
    }

    /// The plan that reads cell `(group, index)` under the engine's
    /// topology.
    pub fn plan(&self, group: u16, index: u16) -> (plan: Vec<ScanStep>)
        requires
            group < 4,
            index < 4,
        ensures
            plan@ == spec_scan_plan(self.spec_topology(), group, index),
    {
        scan_plan(self.topology, group, index)
    }

    /// One tick's translation: overwrite every field of the report from
    /// this tick's axis sample and button matrix — nothing of the
    /// previous tick survives — and return the report's encoded bytes
    /// for the transport.
    pub fn read(&mut self, axes: AxisSample, buttons: &ButtonMatrix) -> (bytes: Vec<u8>)
        ensures
            final(self).spec_topology() == old(self).spec_topology(),
            final(self).spec_report() == spec_assemble(axes, *buttons),
            bytes@ == spec_assemble(axes, *buttons).spec_bytes(),
    {
        self.report = Report::assemble(axes, buttons);
        self.report.encode()
    }
}

} // verus!
