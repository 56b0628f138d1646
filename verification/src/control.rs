use vstd::prelude::*;

verus! {

use crate::mode::{Mode, toggled_n};
use crate::output::{
    FanPower, IndicatorFrame, fan_power_for, frame_for, spec_fan_power_for, spec_frame_for,
};

/// Length in bytes of one raw telemetry frame drained from each serial
/// peripheral. The frames carry no semantics yet: they are read whole and
/// discarded by the listener tasks outside this crate.
pub const TELEMETRY_FRAME_LEN: usize = 3;

/// The mode the level-polled loop carries after sampling the button: an
/// asserted input flips the mode on every tick it is seen — holding the
/// button down toggles the mode back and forth once per tick, by design.
pub open spec fn spec_mode_after_input(m: Mode, input_asserted: bool) -> Mode {
    if input_asserted {
        m.spec_toggled()
    } else {
        m
    }
}

/// Which port operations failed while the loop carried out one tick. Every
/// one of these is non-fatal: the loop logs it and goes on.
#[derive(Clone, Copy, PartialEq, Eq, Structural, Debug)]
pub struct TickFaults {
    pub fan_power_write_failed: bool,
    pub rpm_read_failed: bool,
    pub internal_temp_read_failed: bool,
    pub external_temp_read_failed: bool,
}

impl TickFaults {
    /// A tick in which every port operation succeeded.
    pub fn none() -> (r: TickFaults)
        ensures
            !r.fan_power_write_failed,
            !r.rpm_read_failed,
            !r.internal_temp_read_failed,
            !r.external_temp_read_failed,
    {
        TickFaults {
            fan_power_write_failed: false,
            rpm_read_failed: false,
            internal_temp_read_failed: false,
            external_temp_read_failed: false,
        }
    }
}

/// The decisions of one tick, made before any port is touched: the mode the
/// tick runs in (and carries into the next tick) and the two commands
/// derived purely from it.
#[derive(Clone, Copy, PartialEq, Eq, Structural, Debug)]
pub struct TickPlan {
    /// The mode after the button sample; also the mode tick T+1 starts from.
    pub next_mode: Mode,
    /// The duty commanded this tick.
    pub fan_power: FanPower,
    /// The frame written this tick.
    pub frame: IndicatorFrame,
}

/// Decides one tick of the level-polled control loop: flip the mode if the
/// button reads asserted, then derive both commands from the new mode. The
/// surrounding loop issues the fan-power write, the frame write and the
/// diagnostic reads in that fixed order; nothing it learns along the way
/// changes the plan.
pub fn plan_tick(m: Mode, input_asserted: bool) -> (r: TickPlan)
    ensures
        r.next_mode == spec_mode_after_input(m, input_asserted),
        r.fan_power.spec_value() == spec_fan_power_for(r.next_mode),
        r.fan_power.wf(),
        r.frame@ == spec_frame_for(r.next_mode),
{
    let next_mode = if input_asserted {
        m.toggled()
    } else {
        m
    };
    TickPlan { next_mode, fan_power: fan_power_for(next_mode), frame: frame_for(next_mode) }
}

/// Everything one tick observably does, in the loop's fixed order: the
/// commands it issues, the fault tags it logs, and the mode it carries into
/// the next tick.
#[derive(Clone, Copy, PartialEq, Eq, Structural, Debug)]
pub struct TickTrace {
    /// The fan-power write is issued to the sensor port.
    pub fan_write_issued: bool,
    /// The frame write is issued to the actuator port.
    pub frame_write_issued: bool,
    /// The three diagnostic reads are issued to the sensor port.
    pub diagnostics_issued: bool,
    /// The duty commanded this tick.
    pub fan_power: FanPower,
    /// The frame written this tick.
    pub frame: IndicatorFrame,
    /// The mode tick T+1 starts from.
    pub next_mode: Mode,
    /// The fault tags written to the diagnostic log this tick.
    pub logged_faults: TickFaults,
}

/// One whole tick of the level-polled control loop, against whatever faults
/// the ports produced.
///
/// The postcondition confines `faults` to the diagnostic log: every command
/// and the carried mode are functions of the mode and the button sample
/// alone, the frame write and the diagnostics are issued whatever failed
/// before them, and tick T+1 starts on schedule from `next_mode`. A single
/// sensor-port read or write failure in tick T can therefore prevent
/// neither the rest of tick T nor any part of tick T+1.
pub fn run_tick(m: Mode, input_asserted: bool, faults: TickFaults) -> (t: TickTrace)
    ensures
        t.fan_write_issued,
        t.frame_write_issued,
        t.diagnostics_issued,
        t.next_mode == spec_mode_after_input(m, input_asserted),
        t.fan_power.spec_value() == spec_fan_power_for(t.next_mode),
        t.fan_power.wf(),
        t.frame@ == spec_frame_for(t.next_mode),
        t.logged_faults == faults,
{
    let plan = plan_tick(m, input_asserted);
    TickTrace {
        fan_write_issued: true,
        frame_write_issued: true,
        diagnostics_issued: true,
        fan_power: plan.fan_power,
        frame: plan.frame,
        next_mode: plan.next_mode,
        logged_faults: faults,
    }
}

/// Two consecutive ticks that see no input produce identical commands: the
/// derivations are pure in the mode, so a mode applied twice in succession
/// gives the same fan power and the same frame on both ticks.
pub proof fn lemma_tick_idempotent(m: Mode)
    ensures
        spec_mode_after_input(m, false) == m,
        spec_fan_power_for(spec_mode_after_input(m, false)) == spec_fan_power_for(m),
        spec_frame_for(spec_mode_after_input(m, false)) == spec_frame_for(m),
{
}

/// The mode after the level-polled loop has run through `inputs`, one button
/// sample per tick.
pub open spec fn spec_run_level(m: Mode, inputs: Seq<bool>) -> Mode
    decreases inputs.len(),
{
    if inputs.len() == 0 {
        m
    } else {
        spec_run_level(spec_mode_after_input(m, inputs[0]), inputs.drop_first())
    }
}

/// Holding the button asserted across N consecutive ticks toggles the mode
/// N times — once per tick, not once per press. This is the specified
/// behavior of the level-polled variant, not a bug.
pub proof fn lemma_level_held_toggles_each_tick(m: Mode, inputs: Seq<bool>)
    requires
        forall|i: int| 0 <= i < inputs.len() ==> inputs[i],
    ensures
        spec_run_level(m, inputs) == toggled_n(m, inputs.len()),
    decreases inputs.len(),
{
    if inputs.len() > 0 {
        assert(inputs[0]);
        lemma_level_held_toggles_each_tick(m.spec_toggled(), inputs.drop_first());
        lemma_toggled_n_shift(m, (inputs.len() - 1) as nat);
    }
}

/// Toggling once and then n more times is the same as toggling n + 1 times.
pub proof fn lemma_toggled_n_shift(m: Mode, n: nat)
    ensures
        toggled_n(m.spec_toggled(), n) == toggled_n(m, n + 1),
    decreases n,
{
    if n == 0 {
        assert(toggled_n(m, 1) == toggled_n(m, 0).spec_toggled());
    } else {
        lemma_toggled_n_shift(m, (n - 1) as nat);
        assert(toggled_n(m.spec_toggled(), n) == toggled_n(m.spec_toggled(), (n - 1) as nat).spec_toggled());
        assert(toggled_n(m, n + 1) == toggled_n(m, n).spec_toggled());
    }
}

/// Rising-edge detector for the mode button, for builds that toggle the mode
/// once per observed edge instead of once per asserted tick.
pub struct EdgeDetector {
    last_level: bool,
}

impl EdgeDetector {
    /// The level seen at the last sample.
    pub closed spec fn spec_last(self) -> bool {
        self.last_level
    }

    /// Starts the detector at the line's current level, so that a line
    /// already asserted at startup does not count as an edge.
    pub fn new(initial_level: bool) -> (r: EdgeDetector)
        ensures
            r.spec_last() == initial_level,
    {
        EdgeDetector { last_level: initial_level }
    }

    /// Observes one sample: reports true exactly on a rising edge — the line
    /// was unasserted and is now asserted — however long it stays asserted
    /// afterwards.
    pub fn sample(&mut self, level: bool) -> (rising: bool)
        ensures
            rising == (!old(self).spec_last() && level),
            final(self).spec_last() == level,
    {
        let rising = !self.last_level && level;
        self.last_level = level;
        rising
    }
}

/// One observation of the edge-triggered toggler task: the mode flips
/// exactly when a rising edge is seen, and is left alone otherwise.
pub fn toggle_on_edge(detector: &mut EdgeDetector, m: Mode, level: bool) -> (r: Mode)
    ensures
        r == (if !old(detector).spec_last() && level {
            m.spec_toggled()
        } else {
            m
        }),
        final(detector).spec_last() == level,
{
    let rising = detector.sample(level);
    if rising {
        m.toggled()
    } else {
        m
    }
}

/// How many rising edges `levels` holds, when the line stood at `last`
/// before the first sample.
pub open spec fn spec_rising_edges(last: bool, levels: Seq<bool>) -> nat
    decreases levels.len(),
{
    if levels.len() == 0 {
        0
    } else if !last && levels[0] {
        1 + spec_rising_edges(levels[0], levels.drop_first())
    } else {
        spec_rising_edges(levels[0], levels.drop_first())
    }
}

/// The mode after the edge-triggered toggler has watched `levels`.
pub open spec fn spec_run_edges(m: Mode, last: bool, levels: Seq<bool>) -> Mode
    decreases levels.len(),
{
    if levels.len() == 0 {
        m
    } else {
        let next = if !last && levels[0] {
            m.spec_toggled()
        } else {
            m
        };
        spec_run_edges(next, levels[0], levels.drop_first())
    }
}

/// The edge-triggered variant toggles the mode exactly once per observed
/// rising edge, regardless of how long the input remains asserted after
/// each edge.
pub proof fn lemma_edge_toggles_once_per_edge(m: Mode, last: bool, levels: Seq<bool>)
    ensures
        spec_run_edges(m, last, levels) == toggled_n(m, spec_rising_edges(last, levels)),
    decreases levels.len(),
{
    if levels.len() > 0 {
        if !last && levels[0] {
            lemma_edge_toggles_once_per_edge(m.spec_toggled(), levels[0], levels.drop_first());
            lemma_toggled_n_shift(m, spec_rising_edges(levels[0], levels.drop_first()));
        } else {
            lemma_edge_toggles_once_per_edge(m, levels[0], levels.drop_first());
        }
    }
}

} // verus!
