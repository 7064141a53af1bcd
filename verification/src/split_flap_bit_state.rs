//! The per-bit homing and positioning state machine.
//!
//! Each display cell ("bit") owns one drum. The drum's position is tracked
//! only by counting steps since the last home-sensor trip, so every absolute
//! position is kept modulo the drum's full-revolution step count at all
//! times; this is what lets positions be compared for arrival and lets the
//! drum step indefinitely without overflow.

use vstd::arithmetic::div_mod::{lemma_mod_self_0, lemma_small_mod};
use vstd::prelude::*;

use crate::symbol_table::{position_of, symbol_position, SYMBOL_COUNT};

verus! {

/// A delta of motor steps, relative to nothing.
#[derive(Clone, Copy, PartialEq, Eq, Structural)]
pub struct Steps {
    pub steps: u32,
}

impl Steps {
    /// Scale a step delta by a symbol ordinal.
    pub fn mul(self, rhs: u32) -> (r: Steps)
        requires
            self.steps * rhs <= u32::MAX,
        ensures
            r.steps == self.steps * rhs,
    {
        Steps { steps: self.steps * rhs }
    }
}

/// An absolute drum position: steps since the home sensor trip point,
/// always kept within `[0, total)` for the drum's full-revolution step
/// count `total`.
#[derive(Clone, Copy, PartialEq, Eq, Structural)]
pub struct HomedSteps {
    pub homed_steps: u32,
}

impl HomedSteps {
    /// Advance a position by a delta, wrapping at the full revolution.
    pub fn add(self, rhs: Steps, total: Steps) -> (r: HomedSteps)
        requires
            total.steps > 0,
        ensures
            r.homed_steps == (self.homed_steps + rhs.steps) % (total.steps as int),
    {
        let sum: u64 = self.homed_steps as u64 + rhs.steps as u64;
        HomedSteps { homed_steps: (sum % (total.steps as u64)) as u32 }
    }

    /// Reduce a position modulo a revolution length.
    pub fn rem(self, rhs: Steps) -> (r: HomedSteps)
        requires
            rhs.steps > 0,
        ensures
            r.homed_steps == self.homed_steps % rhs.steps,
    {
        HomedSteps { homed_steps: self.homed_steps % rhs.steps }
    }

    /// A position given directly as a step offset from the home trip point.
    pub fn from_offset(homing_offset: u32) -> (r: HomedSteps)
        ensures
            r.homed_steps == homing_offset,
    {
        HomedSteps { homed_steps: homing_offset }
    }

    /// The position a delta ahead of a given position, without wrapping.
    pub fn from(steps: Steps, homed_steps_offset: HomedSteps) -> (r: HomedSteps)
        requires
            steps.steps + homed_steps_offset.homed_steps <= u32::MAX,
        ensures
            r.homed_steps == steps.steps + homed_steps_offset.homed_steps,
    {
        HomedSteps { homed_steps: steps.steps + homed_steps_offset.homed_steps }
    }

    /// The home trip point itself.
    pub fn empty() -> (r: HomedSteps)
        ensures
            r.homed_steps == 0,
    {
        HomedSteps { homed_steps: 0 }
    }

    /// Reset to the home trip point.
    pub fn clear(&mut self)
        ensures
            final(self).homed_steps == 0,
    {
        self.homed_steps = 0;
    }

    /// Advance by one step, wrapping at the full revolution.
    pub fn inc(&mut self, total: Steps)
        requires
            total.steps > 0,
            old(self).homed_steps < total.steps,
        ensures
            final(self).homed_steps == (old(self).homed_steps + 1) % (total.steps as int),
    {
        self.homed_steps = (self.homed_steps + 1) % total.steps;
    }
}

/// Homing state of one bit relative to its current target.
#[derive(Clone, Copy, PartialEq, Eq, Structural)]
#[allow(non_camel_case_types)]
pub enum BitState {
    /// The drum position is unknown; keep stepping until the first home trip.
    UNINITIALIZED,
    /// The target step count is known and not yet reached.
    SEEKING,
    /// The current position equals the target; no step is needed.
    SETTLED,
}

/// Dual thresholds for debouncing the analog home sensor: samples above
/// `trigger_value` trigger it, samples below `untrigger_value` release it,
/// and samples between the two leave its state unchanged.
#[derive(Clone, Copy, PartialEq, Eq, Structural)]
pub struct SensorCalibration {
    pub trigger_value: u32,
    pub untrigger_value: u32,
}

/// Debounced state of the home sensor.
#[derive(Clone, Copy, PartialEq, Eq, Structural)]
pub enum SensorState {
    Triggered,
    Untriggered,
}

/// The state machine of one display cell: its sensor calibration, homing
/// state, drum geometry, and the two modular positions it tracks.
#[derive(Clone, Copy)]
pub struct SplitFlapBitState {
    pub sensor_calibration: SensorCalibration,
    pub bit_state: BitState,
    pub steps_per_flap: Steps,
    pub offset_steps_to_first_position: HomedSteps,
    pub steps_since_home: HomedSteps,
    pub target_steps: HomedSteps,
    pub sensor_state: SensorState,
}

impl SplitFlapBitState {
    /// Steps in one full drum revolution.
    pub open spec fn total_steps(self) -> int {
        self.steps_per_flap.steps * SYMBOL_COUNT
    }

    /// Well-formedness: a usable geometry, a hysteresis dead-band that is
    /// actually a band, and both positions within one revolution.
    pub open spec fn wf(self) -> bool {
        &&& self.steps_per_flap.steps >= 1
        &&& self.total_steps() <= u32::MAX
        &&& self.sensor_calibration.trigger_value > self.sensor_calibration.untrigger_value
        &&& self.offset_steps_to_first_position.homed_steps < self.total_steps()
        &&& self.steps_since_home.homed_steps < self.total_steps()
        &&& self.target_steps.homed_steps < self.total_steps()
    }

    /// Whether `sensor_value` crosses the trigger threshold while the sensor
    /// is released: the one edge that counts as "home detected".
    pub open spec fn home_edge(self, sensor_value: u32) -> bool {
        sensor_value > self.sensor_calibration.trigger_value
            && self.sensor_state == SensorState::Untriggered
    }

    /// The state after debouncing one sensor sample. A home edge resets the
    /// step count, and on the very first homing also arms a seek to the
    /// drum's nominal rest position; any other sample only moves the sensor
    /// state (or leaves everything unchanged inside the dead-band).
    pub open spec fn sensor_stepped(self, sensor_value: u32) -> SplitFlapBitState {
        if sensor_value > self.sensor_calibration.trigger_value {
            if self.home_edge(sensor_value) {
                let homed = SplitFlapBitState {
                    sensor_state: SensorState::Triggered,
                    steps_since_home: HomedSteps { homed_steps: 0 },
                    ..self
                };
                if self.bit_state == BitState::UNINITIALIZED {
                    SplitFlapBitState {
                        target_steps: self.offset_steps_to_first_position,
                        bit_state: BitState::SEEKING,
                        ..homed
                    }
                } else {
                    homed
                }
            } else {
                self
            }
        } else if sensor_value < self.sensor_calibration.untrigger_value {
            SplitFlapBitState { sensor_state: SensorState::Untriggered, ..self }
        } else {
            self
        }
    }

    /// Whether one `process` call on `self` reports that a step is needed.
    pub open spec fn needs_step_spec(self, sensor_value: u32) -> bool {
        let s = self.sensor_stepped(sensor_value);
        s.bit_state == BitState::UNINITIALIZED || s.steps_since_home != s.target_steps
    }

    /// The state after one `process` call: debounce the sample, then either
    /// keep turning blindly (uninitialized), settle (position reached), or
    /// seek and count the upcoming step, wrapping at the full revolution.
    pub open spec fn stepped(self, sensor_value: u32) -> SplitFlapBitState {
        let s = self.sensor_stepped(sensor_value);
        if s.bit_state == BitState::UNINITIALIZED {
            s
        } else if s.steps_since_home == s.target_steps {
            SplitFlapBitState { bit_state: BitState::SETTLED, ..s }
        } else {
            SplitFlapBitState {
                bit_state: BitState::SEEKING,
                steps_since_home: HomedSteps {
                    homed_steps: ((s.steps_since_home.homed_steps + 1) % s.total_steps()) as u32,
                },
                ..s
            }
        }
    }

    /// The bit after `n` successive `process` calls, each fed the same
    /// `sensor_value`.
    pub open spec fn stepped_n(self, sensor_value: u32, n: nat) -> SplitFlapBitState
        decreases n,
    {
        if n == 0 {
            self
        } else {
            self.stepped(sensor_value).stepped_n(sensor_value, (n - 1) as nat)
        }
    }

    /// Steps the drum still has to travel forward to stand on its target.
    pub open spec fn seek_distance(self) -> int {
        if self.steps_since_home.homed_steps <= self.target_steps.homed_steps {
            self.target_steps.homed_steps - self.steps_since_home.homed_steps
        } else {
            self.target_steps.homed_steps - self.steps_since_home.homed_steps
                + self.total_steps()
        }
    }

    /// The target position encoding `target_character_code`: the home offset
    /// plus one flap's worth of steps per ordinal, modulo a revolution.
    pub open spec fn target_steps_for(self, target_character_code: u8) -> HomedSteps {
        HomedSteps {
            homed_steps: ((self.offset_steps_to_first_position.homed_steps
                + self.steps_per_flap.steps * symbol_position(target_character_code))
                % self.total_steps()) as u32,
        }
    }

    /// A fresh, unhomed bit. The home offset is reduced modulo the full
    /// revolution so that it is a valid position from the start.
    pub fn new(
        sensor_calibration: SensorCalibration,
        steps_per_flap: u32,
        offset_steps_to_first_position: u32,
    ) -> (r: SplitFlapBitState)
        requires
            steps_per_flap >= 1,
            steps_per_flap * SYMBOL_COUNT <= u32::MAX,
            sensor_calibration.trigger_value > sensor_calibration.untrigger_value,
        ensures
            r.wf(),
            r.sensor_calibration == sensor_calibration,
            r.bit_state == BitState::UNINITIALIZED,
            r.sensor_state == SensorState::Untriggered,
            r.steps_per_flap.steps == steps_per_flap,
            r.offset_steps_to_first_position.homed_steps == (offset_steps_to_first_position as int)
                % (steps_per_flap * SYMBOL_COUNT),
            r.steps_since_home.homed_steps == 0,
            r.target_steps.homed_steps == 0,
    {
        let total = Steps { steps: steps_per_flap }.mul(SYMBOL_COUNT);
        SplitFlapBitState {
            sensor_calibration,
            bit_state: BitState::UNINITIALIZED,
            steps_per_flap: Steps { steps: steps_per_flap },
            offset_steps_to_first_position: HomedSteps::from_offset(
                offset_steps_to_first_position,
            ).rem(total),
            steps_since_home: HomedSteps::empty(),
            target_steps: HomedSteps::empty(),
            sensor_state: SensorState::Untriggered,
        }
    }

    /// Homing is driven by the sensor edge inside `process`; this hook takes
    /// no part in it and leaves the state unchanged.
    #[allow(unused_variables)]
    pub fn set_homed(&mut self, is_homed: bool)
        ensures
            *final(self) == *old(self),
    {
    }

    /// Ordinal of `target_character_code` on the drum, 0 if unknown.
    pub fn lookup_target_character_position(&self, target_character_code: u8) -> (position: u32)
        ensures
            position == symbol_position(target_character_code),
            position < SYMBOL_COUNT,
    {
        position_of(target_character_code)
    }

    /// The target position for a symbol, wrapped into one revolution.
    pub fn lookup_target_character_steps(&self, target_character_code: u8) -> (r: HomedSteps)
        requires
            self.wf(),
        ensures
            r == self.target_steps_for(target_character_code),
            r.homed_steps < self.total_steps(),
    {
        let target_position = self.lookup_target_character_position(target_character_code);
        let total = self.steps_per_flap.mul(SYMBOL_COUNT);
        proof {
            assert(self.steps_per_flap.steps * target_position <= self.steps_per_flap.steps * (
            SYMBOL_COUNT as int)) by (nonlinear_arith)
                requires
                    target_position <= SYMBOL_COUNT,
                    self.steps_per_flap.steps >= 0,
            ;
        }
        let flap_offset = self.steps_per_flap.mul(target_position);
        self.offset_steps_to_first_position.add(flap_offset, total)
    }

    /// Aim the bit at a symbol. Only the target changes; the last call
    /// before the next `process` wins. Harmless before homing: the target
    /// is ignored while the bit is uninitialized.
    pub fn set_target_character(&mut self, target_character: u8)
        requires
            old(self).wf(),
        ensures
            *final(self) == (SplitFlapBitState {
                target_steps: old(self).target_steps_for(target_character),
                ..*old(self)
            }),
            final(self).wf(),
    {
        self.target_steps = self.lookup_target_character_steps(target_character);
    }

    /// Debounce one sensor sample into the bit's state, per `sensor_stepped`.
    fn process_sensor(&mut self, sensor_value: u32)
        ensures
            *final(self) == old(self).sensor_stepped(sensor_value),
    {
        if sensor_value > self.sensor_calibration.trigger_value {
            if self.sensor_state == SensorState::Untriggered {
                self.sensor_state = SensorState::Triggered;
                self.steps_since_home.clear();
                if self.bit_state == BitState::UNINITIALIZED {
                    // First homing of the bit: seek to the nominal rest
                    // position, which lies a fixed offset past the trip point.
                    self.target_steps = self.offset_steps_to_first_position;
                    self.bit_state = BitState::SEEKING;
                }
            }
        } else if sensor_value < self.sensor_calibration.untrigger_value {
            self.sensor_state = SensorState::Untriggered;
        }
    }

    /// One control-cycle update: feed the fresh sensor sample and decide
    /// whether this bit needs the upcoming shared step pulse (and so must
    /// keep its clutch engaged).
    pub fn process(&mut self, sensor_value: u32) -> (needs_step: bool)
        requires
            old(self).wf(),
        ensures
            *final(self) == old(self).stepped(sensor_value),
            needs_step == old(self).needs_step_spec(sensor_value),
            final(self).wf(),
    {
        self.process_sensor(sensor_value);

        if self.bit_state == BitState::UNINITIALIZED {
            return true;
        }

        let needs_step = !(self.steps_since_home == self.target_steps);

        if needs_step {
            self.bit_state = BitState::SEEKING;
            // The step is counted optimistically: the shared pulse is
            // unconditional for an engaged clutch.
            let total = self.steps_per_flap.mul(SYMBOL_COUNT);
            self.steps_since_home.inc(total);
        } else {
            self.bit_state = BitState::SETTLED;
        }

        needs_step
    }
}

/// Law: a sample cannot re-fire home detection while the sensor is already
/// triggered. Any sample that does not fall below the release threshold
/// leaves the debounced sensor state — and with it the step count and the
/// target — untouched by the debounce stage.
pub proof fn lemma_no_rehome_while_triggered(s: SplitFlapBitState, sensor_value: u32)
    requires
        s.sensor_state == SensorState::Triggered,
        sensor_value >= s.sensor_calibration.untrigger_value,
    ensures
        s.sensor_stepped(sensor_value) == s,
{
}

/// Law: repeated triggered samples are idempotent for homing. After the
/// Untriggered-to-Triggered edge of `first_sample` has reset the step count
/// once, a further `second_sample` still above the trigger threshold does
/// not reset it a second time: the second call applies only the ordinary
/// step progression to the state the first call left behind.
pub proof fn lemma_triggered_sample_does_not_rehome(
    s: SplitFlapBitState,
    first_sample: u32,
    second_sample: u32,
)
    requires
        s.wf(),
        s.sensor_state == SensorState::Untriggered,
        first_sample > s.sensor_calibration.trigger_value,
        second_sample > s.sensor_calibration.trigger_value,
    ensures
        s.stepped(first_sample).sensor_state == SensorState::Triggered,
        s.stepped(first_sample).sensor_stepped(second_sample) == s.stepped(first_sample),
{
}

/// One seeking step: under a sample that leaves the triggered sensor alone,
/// `stepped` keeps the machine well formed and homed, never touches the
/// target, settles exactly when the drum stands on the target, and otherwise
/// brings the drum one step closer to it.
proof fn lemma_seek_step(s: SplitFlapBitState, sensor_value: u32)
    requires
        s.wf(),
        s.bit_state != BitState::UNINITIALIZED,
        s.sensor_state == SensorState::Triggered,
        sensor_value >= s.sensor_calibration.untrigger_value,
    ensures
        s.stepped(sensor_value).wf(),
        s.stepped(sensor_value).bit_state != BitState::UNINITIALIZED,
        s.stepped(sensor_value).sensor_state == SensorState::Triggered,
        s.stepped(sensor_value).sensor_calibration == s.sensor_calibration,
        s.stepped(sensor_value).target_steps == s.target_steps,
        s.stepped(sensor_value).steps_per_flap == s.steps_per_flap,
        0 <= s.seek_distance() < s.total_steps(),
        s.seek_distance() == 0 ==> s.stepped(sensor_value).bit_state == BitState::SETTLED,
        s.seek_distance() > 0 ==> s.stepped(sensor_value).seek_distance() == s.seek_distance()
            - 1,
{
    lemma_no_rehome_while_triggered(s, sensor_value);
    let pos = s.steps_since_home.homed_steps as int;
    let total = s.total_steps();
    if s.seek_distance() > 0 {
        if pos + 1 < total {
            lemma_small_mod((pos + 1) as nat, total as nat);
        } else {
            lemma_mod_self_0(total);
        }
    }
}

/// The settling argument, by induction on the remaining distance: a homed
/// bit whose drum stands `d` steps short of its target settles after
/// exactly `d + 1` further `process` calls under a constant sample that
/// keeps the sensor triggered.
proof fn lemma_seeking_settles_after_distance(s: SplitFlapBitState, sensor_value: u32, d: int)
    requires
        s.wf(),
        s.bit_state != BitState::UNINITIALIZED,
        s.sensor_state == SensorState::Triggered,
        sensor_value >= s.sensor_calibration.untrigger_value,
        s.seek_distance() == d,
    ensures
        s.stepped_n(sensor_value, (d + 1) as nat).bit_state == BitState::SETTLED,
    decreases d,
{
    lemma_seek_step(s, sensor_value);
    if d == 0 {
        assert(s.stepped_n(sensor_value, 1) == s.stepped(sensor_value).stepped_n(
            sensor_value,
            0,
        ));
    } else {
        lemma_seeking_settles_after_distance(s.stepped(sensor_value), sensor_value, d - 1);
        assert(s.stepped_n(sensor_value, (d + 1) as nat) == s.stepped(sensor_value).stepped_n(
            sensor_value,
            d as nat,
        ));
    }
}

/// Law: every target is reached within one full revolution. From any homed
/// state, under a constant sensor reading that holds the debounced sensor
/// triggered (the drum sits past home, the sample never falls below the
/// release threshold), some run of at most `total_steps` further `process`
/// calls leaves the bit settled on its target. This liveness rests on the
/// step count wrapping modulo the revolution on every increment.
pub proof fn lemma_process_settles_within_one_revolution(s: SplitFlapBitState, sensor_value: u32)
    requires
        s.wf(),
        s.bit_state != BitState::UNINITIALIZED,
        s.sensor_state == SensorState::Triggered,
        sensor_value >= s.sensor_calibration.untrigger_value,
    ensures
        exists|n: nat|
            n <= s.total_steps() && s.stepped_n(sensor_value, n).bit_state == BitState::SETTLED,
{
    let d = s.seek_distance();
    lemma_seek_step(s, sensor_value);
    lemma_seeking_settles_after_distance(s, sensor_value, d);
    assert(s.stepped_n(sensor_value, (d + 1) as nat).bit_state == BitState::SETTLED);
}

} // verus!
