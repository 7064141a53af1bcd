//! Coordination of N bits on one shared stepper shaft.
//!
//! Once per control cycle the coordinator feeds each bit its fresh sensor
//! sample, gathers the per-bit "still moving" decisions into clutch-enable
//! outputs, and — only in a cycle where every bit reported settled —
//! advances to the next row of the cyclic message sequence and re-targets
//! every bit with its column symbol. The physical side of the cycle (the
//! single shared step pulse, the clutch lines, the delays) is carried out by
//! the caller from the returned outcome; the pulse is issued once per cycle
//! no matter how many bits are engaged.

use vstd::prelude::*;

use crate::split_flap_bit_state::SplitFlapBitState;

verus! {

/// What one control cycle decided: one clutch-enable flag per bit (true
/// means the bit still needs the upcoming shared step pulse), and whether
/// the whole assembly was settled, so that the message advanced.
pub struct CycleOutcome {
    pub clutch_enables: Vec<bool>,
    pub advanced: bool,
}

/// The shared-shaft coordinator: the bits it drives, the cyclic message
/// sequence (one fixed-width row of symbol bytes per display text, one
/// column per bit), and the row currently on display.
pub struct ShaftCoordinator {
    pub bits: Vec<SplitFlapBitState>,
    pub message_rows: Vec<Vec<u8>>,
    pub row_index: usize,
}

impl ShaftCoordinator {
    /// Well-formedness: at least one row, a current row inside the
    /// sequence, every row as wide as the display, every bit well formed.
    pub open spec fn wf(self) -> bool {
        &&& self.message_rows.len() > 0
        &&& self.row_index < self.message_rows.len()
        &&& forall|i: int|
            0 <= i < self.message_rows.len() ==> #[trigger] self.message_rows[i].len()
                == self.bits.len()
        &&& forall|i: int| 0 <= i < self.bits.len() ==> (#[trigger] self.bits[i]).wf()
    }

    /// Whether a cycle that fed `sensor_values` to `bits` ends with every
    /// bit reporting that no step is needed.
    pub open spec fn all_settled_spec(bits: Seq<SplitFlapBitState>, sensor_values: Seq<u32>) -> bool {
        forall|i: int| 0 <= i < bits.len() ==> !(#[trigger] bits[i]).needs_step_spec(sensor_values[i])
    }

    /// A coordinator showing the first row, driving `bits`.
    pub fn new(bits: Vec<SplitFlapBitState>, message_rows: Vec<Vec<u8>>) -> (r: ShaftCoordinator)
        requires
            message_rows.len() > 0,
            forall|i: int|
                0 <= i < message_rows.len() ==> #[trigger] message_rows[i].len() == bits.len(),
            forall|i: int| 0 <= i < bits.len() ==> (#[trigger] bits[i]).wf(),
        ensures
            r.wf(),
            r.bits == bits,
            r.message_rows == message_rows,
            r.row_index == 0,
    {
        ShaftCoordinator { bits, message_rows, row_index: 0 }
    }

    /// One control cycle. Every bit consumes its sample and decides whether
    /// it needs the upcoming shared step pulse; the decisions come back as
    /// the clutch-enable outputs, in bit order. Exactly when every bit
    /// reported settled, the message sequence advances by one row (wrapping
    /// at its end) and every bit is re-targeted with its column symbol of
    /// the new row; otherwise targets and row stay untouched. The caller
    /// issues the single shared step pulse once per cycle either way.
    pub fn process_cycle(&mut self, sensor_values: &Vec<u32>) -> (outcome: CycleOutcome)
        requires
            old(self).wf(),
            sensor_values.len() == old(self).bits.len(),
        ensures
            final(self).wf(),
            outcome.clutch_enables.len() == old(self).bits.len(),
            forall|i: int|
                0 <= i < old(self).bits.len() ==> outcome.clutch_enables[i] == (#[trigger] old(
                    self,
                ).bits[i]).needs_step_spec(sensor_values[i]),
            outcome.advanced == Self::all_settled_spec(old(self).bits@, sensor_values@),
            final(self).bits.len() == old(self).bits.len(),
            final(self).message_rows == old(self).message_rows,
            !outcome.advanced ==> final(self).row_index == old(self).row_index,
            !outcome.advanced ==> forall|i: int|
                0 <= i < old(self).bits.len() ==> final(self).bits[i] == (#[trigger] old(
                    self,
                ).bits[i]).stepped(sensor_values[i]),
            outcome.advanced ==> final(self).row_index == (old(self).row_index + 1) % (old(
                self,
            ).message_rows.len() as int),
            outcome.advanced ==> forall|i: int|
                0 <= i < old(self).bits.len() ==> final(self).bits[i] == ({
                    let moved = (#[trigger] old(self).bits[i]).stepped(sensor_values[i]);
                    SplitFlapBitState {
                        target_steps: moved.target_steps_for(
                            old(self).message_rows[final(self).row_index as int][i],
                        ),
                        ..moved
                    }
                }),
    {
        let ghost pre = *self;
        let mut clutch_enables: Vec<bool> = Vec::new();
        let mut all_idle: bool = true;
        let mut idx: usize = 0;
        while idx < self.bits.len()
            invariant
                pre == *old(self),
                pre.wf(),
                sensor_values.len() == pre.bits.len(),
                idx <= pre.bits.len(),
                self.bits.len() == pre.bits.len(),
                self.message_rows == pre.message_rows,
                self.row_index == pre.row_index,
                clutch_enables.len() == idx,
                forall|i: int|
                    0 <= i < idx ==> clutch_enables[i] == (#[trigger] pre.bits[i]).needs_step_spec(
                        sensor_values[i],
                    ),
                forall|i: int|
                    0 <= i < idx ==> self.bits[i] == (#[trigger] pre.bits[i]).stepped(
                        sensor_values[i],
                    ),
                forall|i: int| idx <= i < pre.bits.len() ==> self.bits[i] == pre.bits[i],
                forall|i: int| 0 <= i < pre.bits.len() ==> (#[trigger] self.bits[i]).wf(),
                all_idle == (forall|i: int|
                    0 <= i < idx ==> !(#[trigger] pre.bits[i]).needs_step_spec(sensor_values[i])),
            decreases pre.bits.len() - idx,
        {
            proof {
                assert(self.bits[idx as int] == pre.bits[idx as int]);
            }
            let mut bit = self.bits[idx];
            let needs_step = bit.process(sensor_values[idx]);
            proof {
                assert(needs_step == (pre.bits[idx as int]).needs_step_spec(
                    sensor_values[idx as int],
                ));
            }
            self.bits.set(idx, bit);
            clutch_enables.push(needs_step);
            if needs_step {
                all_idle = false;
            }
            idx += 1;
        }

        if all_idle {
            // The whole assembly is settled: show the next row of the
            // message, wrapping back to the first at the end.
            self.row_index = (self.row_index + 1) % self.message_rows.len();
            let mut j: usize = 0;
            while j < self.bits.len()
                invariant
                    pre == *old(self),
                    pre.wf(),
                    sensor_values.len() == pre.bits.len(),
                    j <= pre.bits.len(),
                    self.bits.len() == pre.bits.len(),
                    self.message_rows == pre.message_rows,
                    self.row_index < pre.message_rows.len(),
                    self.row_index == (pre.row_index + 1) % (pre.message_rows.len() as int),
                    forall|i: int|
                        0 <= i < j ==> self.bits[i] == ({
                            let moved = (#[trigger] pre.bits[i]).stepped(sensor_values[i]);
                            SplitFlapBitState {
                                target_steps: moved.target_steps_for(
                                    pre.message_rows[self.row_index as int][i],
                                ),
                                ..moved
                            }
                        }),
                    forall|i: int|
                        j <= i < pre.bits.len() ==> self.bits[i] == (#[trigger] pre.bits[i]).stepped(
                            sensor_values[i],
                        ),
                    forall|i: int| 0 <= i < pre.bits.len() ==> (#[trigger] self.bits[i]).wf(),
                decreases pre.bits.len() - j,
            {
                proof {
                    assert(pre.message_rows[self.row_index as int].len() == pre.bits.len());
                }
                let mut bit = self.bits[j];
                bit.set_target_character(self.message_rows[self.row_index][j]);
                self.bits.set(j, bit);
                j += 1;
            }
        }

        CycleOutcome { clutch_enables, advanced: all_idle }
    }
}

} // verus!
