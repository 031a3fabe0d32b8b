//! The policy that turns temperature readings into fan speeds.
//!
//! The speed is raised quickly and lowered slowly: a reading has to call for a
//! change for several iterations in a row before the speed moves, and a raise
//! is a larger step than a cut. A reading counts as rising against the
//! temperature at the last change of speed, not against the reading before it.

use vstd::prelude::*;
use crate::consts::{
    FAN_LOWER_INCREMENT,
    FAN_RAISE_INCREMENT,
    FAN_SPEED_MAX,
    FAN_SPEED_MIN,
    MAX_TEMP,
    MIN_TEMP,
    REACTION_LOOPS_LOWER,
    REACTION_LOOPS_RAISE,
};

verus! {

/// How one temperature reading is judged.
#[derive(Debug, Clone, Copy, PartialEq, Eq, Structural)]
pub enum Trend {
    /// Over the maximum, or over the minimum and above the baseline.
    Raising,
    /// Anything else.
    LoweringOrSteady,
}

/// The controller's memory between two iterations of the loop.
#[derive(Debug, Clone, Copy, PartialEq, Eq, Structural)]
pub struct ControlState {
    /// The speed that was last sent to the fan, in percent.
    pub fan_speed_last: u8,
    /// The speed that the fan is to run at, in percent.
    pub fan_speed: u8,
    /// Readings judged as raising since the counters were last reset.
    pub raising_loops: u64,
    /// Readings judged as lowering or steady since the counters were last reset.
    pub lowering_or_staying_loops: u64,
    /// The temperature at the last change of speed: the baseline for "rising".
    pub temp_last: u8,
}

/// A reading is raising if it is over the maximum, or over the minimum and
/// above the baseline.
pub open spec fn is_raising(temp_last: u8, temp: u8) -> bool {
    MAX_TEMP < temp || (MIN_TEMP < temp && temp_last < temp)
}

/// The speed after a raise: one increment more, at most the maximum.
pub open spec fn raised(speed: u8) -> u8 {
    if speed + FAN_RAISE_INCREMENT <= FAN_SPEED_MAX {
        (speed + FAN_RAISE_INCREMENT) as u8
    } else {
        FAN_SPEED_MAX
    }
}

/// The speed after a cut: one increment less, at least the minimum.
pub open spec fn lowered(speed: u8) -> u8 {
    if speed - FAN_LOWER_INCREMENT >= FAN_SPEED_MIN {
        (speed - FAN_LOWER_INCREMENT) as u8
    } else {
        FAN_SPEED_MIN
    }
}

/// Judges a reading against the baseline `temp_last`.
pub fn classify(temp_last: u8, temp: u8) -> (trend: Trend)
    ensures
        trend == Trend::Raising <==> is_raising(temp_last, temp),
        trend == Trend::LoweringOrSteady <==> !is_raising(temp_last, temp),
{
    if MAX_TEMP < temp || (MIN_TEMP < temp && temp_last < temp) {
        Trend::Raising
    } else {
        Trend::LoweringOrSteady
    }
}

impl ControlState {
    /// What holds of the state between iterations: the speed is within its
    /// limits and has been sent to the fan, and neither counter is past its
    /// reaction time.
    pub open spec fn wf(self) -> bool {
        &&& FAN_SPEED_MIN <= self.fan_speed <= FAN_SPEED_MAX
        &&& self.fan_speed_last == self.fan_speed
        &&& self.raising_loops <= REACTION_LOOPS_RAISE
        &&& self.lowering_or_staying_loops <= REACTION_LOOPS_LOWER
    }

    /// Whether the reading `temp` has the state move the speed: its counter
    /// goes past the reaction time with this reading.
    pub open spec fn reacts(self, temp: u8) -> bool {
        if is_raising(self.temp_last, temp) {
            self.raising_loops + 1 > REACTION_LOOPS_RAISE
        } else {
            self.lowering_or_staying_loops + 1 > REACTION_LOOPS_LOWER
        }
    }

    /// The speed that the fan is to run at after the reading `temp`.
    pub open spec fn target(self, temp: u8) -> u8 {
        if !self.reacts(temp) {
            self.fan_speed
        } else if is_raising(self.temp_last, temp) {
            raised(self.fan_speed)
        } else {
            lowered(self.fan_speed)
        }
    }

    /// The speed to send to the fan after the reading `temp`, if it changes.
    pub open spec fn change(self, temp: u8) -> Option<u8> {
        if self.target(temp) != self.fan_speed_last {
            Some(self.target(temp))
        } else {
            None
        }
    }

    /// The state after the reading `temp`.
    pub open spec fn next(self, temp: u8) -> ControlState {
        if self.target(temp) != self.fan_speed_last {
            ControlState {
                fan_speed_last: self.target(temp),
                fan_speed: self.target(temp),
                raising_loops: 0,
                lowering_or_staying_loops: 0,
                temp_last: temp,
            }
        } else if self.reacts(temp) {
            ControlState { raising_loops: 0, lowering_or_staying_loops: 0, ..self }
        } else if is_raising(self.temp_last, temp) {
            ControlState { raising_loops: (self.raising_loops + 1) as u64, ..self }
        } else {
            ControlState {
                lowering_or_staying_loops: (self.lowering_or_staying_loops + 1) as u64,
                ..self
            }
        }
    }

    /// The state after the readings `temps`, taken in order.
    pub open spec fn run(self, temps: Seq<u8>) -> ControlState
        decreases temps.len(),
    {
        if temps.len() == 0 {
            self
        } else {
            self.run(temps.drop_last()).next(temps.last())
        }
    }

    /// The state at the start of the loop: the fan has been set to the lowest
    /// speed, and `temp` is the first temperature read.
    pub fn new(temp: u8) -> (state: ControlState)
        ensures
            state.wf(),
            state == (ControlState {
                fan_speed_last: FAN_SPEED_MIN,
                fan_speed: FAN_SPEED_MIN,
                raising_loops: 0,
                lowering_or_staying_loops: 0,
                temp_last: temp,
            }),
    {
        ControlState {
            fan_speed_last: FAN_SPEED_MIN,
            fan_speed: FAN_SPEED_MIN,
            raising_loops: 0,
            lowering_or_staying_loops: 0,
            temp_last: temp,
        }
    }

    /// Tests whether the state is one that the loop can be in between
    /// iterations.
    pub fn is_valid(&self) -> (valid: bool)
        ensures
            valid == self.wf(),
    {
        FAN_SPEED_MIN <= self.fan_speed && self.fan_speed <= FAN_SPEED_MAX && self.fan_speed_last
            == self.fan_speed && self.raising_loops <= REACTION_LOOPS_RAISE
            && self.lowering_or_staying_loops <= REACTION_LOOPS_LOWER
    }

    /// One iteration of the loop on the reading `temp`. Returns the speed to
    /// send to the fan where it changes, and `None` where it stays.
    pub fn step(&mut self, temp: u8) -> (change: Option<u8>)
        requires
            old(self).wf(),
        ensures
            *final(self) == old(self).next(temp),
            change == old(self).change(temp),
            final(self).wf(),
            FAN_SPEED_MIN <= final(self).fan_speed <= FAN_SPEED_MAX,
            change.is_some() ==> {
                &&& change == Some(final(self).fan_speed)
                &&& final(self).fan_speed != old(self).fan_speed
                &&& final(self).raising_loops == 0
                &&& final(self).lowering_or_staying_loops == 0
                &&& final(self).temp_last == temp
            },
            change.is_none() ==> {
                &&& final(self).fan_speed == old(self).fan_speed
                &&& final(self).temp_last == old(self).temp_last
            },
    {
        match classify(self.temp_last, temp) {
            Trend::Raising => {
                self.raising_loops += 1;
                if REACTION_LOOPS_RAISE < self.raising_loops {
                    let up: u8 = self.fan_speed + FAN_RAISE_INCREMENT;
                    self.fan_speed = if up < FAN_SPEED_MAX { up } else { FAN_SPEED_MAX };
                    self.lowering_or_staying_loops = 0;
                    self.raising_loops = 0;
                }
            },
            Trend::LoweringOrSteady => {
                self.lowering_or_staying_loops += 1;
                if REACTION_LOOPS_LOWER < self.lowering_or_staying_loops {
                    if FAN_LOWER_INCREMENT < self.fan_speed {
                        let down: u8 = self.fan_speed - FAN_LOWER_INCREMENT;
                        self.fan_speed = if down > FAN_SPEED_MIN { down } else { FAN_SPEED_MIN };
                    } else {
                        self.fan_speed = FAN_SPEED_MIN;
                    }
                    self.lowering_or_staying_loops = 0;
                    self.raising_loops = 0;
                }
            },
        }
        if self.fan_speed != self.fan_speed_last {
            self.lowering_or_staying_loops = 0;
            self.raising_loops = 0;
            self.fan_speed_last = self.fan_speed;
            self.temp_last = temp;
            Some(self.fan_speed)
        } else {
            None
        }
    }

    /// Runs the loop over recorded readings, in order, and returns the speed
    /// changes that it sends to the fan, one entry for each reading.
    pub fn step_over(&mut self, temps: &Vec<u8>) -> (changes: Vec<Option<u8>>)
        requires
            old(self).wf(),
        ensures
            *final(self) == old(self).run(temps@),
            final(self).wf(),
            changes@.len() == temps@.len(),
            forall|i: int|
                0 <= i < temps@.len() ==> #[trigger] changes@[i] == old(self).run(
                    temps@.take(i),
                ).change(temps@[i]),
    {
        let mut changes: Vec<Option<u8>> = Vec::new();
        let mut i: usize = 0;
        proof {
            assert(temps@.take(0) =~= Seq::<u8>::empty());
        }
        while i < temps.len()
            invariant
                i <= temps.len(),
                self.wf(),
                *self == old(self).run(temps@.take(i as int)),
                changes@.len() == i,
                forall|j: int|
                    0 <= j < i ==> #[trigger] changes@[j] == old(self).run(temps@.take(j)).change(
                        temps@[j],
                    ),
            decreases temps.len() - i,
        {
            proof {
                assert(temps@.take(i + 1).drop_last() =~= temps@.take(i as int));
                assert(temps@.take(i + 1).last() == temps@[i as int]);
            }
            let change: Option<u8> = self.step(temps[i]);
            changes.push(change);
            i += 1;
        }
        proof {
            assert(temps@.take(i as int) =~= temps@);
        }
        changes
    }
}

/// Whatever the readings, the speed stays within its limits.
pub proof fn lemma_speed_stays_in_range(state: ControlState, temps: Seq<u8>)
    requires
        state.wf(),
    ensures
        state.run(temps).wf(),
        FAN_SPEED_MIN <= state.run(temps).fan_speed <= FAN_SPEED_MAX,
    decreases temps.len(),
{
    if temps.len() > 0 {
        lemma_speed_stays_in_range(state, temps.drop_last());
    }
}

/// Whenever a reading changes the speed, both counters are zero afterwards,
/// the new speed has been sent, and the baseline is that reading.
pub proof fn lemma_change_resets(state: ControlState, temp: u8)
    requires
        state.wf(),
        state.next(temp).fan_speed != state.fan_speed,
    ensures
        state.change(temp) == Some(state.next(temp).fan_speed),
        state.next(temp).raising_loops == 0,
        state.next(temp).lowering_or_staying_loops == 0,
        state.next(temp).temp_last == temp,
        state.next(temp).fan_speed_last == state.next(temp).fan_speed,
{
}

/// Readings over the maximum raise the speed with the fifth of them and not
/// before: from a state whose raising counter is zero, the first four leave
/// the speed as it was, and the fifth adds one increment, up to the maximum.
pub proof fn lemma_raise_on_fifth_reading(state: ControlState, temps: Seq<u8>)
    requires
        state.wf(),
        state.raising_loops == 0,
        temps.len() == 5,
        forall|i: int| 0 <= i < 5 ==> #[trigger] temps[i] > MAX_TEMP,
    ensures
        forall|k: int| 0 <= k <= 4 ==> (#[trigger] state.run(temps.take(k))).fan_speed == state.fan_speed,
        state.run(temps).fan_speed == raised(state.fan_speed),
        state.fan_speed <= 95 ==> state.run(temps).fan_speed == state.fan_speed + 5,
{
    assert forall|k: int| 0 <= k <= 4 implies (#[trigger] state.run(temps.take(k))).fan_speed
        == state.fan_speed by {
        lemma_raising_counts(state, temps, k);
    }
    lemma_raising_counts(state, temps, 4);
    assert(temps.drop_last() =~= temps.take(4));
    assert(temps.last() == temps[4]);
}

proof fn lemma_raising_counts(state: ControlState, temps: Seq<u8>, k: int)
    requires
        state.wf(),
        state.raising_loops == 0,
        0 <= k <= 4,
        k <= temps.len(),
        forall|i: int| 0 <= i < k ==> #[trigger] temps[i] > MAX_TEMP,
    ensures
        state.run(temps.take(k)) == (ControlState { raising_loops: k as u64, ..state }),
    decreases k,
{
    if k > 0 {
        lemma_raising_counts(state, temps, k - 1);
        assert(temps.take(k).drop_last() =~= temps.take(k - 1));
        assert(temps.take(k).last() == temps[k - 1]);
    }
}

/// Readings that do not rise lower the speed with the ninth of them and not
/// before: from a state whose lowering counter is zero, if the first reading
/// is not judged as raising and none is above the one before it, the first
/// eight leave the speed as it was, and the ninth takes one increment off,
/// down to the minimum.
pub proof fn lemma_lower_on_ninth_reading(state: ControlState, temps: Seq<u8>)
    requires
        state.wf(),
        state.lowering_or_staying_loops == 0,
        temps.len() == 9,
        !is_raising(state.temp_last, temps[0]),
        forall|i: int, j: int| 0 <= i <= j < 9 ==> temps[j] <= temps[i],
    ensures
        forall|k: int| 0 <= k <= 8 ==> (#[trigger] state.run(temps.take(k))).fan_speed == state.fan_speed,
        state.run(temps).fan_speed == lowered(state.fan_speed),
        state.fan_speed > FAN_SPEED_MIN ==> state.run(temps).fan_speed == state.fan_speed - 1,
        state.fan_speed == FAN_SPEED_MIN ==> state.run(temps).fan_speed == FAN_SPEED_MIN,
{
    assert forall|i: int| 0 <= i < 9 implies !is_raising(state.temp_last, #[trigger] temps[i]) by {
        assert(temps[i] <= temps[0]);
    }
    assert forall|k: int| 0 <= k <= 8 implies (#[trigger] state.run(temps.take(k))).fan_speed
        == state.fan_speed by {
        lemma_lowering_counts(state, temps, k);
    }
    lemma_lowering_counts(state, temps, 8);
    assert(temps.drop_last() =~= temps.take(8));
    assert(temps.last() == temps[8]);
}

proof fn lemma_lowering_counts(state: ControlState, temps: Seq<u8>, k: int)
    requires
        state.wf(),
        state.lowering_or_staying_loops == 0,
        0 <= k <= 8,
        k <= temps.len(),
        forall|i: int| 0 <= i < k ==> !is_raising(state.temp_last, #[trigger] temps[i]),
    ensures
        state.run(temps.take(k)) == (ControlState { lowering_or_staying_loops: k as u64, ..state }),
    decreases k,
{
    if k > 0 {
        lemma_lowering_counts(state, temps, k - 1);
        assert(temps.take(k).drop_last() =~= temps.take(k - 1));
        assert(temps.take(k).last() == temps[k - 1]);
    }
}

} // verus!
