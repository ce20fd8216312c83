//! The clock itself: elapsed time, a mode, a speed and the turn in progress.

use crate::codec::{encode, encode_spec, SECONDS_PER_YEAR};
use crate::datetime::SimulationDateTime;
use crate::duration::{SimulationDuration, MAX_NANOS, NANOS_PER_SEC};
use crate::speed::ClockSpeed;
use crate::timestamp::SimulationTimestamp;
use vstd::prelude::*;

verus! {

/// The length in seconds of a turn of the default clock.
pub const DEFAULT_TURN_SECONDS: u64 = 6;

/// The length in seconds of a turn of a clock made by
/// [`SimulationClock::from_seconds`].
pub const EPOCH_TURN_SECONDS: u64 = 3;

/// How a clock takes a tick.
#[derive(Copy, Clone, Debug, Ord, PartialOrd, Eq, PartialEq, Structural, Hash)]
pub enum ClockMode {
    /// Time passes only while a turn is in progress.
    TurnBased,
    /// Time passes with every tick.
    RealTime,
}

/// The state of a clock as mathematical values. Times are in nanoseconds.
pub struct ClockState {
    /// Time since the simulation epoch.
    pub elapsed: nat,
    /// The mode the clock is in.
    pub mode: ClockMode,
    /// The speed by which every tick is scaled.
    pub speed: ClockSpeed,
    /// The length of a turn.
    pub turn_duration: nat,
    /// What is left of the turn in progress.
    pub turn_remaining: nat,
}

impl ClockState {
    /// What holds of every clock: no more is left of a turn than a turn is
    /// long, and outside turn-based mode nothing is left of one.
    pub open spec fn wf(self) -> bool {
        &&& self.turn_remaining <= self.turn_duration
        &&& self.mode == ClockMode::RealTime ==> self.turn_remaining == 0
    }

    /// The state of a new clock in real-time mode, with no turn in progress.
    pub open spec fn starting(elapsed: nat, speed: ClockSpeed, turn_duration: nat) -> ClockState {
        ClockState { elapsed, mode: ClockMode::RealTime, speed, turn_duration, turn_remaining: 0 }
    }

    /// Whether the clock stands between turns: in turn-based mode with
    /// nothing left of the turn. A tick then changes nothing.
    pub open spec fn between_turns(self) -> bool {
        self.mode == ClockMode::TurnBased && self.turn_remaining == 0
    }

    /// The simulated time that a tick of `delta` stands for at the clock's
    /// speed.
    pub open spec fn effective(self, delta: nat) -> nat {
        self.speed.scale(delta)
    }

    /// The state after a tick of `delta`. In real-time mode the elapsed time
    /// grows by the effective delta. In turn-based mode it does so only while
    /// something is left of the turn, which then shrinks by as much, down to
    /// nothing; between turns the tick changes nothing.
    pub open spec fn tick(self, delta: nat) -> ClockState {
        match self.mode {
            ClockMode::RealTime => ClockState {
                elapsed: self.elapsed + self.effective(delta),
                ..self
            },
            ClockMode::TurnBased => if self.turn_remaining == 0 {
                self
            } else {
                ClockState {
                    elapsed: self.elapsed + self.effective(delta),
                    turn_remaining: if self.effective(delta) <= self.turn_remaining {
                        (self.turn_remaining - self.effective(delta)) as nat
                    } else {
                        0
                    },
                    ..self
                }
            },
        }
    }

    /// Whether a tick of `delta` leaves the elapsed time within what a clock
    /// can hold.
    pub open spec fn tick_in_range(self, delta: nat) -> bool {
        self.between_turns() || self.elapsed + self.effective(delta) <= MAX_NANOS
    }

    /// The state after one tick for each of `deltas`, in order.
    pub open spec fn tick_all(self, deltas: Seq<nat>) -> ClockState
        decreases deltas.len(),
    {
        if deltas.len() == 0 {
            self
        } else {
            self.tick(deltas.first()).tick_all(deltas.drop_first())
        }
    }

    /// The state after a request for turn-based mode: from real-time mode a
    /// full turn begins; in turn-based mode nothing changes.
    pub open spec fn enable_turn_mode(self) -> ClockState {
        if self.mode == ClockMode::RealTime {
            ClockState {
                mode: ClockMode::TurnBased,
                turn_remaining: self.turn_duration,
                ..self
            }
        } else {
            self
        }
    }

    /// The state after a request for real-time mode: from turn-based mode
    /// the turn is dropped; in real-time mode nothing changes.
    pub open spec fn disable_turn_mode(self) -> ClockState {
        if self.mode == ClockMode::TurnBased {
            ClockState { mode: ClockMode::RealTime, turn_remaining: 0, ..self }
        } else {
            self
        }
    }

    /// The state after a request for the next turn: between turns a full
    /// turn begins; at any other time nothing changes.
    pub open spec fn advance_turn(self) -> ClockState {
        if self.between_turns() {
            ClockState { turn_remaining: self.turn_duration, ..self }
        } else {
            self
        }
    }
}

/// A clock of simulated time.
///
/// Its view is a [`ClockState`], which is well-formed for every clock.
#[derive(Debug)]
pub struct SimulationClock {
    /// Time since the simulation epoch.
    clock_time: SimulationDuration,
    /// The mode the clock is in.
    clock_mode: ClockMode,
    /// The speed by which every tick is scaled.
    clock_speed: ClockSpeed,
    /// The length of a turn.
    turn_duration: SimulationDuration,
    /// What is left of the turn in progress.
    turn_time_remaining: SimulationDuration,
}

impl View for SimulationClock {
    type V = ClockState;

    closed spec fn view(&self) -> ClockState {
        ClockState {
            elapsed: self.clock_time@,
            mode: self.clock_mode,
            speed: self.clock_speed,
            turn_duration: self.turn_duration@,
            turn_remaining: self.turn_time_remaining@,
        }
    }
}

impl SimulationClock {
    #[verifier::type_invariant]
    spec fn well_formed(self) -> bool {
        self@.wf()
    }

    /// A paused real-time clock that stands `epoch_seconds` whole seconds
    /// after the epoch, with turns of `EPOCH_TURN_SECONDS`.
    pub fn from_seconds(epoch_seconds: u64) -> (clock: SimulationClock)
        ensures
            clock@ == ClockState::starting(
                epoch_seconds as nat * NANOS_PER_SEC as nat,
                ClockSpeed { mantissa: 0, exponent: 0 },
                EPOCH_TURN_SECONDS as nat * NANOS_PER_SEC as nat,
            ),
    {
        SimulationClock {
            clock_time: SimulationDuration::from_secs(epoch_seconds),
            clock_mode: ClockMode::RealTime,
            clock_speed: ClockSpeed::paused(),
            turn_duration: SimulationDuration::from_secs(EPOCH_TURN_SECONDS),
            turn_time_remaining: SimulationDuration::zero(),
        }
    }

    /// A default clock moved to the time that the seven fields encode, which
    /// must fit in `u64` seconds. The fields are taken as they are: one above
    /// its range is not carried into the next.
    pub fn from_metric_timestamp(
        year: u64,
        month: u64,
        week: u64,
        day: u64,
        hour: u64,
        minute: u64,
        second: u64,
    ) -> (clock: SimulationClock)
        requires
            encode_spec(
                year as nat,
                month as nat,
                week as nat,
                day as nat,
                hour as nat,
                minute as nat,
                second as nat,
            ) <= u64::MAX,
        ensures
            clock@ == ClockState::starting(
                encode_spec(
                    year as nat,
                    month as nat,
                    week as nat,
                    day as nat,
                    hour as nat,
                    minute as nat,
                    second as nat,
                ) * NANOS_PER_SEC as nat,
                ClockSpeed { mantissa: 1, exponent: 0 },
                DEFAULT_TURN_SECONDS as nat * NANOS_PER_SEC as nat,
            ),
    {
        let epoch_seconds: u64 = encode(year, month, week, day, hour, minute, second);
        SimulationClock {
            clock_time: SimulationDuration::from_secs(epoch_seconds),
            clock_mode: ClockMode::RealTime,
            clock_speed: ClockSpeed::real_time(),
            turn_duration: SimulationDuration::from_secs(DEFAULT_TURN_SECONDS),
            turn_time_remaining: SimulationDuration::zero(),
        }
    }

    /// The clock with the five parts given, or `None` where they do not make
    /// a well-formed state.
    pub fn from_parts(
        clock_time: SimulationDuration,
        clock_mode: ClockMode,
        clock_speed: ClockSpeed,
        turn_duration: SimulationDuration,
        turn_time_remaining: SimulationDuration,
    ) -> (r: Option<SimulationClock>)
        ensures
            r is Some <==> (ClockState {
                elapsed: clock_time@,
                mode: clock_mode,
                speed: clock_speed,
                turn_duration: turn_duration@,
                turn_remaining: turn_time_remaining@,
            }).wf(),
            r matches Some(clock) ==> clock@ == (ClockState {
                elapsed: clock_time@,
                mode: clock_mode,
                speed: clock_speed,
                turn_duration: turn_duration@,
                turn_remaining: turn_time_remaining@,
            }),
    {
        let within_turn = turn_time_remaining.as_nanos() <= turn_duration.as_nanos();
        let idle_in_real_time = match clock_mode {
            ClockMode::RealTime => turn_time_remaining.is_zero(),
            ClockMode::TurnBased => true,
        };
        if within_turn && idle_in_real_time {
            Some(
                SimulationClock {
                    clock_time,
                    clock_mode,
                    clock_speed,
                    turn_duration,
                    turn_time_remaining,
                },
            )
        } else {
            None
        }
    }

    /// The elapsed time as a flat timestamp.
    pub fn current_timestamp(&self) -> (timestamp: SimulationTimestamp)
        ensures
            timestamp@ == self@.elapsed,
    {
        SimulationTimestamp::from(self.clock_time)
    }

    /// The whole seconds of the elapsed time, broken down into fields.
    pub fn current_datetime(&self) -> (datetime: SimulationDateTime)
        ensures
            datetime == SimulationDateTime::decoded(self@.elapsed / (NANOS_PER_SEC as nat)),
            datetime.year == self@.elapsed / (NANOS_PER_SEC as nat) / (SECONDS_PER_YEAR as nat),
            datetime.canonical(),
            datetime.epoch_seconds() == self@.elapsed / (NANOS_PER_SEC as nat),
    {
        SimulationDateTime::from(self.clock_time)
    }

    /// The elapsed time in seconds: the whole seconds, and the nanoseconds
    /// past them.
    pub fn current_epoch_seconds(&self) -> (seconds: (u64, u32))
        ensures
            seconds.0 == self@.elapsed / (NANOS_PER_SEC as nat),
            seconds.1 == self@.elapsed % (NANOS_PER_SEC as nat),
    {
        (self.clock_time.as_secs(), self.clock_time.subsec_nanos())
    }

    /// The mode the clock is in.
    pub fn clock_mode(&self) -> (mode: ClockMode)
        ensures
            mode == self@.mode,
            self@.wf(),
    {
        proof {
            use_type_invariant(self);
        }
        self.clock_mode
    }

    /// The speed by which every tick is scaled.
    pub fn clock_speed(&self) -> (speed: ClockSpeed)
        ensures
            speed == self@.speed,
    {
        self.clock_speed
    }

    /// Sets the speed and nothing else.
    pub fn set_clock_speed(&mut self, speed: ClockSpeed)
        ensures
            final(self)@ == (ClockState { speed, ..old(self)@ }),
            final(self)@.wf(),
    {
        proof {
            use_type_invariant(&*self);
        }
        self.clock_speed = speed;
    }

    /// The length of a turn.
    pub fn turn_duration(&self) -> (length: SimulationDuration)
        ensures
            length@ == self@.turn_duration,
            self@.wf(),
    {
        proof {
            use_type_invariant(self);
        }
        self.turn_duration
    }

    /// What is left of the turn in progress.
    pub fn turn_time_remaining(&self) -> (left: SimulationDuration)
        ensures
            left@ == self@.turn_remaining,
            self@.wf(),
    {
        proof {
            use_type_invariant(self);
        }
        self.turn_time_remaining
    }

    /// Enters turn-based mode and begins a full turn. In turn-based mode
    /// already, nothing changes.
    pub fn enable_turn_mode(&mut self)
        ensures
            final(self)@ == old(self)@.enable_turn_mode(),
            final(self)@.wf(),
    {
        proof {
            use_type_invariant(&*self);
        }
        if self.clock_mode == ClockMode::RealTime {
            self.clock_mode = ClockMode::TurnBased;
            self.turn_time_remaining = self.turn_duration;
        }
    }

    /// Whether nothing is left of the turn. That is so throughout real-time
    /// mode, where no turn is in progress.
    pub fn turn_complete(&self) -> (complete: bool)
        ensures
            complete == (self@.turn_remaining == 0),
            self@.mode == ClockMode::RealTime ==> complete,
    {
        proof {
            use_type_invariant(self);
        }
        self.turn_time_remaining.is_zero()
    }

    /// Begins the next turn if the clock stands between turns. At any other
    /// time nothing changes: a turn in progress is not cut short.
    pub fn advance_turn(&mut self)
        ensures
            final(self)@ == old(self)@.advance_turn(),
            final(self)@.wf(),
    {
        proof {
            use_type_invariant(&*self);
        }
        if self.clock_mode == ClockMode::TurnBased && self.turn_time_remaining.is_zero() {
            self.turn_time_remaining = self.turn_duration;
        }
    }

    /// Leaves turn-based mode and drops what is left of the turn. In
    /// real-time mode already, nothing changes.
    pub fn disable_turn_mode(&mut self)
        ensures
            final(self)@ == old(self)@.disable_turn_mode(),
            final(self)@.wf(),
    {
        proof {
            use_type_invariant(&*self);
        }
        if self.clock_mode == ClockMode::TurnBased {
            self.turn_time_remaining = SimulationDuration::zero();
            self.clock_mode = ClockMode::RealTime;
        }
    }

    /// Takes a tick of `delta` of real time. The elapsed time must stay within
    /// `MAX_NANOS`, the longest span that a clock can hold; that apart, every
    /// tick is taken.
    ///
    /// In real-time mode the elapsed time grows by the effective delta,
    /// whatever the turn fields hold. In turn-based mode with something left
    /// of the turn it grows by the effective delta too, in full, and the turn
    /// shrinks by as much or, where the delta outlasts it, to nothing.
    /// Between turns nothing changes.
    pub fn tick(&mut self, delta: SimulationDuration)
        requires
            old(self)@.tick_in_range(delta@),
        ensures
            final(self)@ == old(self)@.tick(delta@),
            final(self)@.wf(),
            !old(self)@.between_turns() ==> final(self)@.elapsed == old(self)@.elapsed + old(
                self,
            )@.effective(delta@),
            old(self)@.between_turns() ==> final(self)@ == old(self)@,
            old(self)@.mode == ClockMode::TurnBased && old(self)@.effective(delta@) <= old(
                self,
            )@.turn_remaining ==> final(self)@.turn_remaining == old(self)@.turn_remaining - old(
                self,
            )@.effective(delta@),
            old(self)@.mode == ClockMode::TurnBased && old(self)@.effective(delta@) > old(
                self,
            )@.turn_remaining ==> final(self)@.turn_remaining == 0,
            final(self)@.mode == old(self)@.mode,
            final(self)@.speed == old(self)@.speed,
            final(self)@.turn_duration == old(self)@.turn_duration,
    {
        self.checked_tick(delta);
    }

    /// Takes a tick of `delta` of real time, unless that would carry the
    /// elapsed time past `MAX_NANOS`: then the clock is left as it was.
    /// Returns whether the tick was taken.
    pub fn checked_tick(&mut self, delta: SimulationDuration) -> (ticked: bool)
        ensures
            ticked == old(self)@.tick_in_range(delta@),
            final(self)@ == if ticked {
                old(self)@.tick(delta@)
            } else {
                old(self)@
            },
            final(self)@.wf(),
    {
        proof {
            use_type_invariant(&*self);
        }
        if self.clock_mode == ClockMode::TurnBased && self.turn_time_remaining.is_zero() {
            return true;
        }
        let effective = match self.clock_speed.checked_scale(delta) {
            Some(effective) => effective,
            None => {
                return false;
            },
        };
        let advanced = match self.clock_time.checked_add(effective) {
            Some(advanced) => advanced,
            None => {
                return false;
            },
        };
        match self.clock_mode {
            ClockMode::RealTime => {},
            ClockMode::TurnBased => {
                self.turn_time_remaining = self.turn_time_remaining.saturating_sub(effective);
            },
        }
        self.clock_time = advanced;
        true
    }
}

impl Default for SimulationClock {
    /// A real-time clock at the epoch, running at the pace of real time, with turns
    /// of `DEFAULT_TURN_SECONDS`.
    fn default() -> (clock: SimulationClock)
        ensures
            clock@ == ClockState::starting(
                0,
                ClockSpeed { mantissa: 1, exponent: 0 },
                DEFAULT_TURN_SECONDS as nat * NANOS_PER_SEC as nat,
            ),
    {
        SimulationClock {
            clock_time: SimulationDuration::zero(),
            clock_mode: ClockMode::RealTime,
            clock_speed: ClockSpeed::real_time(),
            turn_duration: SimulationDuration::from_secs(DEFAULT_TURN_SECONDS),
            turn_time_remaining: SimulationDuration::zero(),
        }
    }
}

impl Clone for SimulationClock {
    fn clone(&self) -> (clock: SimulationClock)
        ensures
            clock == *self,
    {
        proof {
            use_type_invariant(self);
        }
        SimulationClock {
            clock_time: self.clock_time,
            clock_mode: self.clock_mode,
            clock_speed: self.clock_speed,
            turn_duration: self.turn_duration,
            turn_time_remaining: self.turn_time_remaining,
        }
    }
}

} // verus!
