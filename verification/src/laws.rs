//! What holds of every clock, whatever its history: the laws of ticking, of
//! turns and of the changes of mode, stated over [`ClockState`].

use crate::clock::{ClockMode, ClockState};
use crate::speed::ClockSpeed;
use vstd::prelude::*;

verus! {

/// Every step keeps a well-formed state well-formed, and none changes the
/// length of a turn or the speed.
pub proof fn steps_keep_well_formed(clock: ClockState, delta: nat)
    requires
        clock.wf(),
    ensures
        clock.tick(delta).wf(),
        clock.enable_turn_mode().wf(),
        clock.disable_turn_mode().wf(),
        clock.advance_turn().wf(),
        clock.tick(delta).turn_duration == clock.turn_duration,
        clock.enable_turn_mode().turn_duration == clock.turn_duration,
        clock.disable_turn_mode().turn_duration == clock.turn_duration,
        clock.advance_turn().turn_duration == clock.turn_duration,
        clock.tick(delta).speed == clock.speed,
        clock.enable_turn_mode().speed == clock.speed,
        clock.disable_turn_mode().speed == clock.speed,
        clock.advance_turn().speed == clock.speed,
{
}

/// A tick never takes elapsed time back, never adds to what is left of the
/// turn, and never changes the mode. Only a tick moves the elapsed time: the
/// changes of mode and of turn leave it alone.
pub proof fn time_only_moves_forward(clock: ClockState, delta: nat)
    ensures
        clock.tick(delta).elapsed >= clock.elapsed,
        clock.tick(delta).turn_remaining <= clock.turn_remaining,
        clock.tick(delta).mode == clock.mode,
        clock.enable_turn_mode().elapsed == clock.elapsed,
        clock.disable_turn_mode().elapsed == clock.elapsed,
        clock.advance_turn().elapsed == clock.elapsed,
{
}

/// A longer tick moves the clock no less than a shorter one.
pub proof fn longer_tick_moves_no_less(clock: ClockState, shorter: nat, longer: nat)
    requires
        shorter <= longer,
    ensures
        clock.tick(shorter).elapsed <= clock.tick(longer).elapsed,
        clock.tick(shorter).turn_remaining >= clock.tick(longer).turn_remaining,
{
    clock.speed.scale_is_monotonic(shorter, longer);
}

/// In real-time mode two ticks in a row leave the clock where one tick of
/// their sum leaves it, as long as the fractions of a nanosecond that the two
/// scalings drop do not add up to a whole one.
pub proof fn real_time_ticks_add_up(clock: ClockState, first: nat, second: nat)
    requires
        clock.mode == ClockMode::RealTime,
        clock.speed.dropped(first) + clock.speed.dropped(second) < clock.speed.parts(),
    ensures
        clock.tick(first).tick(second) == clock.tick(first + second),
{
    clock.speed.scale_of_sum(first, second);
}

/// In real-time mode, where the fractions of a nanosecond that two scalings
/// drop do add up to a whole one, the two ticks leave the clock exactly one
/// nanosecond behind one tick of their sum.
pub proof fn real_time_ticks_lag_by_one(clock: ClockState, first: nat, second: nat)
    requires
        clock.mode == ClockMode::RealTime,
        clock.speed.dropped(first) + clock.speed.dropped(second) >= clock.speed.parts(),
    ensures
        clock.tick(first + second) == (ClockState {
            elapsed: clock.tick(first).tick(second).elapsed + 1,
            ..clock.tick(first).tick(second)
        }),
{
    clock.speed.scale_of_sum(first, second);
}

/// At a speed that is a whole number nothing is dropped, so real-time ticks
/// always add up; and each counts for its length times that number.
pub proof fn whole_speed_ticks_add_up(clock: ClockState, first: nat, second: nat)
    requires
        clock.mode == ClockMode::RealTime,
        clock.speed.exponent >= 0,
    ensures
        clock.tick(first).tick(second) == clock.tick(first + second),
        clock.speed.exponent == 0 ==> clock.tick(first).elapsed == clock.elapsed + first
            * clock.speed.mantissa,
{
    clock.speed.scale_of_sum(first, second);
}

/// In real-time mode a tick moves the elapsed time by the effective delta and
/// changes nothing else, whatever the turn fields hold.
pub proof fn real_time_tick_counts_in_full(clock: ClockState, delta: nat)
    requires
        clock.mode == ClockMode::RealTime,
    ensures
        clock.tick(delta) == (ClockState {
            elapsed: clock.elapsed + clock.effective(delta),
            ..clock
        }),
        clock.speed == (ClockSpeed { mantissa: 1, exponent: 0 }) ==> clock.tick(delta).elapsed
            == clock.elapsed + delta,
        clock.speed.mantissa == 0 ==> clock.tick(delta).elapsed == clock.elapsed,
{
    if clock.speed.mantissa == 0 {
        clock.speed.scale_at_rest(delta);
    }
}

/// While something is left of the turn, a tick in turn-based mode moves the
/// elapsed time by the effective delta and takes as much off the turn; a tick
/// that outlasts the turn still counts in full and leaves nothing of the turn.
/// The turn is over after the tick exactly where the effective delta is no
/// shorter than what was left.
pub proof fn tick_spends_the_turn(clock: ClockState, delta: nat)
    requires
        clock.mode == ClockMode::TurnBased,
        clock.turn_remaining > 0,
    ensures
        clock.tick(delta).elapsed == clock.elapsed + clock.effective(delta),
        clock.effective(delta) <= clock.turn_remaining ==> clock.tick(delta).turn_remaining
            == clock.turn_remaining - clock.effective(delta),
        clock.effective(delta) > clock.turn_remaining ==> clock.tick(delta).turn_remaining == 0,
        clock.tick(delta).turn_remaining == 0 <==> clock.effective(delta) >= clock.turn_remaining,
        clock.tick(delta).between_turns() <==> clock.effective(delta) >= clock.turn_remaining,
        clock.tick(delta).mode == clock.mode,
        clock.tick(delta).speed == clock.speed,
        clock.tick(delta).turn_duration == clock.turn_duration,
{
}

/// Between turns no run of ticks, however long, changes anything.
pub proof fn ticks_between_turns_change_nothing(clock: ClockState, deltas: Seq<nat>)
    requires
        clock.between_turns(),
    ensures
        clock.tick_all(deltas) == clock,
    decreases deltas.len(),
{
    if deltas.len() > 0 {
        ticks_between_turns_change_nothing(clock, deltas.drop_first());
    }
}

/// Between turns of some length, advancing the turn sets the clock going
/// again: the next tick counts in full.
pub proof fn advancing_resumes_the_clock(clock: ClockState, delta: nat)
    requires
        clock.between_turns(),
        clock.turn_duration > 0,
    ensures
        clock.advance_turn().turn_remaining == clock.turn_duration,
        clock.advance_turn().tick(delta).elapsed == clock.elapsed + clock.effective(delta),
{
}

/// Advancing the turn begins a full turn between turns and changes nothing at
/// any other time: not in real-time mode, and not while a turn is in progress.
pub proof fn advance_turn_waits_for_the_turn(clock: ClockState)
    ensures
        clock.between_turns() ==> clock.advance_turn() == (ClockState {
            turn_remaining: clock.turn_duration,
            ..clock
        }),
        !clock.between_turns() ==> clock.advance_turn() == clock,
{
}

/// Entering turn-based mode and leaving it at once ends in real-time mode
/// with nothing left of a turn and the elapsed time untouched; a clock that
/// was in real-time mode is back where it was.
pub proof fn enable_then_disable(clock: ClockState)
    ensures
        clock.enable_turn_mode().disable_turn_mode() == (ClockState {
            mode: ClockMode::RealTime,
            turn_remaining: 0,
            ..clock
        }),
        clock.wf() && clock.mode == ClockMode::RealTime
            ==> clock.enable_turn_mode().disable_turn_mode() == clock,
{
}

/// At a speed of zero a tick changes nothing, in either mode.
pub proof fn tick_at_rest_changes_nothing(clock: ClockState, delta: nat)
    requires
        clock.speed.mantissa == 0,
    ensures
        clock.tick(delta) == clock,
{
    clock.speed.scale_at_rest(delta);
}

/// At the pace of real time a tick counts for exactly its length.
pub proof fn tick_at_pace_counts_in_full(clock: ClockState, delta: nat)
    requires
        clock.speed == (ClockSpeed { mantissa: 1, exponent: 0 }),
    ensures
        clock.effective(delta) == delta,
{
}

} // verus!
