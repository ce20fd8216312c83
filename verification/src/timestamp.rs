//! A point in simulated time, as a flat count since the epoch.

use crate::codec::{checked_encode, encode, encode_spec};
use crate::datetime::SimulationDateTime;
use crate::duration::{SimulationDuration, NANOS_PER_SEC};
use crate::text::{push_decimal, push_fraction, seconds_text};
use vstd::prelude::*;
use vstd::std_specs::convert::{FromSpec, TryFromSpec};
use vstd::string::StringExecFns;

verus! {

/// Why a breakdown has no timestamp: the seconds that its fields encode do
/// not fit in `u64`.
#[derive(Clone, Copy, Debug, PartialEq, Eq, Structural, Hash)]
pub struct TimestampOutOfRange;

/// The time elapsed since the simulation epoch.
///
/// Its view is that time in nanoseconds.
#[derive(Clone, Copy, Debug, PartialEq, Eq, Structural, Hash)]
pub struct SimulationTimestamp(SimulationDuration);

impl View for SimulationTimestamp {
    type V = nat;

    closed spec fn view(&self) -> nat {
        self.0@
    }
}

impl SimulationTimestamp {
    /// The timestamp `epoch_seconds` whole seconds after the epoch.
    pub fn from_epoch_seconds(epoch_seconds: u64) -> (timestamp: SimulationTimestamp)
        ensures
            timestamp@ == epoch_seconds * NANOS_PER_SEC,
    {
        SimulationTimestamp(SimulationDuration::from_secs(epoch_seconds))
    }

    /// The timestamp that the seven fields encode. The fields are taken as
    /// they are: one above its range is not carried into the next.
    pub fn from_components(
        year: u32,
        month: u8,
        week: u8,
        day: u8,
        hour: u8,
        minute: u8,
        second: u8,
    ) -> (timestamp: SimulationTimestamp)
        ensures
            timestamp@ == encode_spec(
                year as nat,
                month as nat,
                week as nat,
                day as nat,
                hour as nat,
                minute as nat,
                second as nat,
            ) * NANOS_PER_SEC,
    {
        let epoch_seconds: u64 = encode(
            year as u64,
            month as u64,
            week as u64,
            day as u64,
            hour as u64,
            minute as u64,
            second as u64,
        );
        SimulationTimestamp(SimulationDuration::from_secs(epoch_seconds))
    }

    /// The time since the epoch as a span.
    pub fn duration(&self) -> (elapsed: SimulationDuration)
        ensures
            elapsed@ == self@,
    {
        self.0
    }

    /// The timestamp as a plain count of seconds, with the fraction written
    /// out exactly where there is one: `5`, `5.5`, `0.016666667`.
    pub fn to_string(&self) -> (text: String)
        ensures
            text@ == seconds_text(self@),
    {
        let mut text = String::new();
        push_decimal(&mut text, self.0.as_secs());
        let fraction: u32 = self.0.subsec_nanos();
        if fraction != 0 {
            proof {
                reveal_strlit(".");
            }
            text.append(".");
            push_fraction(&mut text, fraction as u64, 9);
        }
        assert(text@ =~= seconds_text(self@));
        text
    }

    /// A timestamp is determined by its view.
    pub proof fn view_determines(self, other: SimulationTimestamp)
        requires
            self@ == other@,
        ensures
            self == other,
    {
        self.0.view_determines();
        other.0.view_determines();
    }
}

/// The timestamp that a span converts to stands that span after the epoch.
pub proof fn view_of_converted_span(elapsed: SimulationDuration)
    ensures
        SimulationTimestamp::from_spec(elapsed)@ == elapsed@,
{
}

/// A breakdown converts to a timestamp exactly where the seconds that its
/// fields encode fit in `u64`, and the timestamp stands that many seconds
/// after the epoch.
pub proof fn view_of_converted_fields(datetime: SimulationDateTime)
    ensures
        SimulationTimestamp::try_from_spec(datetime) is Ok <==> datetime.epoch_seconds()
            <= u64::MAX,
        SimulationTimestamp::try_from_spec(datetime) matches Ok(timestamp) ==> timestamp@
            == datetime.epoch_seconds() * NANOS_PER_SEC,
{
    if datetime.epoch_seconds() <= u64::MAX {
        SimulationDuration::view_of_nanos(datetime.epoch_seconds() * (NANOS_PER_SEC as nat));
    }
}

impl vstd::std_specs::convert::FromSpecImpl<SimulationDuration> for SimulationTimestamp {
    open spec fn obeys_from_spec() -> bool {
        true
    }

    closed spec fn from_spec(elapsed: SimulationDuration) -> SimulationTimestamp {
        SimulationTimestamp(elapsed)
    }
}

impl From<SimulationDuration> for SimulationTimestamp {
    /// The timestamp `elapsed` after the epoch.
    fn from(elapsed: SimulationDuration) -> (timestamp: SimulationTimestamp)
        ensures
            timestamp@ == elapsed@,
    {
        SimulationTimestamp(elapsed)
    }
}

impl vstd::std_specs::convert::TryFromSpecImpl<SimulationDateTime> for SimulationTimestamp {
    open spec fn obeys_try_from_spec() -> bool {
        true
    }

    closed spec fn try_from_spec(datetime: SimulationDateTime) -> Result<
        SimulationTimestamp,
        TimestampOutOfRange,
    > {
        if datetime.epoch_seconds() <= u64::MAX {
            Ok(
                SimulationTimestamp(
                    SimulationDuration::of_nanos(
                        datetime.epoch_seconds() * (NANOS_PER_SEC as nat),
                    ),
                ),
            )
        } else {
            Err(TimestampOutOfRange)
        }
    }
}

impl TryFrom<SimulationDateTime> for SimulationTimestamp {
    type Error = TimestampOutOfRange;

    /// The timestamp that the fields of `datetime` encode, or an error where
    /// they encode more seconds than fit in `u64`.
    fn try_from(datetime: SimulationDateTime) -> (r: Result<
        SimulationTimestamp,
        TimestampOutOfRange,
    >)
        ensures
            r is Ok <==> datetime.epoch_seconds() <= u64::MAX,
            r matches Ok(timestamp) ==> timestamp@ == datetime.epoch_seconds() * NANOS_PER_SEC,
    {
        match checked_encode(
            datetime.year,
            datetime.month as u64,
            datetime.week as u64,
            datetime.day as u64,
            datetime.hour as u64,
            datetime.minute as u64,
            datetime.second as u64,
        ) {
            Some(epoch_seconds) => {
                let elapsed = SimulationDuration::from_secs(epoch_seconds);
                proof {
                    elapsed.view_determines();
                }
                Ok(SimulationTimestamp(elapsed))
            },
            None => Err(TimestampOutOfRange),
        }
    }
}

} // verus!
