//! A point in simulated time, broken down into calendar fields.

use crate::codec::{
    decode, decode_inverts_encode, decode_spec, encode_inverts_decode, encode_spec, is_canonical,
    SECONDS_PER_YEAR,
};
use crate::duration::{SimulationDuration, NANOS_PER_SEC};
use crate::text::{decimal_text, push_decimal, push_two_digits, two_digit_text};
use crate::timestamp::{view_of_converted_fields, SimulationTimestamp};
use vstd::prelude::*;
use vstd::std_specs::convert::{FromSpec, TryFromSpec};
use vstd::string::StringExecFns;

verus! {

/// The seven calendar fields of a point in simulated time.
///
/// The fields are plain data. Those that come out of decoding are canonical;
/// those put together by hand are whatever the caller gave.
#[derive(Clone, Copy, Debug, PartialEq, Eq, Structural, Hash)]
pub struct SimulationDateTime {
    pub year: u64,
    pub month: u8,
    pub week: u8,
    pub day: u8,
    pub hour: u8,
    pub minute: u8,
    pub second: u8,
}

impl SimulationDateTime {
    /// The whole seconds since the epoch that the fields encode.
    pub open spec fn epoch_seconds(self) -> nat {
        encode_spec(
            self.year as nat,
            self.month as nat,
            self.week as nat,
            self.day as nat,
            self.hour as nat,
            self.minute as nat,
            self.second as nat,
        )
    }

    /// Whether each field below the year is within its range.
    pub open spec fn canonical(self) -> bool {
        is_canonical(
            self.month as nat,
            self.week as nat,
            self.day as nat,
            self.hour as nat,
            self.minute as nat,
            self.second as nat,
        )
    }

    /// The fields of `seconds` whole seconds since the epoch, for `seconds`
    /// up to `u64::MAX`: the year is the number of whole years in them, and
    /// each field below it the digit at its place.
    pub open spec fn decoded(seconds: nat) -> SimulationDateTime {
        let fields = decode_spec(seconds);
        SimulationDateTime {
            year: fields.0 as u64,
            month: fields.1 as u8,
            week: fields.2 as u8,
            day: fields.3 as u8,
            hour: fields.4 as u8,
            minute: fields.5 as u8,
            second: fields.6 as u8,
        }
    }

    /// The breakdown as text, in the form `Y-MM-WW-DD@HH:MM:SS.ssss`: the
    /// year as it is, the other fields with two digits at least, and four
    /// decimal places, which are zero because the breakdown holds whole
    /// seconds.
    pub open spec fn text(self) -> Seq<char> {
        decimal_text(self.year as nat) + seq!['-'] + two_digit_text(self.month as nat) + seq!['-']
            + two_digit_text(self.week as nat) + seq!['-'] + two_digit_text(self.day as nat)
            + seq!['@'] + two_digit_text(self.hour as nat) + seq![':'] + two_digit_text(
            self.minute as nat,
        ) + seq![':'] + two_digit_text(self.second as nat) + seq!['.', '0', '0', '0', '0']
    }

    /// The breakdown of `epoch_seconds` whole seconds since the epoch. Its
    /// fields are canonical and encode `epoch_seconds` again.
    pub fn from_epoch_seconds(epoch_seconds: u64) -> (datetime: SimulationDateTime)
        ensures
            datetime == SimulationDateTime::decoded(epoch_seconds as nat),
            datetime.year == epoch_seconds / SECONDS_PER_YEAR,
            datetime.canonical(),
            datetime.epoch_seconds() == epoch_seconds,
    {
        proof {
            encode_inverts_decode(epoch_seconds as nat);
        }
        let (year, month, week, day, hour, minute, second) = decode(epoch_seconds);
        SimulationDateTime {
            year,
            month: month as u8,
            week: week as u8,
            day: day as u8,
            hour: hour as u8,
            minute: minute as u8,
            second: second as u8,
        }
    }

    /// The breakdown with exactly the fields given: nothing is reduced and
    /// nothing is carried.
    pub fn from_components(
        year: u64,
        month: u8,
        week: u8,
        day: u8,
        hour: u8,
        minute: u8,
        second: u8,
    ) -> (datetime: SimulationDateTime)
        ensures
            datetime == (SimulationDateTime { year, month, week, day, hour, minute, second }),
    {
        SimulationDateTime { year, month, week, day, hour, minute, second }
    }

    /// The breakdown as text (see [`SimulationDateTime::text`]).
    pub fn to_string(&self) -> (text: String)
        ensures
            text@ == self.text(),
    {
        proof {
            reveal_strlit("-");
            reveal_strlit("@");
            reveal_strlit(":");
            reveal_strlit(".0000");
        }
        let mut text = String::new();
        push_decimal(&mut text, self.year as u64);
        text.append("-");
        push_two_digits(&mut text, self.month as u64);
        text.append("-");
        push_two_digits(&mut text, self.week as u64);
        text.append("-");
        push_two_digits(&mut text, self.day as u64);
        text.append("@");
        push_two_digits(&mut text, self.hour as u64);
        text.append(":");
        push_two_digits(&mut text, self.minute as u64);
        text.append(":");
        push_two_digits(&mut text, self.second as u64);
        text.append(".0000");
        assert(text@ =~= self.text());
        text
    }

    /// Decoding the seconds that a canonical breakdown encodes gives the
    /// breakdown back.
    pub proof fn decoded_inverts_epoch_seconds(self)
        requires
            self.canonical(),
        ensures
            SimulationDateTime::decoded(self.epoch_seconds()) == self,
    {
        decode_inverts_encode(
            self.year as nat,
            self.month as nat,
            self.week as nat,
            self.day as nat,
            self.hour as nat,
            self.minute as nat,
            self.second as nat,
        );
    }

    /// Encoding the fields that `seconds` decode to gives `seconds` back, for
    /// every `seconds` up to `u64::MAX`; the year is the plain quotient.
    pub proof fn epoch_seconds_inverts_decoded(seconds: nat)
        requires
            seconds <= u64::MAX,
        ensures
            SimulationDateTime::decoded(seconds).epoch_seconds() == seconds,
            SimulationDateTime::decoded(seconds).year == seconds / (SECONDS_PER_YEAR as nat),
            SimulationDateTime::decoded(seconds).canonical(),
    {
        encode_inverts_decode(seconds);
    }

    /// A canonical breakdown that has a timestamp is the breakdown of that
    /// timestamp.
    pub proof fn timestamp_round_trip(self)
        requires
            self.canonical(),
            self.epoch_seconds() <= u64::MAX,
        ensures
            SimulationTimestamp::try_from_spec(self) matches Ok(timestamp)
                && SimulationDateTime::from_spec(timestamp) == self,
    {
        view_of_converted_fields(self);
        self.decoded_inverts_epoch_seconds();
        let seconds = self.epoch_seconds();
        assert(seconds * (NANOS_PER_SEC as nat) / (NANOS_PER_SEC as nat) == seconds)
            by (nonlinear_arith);
    }
}

impl vstd::std_specs::convert::FromSpecImpl<SimulationDuration> for SimulationDateTime {
    open spec fn obeys_from_spec() -> bool {
        true
    }

    open spec fn from_spec(elapsed: SimulationDuration) -> SimulationDateTime {
        SimulationDateTime::decoded(elapsed@ / (NANOS_PER_SEC as nat))
    }
}

impl From<SimulationDuration> for SimulationDateTime {
    /// The breakdown of the whole seconds in `elapsed`.
    fn from(elapsed: SimulationDuration) -> (datetime: SimulationDateTime)
        ensures
            datetime == SimulationDateTime::decoded(elapsed@ / (NANOS_PER_SEC as nat)),
            datetime.year == elapsed@ / (NANOS_PER_SEC as nat) / (SECONDS_PER_YEAR as nat),
            datetime.canonical(),
            datetime.epoch_seconds() == elapsed@ / (NANOS_PER_SEC as nat),
    {
        SimulationDateTime::from_epoch_seconds(elapsed.as_secs())
    }
}

impl vstd::std_specs::convert::FromSpecImpl<SimulationTimestamp> for SimulationDateTime {
    open spec fn obeys_from_spec() -> bool {
        true
    }

    open spec fn from_spec(timestamp: SimulationTimestamp) -> SimulationDateTime {
        SimulationDateTime::decoded(timestamp@ / (NANOS_PER_SEC as nat))
    }
}

impl From<SimulationTimestamp> for SimulationDateTime {
    /// The breakdown of the whole seconds in `timestamp`.
    fn from(timestamp: SimulationTimestamp) -> (datetime: SimulationDateTime)
        ensures
            datetime == SimulationDateTime::decoded(timestamp@ / (NANOS_PER_SEC as nat)),
            datetime.year == timestamp@ / (NANOS_PER_SEC as nat) / (SECONDS_PER_YEAR as nat),
            datetime.canonical(),
            datetime.epoch_seconds() == timestamp@ / (NANOS_PER_SEC as nat),
    {
        SimulationDateTime::from_epoch_seconds(timestamp.duration().as_secs())
    }
}

} // verus!
