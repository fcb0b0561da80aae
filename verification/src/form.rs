//! Readings as a form hands them in: four counts typed as text.

use vstd::prelude::*;
use crate::decimal::parse_decimal;
use crate::decimal::parse_u64;
use crate::decimal::NumberFault;
use crate::identity::is_random_uuid_text;
use crate::instant::valid_instant;
use crate::instant::Timestamp;
use crate::model::DisplayError;
use crate::model::Failure;
use crate::model::NewParticleCount;
use crate::model::ParticleCount;
use crate::model::Reading;

verus! {

/// The four counts of a reading as they were typed, one text for each
/// threshold.
#[derive(Clone, Debug, PartialEq, Eq)]
pub struct NewParticle {
    pub micro_meter_10: String,
    pub micro_meter_60: String,
    pub micro_meter_180: String,
    pub micro_meter_500: String,
}

/// The four texts of a form as sequences of characters.
pub struct TypedCounts {
    pub micro_meter_10: Seq<char>,
    pub micro_meter_60: Seq<char>,
    pub micro_meter_180: Seq<char>,
    pub micro_meter_500: Seq<char>,
}

impl View for NewParticle {
    type V = TypedCounts;

    open spec fn view(&self) -> TypedCounts {
        TypedCounts {
            micro_meter_10: self.micro_meter_10@,
            micro_meter_60: self.micro_meter_60@,
            micro_meter_180: self.micro_meter_180@,
            micro_meter_500: self.micro_meter_500@,
        }
    }
}

impl Default for NewParticle {
    fn default() -> (form: Self)
        ensures
            form@ == (TypedCounts {
                micro_meter_10: Seq::empty(),
                micro_meter_60: Seq::empty(),
                micro_meter_180: Seq::empty(),
                micro_meter_500: Seq::empty(),
            }),
    {
        Self {
            micro_meter_10: String::new(),
            micro_meter_60: String::new(),
            micro_meter_180: String::new(),
            micro_meter_500: String::new(),
        }
    }
}

/// The reading that four typed counts denote.
///
/// The texts are read in the order of the thresholds. All four must be
/// numerals; the first that is none decides the fault, and which of the four
/// it was is not told.
pub open spec fn validated(typed: TypedCounts) -> Result<NewParticleCount, NumberFault> {
    match parse_decimal(typed.micro_meter_10) {
        Err(fault) => Err(fault),
        Ok(micro_meter_10) => match parse_decimal(typed.micro_meter_60) {
            Err(fault) => Err(fault),
            Ok(micro_meter_60) => match parse_decimal(typed.micro_meter_180) {
                Err(fault) => Err(fault),
                Ok(micro_meter_180) => match parse_decimal(typed.micro_meter_500) {
                    Err(fault) => Err(fault),
                    Ok(micro_meter_500) => Ok(
                        NewParticleCount {
                            micro_meter_10,
                            micro_meter_60,
                            micro_meter_180,
                            micro_meter_500,
                        },
                    ),
                },
            },
        },
    }
}

/// Four texts are a reading exactly when each of them is a numeral, and the
/// reading then has the four numbers that they denote; one text that is no
/// numeral fails the form, whichever of the four it is.
pub proof fn lemma_a_form_is_valid_when_its_four_texts_are(typed: TypedCounts)
    ensures
        validated(typed) is Ok <==> {
            &&& parse_decimal(typed.micro_meter_10) is Ok
            &&& parse_decimal(typed.micro_meter_60) is Ok
            &&& parse_decimal(typed.micro_meter_180) is Ok
            &&& parse_decimal(typed.micro_meter_500) is Ok
        },
        validated(typed) matches Ok(reading) ==> {
            &&& parse_decimal(typed.micro_meter_10) == Ok::<u64, NumberFault>(
                reading.micro_meter_10,
            )
            &&& parse_decimal(typed.micro_meter_60) == Ok::<u64, NumberFault>(
                reading.micro_meter_60,
            )
            &&& parse_decimal(typed.micro_meter_180) == Ok::<u64, NumberFault>(
                reading.micro_meter_180,
            )
            &&& parse_decimal(typed.micro_meter_500) == Ok::<u64, NumberFault>(
                reading.micro_meter_500,
            )
        },
{
}

fn read_counts(typed: &NewParticle) -> (counts: Result<NewParticleCount, NumberFault>)
    ensures
        counts == validated(typed@),
{
    let micro_meter_10 = match parse_u64(typed.micro_meter_10.as_str()) {
        Ok(count) => count,
        Err(fault) => return Err(fault),
    };
    let micro_meter_60 = match parse_u64(typed.micro_meter_60.as_str()) {
        Ok(count) => count,
        Err(fault) => return Err(fault),
    };
    let micro_meter_180 = match parse_u64(typed.micro_meter_180.as_str()) {
        Ok(count) => count,
        Err(fault) => return Err(fault),
    };
    let micro_meter_500 = match parse_u64(typed.micro_meter_500.as_str()) {
        Ok(count) => count,
        Err(fault) => return Err(fault),
    };
    Ok(NewParticleCount::new(micro_meter_10, micro_meter_60, micro_meter_180, micro_meter_500))
}

/// Turns the four typed counts into a reading that can be submitted.
///
/// Fails with `NumParseError` and the words of the first fault.
pub fn to_new_particle_counts(new_particle: &NewParticle) -> (counts: Result<
    NewParticleCount,
    DisplayError,
>)
    ensures
        match validated(new_particle@) {
            Ok(reading) => counts == Ok::<NewParticleCount, DisplayError>(reading),
            Err(fault) => counts matches Err(failure) && failure@ == Failure::NumParseError(
                fault.words(),
            ),
        },
{
    match read_counts(new_particle) {
        Ok(reading) => Ok(reading),
        Err(fault) => Err(DisplayError::NumParseError(fault.message())),
    }
}

impl NewParticle {
    /// The stored reading that the form denotes under the given identifier
    /// and time.
    ///
    /// Fails with `ConvertToU64Error` and the words of the first fault.
    pub fn stamped(self, id: String, time: Timestamp) -> (stored: Result<
        ParticleCount,
        DisplayError,
    >)
        ensures
            match validated(self@) {
                Ok(reading) => stored matches Ok(record) && record@ == (Reading {
                    id: id@,
                    counts: reading,
                    time: time@,
                }),
                Err(fault) => stored matches Err(failure) && failure@
                    == Failure::ConvertToU64Error(fault.words()),
            },
    {
        match read_counts(&self) {
            Ok(reading) => Ok(ParticleCount::stamp(reading, id, time)),
            Err(fault) => Err(DisplayError::ConvertToU64Error(fault.message())),
        }
    }

    /// The stored reading that the form denotes, under a fresh identifier
    /// and the time that the clock shows.
    ///
    /// Fails with `ConvertToU64Error` and the words of the first fault.
    pub fn into(self) -> (stored: Result<ParticleCount, DisplayError>)
        ensures
            match validated(self@) {
                Ok(reading) => stored matches Ok(record) && record@.counts == reading
                    && is_random_uuid_text(record@.id) && valid_instant(
                    record@.time.seconds,
                    record@.time.nanos,
                ),
                Err(fault) => stored matches Err(failure) && failure@
                    == Failure::ConvertToU64Error(fault.words()),
            },
    {
        match read_counts(&self) {
            Ok(reading) => Ok(ParticleCount::from(reading)),
            Err(fault) => Err(DisplayError::ConvertToU64Error(fault.message())),
        }
    }
}

} // verus!
