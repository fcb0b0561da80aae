//! The two shapes of a reading, the failures of the pipeline, and the flat
//! text form of a stored reading.

use vstd::prelude::*;
use crate::decimal::decimal_text;
use crate::decimal::u64_text;
use crate::identity::fresh_id;
use crate::identity::is_random_uuid_text;
use crate::instant::instant_text;
use crate::instant::valid_instant;
use crate::instant::Instant;
use crate::instant::Timestamp;

verus! {

/// What the pipeline can fail with. Each failure carries the detail that its
/// source gave, as text.
#[derive(Debug, Clone, PartialEq, Eq)]
pub enum DisplayError {
    /// A stored or transmitted record could not be decoded.
    Serde(String),
    /// A count typed into a form is not the numeral of a `u64`.
    NumParseError(String),
    /// A path could not be read.
    FileReadError(String),
    /// Bytes that should be text are not UTF-8.
    U8parseError(String),
    /// A count of a form could not be turned into a `u64` for storing.
    ConvertToU64Error(String),
    /// The log could not be appended to.
    WriteError(String),
    /// The database could not be reached.
    ConnectionError(String),
    /// The database refused a statement.
    DatabaseError(String),
}

/// A failure with its detail as a sequence of characters.
pub enum Failure {
    Serde(Seq<char>),
    NumParseError(Seq<char>),
    FileReadError(Seq<char>),
    U8parseError(Seq<char>),
    ConvertToU64Error(Seq<char>),
    WriteError(Seq<char>),
    ConnectionError(Seq<char>),
    DatabaseError(Seq<char>),
}

impl Failure {
    /// The detail, whatever the kind.
    pub open spec fn detail(self) -> Seq<char> {
        match self {
            Failure::Serde(detail) => detail,
            Failure::NumParseError(detail) => detail,
            Failure::FileReadError(detail) => detail,
            Failure::U8parseError(detail) => detail,
            Failure::ConvertToU64Error(detail) => detail,
            Failure::WriteError(detail) => detail,
            Failure::ConnectionError(detail) => detail,
            Failure::DatabaseError(detail) => detail,
        }
    }
}

impl View for DisplayError {
    type V = Failure;

    open spec fn view(&self) -> Failure {
        match self {
            DisplayError::Serde(detail) => Failure::Serde(detail@),
            DisplayError::NumParseError(detail) => Failure::NumParseError(detail@),
            DisplayError::FileReadError(detail) => Failure::FileReadError(detail@),
            DisplayError::U8parseError(detail) => Failure::U8parseError(detail@),
            DisplayError::ConvertToU64Error(detail) => Failure::ConvertToU64Error(detail@),
            DisplayError::WriteError(detail) => Failure::WriteError(detail@),
            DisplayError::ConnectionError(detail) => Failure::ConnectionError(detail@),
            DisplayError::DatabaseError(detail) => Failure::DatabaseError(detail@),
        }
    }
}

impl DisplayError {
    /// The detail of the failure.
    pub fn message(&self) -> (message: String)
        ensures
            message@ == self@.detail(),
    {
        match self {
            DisplayError::Serde(detail) => detail.clone(),
            DisplayError::NumParseError(detail) => detail.clone(),
            DisplayError::FileReadError(detail) => detail.clone(),
            DisplayError::U8parseError(detail) => detail.clone(),
            DisplayError::ConvertToU64Error(detail) => detail.clone(),
            DisplayError::WriteError(detail) => detail.clone(),
            DisplayError::ConnectionError(detail) => detail.clone(),
            DisplayError::DatabaseError(detail) => detail.clone(),
        }
    }

    /// Flattens the failure to its detail, giving up its kind.
    pub fn into_message(self) -> (message: String)
        ensures
            message@ == self@.detail(),
    {
        match self {
            DisplayError::Serde(detail) => detail,
            DisplayError::NumParseError(detail) => detail,
            DisplayError::FileReadError(detail) => detail,
            DisplayError::U8parseError(detail) => detail,
            DisplayError::ConvertToU64Error(detail) => detail,
            DisplayError::WriteError(detail) => detail,
            DisplayError::ConnectionError(detail) => detail,
            DisplayError::DatabaseError(detail) => detail,
        }
    }
}

/// A reading as it is submitted: the four counts, and neither identifier nor
/// time. Every value is a valid reading.
#[derive(Debug, Clone, Copy, PartialEq, Eq, Structural)]
pub struct NewParticleCount {
    /// Particles above 10 µm.
    pub micro_meter_10: u64,
    /// Particles above 60 µm.
    pub micro_meter_60: u64,
    /// Particles above 180 µm.
    pub micro_meter_180: u64,
    /// Particles above 500 µm.
    pub micro_meter_500: u64,
}

impl NewParticleCount {
    /// The reading with the given counts, from the smallest threshold up.
    pub fn new(
        micro_meter_10: u64,
        micro_meter_60: u64,
        micro_meter_180: u64,
        micro_meter_500: u64,
    ) -> (reading: Self)
        ensures
            reading == (NewParticleCount {
                micro_meter_10,
                micro_meter_60,
                micro_meter_180,
                micro_meter_500,
            }),
    {
        Self { micro_meter_10, micro_meter_60, micro_meter_180, micro_meter_500 }
    }
}

impl Default for NewParticleCount {
    fn default() -> (reading: Self)
        ensures
            reading == (NewParticleCount {
                micro_meter_10: 0,
                micro_meter_60: 0,
                micro_meter_180: 0,
                micro_meter_500: 0,
            }),
    {
        Self { micro_meter_10: 0, micro_meter_60: 0, micro_meter_180: 0, micro_meter_500: 0 }
    }
}

/// A stored reading as plain values.
pub struct Reading {
    pub id: Seq<char>,
    pub counts: NewParticleCount,
    pub time: Instant,
}

/// The six fields of a stored reading as they are written, in their order:
/// identifier, the four counts from the smallest threshold up, time.
pub open spec fn row_of(reading: Reading) -> Seq<Seq<char>> {
    seq![
        reading.id,
        decimal_text(reading.counts.micro_meter_10 as nat),
        decimal_text(reading.counts.micro_meter_60 as nat),
        decimal_text(reading.counts.micro_meter_180 as nat),
        decimal_text(reading.counts.micro_meter_500 as nat),
        instant_text(reading.time.seconds, reading.time.nanos),
    ]
}

/// The fields one after the other, with a comma between every two.
pub open spec fn comma_joined(fields: Seq<Seq<char>>) -> Seq<char>
    decreases fields.len(),
{
    if fields.len() == 0 {
        Seq::empty()
    } else if fields.len() == 1 {
        fields[0]
    } else {
        comma_joined(fields.drop_last()) + seq![','] + fields.last()
    }
}

/// The flat positional text form of a stored reading:
/// `id,mm10,mm60,mm180,mm500,time`.
pub open spec fn flat_form(reading: Reading) -> Seq<char> {
    comma_joined(row_of(reading))
}

/// What can be written as one line of a delimited text log.
pub trait CsvWrite {
    fn write_form(&self) -> String;
}

/// A stored reading: the counts of a submitted one, with the identifier and
/// the time that it was given when it was stored.
#[derive(Debug, Clone, PartialEq, Eq)]
pub struct ParticleCount {
    id: String,
    micro_meter_10: u64,
    micro_meter_60: u64,
    micro_meter_180: u64,
    micro_meter_500: u64,
    time: Timestamp,
}

impl View for ParticleCount {
    type V = Reading;

    closed spec fn view(&self) -> Reading {
        Reading {
            id: self.id@,
            counts: NewParticleCount {
                micro_meter_10: self.micro_meter_10,
                micro_meter_60: self.micro_meter_60,
                micro_meter_180: self.micro_meter_180,
                micro_meter_500: self.micro_meter_500,
            },
            time: self.time@,
        }
    }
}

impl DeepView for ParticleCount {
    type V = Reading;

    open spec fn deep_view(&self) -> Reading {
        self@
    }
}

impl ParticleCount {
    /// The stored reading with the given identifier, counts and time.
    pub fn new(
        id: String,
        mm10: u64,
        mm60: u64,
        mm180: u64,
        mm500: u64,
        time: Timestamp,
    ) -> (stored: Self)
        ensures
            stored@ == (Reading {
                id: id@,
                counts: NewParticleCount {
                    micro_meter_10: mm10,
                    micro_meter_60: mm60,
                    micro_meter_180: mm180,
                    micro_meter_500: mm500,
                },
                time: time@,
            }),
    {
        Self {
            id,
            micro_meter_10: mm10,
            micro_meter_60: mm60,
            micro_meter_180: mm180,
            micro_meter_500: mm500,
            time,
        }
    }

    /// The stored form of a submitted reading: its counts, under the given
    /// identifier and time.
    pub fn stamp(value: NewParticleCount, id: String, time: Timestamp) -> (stored: Self)
        ensures
            stored@ == (Reading { id: id@, counts: value, time: time@ }),
    {
        Self::new(
            id,
            value.micro_meter_10,
            value.micro_meter_60,
            value.micro_meter_180,
            value.micro_meter_500,
            time,
        )
    }

    /// The identifier.
    pub fn id(&self) -> (id: &String)
        ensures
            id@ == self@.id,
    {
        &self.id
    }

    /// The four counts.
    pub fn counts(&self) -> (counts: NewParticleCount)
        ensures
            counts == self@.counts,
    {
        NewParticleCount::new(
            self.micro_meter_10,
            self.micro_meter_60,
            self.micro_meter_180,
            self.micro_meter_500,
        )
    }

    /// The time of storing.
    pub fn time(&self) -> (time: Timestamp)
        ensures
            time@ == self@.time,
    {
        self.time
    }
}

impl vstd::std_specs::convert::FromSpecImpl<NewParticleCount> for ParticleCount {
    /// Storing attaches a random identifier and the time of the clock, so
    /// the stored form is no function of the submitted reading.
    open spec fn obeys_from_spec() -> bool {
        false
    }

    open spec fn from_spec(value: NewParticleCount) -> Self {
        arbitrary()
    }
}

impl From<NewParticleCount> for ParticleCount {
    /// The stored form of a submitted reading, under a fresh identifier and
    /// the time that the clock shows.
    fn from(value: NewParticleCount) -> (stored: Self)
        ensures
            stored@.counts == value,
            is_random_uuid_text(stored@.id),
            valid_instant(stored@.time.seconds, stored@.time.nanos),
    {
        let time = Timestamp::now();
        ParticleCount::stamp(value, fresh_id(), time)
    }
}

impl CsvWrite for ParticleCount {
    /// The flat positional text form, without a line end.
    fn write_form(&self) -> (text: String)
        ensures
            text@ == flat_form(self@),
    {
        let mut text = self.id.clone();
        text.append(",");
        text.append(u64_text(self.micro_meter_10).as_str());
        text.append(",");
        text.append(u64_text(self.micro_meter_60).as_str());
        text.append(",");
        text.append(u64_text(self.micro_meter_180).as_str());
        text.append(",");
        text.append(u64_text(self.micro_meter_500).as_str());
        text.append(",");
        text.append(self.time.to_text().as_str());
        proof {
            reveal_strlit(",");
            let row = row_of(self@);
            let one = row.take(1);
            let two = row.take(2);
            let three = row.take(3);
            let four = row.take(4);
            let five = row.take(5);
            assert(two.drop_last() =~= one);
            assert(three.drop_last() =~= two);
            assert(four.drop_last() =~= three);
            assert(five.drop_last() =~= four);
            assert(row.drop_last() =~= five);
            assert(","@ =~= seq![',']);
            assert(comma_joined(one) == row[0]);
            assert(comma_joined(two) == row[0] + seq![','] + row[1]);
            assert(comma_joined(three) == comma_joined(two) + seq![','] + row[2]);
            assert(comma_joined(four) == comma_joined(three) + seq![','] + row[3]);
            assert(comma_joined(five) == comma_joined(four) + seq![','] + row[4]);
            assert(comma_joined(row) == comma_joined(five) + seq![','] + row[5]);
        }
        text
    }
}

} // verus!
