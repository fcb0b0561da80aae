//! The readings as a table of a relational database holds them: a key that
//! the database assigns, the four counts in signed 64-bit columns, and the
//! time of the insert.

use vstd::prelude::*;
use crate::columns::Column;
use crate::decimal::i32_text;
use crate::decimal::integer_written;
use crate::decimal::lemma_signed_numeral_round_trip;
use crate::decimal::read_i32;
use crate::decimal::signed_text;
use crate::instant::valid_instant;
use crate::instant::Instant;
use crate::instant::Timestamp;
use crate::model::DisplayError;
use crate::model::Failure;
use crate::model::NewParticleCount;
use crate::model::ParticleCount;
use crate::model::Reading;

verus! {

/// The values of a row that is to be inserted.
#[derive(Debug, Clone, Copy, PartialEq, Eq, Structural)]
pub struct NewRow {
    pub micro_meter_10: i64,
    pub micro_meter_60: i64,
    pub micro_meter_180: i64,
    pub micro_meter_500: i64,
}

/// A row as the database returns it. The time of the insert is held as
/// seconds and nanoseconds since the epoch.
#[derive(Debug, Clone, Copy, PartialEq, Eq, Structural)]
pub struct Row {
    pub id: i32,
    pub micro_meter_10: i64,
    pub micro_meter_60: i64,
    pub micro_meter_180: i64,
    pub micro_meter_500: i64,
    pub seconds: i64,
    pub nanos: u32,
}

/// Why a reading and a row cannot be turned into each other.
#[derive(Debug, Clone, Copy, PartialEq, Eq, Structural)]
pub enum RowMismatch {
    /// The count is beyond what the other side can hold.
    OutOfRange(Column),
    /// The time of the insert is no instant that the calendar can name.
    Time,
}

impl RowMismatch {
    /// The words that tell the mismatch.
    pub open spec fn words(self) -> Seq<char> {
        match self {
            RowMismatch::OutOfRange(column) => column.name() + ": out of range"@,
            RowMismatch::Time => "insert_time: out of range"@,
        }
    }

    /// The mismatch in words.
    pub fn message(self) -> (message: String)
        ensures
            message@ == self.words(),
    {
        match self {
            RowMismatch::OutOfRange(column) => {
                let mut message = String::from_str(column.title());
                message.append(": out of range");
                message
            },
            RowMismatch::Time => String::from_str("insert_time: out of range"),
        }
    }
}

/// The first of the four counts that a signed column cannot hold.
pub open spec fn first_too_large(reading: NewParticleCount) -> Option<Column> {
    if reading.micro_meter_10 > i64::MAX {
        Some(Column::MicroMeter10)
    } else if reading.micro_meter_60 > i64::MAX {
        Some(Column::MicroMeter60)
    } else if reading.micro_meter_180 > i64::MAX {
        Some(Column::MicroMeter180)
    } else if reading.micro_meter_500 > i64::MAX {
        Some(Column::MicroMeter500)
    } else {
        None
    }
}

/// The first of the four columns of a row that holds a negative number.
pub open spec fn first_negative(row: Row) -> Option<Column> {
    if row.micro_meter_10 < 0 {
        Some(Column::MicroMeter10)
    } else if row.micro_meter_60 < 0 {
        Some(Column::MicroMeter60)
    } else if row.micro_meter_180 < 0 {
        Some(Column::MicroMeter180)
    } else if row.micro_meter_500 < 0 {
        Some(Column::MicroMeter500)
    } else {
        None
    }
}

/// The row to insert for a reading, or the first count that is too large.
pub open spec fn row_to_insert(reading: NewParticleCount) -> Result<NewRow, RowMismatch> {
    match first_too_large(reading) {
        Some(column) => Err(RowMismatch::OutOfRange(column)),
        None => Ok(
            NewRow {
                micro_meter_10: reading.micro_meter_10 as i64,
                micro_meter_60: reading.micro_meter_60 as i64,
                micro_meter_180: reading.micro_meter_180 as i64,
                micro_meter_500: reading.micro_meter_500 as i64,
            },
        ),
    }
}

/// The stored reading that a row holds: its key written as a numeral is the
/// identifier, its counts are the counts, the time of its insert is the
/// time. A negative count is a mismatch, and so is a time that the calendar
/// cannot name; the counts are looked at first.
pub open spec fn reading_of_row(row: Row) -> Result<Reading, RowMismatch> {
    match first_negative(row) {
        Some(column) => Err(RowMismatch::OutOfRange(column)),
        None => if valid_instant(row.seconds as int, row.nanos as int) {
            Ok(
                Reading {
                    id: signed_text(row.id as int),
                    counts: NewParticleCount {
                        micro_meter_10: row.micro_meter_10 as u64,
                        micro_meter_60: row.micro_meter_60 as u64,
                        micro_meter_180: row.micro_meter_180 as u64,
                        micro_meter_500: row.micro_meter_500 as u64,
                    },
                    time: Instant { seconds: row.seconds as int, nanos: row.nanos as int },
                },
            )
        } else {
            Err(RowMismatch::Time)
        },
    }
}

fn column_value(count: u64, column: Column) -> (value: Result<i64, RowMismatch>)
    ensures
        match value {
            Ok(held) => count <= i64::MAX && held == count,
            Err(mismatch) => count > i64::MAX && mismatch == RowMismatch::OutOfRange(column),
        },
{
    if count > i64::MAX as u64 {
        Err(RowMismatch::OutOfRange(column))
    } else {
        Ok(count as i64)
    }
}

fn count_value(held: i64, column: Column) -> (count: Result<u64, RowMismatch>)
    ensures
        match count {
            Ok(count) => held >= 0 && count == held,
            Err(mismatch) => held < 0 && mismatch == RowMismatch::OutOfRange(column),
        },
{
    if held < 0 {
        Err(RowMismatch::OutOfRange(column))
    } else {
        Ok(held as u64)
    }
}

/// Turns a submitted reading into the row to insert.
///
/// Fails with `DatabaseError` and the words of the mismatch where a count
/// is above `i64::MAX`.
pub fn new_row(reading: &NewParticleCount) -> (row: Result<NewRow, DisplayError>)
    ensures
        match row_to_insert(*reading) {
            Ok(values) => row == Ok::<NewRow, DisplayError>(values),
            Err(mismatch) => row matches Err(failure) && failure@ == Failure::DatabaseError(
                mismatch.words(),
            ),
        },
{
    let micro_meter_10 = match column_value(reading.micro_meter_10, Column::MicroMeter10) {
        Ok(value) => value,
        Err(mismatch) => return Err(DisplayError::DatabaseError(mismatch.message())),
    };
    let micro_meter_60 = match column_value(reading.micro_meter_60, Column::MicroMeter60) {
        Ok(value) => value,
        Err(mismatch) => return Err(DisplayError::DatabaseError(mismatch.message())),
    };
    let micro_meter_180 = match column_value(reading.micro_meter_180, Column::MicroMeter180) {
        Ok(value) => value,
        Err(mismatch) => return Err(DisplayError::DatabaseError(mismatch.message())),
    };
    let micro_meter_500 = match column_value(reading.micro_meter_500, Column::MicroMeter500) {
        Ok(value) => value,
        Err(mismatch) => return Err(DisplayError::DatabaseError(mismatch.message())),
    };
    Ok(NewRow { micro_meter_10, micro_meter_60, micro_meter_180, micro_meter_500 })
}

/// Turns a row that the database returned into the stored reading.
///
/// Fails with `DatabaseError` and the words of the mismatch where a count
/// is negative or the time is none that the calendar can name.
pub fn stored_reading(row: &Row) -> (stored: Result<ParticleCount, DisplayError>)
    ensures
        match reading_of_row(*row) {
            Ok(reading) => stored matches Ok(found) && found@ == reading,
            Err(mismatch) => stored matches Err(failure) && failure@ == Failure::DatabaseError(
                mismatch.words(),
            ),
        },
{
    let micro_meter_10 = match count_value(row.micro_meter_10, Column::MicroMeter10) {
        Ok(count) => count,
        Err(mismatch) => return Err(DisplayError::DatabaseError(mismatch.message())),
    };
    let micro_meter_60 = match count_value(row.micro_meter_60, Column::MicroMeter60) {
        Ok(count) => count,
        Err(mismatch) => return Err(DisplayError::DatabaseError(mismatch.message())),
    };
    let micro_meter_180 = match count_value(row.micro_meter_180, Column::MicroMeter180) {
        Ok(count) => count,
        Err(mismatch) => return Err(DisplayError::DatabaseError(mismatch.message())),
    };
    let micro_meter_500 = match count_value(row.micro_meter_500, Column::MicroMeter500) {
        Ok(count) => count,
        Err(mismatch) => return Err(DisplayError::DatabaseError(mismatch.message())),
    };
    let time = match Timestamp::new(row.seconds, row.nanos) {
        Some(time) => time,
        None => return Err(DisplayError::DatabaseError(RowMismatch::Time.message())),
    };
    Ok(
        ParticleCount::new(
            i32_text(row.id),
            micro_meter_10,
            micro_meter_60,
            micro_meter_180,
            micro_meter_500,
            time,
        ),
    )
}

/// Turns the rows that the database returned into stored readings, in the
/// order of the rows. The first row that holds none fails them all.
pub fn stored_readings(rows: &Vec<Row>) -> (stored: Result<Vec<ParticleCount>, DisplayError>)
    ensures
        match stored {
            Ok(found) => found.len() == rows.len() && forall|at: int|
                0 <= at < rows.len() ==> reading_of_row(#[trigger] rows[at]) == Ok::<
                    Reading,
                    RowMismatch,
                >(found[at]@),
            Err(failure) => exists|at: int|
                0 <= at < rows.len() && first_mismatch(rows@, at) && failure@
                    == Failure::DatabaseError(reading_of_row(rows[at])->Err_0.words()),
        },
{
    let mut readings: Vec<ParticleCount> = Vec::new();
    let mut at: usize = 0;
    while at < rows.len()
        invariant
            at <= rows.len(),
            readings.len() == at,
            forall|i: int|
                0 <= i < at ==> reading_of_row(#[trigger] rows[i]) == Ok::<Reading, RowMismatch>(
                    readings[i]@,
                ),
        decreases rows.len() - at,
    {
        match stored_reading(&rows[at]) {
            Ok(reading) => readings.push(reading),
            Err(failure) => {
                assert(first_mismatch(rows@, at as int));
                return Err(failure);
            },
        }
        at += 1;
    }
    Ok(readings)
}

/// The key of the row that a stored reading came from: the integer that its
/// identifier is the numeral of. `None` for a reading that came from no
/// row, such as one with a random identifier.
pub fn key_of(stored: &ParticleCount) -> (key: Option<i32>)
    ensures
        key == integer_written(stored@.id),
{
    read_i32(stored.id().as_str())
}

/// The reading that a row holds has the key of the row.
pub proof fn lemma_a_reading_keeps_the_key_of_its_row(row: Row)
    requires
        reading_of_row(row) is Ok,
    ensures
        integer_written(reading_of_row(row)->Ok_0.id) == Some(row.id),
{
    lemma_signed_numeral_round_trip(row.id);
}

/// The row at `at` holds no reading, and every row before it holds one.
pub open spec fn first_mismatch(rows: Seq<Row>, at: int) -> bool {
    &&& 0 <= at < rows.len()
    &&& reading_of_row(rows[at]) is Err
    &&& forall|before: int| 0 <= before < at ==> reading_of_row(#[trigger] rows[before]) is Ok
}

/// A submitted reading that is inserted and handed back by the database
/// with its counts untouched is stored with the counts that were submitted.
pub proof fn lemma_counts_survive_the_table(
    reading: NewParticleCount,
    id: i32,
    seconds: i64,
    nanos: u32,
)
    requires
        row_to_insert(reading) is Ok,
        valid_instant(seconds as int, nanos as int),
    ensures
        ({
            let inserted = row_to_insert(reading)->Ok_0;
            let returned = Row {
                id,
                micro_meter_10: inserted.micro_meter_10,
                micro_meter_60: inserted.micro_meter_60,
                micro_meter_180: inserted.micro_meter_180,
                micro_meter_500: inserted.micro_meter_500,
                seconds,
                nanos,
            };
            reading_of_row(returned) matches Ok(stored) && stored.counts == reading
        }),
{
}

} // verus!
