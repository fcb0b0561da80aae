//! The text log: readings kept as delimited text, one line each, under a
//! header that names the columns.

use vstd::prelude::*;
use vstd::utf8::decode_utf8;
use vstd::utf8::encode_utf8;
use vstd::utf8::valid_utf8;
use crate::columns::column_place;
use crate::columns::lemma_a_name_names_one_column;
use crate::columns::lemma_alike_headers_place_alike;
use crate::columns::name_alike;
use crate::columns::names_once;
use crate::columns::place_of;
use crate::columns::Column;
use crate::decimal::decimal_text;
use crate::decimal::lemma_numeral_round_trip;
use crate::decimal::parse_decimal;
use crate::decimal::parse_u64;
use crate::decimal::u64_text;
use crate::decimal::NumberFault;
use crate::instant::instant_text;
use crate::instant::read_instant;
use crate::instant::Instant;
use crate::instant::Timestamp;
use crate::model::flat_form;
use crate::model::row_of;
use crate::model::CsvWrite;
use crate::model::DisplayError;
use crate::model::Failure;
use crate::model::NewParticleCount;
use crate::model::ParticleCount;
use crate::model::Reading;

verus! {

/// The error of the `csv` crate.
#[verifier::external_type_specification]
#[verifier::external_body]
pub struct ExCsvError(csv::Error);

/// The error of `String::from_utf8`.
#[verifier::external_type_specification]
#[verifier::external_body]
pub struct ExFromUtf8Error(std::string::FromUtf8Error);

/// The records that delimited text holds, each as its fields, the header's
/// record first; `None` where the text cannot be split into records of
/// UTF-8 fields.
pub uninterp spec fn csv_table(bytes: Seq<u8>) -> Option<Seq<Seq<Seq<char>>>>;

/// The records of `csv::Reader::records`, for a reader that
/// `csv::ReaderBuilder` made over the bytes with `has_headers(false)` and
/// `flexible(true)`: every record is handed out, the first too, and records
/// may differ in length. Each `StringRecord` is copied out field by field.
///
/// The records are a function of the bytes alone. The first error of the
/// reader ends the reading.
#[verifier::external_body]
fn csv_records(bytes: &[u8]) -> (table: Result<Vec<Vec<String>>, csv::Error>)
    ensures
        table matches Ok(records) ==> csv_table(bytes@) == Some(records.deep_view()),
        table is Err ==> csv_table(bytes@) is None,
{
    let mut reader = csv::ReaderBuilder::new().has_headers(false).flexible(true).from_reader(bytes);
    let records: Result<Vec<csv::StringRecord>, csv::Error> = reader.records().collect();
    records.map(|all| all.iter().map(|record| record.iter().map(String::from).collect()).collect())
}

/// The `Display` of `csv::Error`. Nothing is stated of the words.
#[verifier::external_body]
fn csv_error_text(error: &csv::Error) -> (text: String) {
    error.to_string()
}

/// `String::from_utf8`: the text that the bytes encode, or an error where
/// they are not UTF-8.
#[verifier::external_body]
fn utf8_text(bytes: Vec<u8>) -> (text: Result<String, std::string::FromUtf8Error>)
    ensures
        text is Ok <==> valid_utf8(bytes@),
        text matches Ok(decoded) ==> decoded@ == decode_utf8(bytes@),
{
    String::from_utf8(bytes)
}

/// The `Display` of `std::string::FromUtf8Error`. Nothing is stated of the
/// words.
#[verifier::external_body]
fn utf8_error_text(error: &std::string::FromUtf8Error) -> (text: String) {
    error.to_string()
}

/// Why a row is not a reading.
#[derive(Clone, Copy, Debug, PartialEq, Eq, Structural)]
pub enum RowFault {
    /// The header names the column nowhere, or more than once.
    Unnamed(Column),
    /// The row ends before the column.
    Missing(Column),
    /// The field of a count is not the numeral of a `u64`.
    Count(Column, NumberFault),
    /// The field of the time is not an RFC 3339 date and time.
    Time,
}

impl RowFault {
    /// The words that tell the fault.
    pub open spec fn words(self) -> Seq<char> {
        match self {
            RowFault::Unnamed(column) => "no single column is named "@ + column.name(),
            RowFault::Missing(column) => "the row ends before "@ + column.name(),
            RowFault::Count(column, fault) => column.name() + ": "@ + fault.words(),
            RowFault::Time => "time: not an RFC 3339 date and time"@,
        }
    }

    /// The fault in words.
    pub fn message(self) -> (message: String)
        ensures
            message@ == self.words(),
    {
        match self {
            RowFault::Unnamed(column) => {
                let mut message = String::from_str("no single column is named ");
                message.append(column.title());
                message
            },
            RowFault::Missing(column) => {
                let mut message = String::from_str("the row ends before ");
                message.append(column.title());
                message
            },
            RowFault::Count(column, fault) => {
                let mut message = String::from_str(column.title());
                message.append(": ");
                message.append(fault.message().as_str());
                message
            },
            RowFault::Time => String::from_str("time: not an RFC 3339 date and time"),
        }
    }
}

/// The field of `row` under `column`.
pub open spec fn cell(header: Seq<Seq<char>>, row: Seq<Seq<char>>, column: Column) -> Result<
    Seq<char>,
    RowFault,
> {
    match column_place(header, column) {
        None => Err(RowFault::Unnamed(column)),
        Some(place) => if place < row.len() {
            Ok(row[place])
        } else {
            Err(RowFault::Missing(column))
        },
    }
}

/// The count that `row` has under `column`.
pub open spec fn count_cell(header: Seq<Seq<char>>, row: Seq<Seq<char>>, column: Column) -> Result<
    u64,
    RowFault,
> {
    match cell(header, row, column) {
        Err(fault) => Err(fault),
        Ok(text) => match parse_decimal(text) {
            Ok(count) => Ok(count),
            Err(fault) => Err(RowFault::Count(column, fault)),
        },
    }
}

/// The time that `row` has.
pub open spec fn time_cell(header: Seq<Seq<char>>, row: Seq<Seq<char>>) -> Result<
    Instant,
    RowFault,
> {
    match cell(header, row, Column::Time) {
        Err(fault) => Err(fault),
        Ok(text) => match read_instant(text) {
            Some(time) => Ok(time),
            None => Err(RowFault::Time),
        },
    }
}

/// The reading that a row denotes under a header.
///
/// Each of the six columns is looked up by its name, so neither the order of
/// the columns matters nor what else the header or the row holds. The columns
/// are taken in the order identifier, counts from the smallest threshold up,
/// time; the first that cannot be had decides the fault.
pub open spec fn decode_row(header: Seq<Seq<char>>, row: Seq<Seq<char>>) -> Result<
    Reading,
    RowFault,
> {
    let id = cell(header, row, Column::Id);
    let micro_meter_10 = count_cell(header, row, Column::MicroMeter10);
    let micro_meter_60 = count_cell(header, row, Column::MicroMeter60);
    let micro_meter_180 = count_cell(header, row, Column::MicroMeter180);
    let micro_meter_500 = count_cell(header, row, Column::MicroMeter500);
    let time = time_cell(header, row);
    if id is Err {
        Err(id->Err_0)
    } else if micro_meter_10 is Err {
        Err(micro_meter_10->Err_0)
    } else if micro_meter_60 is Err {
        Err(micro_meter_60->Err_0)
    } else if micro_meter_180 is Err {
        Err(micro_meter_180->Err_0)
    } else if micro_meter_500 is Err {
        Err(micro_meter_500->Err_0)
    } else if time is Err {
        Err(time->Err_0)
    } else {
        Ok(
            Reading {
                id: id->Ok_0,
                counts: NewParticleCount {
                    micro_meter_10: micro_meter_10->Ok_0,
                    micro_meter_60: micro_meter_60->Ok_0,
                    micro_meter_180: micro_meter_180->Ok_0,
                    micro_meter_500: micro_meter_500->Ok_0,
                },
                time: time->Ok_0,
            },
        )
    }
}

/// Where a header has each of the six columns.
struct Layout {
    id: Option<usize>,
    micro_meter_10: Option<usize>,
    micro_meter_60: Option<usize>,
    micro_meter_180: Option<usize>,
    micro_meter_500: Option<usize>,
    time: Option<usize>,
}

impl Layout {
    /// The place that the layout has for `column`.
    spec fn place(self, column: Column) -> Option<int> {
        let place = match column {
            Column::Id => self.id,
            Column::MicroMeter10 => self.micro_meter_10,
            Column::MicroMeter60 => self.micro_meter_60,
            Column::MicroMeter180 => self.micro_meter_180,
            Column::MicroMeter500 => self.micro_meter_500,
            Column::Time => self.time,
        };
        match place {
            Some(at) => Some(at as int),
            None => None,
        }
    }

    /// The layout is that of `header`.
    spec fn is_of(self, header: Seq<Seq<char>>) -> bool {
        forall|column: Column| #[trigger] self.place(column) == column_place(header, column)
    }

    /// Looks the six columns up in a header.
    fn of(header: &Vec<String>) -> (layout: Layout)
        ensures
            layout.is_of(header.deep_view()),
    {
        Layout {
            id: place_of(header, Column::Id),
            micro_meter_10: place_of(header, Column::MicroMeter10),
            micro_meter_60: place_of(header, Column::MicroMeter60),
            micro_meter_180: place_of(header, Column::MicroMeter180),
            micro_meter_500: place_of(header, Column::MicroMeter500),
            time: place_of(header, Column::Time),
        }
    }

    fn at(&self, column: Column) -> (place: Option<usize>)
        ensures
            place is Some <==> self.place(column) is Some,
            place matches Some(at) ==> self.place(column) == Some(at as int),
    {
        match column {
            Column::Id => self.id,
            Column::MicroMeter10 => self.micro_meter_10,
            Column::MicroMeter60 => self.micro_meter_60,
            Column::MicroMeter180 => self.micro_meter_180,
            Column::MicroMeter500 => self.micro_meter_500,
            Column::Time => self.time,
        }
    }

    fn field<'a>(&self, row: &'a Vec<String>, column: Column, Ghost(header): Ghost<
        Seq<Seq<char>>,
    >) -> (field: Result<&'a String, RowFault>)
        requires
            self.is_of(header),
        ensures
            match cell(header, row.deep_view(), column) {
                Ok(text) => field matches Ok(found) && found@ == text,
                Err(fault) => field == Err::<&String, RowFault>(fault),
            },
    {
        assert(self.place(column) == column_place(header, column));
        match self.at(column) {
            None => Err(RowFault::Unnamed(column)),
            Some(place) => if place < row.len() {
                assert(row.deep_view()[place as int] == row[place as int]@);
                Ok(&row[place])
            } else {
                Err(RowFault::Missing(column))
            },
        }
    }

    fn count(&self, row: &Vec<String>, column: Column, Ghost(header): Ghost<
        Seq<Seq<char>>,
    >) -> (count: Result<u64, RowFault>)
        requires
            self.is_of(header),
        ensures
            count == count_cell(header, row.deep_view(), column),
    {
        match self.field(row, column, Ghost(header)) {
            Err(fault) => Err(fault),
            Ok(text) => match parse_u64(text.as_str()) {
                Ok(count) => Ok(count),
                Err(fault) => Err(RowFault::Count(column, fault)),
            },
        }
    }

    fn time(&self, row: &Vec<String>, Ghost(header): Ghost<Seq<Seq<char>>>) -> (time: Result<
        Timestamp,
        RowFault,
    >)
        requires
            self.is_of(header),
        ensures
            match time_cell(header, row.deep_view()) {
                Ok(instant) => time matches Ok(found) && found@ == instant,
                Err(fault) => time == Err::<Timestamp, RowFault>(fault),
            },
    {
        match self.field(row, Column::Time, Ghost(header)) {
            Err(fault) => Err(fault),
            Ok(text) => match Timestamp::parse(text.as_str()) {
                Some(time) => Ok(time),
                None => Err(RowFault::Time),
            },
        }
    }

    fn reading(&self, row: &Vec<String>, Ghost(header): Ghost<Seq<Seq<char>>>) -> (reading: Result<
        ParticleCount,
        RowFault,
    >)
        requires
            self.is_of(header),
        ensures
            match decode_row(header, row.deep_view()) {
                Ok(denoted) => reading matches Ok(found) && found@ == denoted,
                Err(fault) => reading == Err::<ParticleCount, RowFault>(fault),
            },
    {
        let id = match self.field(row, Column::Id, Ghost(header)) {
            Ok(id) => id.clone(),
            Err(fault) => return Err(fault),
        };
        let micro_meter_10 = match self.count(row, Column::MicroMeter10, Ghost(header)) {
            Ok(count) => count,
            Err(fault) => return Err(fault),
        };
        let micro_meter_60 = match self.count(row, Column::MicroMeter60, Ghost(header)) {
            Ok(count) => count,
            Err(fault) => return Err(fault),
        };
        let micro_meter_180 = match self.count(row, Column::MicroMeter180, Ghost(header)) {
            Ok(count) => count,
            Err(fault) => return Err(fault),
        };
        let micro_meter_500 = match self.count(row, Column::MicroMeter500, Ghost(header)) {
            Ok(count) => count,
            Err(fault) => return Err(fault),
        };
        let time = match self.time(row, Ghost(header)) {
            Ok(time) => time,
            Err(fault) => return Err(fault),
        };
        Ok(
            ParticleCount::new(
                id,
                micro_meter_10,
                micro_meter_60,
                micro_meter_180,
                micro_meter_500,
                time,
            ),
        )
    }
}

/// Reads one row under a header.
pub fn read_row(header: &Vec<String>, row: &Vec<String>) -> (reading: Result<
    ParticleCount,
    RowFault,
>)
    ensures
        match decode_row(header.deep_view(), row.deep_view()) {
            Ok(denoted) => reading matches Ok(found) && found@ == denoted,
            Err(fault) => reading == Err::<ParticleCount, RowFault>(fault),
        },
{
    Layout::of(header).reading(row, Ghost(header.deep_view()))
}

/// The first of `rows` that is no reading under `header`, by its place
/// among them, with its fault.
pub open spec fn first_fault(header: Seq<Seq<char>>, rows: Seq<Seq<Seq<char>>>) -> Option<
    (int, RowFault),
>
    decreases rows.len(),
{
    if rows.len() == 0 {
        None
    } else {
        match first_fault(header, rows.drop_last()) {
            Some(found) => Some(found),
            None => match decode_row(header, rows.last()) {
                Ok(_) => None,
                Err(fault) => Some((rows.len() - 1, fault)),
            },
        }
    }
}

/// The readings that a table denotes: its first record is the header, and
/// every record after it is one reading, in the order of the table.
///
/// One row that is no reading fails the whole table, with the first such row
/// and its fault. A table without rows denotes no readings, whatever its
/// header.
pub open spec fn decode_table(table: Seq<Seq<Seq<char>>>) -> Result<Seq<Reading>, (int, RowFault)> {
    if table.len() == 0 {
        Ok(Seq::empty())
    } else {
        let header = table[0];
        let rows = table.skip(1);
        match first_fault(header, rows) {
            Some(found) => Err(found),
            None => Ok(Seq::new(rows.len(), |at: int| decode_row(header, rows[at])->Ok_0)),
        }
    }
}

/// The words that tell which row failed, counted from one, and why.
pub open spec fn table_fault_words(row: int, fault: RowFault) -> Seq<char> {
    "record "@ + decimal_text((row + 1) as nat) + ": "@ + fault.words()
}

fn table_fault_message(row: usize, fault: RowFault) -> (message: String)
    requires
        row < usize::MAX,
    ensures
        message@ == table_fault_words(row as int, fault),
{
    let mut message = String::from_str("record ");
    message.append(u64_text((row + 1) as u64).as_str());
    message.append(": ");
    message.append(fault.message().as_str());
    message
}

/// Reads a table of records as readings.
///
/// Fails with `Serde` and the words of the first row that is no reading.
pub fn read_table(table: &Vec<Vec<String>>) -> (readings: Result<Vec<ParticleCount>, DisplayError>)
    ensures
        match decode_table(table.deep_view()) {
            Ok(denoted) => readings matches Ok(found) && found.deep_view() == denoted,
            Err((row, fault)) => readings matches Err(failure) && failure@ == Failure::Serde(
                table_fault_words(row, fault),
            ),
        },
{
    let mut readings: Vec<ParticleCount> = Vec::new();
    if table.len() == 0 {
        assert(readings.deep_view() =~= Seq::empty());
        return Ok(readings);
    }
    let ghost header = table.deep_view()[0];
    let ghost rows = table.deep_view().skip(1);
    assert(header == table[0].deep_view());
    let layout = Layout::of(&table[0]);
    let mut at: usize = 1;
    while at < table.len()
        invariant
            1 <= at <= table.len(),
            layout.is_of(header),
            header == table.deep_view()[0],
            rows == table.deep_view().skip(1),
            first_fault(header, rows.take(at - 1)) is None,
            readings.len() == at - 1,
            forall|i: int|
                0 <= i < at - 1 ==> decode_row(header, rows[i]) == Ok::<Reading, RowFault>(
                    #[trigger] readings[i]@,
                ),
        decreases table.len() - at,
    {
        let ghost seen = at - 1;
        proof {
            assert(rows.take(seen + 1).drop_last() =~= rows.take(seen));
            assert(rows.take(seen + 1).last() == rows[seen]);
            assert(rows[seen] == table[at as int].deep_view());
        }
        match layout.reading(&table[at], Ghost(header)) {
            Ok(reading) => {
                readings.push(reading);
            },
            Err(fault) => {
                proof {
                    lemma_first_fault_stays(header, rows, seen + 1);
                }
                return Err(DisplayError::Serde(table_fault_message(at - 1, fault)));
            },
        }
        at += 1;
    }
    proof {
        assert(rows.take(at - 1) =~= rows);
        let denoted = decode_table(table.deep_view())->Ok_0;
        assert(readings.deep_view() =~= denoted);
    }
    Ok(readings)
}

/// Reads the contents of a log as readings, in the order of its lines.
///
/// The contents are delimited text: a header that names the columns, then
/// one record for each reading. Fails with `Serde` where the contents cannot
/// be split into records, and where a record is no reading.
pub fn parse_contents(contents: &[u8]) -> (readings: Result<Vec<ParticleCount>, DisplayError>)
    ensures
        match csv_table(contents@) {
            None => readings matches Err(failure) && failure@ is Serde,
            Some(table) => match decode_table(table) {
                Ok(denoted) => readings matches Ok(found) && found.deep_view() == denoted,
                Err((row, fault)) => readings matches Err(failure) && failure@ == Failure::Serde(
                    table_fault_words(row, fault),
                ),
            },
        },
{
    match csv_records(contents) {
        Ok(table) => read_table(&table),
        Err(error) => Err(DisplayError::Serde(csv_error_text(&error))),
    }
}

/// Loads the readings of a log, given what reading the bytes of its file
/// came to: the bytes, or the words of why they could not be read.
///
/// Fails with `FileReadError` and those words where the file could not be
/// read, and as `parse_contents` does where it could.
pub fn parse_data(contents: Result<Vec<u8>, String>) -> (readings: Result<
    Vec<ParticleCount>,
    DisplayError,
>)
    ensures
        match contents {
            Err(why) => readings matches Err(failure) && failure@ == Failure::FileReadError(why@),
            Ok(bytes) => match csv_table(bytes@) {
                None => readings matches Err(failure) && failure@ is Serde,
                Some(table) => match decode_table(table) {
                    Ok(denoted) => readings matches Ok(found) && found.deep_view() == denoted,
                    Err((row, fault)) => readings matches Err(failure) && failure@
                        == Failure::Serde(table_fault_words(row, fault)),
                },
            },
        },
{
    match contents {
        Ok(bytes) => parse_contents(bytes.as_slice()),
        Err(why) => Err(DisplayError::FileReadError(why)),
    }
}

/// The bytes of the one line that a reading takes in the log: its flat form
/// and a line feed.
pub open spec fn line_bytes(reading: Reading) -> Seq<u8> {
    encode_utf8(flat_form(reading) + seq!['\n'])
}

/// Appends the line of `data` to the contents of a log. What the log held
/// stays as it was, and nothing but the one line is added.
pub fn write_data(log: &mut Vec<u8>, data: &ParticleCount)
    ensures
        final(log)@ == old(log)@ + line_bytes(data@),
{
    let mut line = data.write_form();
    line.append("\n");
    proof {
        reveal_strlit("\n");
        assert("\n"@ =~= seq!['\n']);
    }
    log.extend_from_slice(line.as_str().as_bytes());
    assert(log@ =~= old(log)@ + line_bytes(data@));
}

/// What appending a line to the log came to, given what the file system
/// made of it: nothing to tell, or the words of why the file could not be
/// opened or written.
///
/// Fails with `WriteError` and those words, whichever of the two was
/// refused: a log that is not there cannot be appended to.
pub fn write_outcome(appended: Result<(), String>) -> (outcome: Result<(), DisplayError>)
    ensures
        match appended {
            Ok(_) => outcome is Ok,
            Err(why) => outcome matches Err(failure) && failure@ == Failure::WriteError(why@),
        },
{
    match appended {
        Ok(_) => Ok(()),
        Err(why) => Err(DisplayError::WriteError(why)),
    }
}

/// Reads a file as text, given what reading its bytes came to: the bytes,
/// or the words of why they could not be read.
///
/// Fails with `FileReadError` and those words where the file could not be
/// read, and with `U8parseError` where its bytes are not UTF-8.
pub fn read_file(contents: Result<Vec<u8>, String>) -> (text: Result<String, DisplayError>)
    ensures
        match contents {
            Err(why) => text matches Err(failure) && failure@ == Failure::FileReadError(why@),
            Ok(bytes) => if valid_utf8(bytes@) {
                text matches Ok(decoded) && decoded@ == decode_utf8(bytes@)
            } else {
                text matches Err(failure) && failure@ is U8parseError
            },
        },
{
    match contents {
        Err(why) => Err(DisplayError::FileReadError(why)),
        Ok(bytes) => match utf8_text(bytes) {
            Ok(text) => Ok(text),
            Err(error) => Err(DisplayError::U8parseError(utf8_error_text(&error))),
        },
    }
}

/// The header under which the log is written: the six names, in the order
/// of the flat form.
pub open spec fn standard_header() -> Seq<Seq<char>> {
    seq![
        Column::Id.name(),
        Column::MicroMeter10.name(),
        Column::MicroMeter60.name(),
        Column::MicroMeter180.name(),
        Column::MicroMeter500.name(),
        Column::Time.name(),
    ]
}

/// The place of a column in the flat form.
pub open spec fn standard_place(column: Column) -> int {
    match column {
        Column::Id => 0,
        Column::MicroMeter10 => 1,
        Column::MicroMeter60 => 2,
        Column::MicroMeter180 => 3,
        Column::MicroMeter500 => 4,
        Column::Time => 5,
    }
}

/// The standard header names every column once, at its place in the flat
/// form.
pub proof fn lemma_standard_header_names_each_column(column: Column)
    ensures
        column_place(standard_header(), column) == Some(standard_place(column)),
{
    let header = standard_header();
    let place = standard_place(column);
    lemma_a_name_names_one_column(Column::Id, column);
    lemma_a_name_names_one_column(Column::MicroMeter10, column);
    lemma_a_name_names_one_column(Column::MicroMeter60, column);
    lemma_a_name_names_one_column(Column::MicroMeter180, column);
    lemma_a_name_names_one_column(Column::MicroMeter500, column);
    lemma_a_name_names_one_column(Column::Time, column);
    assert(names_once(header, column, place));
}

/// The six fields that a reading is written as, read as a row under the
/// standard header, give the identifier that the reading had, whatever it
/// holds, the four counts that it had, and for the time the instant that
/// its written text denotes; where that text denotes none, the row is no
/// reading.
pub proof fn lemma_written_row_reads_back(reading: Reading)
    ensures
        decode_row(standard_header(), row_of(reading)) == match read_instant(
            instant_text(reading.time.seconds, reading.time.nanos),
        ) {
            Some(time) => Ok::<Reading, RowFault>(
                Reading { id: reading.id, counts: reading.counts, time },
            ),
            None => Err::<Reading, RowFault>(RowFault::Time),
        },
{
    lemma_standard_header_names_each_column(Column::Id);
    lemma_standard_header_names_each_column(Column::MicroMeter10);
    lemma_standard_header_names_each_column(Column::MicroMeter60);
    lemma_standard_header_names_each_column(Column::MicroMeter180);
    lemma_standard_header_names_each_column(Column::MicroMeter500);
    lemma_standard_header_names_each_column(Column::Time);
    lemma_numeral_round_trip(reading.counts.micro_meter_10);
    lemma_numeral_round_trip(reading.counts.micro_meter_60);
    lemma_numeral_round_trip(reading.counts.micro_meter_180);
    lemma_numeral_round_trip(reading.counts.micro_meter_500);
}

/// Whether a row is a reading is decided by the fields that it has under
/// the six named columns, and by nothing else: it is one exactly when each
/// of the six can be had, the four counts are numerals and the time is a
/// date and time. How many fields the row has beside them, and how many
/// columns the header, does not enter.
pub proof fn lemma_row_is_judged_by_its_named_fields(header: Seq<Seq<char>>, row: Seq<Seq<char>>)
    ensures
        decode_row(header, row) is Ok <==> {
            &&& forall|column: Column| #[trigger] cell(header, row, column) is Ok
            &&& parse_decimal(cell(header, row, Column::MicroMeter10)->Ok_0) is Ok
            &&& parse_decimal(cell(header, row, Column::MicroMeter60)->Ok_0) is Ok
            &&& parse_decimal(cell(header, row, Column::MicroMeter180)->Ok_0) is Ok
            &&& parse_decimal(cell(header, row, Column::MicroMeter500)->Ok_0) is Ok
            &&& read_instant(cell(header, row, Column::Time)->Ok_0) is Some
        },
{
    if decode_row(header, row) is Ok {
        assert forall|column: Column| #[trigger] cell(header, row, column) is Ok by {
            match column {
                Column::Id => {},
                Column::MicroMeter10 => {},
                Column::MicroMeter60 => {},
                Column::MicroMeter180 => {},
                Column::MicroMeter500 => {},
                Column::Time => {},
            }
        }
    } else if forall|column: Column| #[trigger] cell(header, row, column) is Ok {
        assert(cell(header, row, Column::Id) is Ok);
        assert(cell(header, row, Column::MicroMeter10) is Ok);
        assert(cell(header, row, Column::MicroMeter60) is Ok);
        assert(cell(header, row, Column::MicroMeter180) is Ok);
        assert(cell(header, row, Column::MicroMeter500) is Ok);
        assert(cell(header, row, Column::Time) is Ok);
    }
}

/// Two rows that have the same fields under the six named columns denote
/// the same, however many fields each of them has.
pub proof fn lemma_rows_alike_under_the_columns(
    header: Seq<Seq<char>>,
    one: Seq<Seq<char>>,
    other: Seq<Seq<char>>,
)
    requires
        forall|column: Column| #[trigger] cell(header, one, column) == cell(header, other, column),
    ensures
        decode_row(header, one) == decode_row(header, other),
{
    assert(cell(header, one, Column::Id) == cell(header, other, Column::Id));
    assert(cell(header, one, Column::MicroMeter10) == cell(header, other, Column::MicroMeter10));
    assert(cell(header, one, Column::MicroMeter60) == cell(header, other, Column::MicroMeter60));
    assert(cell(header, one, Column::MicroMeter180) == cell(header, other, Column::MicroMeter180));
    assert(cell(header, one, Column::MicroMeter500) == cell(header, other, Column::MicroMeter500));
    assert(cell(header, one, Column::Time) == cell(header, other, Column::Time));
}

/// A header may name a count by its alias: rows denote under it what they
/// denote under the header that has the name in its place.
pub proof fn lemma_aliases_change_nothing(
    header: Seq<Seq<char>>,
    renamed: Seq<Seq<char>>,
    row: Seq<Seq<char>>,
)
    requires
        header.len() == renamed.len(),
        forall|at: int| 0 <= at < header.len() ==> name_alike(#[trigger] renamed[at], header[at]),
    ensures
        decode_row(renamed, row) == decode_row(header, row),
{
    lemma_alike_headers_place_alike(header, renamed, Column::Id);
    lemma_alike_headers_place_alike(header, renamed, Column::MicroMeter10);
    lemma_alike_headers_place_alike(header, renamed, Column::MicroMeter60);
    lemma_alike_headers_place_alike(header, renamed, Column::MicroMeter180);
    lemma_alike_headers_place_alike(header, renamed, Column::MicroMeter500);
    lemma_alike_headers_place_alike(header, renamed, Column::Time);
}

/// Fields that follow those of a reading change nothing of it.
pub proof fn lemma_further_fields_change_nothing(
    header: Seq<Seq<char>>,
    row: Seq<Seq<char>>,
    further: Seq<Seq<char>>,
)
    requires
        decode_row(header, row) is Ok,
    ensures
        decode_row(header, row + further) == decode_row(header, row),
{
    lemma_row_is_judged_by_its_named_fields(header, row);
    assert forall|column: Column| #[trigger]
        cell(header, row + further, column) == cell(header, row, column) by {
        assert(cell(header, row, column) is Ok);
    }
    lemma_rows_alike_under_the_columns(header, row + further, row);
}

/// A fault among the first rows is the first fault of all the rows.
proof fn lemma_first_fault_stays(header: Seq<Seq<char>>, rows: Seq<Seq<Seq<char>>>, upto: int)
    requires
        0 <= upto <= rows.len(),
        first_fault(header, rows.take(upto)) is Some,
    ensures
        first_fault(header, rows) == first_fault(header, rows.take(upto)),
    decreases rows.len() - upto,
{
    if upto < rows.len() {
        assert(rows.take(upto + 1).drop_last() =~= rows.take(upto));
        lemma_first_fault_stays(header, rows, upto + 1);
    } else {
        assert(rows.take(upto) =~= rows);
    }
}

} // verus!
