use particle_collector::instant::Timestamp;
use particle_collector::instant::MAX_SECONDS;
use particle_collector::model::DisplayError;
use particle_collector::model::NewParticleCount;
use particle_collector::model::ParticleCount;
use particle_collector::relational::new_row;
use particle_collector::relational::stored_reading;
use particle_collector::relational::stored_readings;
use particle_collector::relational::NewRow;
use particle_collector::relational::Row;
use particle_collector::relational::RowMismatch;
use particle_collector::columns::Column;
use particle_collector::decimal::i32_text;
use particle_collector::decimal::read_i32;
use particle_collector::relational::key_of;

fn row(id: i32, counts: [i64; 4]) -> Row {
    Row {
        id,
        micro_meter_10: counts[0],
        micro_meter_60: counts[1],
        micro_meter_180: counts[2],
        micro_meter_500: counts[3],
        seconds: 1_692_484_369,
        nanos: 582_287_501,
    }
}

fn refused<T>(words: &str) -> Result<T, DisplayError> {
    Err(DisplayError::DatabaseError(words.to_string()))
}

#[test]
fn keys_are_written_as_numerals() {
    assert_eq!(i32_text(0), "0");
    assert_eq!(i32_text(1), "1");
    assert_eq!(i32_text(-1), "-1");
    assert_eq!(i32_text(i32::MAX), "2147483647");
    assert_eq!(i32_text(i32::MIN), "-2147483648");
}

#[test]
fn numerals_of_keys_are_read() {
    assert_eq!(read_i32("0"), Some(0));
    assert_eq!(read_i32("17"), Some(17));
    assert_eq!(read_i32("-17"), Some(-17));
    assert_eq!(read_i32("2147483647"), Some(i32::MAX));
    assert_eq!(read_i32("-2147483648"), Some(i32::MIN));
    for key in [0, 1, -1, 9, 10, -10, 1234567890, i32::MAX, i32::MIN] {
        assert_eq!(read_i32(&i32_text(key)), Some(key));
    }
}

#[test]
fn what_is_not_written_as_a_key_is_not_read_as_one() {
    for text in [
        "", "-", "+1", "01", "-0", "-01", "00", " 1", "1 ", "1.0", "2147483648", "-2147483649",
        "99999999999999999999", "ba31bb3c-cf22-4635-88e6-1e12b5cceae0", "--1", "1-", "١",
    ] {
        assert_eq!(read_i32(text), None, "{:?}", text);
    }
}

#[test]
fn a_stored_reading_has_the_key_of_its_row() {
    assert_eq!(key_of(&stored_reading(&row(17, [1, 2, 3, 4])).unwrap()), Some(17));
    assert_eq!(key_of(&stored_reading(&row(-3, [1, 2, 3, 4])).unwrap()), Some(-3));
    assert_eq!(key_of(&stored_reading(&row(i32::MIN, [1, 2, 3, 4])).unwrap()), Some(i32::MIN));
    assert_eq!(key_of(&ParticleCount::from(NewParticleCount::new(1, 2, 3, 4))), None);
}

#[test]
fn a_reading_becomes_the_row_to_insert() {
    assert_eq!(
        new_row(&NewParticleCount::new(1, 2, 3, 4)),
        Ok(NewRow { micro_meter_10: 1, micro_meter_60: 2, micro_meter_180: 3, micro_meter_500: 4 })
    );
    let most = i64::MAX as u64;
    assert_eq!(
        new_row(&NewParticleCount::new(0, most, 0, most)),
        Ok(NewRow {
            micro_meter_10: 0,
            micro_meter_60: i64::MAX,
            micro_meter_180: 0,
            micro_meter_500: i64::MAX
        })
    );
}

#[test]
fn a_count_that_the_column_cannot_hold_is_refused() {
    let most = i64::MAX as u64;
    assert_eq!(
        new_row(&NewParticleCount::new(most + 1, 2, 3, 4)),
        refused("micro_meter_10: out of range")
    );
    assert_eq!(
        new_row(&NewParticleCount::new(1, 2, u64::MAX, u64::MAX)),
        refused("micro_meter_180: out of range")
    );
    assert_eq!(
        new_row(&NewParticleCount::new(1, 2, 3, most + 1)),
        refused("micro_meter_500: out of range")
    );
}

#[test]
fn a_row_becomes_the_stored_reading() {
    assert_eq!(
        stored_reading(&row(17, [1, 2, 3, 4])),
        Ok(ParticleCount::new(
            "17".to_string(),
            1,
            2,
            3,
            4,
            Timestamp::new(1_692_484_369, 582_287_501).unwrap()
        ))
    );
    assert_eq!(stored_reading(&row(-3, [0, 0, 0, i64::MAX])).unwrap().id(), "-3");
}

#[test]
fn a_row_that_holds_no_reading_is_refused() {
    assert_eq!(stored_reading(&row(1, [-1, 2, 3, 4])), refused("micro_meter_10: out of range"));
    assert_eq!(stored_reading(&row(1, [1, 2, i64::MIN, -4])), refused("micro_meter_180: out of range"));
    let mut late = row(1, [1, 2, 3, 4]);
    late.seconds = MAX_SECONDS + 1;
    assert_eq!(stored_reading(&late), refused("insert_time: out of range"));
    late.micro_meter_60 = -2;
    assert_eq!(stored_reading(&late), refused("micro_meter_60: out of range"));
}

#[test]
fn rows_become_readings_in_their_order() {
    let rows = vec![row(2, [1, 2, 3, 4]), row(1, [5, 6, 7, 8]), row(3, [0, 0, 0, 0])];
    let stored = stored_readings(&rows).unwrap();
    let ids: Vec<&str> = stored.iter().map(|reading| reading.id().as_str()).collect();
    assert_eq!(ids, vec!["2", "1", "3"]);
    assert_eq!(stored[1].counts(), NewParticleCount::new(5, 6, 7, 8));
    assert_eq!(stored_readings(&Vec::new()), Ok(Vec::new()));
    let rows = vec![row(2, [1, 2, 3, 4]), row(1, [5, 6, 7, -8]), row(3, [-1, 0, 0, 0])];
    assert_eq!(stored_readings(&rows), refused("micro_meter_500: out of range"));
}

#[test]
fn mismatches_have_their_words() {
    assert_eq!(RowMismatch::OutOfRange(Column::MicroMeter60).message(), "micro_meter_60: out of range");
    assert_eq!(RowMismatch::Time.message(), "insert_time: out of range");
}
