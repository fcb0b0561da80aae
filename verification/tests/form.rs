use particle_collector::form::to_new_particle_counts;
use particle_collector::form::NewParticle;
use particle_collector::instant::Timestamp;
use particle_collector::model::DisplayError;
use particle_collector::model::NewParticleCount;
use particle_collector::model::ParticleCount;

fn typed(a: &str, b: &str, c: &str, d: &str) -> NewParticle {
    NewParticle {
        micro_meter_10: a.to_string(),
        micro_meter_60: b.to_string(),
        micro_meter_180: c.to_string(),
        micro_meter_500: d.to_string(),
    }
}

#[test]
fn four_numerals_are_a_reading() {
    assert_eq!(
        to_new_particle_counts(&typed("50000", "25000", "10000", "4000")),
        Ok(NewParticleCount::new(50000, 25000, 10000, 4000))
    );
    assert_eq!(
        to_new_particle_counts(&typed("0", "+1", "18446744073709551615", "0004")),
        Ok(NewParticleCount::new(0, 1, u64::MAX, 4))
    );
}

#[test]
fn one_text_that_is_no_numeral_fails_the_form() {
    let invalid = Err(DisplayError::NumParseError("invalid digit found in string".to_string()));
    assert_eq!(to_new_particle_counts(&typed("abc", "25000", "10000", "4000")), invalid);
    assert_eq!(to_new_particle_counts(&typed("50000", "abc", "10000", "4000")), invalid);
    assert_eq!(to_new_particle_counts(&typed("50000", "25000", "abc", "4000")), invalid);
    assert_eq!(to_new_particle_counts(&typed("50000", "25000", "10000", "abc")), invalid);
    assert_eq!(to_new_particle_counts(&typed("50000", "25000", "10000", "-4")), invalid);
    assert_eq!(to_new_particle_counts(&typed("50000", "25000", "10000", " 4")), invalid);
    assert_eq!(to_new_particle_counts(&typed("50000", "25000", "10000", "4.0")), invalid);
}

#[test]
fn the_first_fault_is_the_one_reported() {
    assert_eq!(
        to_new_particle_counts(&typed("1", "", "abc", "99999999999999999999")),
        Err(DisplayError::NumParseError("cannot parse integer from empty string".to_string()))
    );
    assert_eq!(
        to_new_particle_counts(&typed("1", "2", "99999999999999999999", "")),
        Err(DisplayError::NumParseError("number too large to fit in target type".to_string()))
    );
    assert_eq!(
        to_new_particle_counts(&NewParticle::default()),
        Err(DisplayError::NumParseError("cannot parse integer from empty string".to_string()))
    );
}

#[test]
fn the_words_are_those_of_the_standard_library() {
    for text in ["", "abc", "+", "-", "99999999999999999999", "18446744073709551616", "1 "] {
        let expected = text.parse::<u64>().unwrap_err().to_string();
        assert_eq!(
            to_new_particle_counts(&typed(text, "1", "1", "1")),
            Err(DisplayError::NumParseError(expected))
        );
    }
}

#[test]
fn a_form_is_stamped_with_what_it_is_given() {
    let time = Timestamp::new(1_692_484_369, 582_287_501).unwrap();
    assert_eq!(
        typed("50000", "25000", "10000", "4000").stamped("some-id".to_string(), time),
        Ok(ParticleCount::new("some-id".to_string(), 50000, 25000, 10000, 4000, time))
    );
    assert_eq!(
        typed("50000", "x", "10000", "4000").stamped("some-id".to_string(), time),
        Err(DisplayError::ConvertToU64Error("invalid digit found in string".to_string()))
    );
}

#[test]
fn a_form_turns_into_a_stored_reading() {
    let stored = typed("50000", "25000", "10000", "4000").into().unwrap();
    assert_eq!(stored.counts(), NewParticleCount::new(50000, 25000, 10000, 4000));
    assert!(uuid::Uuid::parse_str(stored.id()).is_ok());
    assert!(stored.time().seconds() > 1_600_000_000);
    assert_eq!(
        typed("50000", "25000", "10000", "").into(),
        Err(DisplayError::ConvertToU64Error("cannot parse integer from empty string".to_string()))
    );
}
