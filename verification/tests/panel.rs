use particle_collector::form::NewParticle;
use particle_collector::instant::Timestamp;
use particle_collector::model::DisplayError;
use particle_collector::model::NewParticleCount;
use particle_collector::model::ParticleCount;
use particle_collector::panel::prepare_write;
use particle_collector::panel::Command;
use particle_collector::panel::Control;
use particle_collector::panel::Message;
use particle_collector::panel::ParticleUI;

fn reading(id: &str) -> ParticleCount {
    ParticleCount::new(id.to_string(), 1, 2, 3, 4, Timestamp::new(0, 0).unwrap())
}

fn type_in(form: &mut ParticleUI, a: &str, b: &str, c: &str, d: &str) {
    assert_eq!(form.update(Message::TextChanged(Control::MicroMeter10(a.to_string()))), Command::Idle);
    assert_eq!(form.update(Message::TextChanged(Control::MicroMeter60(b.to_string()))), Command::Idle);
    assert_eq!(form.update(Message::TextChanged(Control::MicroMeter180(c.to_string()))), Command::Idle);
    assert_eq!(form.update(Message::TextChanged(Control::MicroMeter500(d.to_string()))), Command::Idle);
}

#[test]
fn a_new_form_is_empty() {
    let form = ParticleUI::default();
    assert_eq!(form.new_particle, NewParticle::default());
    assert_eq!(form.new_particle.micro_meter_10, "");
    assert!(form.particles.is_empty());
    assert_eq!(form.particle, None);
    assert_eq!(form.error, None);
    assert_eq!(form.title(), "Particle Counter");
    assert_eq!(form.error_line(), "");
    assert_eq!(form.status_line(), "");
}

#[test]
fn typing_changes_one_field() {
    let mut form = ParticleUI::default();
    type_in(&mut form, "50000", "25000", "10000", "4000");
    assert_eq!(form.new_particle.micro_meter_10, "50000");
    assert_eq!(form.new_particle.micro_meter_60, "25000");
    assert_eq!(form.new_particle.micro_meter_180, "10000");
    assert_eq!(form.new_particle.micro_meter_500, "4000");
    form.update(Message::TextChanged(Control::MicroMeter60("x".to_string())));
    assert_eq!(form.new_particle.micro_meter_10, "50000");
    assert_eq!(form.new_particle.micro_meter_60, "x");
    assert_eq!(form.new_particle.micro_meter_180, "10000");
    assert_eq!(form.new_particle.micro_meter_500, "4000");
    assert_eq!(form.particle, None);
    assert_eq!(form.error, None);
}

#[test]
fn submitting_hands_out_what_was_typed() {
    let mut form = ParticleUI::default();
    type_in(&mut form, "50000", "25000", "10000", "4000");
    let typed_so_far = form.new_particle.clone();
    assert_eq!(form.update(Message::Submit), Command::Write(typed_so_far.clone()));
    assert_eq!(form.new_particle, typed_so_far);
}

#[test]
fn loading_is_asked_of_the_host() {
    let mut form = ParticleUI::default();
    assert_eq!(form.update(Message::_Loading), Command::Load);
    assert!(form.particles.is_empty());
    let loaded = vec![reading("a"), reading("b")];
    assert_eq!(form.update(Message::from_load(Ok(loaded.clone()))), Command::Idle);
    assert_eq!(form.particles, loaded);
}

#[test]
fn a_stored_reading_clears_the_failure() {
    let mut form = ParticleUI::default();
    form.update(Message::Error(Some(DisplayError::WriteError("disk full".to_string()))));
    assert_eq!(form.error, Some("disk full".to_string()));
    assert_eq!(form.error_line(), "disk full");
    assert_eq!(form.status_line(), "");
    assert_eq!(form.update(Message::from_write(Ok(reading("a")))), Command::Idle);
    assert_eq!(form.particle, Some(reading("a")));
    assert_eq!(form.error, None);
    assert_eq!(form.error_line(), "");
    assert_eq!(form.status_line(), "Wrote particle");
    form.update(Message::SuccessfulWrite(None));
    assert_eq!(form.particle, None);
    assert_eq!(form.status_line(), "");
}

#[test]
fn a_failure_shows_its_detail_and_hides_the_stored_reading() {
    let failures = vec![
        DisplayError::Serde("a".to_string()),
        DisplayError::NumParseError("b".to_string()),
        DisplayError::FileReadError("c".to_string()),
        DisplayError::U8parseError("d".to_string()),
        DisplayError::ConvertToU64Error("e".to_string()),
        DisplayError::WriteError("f".to_string()),
    ];
    for (failure, words) in failures.into_iter().zip(["a", "b", "c", "d", "e", "f"]) {
        let mut form = ParticleUI::default();
        form.update(Message::SuccessfulWrite(Some(reading("a"))));
        form.update(Message::DisplayData(vec![reading("b")]));
        assert_eq!(form.update(Message::from_write(Err(failure))), Command::Idle);
        assert_eq!(form.error, Some(words.to_string()));
        assert_eq!(form.particle, None);
        assert_eq!(form.particles, vec![reading("b")]);
    }
    let mut form = ParticleUI::default();
    form.update(Message::Error(Some(DisplayError::Serde("a".to_string()))));
    form.update(Message::Error(None));
    assert_eq!(form.error, None);
}

#[test]
fn messages_report_how_it_went() {
    assert_eq!(Message::from_load(Ok(Vec::new())), Message::DisplayData(Vec::new()));
    assert_eq!(
        Message::from_load(Err(DisplayError::FileReadError("gone".to_string()))),
        Message::Error(Some(DisplayError::FileReadError("gone".to_string())))
    );
    assert_eq!(Message::from_write(Ok(reading("a"))), Message::SuccessfulWrite(Some(reading("a"))));
    assert_eq!(
        Message::from_write(Err(DisplayError::WriteError("full".to_string()))),
        Message::Error(Some(DisplayError::WriteError("full".to_string())))
    );
}

#[test]
fn a_form_is_prepared_for_storing() {
    let mut form = ParticleUI::default();
    type_in(&mut form, "50000", "25000", "10000", "4000");
    let stored = match form.update(Message::Submit) {
        Command::Write(texts) => prepare_write(texts).unwrap(),
        other => panic!("{:?}", other),
    };
    assert_eq!(stored.counts(), NewParticleCount::new(50000, 25000, 10000, 4000));
    assert!(uuid::Uuid::parse_str(stored.id()).is_ok());

    type_in(&mut form, "50000", "25000", "10000", "abc");
    let failure = match form.update(Message::Submit) {
        Command::Write(texts) => prepare_write(texts).unwrap_err(),
        other => panic!("{:?}", other),
    };
    assert_eq!(failure, DisplayError::NumParseError("invalid digit found in string".to_string()));
    form.update(Message::from_write(Err(failure)));
    assert_eq!(form.error_line(), "invalid digit found in string");
}
