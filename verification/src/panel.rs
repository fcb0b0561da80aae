//! The state of the entry form and what each message does to it.

use vstd::prelude::*;
use crate::form::to_new_particle_counts;
use crate::form::validated;
use crate::form::NewParticle;
use crate::form::TypedCounts;
use crate::identity::is_random_uuid_text;
use crate::model::DisplayError;
use crate::model::Failure;
use crate::model::ParticleCount;
use crate::model::Reading;

verus! {

/// One of the four fields of the form, with the text that was typed into it.
#[derive(Debug, Clone, PartialEq, Eq)]
pub enum Control {
    MicroMeter10(String),
    MicroMeter60(String),
    MicroMeter180(String),
    MicroMeter500(String),
}

/// What can happen to the form.
#[derive(Debug, Clone, PartialEq, Eq)]
pub enum Message {
    /// The stored readings are to be loaded.
    _Loading,
    /// The stored readings were loaded.
    DisplayData(Vec<ParticleCount>),
    /// The form was sent off.
    Submit,
    /// The reading of the form was stored.
    SuccessfulWrite(Option<ParticleCount>),
    /// A field was typed into.
    TextChanged(Control),
    /// Loading or storing failed.
    Error(Option<DisplayError>),
}

/// What the host of the form is to do after a message.
#[derive(Debug, Clone, PartialEq, Eq)]
pub enum Command {
    /// Nothing.
    Idle,
    /// Load the stored readings and report them with `Message::from_load`.
    Load,
    /// Store the reading of the form and report it with
    /// `Message::from_write`.
    Write(NewParticle),
}

/// The form: the texts typed so far, the readings last loaded, the reading
/// last stored and the words of the last failure.
#[derive(Debug, Clone)]
pub struct ParticleUI {
    pub new_particle: NewParticle,
    pub particles: Vec<ParticleCount>,
    pub particle: Option<ParticleCount>,
    pub error: Option<String>,
}

/// The form as plain values.
pub struct Panel {
    pub new_particle: TypedCounts,
    pub particles: Seq<Reading>,
    pub particle: Option<Reading>,
    pub error: Option<Seq<char>>,
}

impl View for ParticleUI {
    type V = Panel;

    open spec fn view(&self) -> Panel {
        Panel {
            new_particle: self.new_particle@,
            particles: self.particles.deep_view(),
            particle: match self.particle {
                Some(reading) => Some(reading@),
                None => None,
            },
            error: match self.error {
                Some(words) => Some(words@),
                None => None,
            },
        }
    }
}

impl Default for ParticleUI {
    fn default() -> (form: Self)
        ensures
            form@ == (Panel {
                new_particle: TypedCounts {
                    micro_meter_10: Seq::empty(),
                    micro_meter_60: Seq::empty(),
                    micro_meter_180: Seq::empty(),
                    micro_meter_500: Seq::empty(),
                },
                particles: Seq::empty(),
                particle: None,
                error: None,
            }),
    {
        let form = Self {
            new_particle: NewParticle::default(),
            particles: Vec::new(),
            particle: None,
            error: None,
        };
        assert(form.particles.deep_view() =~= Seq::empty());
        form
    }
}

impl Message {
    /// The message that reports how loading went.
    pub fn from_load(loaded: Result<Vec<ParticleCount>, DisplayError>) -> (message: Message)
        ensures
            match loaded {
                Ok(readings) => message == Message::DisplayData(readings),
                Err(failure) => message == Message::Error(Some(failure)),
            },
    {
        match loaded {
            Ok(readings) => Message::DisplayData(readings),
            Err(failure) => Message::Error(Some(failure)),
        }
    }

    /// The message that reports how storing went.
    pub fn from_write(written: Result<ParticleCount, DisplayError>) -> (message: Message)
        ensures
            match written {
                Ok(reading) => message == Message::SuccessfulWrite(Some(reading)),
                Err(failure) => message == Message::Error(Some(failure)),
            },
    {
        match written {
            Ok(reading) => Message::SuccessfulWrite(Some(reading)),
            Err(failure) => Message::Error(Some(failure)),
        }
    }
}

/// The form after a message.
pub open spec fn after(form: Panel, message: Message) -> Panel {
    match message {
        Message::_Loading => form,
        Message::DisplayData(readings) => Panel { particles: readings.deep_view(), ..form },
        Message::Submit => form,
        Message::SuccessfulWrite(stored) => Panel {
            particle: match stored {
                Some(reading) => Some(reading@),
                None => None,
            },
            error: None,
            ..form
        },
        Message::TextChanged(control) => Panel {
            new_particle: match control {
                Control::MicroMeter10(text) => TypedCounts {
                    micro_meter_10: text@,
                    ..form.new_particle
                },
                Control::MicroMeter60(text) => TypedCounts {
                    micro_meter_60: text@,
                    ..form.new_particle
                },
                Control::MicroMeter180(text) => TypedCounts {
                    micro_meter_180: text@,
                    ..form.new_particle
                },
                Control::MicroMeter500(text) => TypedCounts {
                    micro_meter_500: text@,
                    ..form.new_particle
                },
            },
            ..form
        },
        Message::Error(failure) => Panel {
            particle: None,
            error: match failure {
                Some(failure) => Some(failure@.detail()),
                None => None,
            },
            ..form
        },
    }
}

impl ParticleUI {
    /// The title of the form's window.
    pub fn title(&self) -> (title: String)
        ensures
            title@ == "Particle Counter"@,
    {
        String::from_str("Particle Counter")
    }

    /// Takes a message: changes the form as `after` says, and tells the
    /// host to load for `_Loading`, to store the texts of the form for
    /// `Submit`, and nothing otherwise.
    pub fn update(&mut self, message: Message) -> (command: Command)
        ensures
            final(self)@ == after(old(self)@, message),
            match message {
                Message::_Loading => command == Command::Load,
                Message::Submit => command matches Command::Write(form) && form@ == old(
                    self,
                )@.new_particle,
                _ => command == Command::Idle,
            },
    {
        match message {
            Message::_Loading => Command::Load,
            Message::DisplayData(readings) => {
                self.particles = readings;
                Command::Idle
            },
            Message::Submit => Command::Write(
                NewParticle {
                    micro_meter_10: self.new_particle.micro_meter_10.clone(),
                    micro_meter_60: self.new_particle.micro_meter_60.clone(),
                    micro_meter_180: self.new_particle.micro_meter_180.clone(),
                    micro_meter_500: self.new_particle.micro_meter_500.clone(),
                },
            ),
            Message::SuccessfulWrite(stored) => {
                self.particle = stored;
                self.error = None;
                Command::Idle
            },
            Message::TextChanged(control) => {
                match control {
                    Control::MicroMeter10(text) => self.new_particle.micro_meter_10 = text,
                    Control::MicroMeter60(text) => self.new_particle.micro_meter_60 = text,
                    Control::MicroMeter180(text) => self.new_particle.micro_meter_180 = text,
                    Control::MicroMeter500(text) => self.new_particle.micro_meter_500 = text,
                }
                Command::Idle
            },
            Message::Error(failure) => {
                self.particle = None;
                self.error = match failure {
                    Some(failure) => Some(failure.into_message()),
                    None => None,
                };
                Command::Idle
            },
        }
    }

    /// The line that shows the last failure: its words, or nothing.
    pub fn error_line(&self) -> (line: &str)
        ensures
            line@ == match self@.error {
                Some(words) => words,
                None => Seq::empty(),
            },
    {
        proof {
            reveal_strlit("");
        }
        match &self.error {
            Some(words) => words.as_str(),
            None => "",
        }
    }

    /// The line that shows whether the last reading was stored.
    pub fn status_line(&self) -> (line: &'static str)
        ensures
            line@ == if self@.particle is Some {
                "Wrote particle"@
            } else {
                Seq::empty()
            },
    {
        proof {
            reveal_strlit("");
        }
        match &self.particle {
            Some(_) => "Wrote particle",
            None => "",
        }
    }
}

/// Turns the texts of a form into the reading to store, under a fresh
/// identifier and the time that the clock shows.
///
/// Fails with `NumParseError` and the words of the first fault where a text
/// is no numeral.
pub fn prepare_write(form: NewParticle) -> (prepared: Result<ParticleCount, DisplayError>)
    ensures
        match validated(form@) {
            Ok(reading) => prepared matches Ok(record) && record@.counts == reading
                && is_random_uuid_text(record@.id),
            Err(fault) => prepared matches Err(failure) && failure@ == Failure::NumParseError(
                fault.words(),
            ),
        },
{
    match to_new_particle_counts(&form) {
        Ok(_) => form.into(),
        Err(failure) => Err(failure),
    }
}

} // verus!
