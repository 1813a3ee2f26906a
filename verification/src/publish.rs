//! The round of state reports: every reporting entity in turn, and no further
//! than the first that fails.

use vstd::prelude::*;
use vstd::string::*;
use crate::error::Error;
use crate::message::{MessageView, OutboundMessage};
use crate::registry::{Config, EntityRef, PublishableHandlers};
use crate::script::{ascii_output, message_view, report_by, Publishable, ScriptOutcome};
use crate::text::CharClass;
use crate::topic::Kind;

verus! {

/// The script that tells an entity's state, and whether the state is what it
/// writes to standard output.
#[derive(Debug)]
pub struct Probe {
    pub script: String,
    pub capture: bool,
}

/// A probe as plain values.
pub struct ProbeView {
    pub script: Seq<char>,
    pub capture: bool,
}

impl View for Probe {
    type V = ProbeView;

    open spec fn view(&self) -> ProbeView {
        ProbeView { script: self.script@, capture: self.capture }
    }
}

/// What a round of state reports does next.
#[derive(Debug)]
pub enum PublishStep {
    /// The round is over.
    Done,
    /// Run the probe of the entity at `index`, and come back with its outcome.
    Run { index: usize, probe: Probe },
}

/// What follows from the outcome of a probe: the message to publish or the
/// error to report, and the next step of the round.
#[derive(Debug)]
pub struct PublishTurn {
    pub message: Result<OutboundMessage, Error>,
    pub next: PublishStep,
}

impl Config {
    /// Whether `e` is an entity of the configuration that reports its state.
    pub open spec fn reports(&self, e: EntityRef) -> bool {
        match e.kind {
            Kind::Switch => e.index < self.switch.len(),
            Kind::BinarySensor => e.index < self.binary_sensor.len(),
            Kind::Number => e.index < self.number.len(),
            Kind::Sensor => e.index < self.sensor.len(),
            Kind::Button => false,
        }
    }

    /// The name of the reporting entity `e`.
    pub open spec fn name_of(&self, e: EntityRef) -> Seq<char>
        recommends
            self.reports(e),
    {
        match e.kind {
            Kind::Switch => self.switch[e.index as int].name@,
            Kind::BinarySensor => self.binary_sensor[e.index as int].name@,
            Kind::Number => self.number[e.index as int].name@,
            _ => self.sensor[e.index as int].name@,
        }
    }

    /// The probe of the reporting entity `e`: its state script, whose output
    /// is captured for a number or a sensor and for no other kind.
    pub open spec fn probe_of(&self, e: EntityRef) -> ProbeView
        recommends
            self.reports(e),
    {
        match e.kind {
            Kind::Switch => ProbeView {
                script: self.switch[e.index as int].state_script@,
                capture: false,
            },
            Kind::BinarySensor => ProbeView {
                script: self.binary_sensor[e.index as int].state_script@,
                capture: false,
            },
            Kind::Number => ProbeView {
                script: self.number[e.index as int].state_script@,
                capture: true,
            },
            _ => ProbeView { script: self.sensor[e.index as int].state_script@, capture: true },
        }
    }

    /// The message that reports `outcome` for the reporting entity `e`, a
    /// value being trimmed of `class`, or the error that `outcome` amounts to.
    pub open spec fn reported_by(&self, e: EntityRef, outcome: ScriptOutcome, class: CharClass)
        -> Result<MessageView, Error>
        recommends
            self.reports(e),
    {
        report_by(
            self.computer_assistant.base_topic@,
            e.kind,
            self.name_of(e),
            self.probe_of(e).capture,
            outcome,
            class,
        )
    }

    /// The message that reports `outcome` for the reporting entity `e`, or
    /// the error that `outcome` amounts to.
    pub open spec fn reported(&self, e: EntityRef, outcome: ScriptOutcome) -> Result<
        MessageView,
        Error,
    >
        recommends
            self.reports(e),
    {
        self.reported_by(e, outcome, CharClass::WhiteSpace)
    }

    /// The probe of `e`, if `e` is an entity that reports its state.
    pub fn probe(&self, e: EntityRef) -> (r: Option<Probe>)
        ensures
            r is Some <==> self.reports(e),
            r matches Some(p) ==> p@ == self.probe_of(e),
    {
        match e.kind {
            Kind::Switch => if e.index < self.switch.len() {
                let entity = &self.switch[e.index];
                Some(
                    Probe {
                        script: String::from_str(entity.state_script()),
                        capture: entity.captures_output(),
                    },
                )
            } else {
                None
            },
            Kind::BinarySensor => if e.index < self.binary_sensor.len() {
                let entity = &self.binary_sensor[e.index];
                Some(
                    Probe {
                        script: String::from_str(entity.state_script()),
                        capture: entity.captures_output(),
                    },
                )
            } else {
                None
            },
            Kind::Number => if e.index < self.number.len() {
                let entity = &self.number[e.index];
                Some(
                    Probe {
                        script: String::from_str(entity.state_script()),
                        capture: entity.captures_output(),
                    },
                )
            } else {
                None
            },
            Kind::Sensor => if e.index < self.sensor.len() {
                let entity = &self.sensor[e.index];
                Some(
                    Probe {
                        script: String::from_str(entity.state_script()),
                        capture: entity.captures_output(),
                    },
                )
            } else {
                None
            },
            Kind::Button => None,
        }
    }

    /// The message that reports `outcome`, the outcome of the probe of `e`,
    /// if `e` is an entity that reports its state.
    pub fn report(&self, e: EntityRef, outcome: &ScriptOutcome) -> (r: Option<
        Result<OutboundMessage, Error>,
    >)
        ensures
            r is Some <==> self.reports(e),
            r matches Some(message) ==> message_view(message) == self.reported(e, *outcome),
            r matches Some(message) ==> (ascii_output(*outcome) ==> message_view(message)
                == self.reported_by(e, *outcome, CharClass::AsciiWhiteSpace)),
    {
        let config = &self.computer_assistant;
        match e.kind {
            Kind::Switch => if e.index < self.switch.len() {
                Some(self.switch[e.index].publish_state(config, outcome))
            } else {
                None
            },
            Kind::BinarySensor => if e.index < self.binary_sensor.len() {
                Some(self.binary_sensor[e.index].publish_state(config, outcome))
            } else {
                None
            },
            Kind::Number => if e.index < self.number.len() {
                Some(self.number[e.index].publish_state(config, outcome))
            } else {
                None
            },
            Kind::Sensor => if e.index < self.sensor.len() {
                Some(self.sensor[e.index].publish_state(config, outcome))
            } else {
                None
            },
            Kind::Button => None,
        }
    }

    /// The place in `all`, at `from` or behind it, of the first entity that
    /// reports its state; the length of `all` if there is none.
    pub open spec fn next_reporting(&self, all: Seq<EntityRef>, from: int) -> int
        decreases all.len() - from,
    {
        if from < 0 || from >= all.len() {
            all.len() as int
        } else if self.reports(all[from]) {
            from
        } else {
            self.next_reporting(all, from + 1)
        }
    }

    /// Whether `step` is the step of a round over `all` that has come to
    /// `from`: the probe of the next entity that reports its state, or the
    /// end of the round where there is none.
    pub open spec fn step_at(&self, step: PublishStep, all: Seq<EntityRef>, from: int) -> bool {
        let next = self.next_reporting(all, from);
        match step {
            PublishStep::Done => next >= all.len(),
            PublishStep::Run { index, probe } => index == next && next < all.len() && probe@
                == self.probe_of(all[next]),
        }
    }
}

/// Every entity that registering puts among those that report their state
/// is an entity of the configuration that does.
pub proof fn registered_entities_report(config: Config, i: int)
    requires
        0 <= i < config.publishable().len(),
    ensures
        config.reports(config.publishable()[i]),
{
}

/// A round over the registered entities passes over none: it comes to each
/// in the order of registration.
pub proof fn round_visits_every_entity(config: Config, from: int)
    requires
        0 <= from < config.publishable().len(),
    ensures
        config.next_reporting(config.publishable(), from) == from,
{
    registered_entities_report(config, from);
}

impl PublishableHandlers {
    /// The step of a round that has come to `from`.
    pub fn step_from(&self, config: &Config, from: usize) -> (r: PublishStep)
        ensures
            config.step_at(r, self.0@, from as int),
    {
        let mut i: usize = from;
        while i < self.0.len()
            invariant
                from <= i,
                config.next_reporting(self.0@, i as int) == config.next_reporting(
                    self.0@,
                    from as int,
                ),
            decreases self.0.len() - i,
        {
            match config.probe(self.0[i]) {
                Some(probe) => {
                    return PublishStep::Run { index: i, probe };
                },
                None => {},
            }
            i += 1;
        }
        PublishStep::Done
    }

    /// The first step of a round: the probe of the first entity, in the order
    /// of registration.
    pub fn begin(&self, config: &Config) -> (r: PublishStep)
        ensures
            config.step_at(r, self.0@, 0),
    {
        self.step_from(config, 0)
    }

    /// What follows from `outcome`, the outcome of the probe of the entity at
    /// `index`: the message that reports its state and the next step of the
    /// round, or an error, which ends the round. Nothing follows where `index`
    /// names no entity that reports its state. Where the script wrote ASCII
    /// text, white space is ASCII white space.
    pub fn publish_state_mqtt(&self, config: &Config, index: usize, outcome: &ScriptOutcome) -> (r:
        Option<PublishTurn>)
        ensures
            r is Some <==> index < self.0@.len() && config.reports(self.0@[index as int]),
            r matches Some(turn) ==> {
                &&& message_view(turn.message) == config.reported(self.0@[index as int], *outcome)
                &&& ascii_output(*outcome) ==> message_view(turn.message) == config.reported_by(
                    self.0@[index as int],
                    *outcome,
                    CharClass::AsciiWhiteSpace,
                )
                &&& turn.message is Err ==> turn.next is Done
                &&& turn.message is Ok ==> config.step_at(turn.next, self.0@, index + 1)
            },
    {
        if index >= self.0.len() {
            return None;
        }
        match config.report(self.0[index], outcome) {
            None => None,
            Some(message) => {
                let next = match &message {
                    Ok(_) => self.step_from(config, index + 1),
                    Err(_) => PublishStep::Done,
                };
                Some(PublishTurn { message, next })
            },
        }
    }
}

} // verus!
