//! Numbers: entities with a value that the hub reads and sets.

use vstd::prelude::*;
use crate::config::{id_of, ComputerAssistantConfig, Name};
use crate::discovery::{is_value_template, value_template, HomeAssistantConfig};
use crate::error::Error;
use crate::script::{
    addressed, is_addressed, run_with, Invocation, InvocationView, Publishable, Updateable,
};
use crate::topic::{
    availability_topic, availability_topic_of, command_topic, command_topic_of, state_topic,
    state_topic_of, Kind,
};

verus! {

/// A double-precision number, held by the 64 bits of its IEEE 754 form.
#[derive(Clone, Copy, Debug, PartialEq, Eq, Structural)]
pub struct Real {
    pub bits: u64,
}

/// A number, with the scripts that tell and set its value, and what the hub
/// is told of the values it takes.
#[derive(Debug)]
pub struct Number {
    pub name: Name,
    /// Writes the value to standard output.
    pub state_script: String,
    /// Is given the caller's mark and the new value as its two arguments.
    pub command_script: String,
    pub min: Real,
    pub max: Real,
    pub step: Real,
    pub unit_of_measurement: String,
}

/// The mark by which a command script knows who calls it.
pub open spec fn caller_text() -> Seq<char> {
    "computer-assistant"@
}

/// Whether `d` announces the number `n` of the bridge configured by `c`.
pub open spec fn describes_number(
    d: HomeAssistantConfig,
    n: Number,
    c: ComputerAssistantConfig,
) -> bool {
    &&& d matches HomeAssistantConfig::Number {
        base_topic,
        command_topic,
        command_template,
        state_topic,
        device,
        name,
        unique_id,
        value_template,
        availability_topic,
        min,
        max,
        step,
        unit_of_measurement,
    }
    &&& base_topic@ == Seq::<char>::empty()
    &&& command_topic@ == command_topic_of(c.base_topic@, Kind::Number, id_of(n.name@))
    &&& is_value_template(command_template)
    &&& state_topic@ == state_topic_of(c.base_topic@, Kind::Number, id_of(n.name@))
    &&& device@ == c.device@
    &&& name@ == n.name@
    &&& unique_id@ == id_of(n.name@)
    &&& is_value_template(value_template)
    &&& availability_topic@ == availability_topic_of(c.base_topic@, c.availability_topic@)
    &&& min == n.min
    &&& max == n.max
    &&& step == n.step
    &&& unit_of_measurement@ == n.unit_of_measurement@
}

impl Number {
    /// The announcement of the number.
    pub fn ha_config(&self, config: &ComputerAssistantConfig) -> (r: HomeAssistantConfig)
        ensures
            describes_number(r, *self, *config),
    {
        let id = self.name.as_id();
        HomeAssistantConfig::Number {
            base_topic: String::new(),
            state_topic: state_topic(config.base_topic.as_str(), Kind::Number, id.as_str()),
            availability_topic: availability_topic(
                config.base_topic.as_str(),
                config.availability_topic.as_str(),
            ),
            device: config.device.clone(),
            name: self.name.to_string(),
            unique_id: self.name.as_id(),
            value_template: value_template(),
            command_topic: command_topic(config.base_topic.as_str(), Kind::Number, id.as_str()),
            command_template: value_template(),
            min: self.min,
            max: self.max,
            step: self.step,
            unit_of_measurement: self.unit_of_measurement.clone(),
        }
    }
}

impl Updateable for Number {
    open spec fn command_given(&self, topic: Seq<Seq<char>>, state: Seq<char>, upper: Seq<char>)
        -> Result<Option<InvocationView>, Error> {
        if addressed(topic, Kind::Number, id_of(self.name@)) {
            Ok(
                Some(
                    InvocationView {
                        script: self.command_script@,
                        args: seq![caller_text(), state],
                    },
                ),
            )
        } else {
            Ok(None)
        }
    }

    fn update(&self, topic: &Vec<String>, state: &str) -> (r: Result<Option<Invocation>, Error>) {
        let id = self.name.as_id();
        if is_addressed(topic, Kind::Number, id.as_str()) {
            Ok(Some(run_with(self.command_script.as_str(), "computer-assistant", state)))
        } else {
            Ok(None)
        }
    }
}

impl Publishable for Number {
    open spec fn kind(&self) -> Kind {
        Kind::Number
    }

    open spec fn label(&self) -> Seq<char> {
        self.name@
    }

    open spec fn script(&self) -> Seq<char> {
        self.state_script@
    }

    open spec fn captures(&self) -> bool {
        true
    }

    fn state_script(&self) -> (r: &str) {
        self.state_script.as_str()
    }

    fn captures_output(&self) -> (r: bool) {
        true
    }

    fn state_topic(&self, config: &ComputerAssistantConfig) -> (r: String) {
        let id = self.name.as_id();
        state_topic(config.base_topic.as_str(), Kind::Number, id.as_str())
    }
}

} // verus!
