//! Binary sensors: entities that are on or off, and only report it.

use vstd::prelude::*;
use crate::config::{id_of, ComputerAssistantConfig, Name};
use crate::discovery::{is_value_template, value_template, HomeAssistantConfig};
use crate::script::Publishable;
use crate::state::{state_text, State};
use crate::switch::{_default_off_state, _default_on_state};
use crate::topic::{availability_topic, availability_topic_of, state_topic, state_topic_of, Kind};

verus! {

/// A binary sensor, with the script that tells its state.
#[derive(Debug)]
pub struct BinarySensor {
    pub name: Name,
    /// Ends with exit code zero while the sensor is on.
    pub state_script: String,
}

/// Whether `d` announces the binary sensor `b` of the bridge configured by `c`.
pub open spec fn describes_binary_sensor(
    d: HomeAssistantConfig,
    b: BinarySensor,
    c: ComputerAssistantConfig,
) -> bool {
    &&& d matches HomeAssistantConfig::BinarySensor {
        base_topic,
        state_topic,
        device,
        name,
        unique_id,
        value_template,
        state_on,
        state_off,
        availability_topic,
    }
    &&& base_topic@ == Seq::<char>::empty()
    &&& state_topic@ == state_topic_of(c.base_topic@, Kind::BinarySensor, id_of(b.name@))
    &&& device@ == c.device@
    &&& name@ == b.name@
    &&& unique_id@ == id_of(b.name@)
    &&& is_value_template(value_template)
    &&& state_on@ == state_text(State::On)
    &&& state_off@ == state_text(State::Off)
    &&& availability_topic@ == availability_topic_of(c.base_topic@, c.availability_topic@)
}

impl BinarySensor {
    /// The announcement of the binary sensor.
    pub fn ha_config(&self, config: &ComputerAssistantConfig) -> (r: HomeAssistantConfig)
        ensures
            describes_binary_sensor(r, *self, *config),
    {
        let id = self.name.as_id();
        HomeAssistantConfig::BinarySensor {
            base_topic: String::new(),
            state_topic: state_topic(
                config.base_topic.as_str(),
                Kind::BinarySensor,
                id.as_str(),
            ),
            availability_topic: availability_topic(
                config.base_topic.as_str(),
                config.availability_topic.as_str(),
            ),
            device: config.device.clone(),
            name: self.name.to_string(),
            unique_id: id,
            value_template: value_template(),
            state_on: _default_on_state(),
            state_off: _default_off_state(),
        }
    }
}

impl Publishable for BinarySensor {
    open spec fn kind(&self) -> Kind {
        Kind::BinarySensor
    }

    open spec fn label(&self) -> Seq<char> {
        self.name@
    }

    open spec fn script(&self) -> Seq<char> {
        self.state_script@
    }

    open spec fn captures(&self) -> bool {
        false
    }

    fn state_script(&self) -> (r: &str) {
        self.state_script.as_str()
    }

    fn captures_output(&self) -> (r: bool) {
        false
    }

    fn state_topic(&self, config: &ComputerAssistantConfig) -> (r: String) {
        let id = self.name.as_id();
        state_topic(config.base_topic.as_str(), Kind::BinarySensor, id.as_str())
    }
}

} // verus!
