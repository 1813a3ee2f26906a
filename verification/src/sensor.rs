//! Sensors: entities with a value that they only report.

use vstd::prelude::*;
use crate::config::{id_of, ComputerAssistantConfig, DisplayPrecision, Name};
use crate::discovery::{is_value_template, value_template, HomeAssistantConfig};
use crate::script::Publishable;
use crate::topic::{availability_topic, availability_topic_of, state_topic, state_topic_of, Kind};

verus! {

/// A sensor, with the script that tells its value.
#[derive(Debug)]
pub struct Sensor {
    pub name: Name,
    /// Writes the value to standard output.
    pub state_script: String,
    pub unit_of_measurement: String,
    pub suggested_display_precision: DisplayPrecision,
}

/// Whether `d` announces the sensor `s` of the bridge configured by `c`.
pub open spec fn describes_sensor(
    d: HomeAssistantConfig,
    s: Sensor,
    c: ComputerAssistantConfig,
) -> bool {
    &&& d matches HomeAssistantConfig::Sensor {
        base_topic,
        state_topic,
        device,
        name,
        unique_id,
        value_template,
        availability_topic,
        unit_of_measurement,
        suggested_display_precision,
    }
    &&& base_topic@ == Seq::<char>::empty()
    &&& state_topic@ == state_topic_of(c.base_topic@, Kind::Sensor, id_of(s.name@))
    &&& device@ == c.device@
    &&& name@ == s.name@
    &&& unique_id@ == id_of(s.name@)
    &&& is_value_template(value_template)
    &&& availability_topic@ == availability_topic_of(c.base_topic@, c.availability_topic@)
    &&& unit_of_measurement@ == s.unit_of_measurement@
    &&& suggested_display_precision == s.suggested_display_precision.0
}

impl Sensor {
    /// The announcement of the sensor.
    pub fn ha_config(&self, config: &ComputerAssistantConfig) -> (r: HomeAssistantConfig)
        ensures
            describes_sensor(r, *self, *config),
    {
        let id = self.name.as_id();
        HomeAssistantConfig::Sensor {
            base_topic: String::new(),
            state_topic: state_topic(config.base_topic.as_str(), Kind::Sensor, id.as_str()),
            availability_topic: availability_topic(
                config.base_topic.as_str(),
                config.availability_topic.as_str(),
            ),
            device: config.device.clone(),
            name: self.name.to_string(),
            unique_id: id,
            value_template: value_template(),
            unit_of_measurement: self.unit_of_measurement.clone(),
            suggested_display_precision: self.suggested_display_precision.value(),
        }
    }
}

impl Publishable for Sensor {
    open spec fn kind(&self) -> Kind {
        Kind::Sensor
    }

    open spec fn label(&self) -> Seq<char> {
        self.name@
    }

    open spec fn script(&self) -> Seq<char> {
        self.state_script@
    }

    open spec fn captures(&self) -> bool {
        true
    }

    fn state_script(&self) -> (r: &str) {
        self.state_script.as_str()
    }

    fn captures_output(&self) -> (r: bool) {
        true
    }

    fn state_topic(&self, config: &ComputerAssistantConfig) -> (r: String) {
        let id = self.name.as_id();
        state_topic(config.base_topic.as_str(), Kind::Sensor, id.as_str())
    }
}

} // verus!
