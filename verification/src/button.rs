//! Buttons: entities that the hub presses.

use vstd::prelude::*;
use crate::config::{id_of, ComputerAssistantConfig, Name};
use crate::discovery::{is_value_template, value_template, HomeAssistantConfig};
use crate::error::Error;
use crate::script::{
    addressed, is_addressed, plan_view, run, Invocation, InvocationView, Updateable,
};
use crate::text::{same_text, uppercase};
use crate::topic::{
    availability_topic, availability_topic_of, command_topic, command_topic_of, Kind,
};

verus! {

/// A button, with the script that a press runs.
#[derive(Debug)]
pub struct Button {
    pub name: Name,
    pub command_script: String,
}

/// The payload that presses a button, in upper case.
pub open spec fn press_text() -> Seq<char> {
    "PRESS"@
}

/// The payload that the hub is told to send for a press.
pub fn _default_payload_press() -> (r: String)
    ensures
        r@ == press_text(),
{
    "PRESS".to_owned()
}

/// Whether the payload `upper`, already in upper case, is a press.
pub fn is_press(upper: &str) -> (r: bool)
    ensures
        r == (upper@ == press_text()),
{
    same_text(upper, "PRESS")
}

/// Whether `d` announces the button `b` of the bridge configured by `c`.
pub open spec fn describes_button(
    d: HomeAssistantConfig,
    b: Button,
    c: ComputerAssistantConfig,
) -> bool {
    &&& d matches HomeAssistantConfig::Button {
        base_topic,
        command_topic,
        device,
        name,
        unique_id,
        value_template,
        payload_press,
        availability_topic,
    }
    &&& base_topic@ == Seq::<char>::empty()
    &&& command_topic@ == command_topic_of(c.base_topic@, Kind::Button, id_of(b.name@))
    &&& device@ == c.device@
    &&& name@ == b.name@
    &&& unique_id@ == id_of(b.name@)
    &&& is_value_template(value_template)
    &&& payload_press@ == press_text()
    &&& availability_topic@ == availability_topic_of(c.base_topic@, c.availability_topic@)
}

impl Button {
    /// What the upper-case payload `upper` asks of the button.
    pub open spec fn command_named(&self, upper: Seq<char>) -> Result<
        Option<InvocationView>,
        Error,
    > {
        if upper == press_text() {
            Ok(Some(InvocationView { script: self.command_script@, args: Seq::empty() }))
        } else {
            Ok(None)
        }
    }

    /// The announcement of the button.
    pub fn ha_config(&self, config: &ComputerAssistantConfig) -> (r: HomeAssistantConfig)
        ensures
            describes_button(r, *self, *config),
    {
        let id = self.name.as_id();
        HomeAssistantConfig::Button {
            base_topic: String::new(),
            command_topic: command_topic(config.base_topic.as_str(), Kind::Button, id.as_str()),
            availability_topic: availability_topic(
                config.base_topic.as_str(),
                config.availability_topic.as_str(),
            ),
            device: config.device.clone(),
            name: self.name.to_string(),
            unique_id: id,
            value_template: value_template(),
            payload_press: _default_payload_press(),
        }
    }

    /// What the payload `upper`, already in upper case, asks of the button:
    /// a press runs the command script, and any other payload asks nothing.
    pub fn command_for(&self, upper: &str) -> (r: Result<Option<Invocation>, Error>)
        ensures
            plan_view(r) == self.command_named(upper@),
    {
        if is_press(upper) {
            Ok(Some(run(self.command_script.as_str())))
        } else {
            Ok(None)
        }
    }
}

impl Updateable for Button {
    open spec fn command_given(&self, topic: Seq<Seq<char>>, state: Seq<char>, upper: Seq<char>)
        -> Result<Option<InvocationView>, Error> {
        if addressed(topic, Kind::Button, id_of(self.name@)) {
            self.command_named(upper)
        } else {
            Ok(None)
        }
    }

    fn update(&self, topic: &Vec<String>, state: &str) -> (r: Result<Option<Invocation>, Error>) {
        let id = self.name.as_id();
        if is_addressed(topic, Kind::Button, id.as_str()) {
            let upper = uppercase(state);
            self.command_for(upper.as_str())
        } else {
            Ok(None)
        }
    }
}

} // verus!
