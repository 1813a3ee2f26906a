//! Switches: entities that are on or off, and that the hub turns on and off.

use vstd::prelude::*;
use crate::config::{id_of, ComputerAssistantConfig, Name};
use crate::discovery::{is_value_template, value_template, HomeAssistantConfig};
use crate::error::Error;
use crate::script::{
    addressed, is_addressed, plan_view, run, Invocation, InvocationView, Publishable, Updateable,
};
use crate::state::{state_parsed, state_text, State};
use crate::text::uppercase;
use crate::topic::{
    availability_topic, availability_topic_of, command_topic, command_topic_of, state_topic,
    state_topic_of, Kind,
};

verus! {

/// A switch, with the scripts that tell and change its state.
#[derive(Debug)]
pub struct Switch {
    pub name: Name,
    /// Ends with exit code zero while the switch is on.
    pub state_script: String,
    pub on_script: String,
    pub off_script: String,
    pub toggle_script: Option<String>,
}

/// The payload that the hub is told stands for on.
pub fn _default_on_state() -> (r: String)
    ensures
        r@ == state_text(State::On),
{
    State::On.to_string()
}

/// The payload that the hub is told stands for off.
pub fn _default_off_state() -> (r: String)
    ensures
        r@ == state_text(State::Off),
{
    State::Off.to_string()
}

/// Whether `d` announces the switch `s` of the bridge configured by `c`.
pub open spec fn describes_switch(
    d: HomeAssistantConfig,
    s: Switch,
    c: ComputerAssistantConfig,
) -> bool {
    &&& d matches HomeAssistantConfig::Switch {
        base_topic,
        command_topic,
        state_topic,
        device,
        name,
        unique_id,
        value_template,
        state_on,
        state_off,
        availability_topic,
    }
    &&& base_topic@ == Seq::<char>::empty()
    &&& command_topic@ == command_topic_of(c.base_topic@, Kind::Switch, id_of(s.name@))
    &&& state_topic@ == state_topic_of(c.base_topic@, Kind::Switch, id_of(s.name@))
    &&& device@ == c.device@
    &&& name@ == s.name@
    &&& unique_id@ == id_of(s.name@)
    &&& is_value_template(value_template)
    &&& state_on@ == state_text(State::On)
    &&& state_off@ == state_text(State::Off)
    &&& availability_topic@ == availability_topic_of(c.base_topic@, c.availability_topic@)
}

impl Switch {
    /// The script that brings the switch to `state`.
    pub open spec fn script_of(&self, state: State) -> Seq<char> {
        match state {
            State::On => self.on_script@,
            State::Off => self.off_script@,
        }
    }

    /// What the upper-case payload `upper` asks of the switch.
    pub open spec fn command_named(&self, upper: Seq<char>) -> Result<
        Option<InvocationView>,
        Error,
    > {
        match state_parsed(upper) {
            Ok(state) => Ok(
                Some(InvocationView { script: self.script_of(state), args: Seq::empty() }),
            ),
            Err(e) => Err(e),
        }
    }

    /// The announcement of the switch.
    pub fn ha_config(&self, config: &ComputerAssistantConfig) -> (r: HomeAssistantConfig)
        ensures
            describes_switch(r, *self, *config),
    {
        let id = self.name.as_id();
        HomeAssistantConfig::Switch {
            base_topic: String::new(),
            command_topic: command_topic(config.base_topic.as_str(), Kind::Switch, id.as_str()),
            state_topic: state_topic(config.base_topic.as_str(), Kind::Switch, id.as_str()),
            availability_topic: availability_topic(
                config.base_topic.as_str(),
                config.availability_topic.as_str(),
            ),
            device: config.device.clone(),
            name: self.name.to_string(),
            unique_id: id,
            value_template: value_template(),
            state_on: _default_on_state(),
            state_off: _default_off_state(),
        }
    }

    /// The script that brings the switch to `state`.
    pub fn script_for(&self, state: State) -> (r: &str)
        ensures
            r@ == self.script_of(state),
    {
        match state {
            State::On => self.on_script.as_str(),
            State::Off => self.off_script.as_str(),
        }
    }

    /// What the payload `upper`, already in upper case, asks of the switch:
    /// `ON` its on script, `OFF` its off script, and anything else is an
    /// unknown state, for which nothing is to be run.
    pub fn command_for(&self, upper: &str) -> (r: Result<Option<Invocation>, Error>)
        ensures
            plan_view(r) == self.command_named(upper@),
    {
        match State::from_upper(upper) {
            Ok(state) => Ok(Some(run(self.script_for(state)))),
            Err(e) => Err(e),
        }
    }
}

impl Updateable for Switch {
    open spec fn command_given(&self, topic: Seq<Seq<char>>, state: Seq<char>, upper: Seq<char>)
        -> Result<Option<InvocationView>, Error> {
        if addressed(topic, Kind::Switch, id_of(self.name@)) {
            self.command_named(upper)
        } else {
            Ok(None)
        }
    }

    fn update(&self, topic: &Vec<String>, state: &str) -> (r: Result<Option<Invocation>, Error>) {
        let id = self.name.as_id();
        if is_addressed(topic, Kind::Switch, id.as_str()) {
            let upper = uppercase(state);
            self.command_for(upper.as_str())
        } else {
            Ok(None)
        }
    }
}

impl Publishable for Switch {
    open spec fn kind(&self) -> Kind {
        Kind::Switch
    }

    open spec fn label(&self) -> Seq<char> {
        self.name@
    }

    open spec fn script(&self) -> Seq<char> {
        self.state_script@
    }

    open spec fn captures(&self) -> bool {
        false
    }

    fn state_script(&self) -> (r: &str) {
        self.state_script.as_str()
    }

    fn captures_output(&self) -> (r: bool) {
        false
    }

    fn state_topic(&self, config: &ComputerAssistantConfig) -> (r: String) {
        let id = self.name.as_id();
        state_topic(config.base_topic.as_str(), Kind::Switch, id.as_str())
    }
}

} // verus!
