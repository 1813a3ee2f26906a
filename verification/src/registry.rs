//! The registry: which entities accept commands, which report their state,
//! and what the hub is told of each when the bridge starts.

use vstd::prelude::*;
use vstd::string::*;
use crate::binary_sensor::{describes_binary_sensor, BinarySensor};
use crate::button::{describes_button, Button};
use crate::config::{id_of, ComputerAssistantConfig};
use crate::discovery::HomeAssistantConfig;
use crate::message::{Delivery, MessageView, OutboundMessage};
use crate::number::{describes_number, Number};
use crate::sensor::{describes_sensor, Sensor};
use crate::switch::{describes_switch, Switch};
use crate::topic::{availability_topic, availability_topic_of, discovery_topic, discovery_topic_of, Kind};

verus! {

/// The whole configuration: the bridge and its entities, kind by kind. An
/// entity is known by its kind and its place in the list of its kind.
#[derive(Debug)]
pub struct Config {
    pub computer_assistant: ComputerAssistantConfig,
    pub binary_sensor: Vec<BinarySensor>,
    pub sensor: Vec<Sensor>,
    pub switch: Vec<Switch>,
    pub number: Vec<Number>,
    pub button: Vec<Button>,
}

/// An entity of a configuration: its kind, and its place among the entities
/// of that kind.
#[derive(Clone, Copy, Debug, PartialEq, Eq, Structural)]
pub struct EntityRef {
    pub kind: Kind,
    pub index: usize,
}

/// The entities that accept commands, in the order in which they were
/// registered.
#[derive(Debug)]
pub struct UpdateableHandlers(pub Vec<EntityRef>);

/// The entities that report their state, in the order in which they were
/// registered.
#[derive(Debug)]
pub struct PublishableHandlers(pub Vec<EntityRef>);

/// What the hub is told of one entity: published once, retained.
#[derive(Debug)]
pub struct Announcement {
    pub topic: String,
    pub descriptor: HomeAssistantConfig,
    pub delivery: Delivery,
    pub retained: bool,
}

/// What registering a configuration gives: the announcements to publish, and
/// the two sets of entities.
#[derive(Debug)]
pub struct Registration {
    pub announcements: Vec<Announcement>,
    pub updateable: UpdateableHandlers,
    pub publishable: PublishableHandlers,
}

/// What connecting needs: the message that the broker sends when the bridge
/// is gone, and the one that the bridge sends as soon as it is there.
#[derive(Debug)]
pub struct Presence {
    pub will: OutboundMessage,
    pub online: OutboundMessage,
}

/// The first `count` entities of `kind`, in order.
pub open spec fn refs(kind: Kind, count: nat) -> Seq<EntityRef> {
    Seq::new(count, |i: int| EntityRef { kind, index: i as usize })
}

/// Whether `a` announces an entity of `kind` called `name`: on its discovery
/// topic, delivered at least once and retained.
pub open spec fn announces(
    a: Announcement,
    c: ComputerAssistantConfig,
    kind: Kind,
    name: Seq<char>,
) -> bool {
    &&& a.topic@ == discovery_topic_of(c.homeassistant_topic@, c.base_topic@, kind, id_of(name))
    &&& a.delivery == Delivery::AtLeastOnce
    &&& a.retained
}

impl Config {
    /// Whether `a` is the announcement of the switch at `i`.
    pub open spec fn announces_switch(&self, a: Announcement, i: int) -> bool {
        &&& announces(a, self.computer_assistant, Kind::Switch, self.switch[i].name@)
        &&& describes_switch(a.descriptor, self.switch[i], self.computer_assistant)
    }

    /// Whether `a` is the announcement of the binary sensor at `i`.
    pub open spec fn announces_binary_sensor(&self, a: Announcement, i: int) -> bool {
        &&& announces(a, self.computer_assistant, Kind::BinarySensor, self.binary_sensor[i].name@)
        &&& describes_binary_sensor(a.descriptor, self.binary_sensor[i], self.computer_assistant)
    }

    /// Whether `a` is the announcement of the number at `i`.
    pub open spec fn announces_number(&self, a: Announcement, i: int) -> bool {
        &&& announces(a, self.computer_assistant, Kind::Number, self.number[i].name@)
        &&& describes_number(a.descriptor, self.number[i], self.computer_assistant)
    }

    /// Whether `a` is the announcement of the button at `i`.
    pub open spec fn announces_button(&self, a: Announcement, i: int) -> bool {
        &&& announces(a, self.computer_assistant, Kind::Button, self.button[i].name@)
        &&& describes_button(a.descriptor, self.button[i], self.computer_assistant)
    }

    /// Whether `a` is the announcement of the sensor at `i`.
    pub open spec fn announces_sensor(&self, a: Announcement, i: int) -> bool {
        &&& announces(a, self.computer_assistant, Kind::Sensor, self.sensor[i].name@)
        &&& describes_sensor(a.descriptor, self.sensor[i], self.computer_assistant)
    }

    /// Whether `all` announces every entity once: the switches, then the
    /// binary sensors, the numbers, the buttons and the sensors, each kind in
    /// the order of its list.
    pub open spec fn announced(&self, all: Seq<Announcement>) -> bool {
        let s = self.switch.len() as int;
        let b = s + self.binary_sensor.len();
        let n = b + self.number.len();
        let p = n + self.button.len();
        &&& all.len() == p + self.sensor.len()
        &&& forall|i: int| 0 <= i < self.switch.len() ==> self.announces_switch(#[trigger] all[i], i)
        &&& forall|i: int|
            0 <= i < self.binary_sensor.len() ==> self.announces_binary_sensor(
                #[trigger] all[s + i],
                i,
            )
        &&& forall|i: int|
            0 <= i < self.number.len() ==> self.announces_number(#[trigger] all[b + i], i)
        &&& forall|i: int|
            0 <= i < self.button.len() ==> self.announces_button(#[trigger] all[n + i], i)
        &&& forall|i: int|
            0 <= i < self.sensor.len() ==> self.announces_sensor(#[trigger] all[p + i], i)
    }

    /// The entities that accept commands: the switches, the numbers and the
    /// buttons.
    pub open spec fn updateable(&self) -> Seq<EntityRef> {
        refs(Kind::Switch, self.switch.len() as nat) + refs(Kind::Number, self.number.len() as nat)
            + refs(Kind::Button, self.button.len() as nat)
    }

    /// The entities that report their state: the switches, the binary
    /// sensors, the numbers and the sensors.
    pub open spec fn publishable(&self) -> Seq<EntityRef> {
        refs(Kind::Switch, self.switch.len() as nat) + refs(
            Kind::BinarySensor,
            self.binary_sensor.len() as nat,
        ) + refs(Kind::Number, self.number.len() as nat) + refs(
            Kind::Sensor,
            self.sensor.len() as nat,
        )
    }

    /// The topic on which the bridge says whether it is there.
    pub fn status_topic(&self) -> (r: String)
        ensures
            r@ == availability_topic_of(
                self.computer_assistant.base_topic@,
                self.computer_assistant.availability_topic@,
            ),
    {
        availability_topic(
            self.computer_assistant.base_topic.as_str(),
            self.computer_assistant.availability_topic.as_str(),
        )
    }

    /// The two messages on the availability topic: `offline`, to be left with
    /// the broker as the last will before connecting, and `online`, to be
    /// published right after.
    pub fn connect_mqtt(&self) -> (r: Presence)
        ensures
            r.will@ == (MessageView {
                topic: availability_topic_of(
                    self.computer_assistant.base_topic@,
                    self.computer_assistant.availability_topic@,
                ),
                payload: "offline"@,
                delivery: Delivery::AtMostOnce,
                retained: false,
            }),
            r.online@ == (MessageView {
                topic: availability_topic_of(
                    self.computer_assistant.base_topic@,
                    self.computer_assistant.availability_topic@,
                ),
                payload: "online"@,
                delivery: Delivery::AtMostOnce,
                retained: false,
            }),
    {
        Presence {
            will: OutboundMessage {
                topic: self.status_topic(),
                payload: String::from_str("offline"),
                delivery: Delivery::AtMostOnce,
                retained: false,
            },
            online: OutboundMessage {
                topic: self.status_topic(),
                payload: String::from_str("online"),
                delivery: Delivery::AtMostOnce,
                retained: false,
            },
        }
    }

    /// The announcement `descriptor` of an entity of `kind` with the id `id`.
    fn announcement(&self, kind: Kind, id: &str, descriptor: HomeAssistantConfig) -> (r:
        Announcement)
        ensures
            r.topic@ == discovery_topic_of(
                self.computer_assistant.homeassistant_topic@,
                self.computer_assistant.base_topic@,
                kind,
                id@,
            ),
            r.descriptor == descriptor,
            r.delivery == Delivery::AtLeastOnce,
            r.retained,
    {
        Announcement {
            topic: discovery_topic(
                self.computer_assistant.homeassistant_topic.as_str(),
                self.computer_assistant.base_topic.as_str(),
                kind,
                id,
            ),
            descriptor,
            delivery: Delivery::AtLeastOnce,
            retained: true,
        }
    }

    /// Registers every entity: what to announce, in order, and the two sets
    /// of entities, each in the order of registration.
    pub fn register_mqtt(&self) -> (r: Registration)
        ensures
            self.announced(r.announcements@),
            r.updateable.0@ == self.updateable(),
            r.publishable.0@ == self.publishable(),
    {
        let mut all: Vec<Announcement> = Vec::new();
        let mut updateable: Vec<EntityRef> = Vec::new();
        let mut publishable: Vec<EntityRef> = Vec::new();
        let ghost s = self.switch.len() as int;
        let ghost b = s + self.binary_sensor.len();
        let ghost n = b + self.number.len();
        let ghost p = n + self.button.len();

        let mut i: usize = 0;
        while i < self.switch.len()
            invariant
                i <= self.switch.len(),
                all.len() == i,
                forall|j: int| 0 <= j < i ==> self.announces_switch(#[trigger] all[j], j),
                updateable@ == refs(Kind::Switch, i as nat),
                publishable@ == refs(Kind::Switch, i as nat),
            decreases self.switch.len() - i,
        {
            let entity = &self.switch[i];
            let id = entity.name.as_id();
            let a = self.announcement(
                Kind::Switch,
                id.as_str(),
                entity.ha_config(&self.computer_assistant),
            );
            all.push(a);
            updateable.push(EntityRef { kind: Kind::Switch, index: i });
            publishable.push(EntityRef { kind: Kind::Switch, index: i });
            i += 1;
            assert(updateable@ =~= refs(Kind::Switch, i as nat));
            assert(publishable@ =~= refs(Kind::Switch, i as nat));
        }
        let ghost switches = refs(Kind::Switch, self.switch.len() as nat);

        let mut i: usize = 0;
        while i < self.binary_sensor.len()
            invariant
                i <= self.binary_sensor.len(),
                s == self.switch.len(),
                all.len() == s + i,
                forall|j: int|
                    0 <= j < self.switch.len() ==> self.announces_switch(#[trigger] all[j], j),
                forall|j: int|
                    0 <= j < i ==> self.announces_binary_sensor(#[trigger] all[s + j], j),
                updateable@ == switches,
                publishable@ == switches + refs(Kind::BinarySensor, i as nat),
            decreases self.binary_sensor.len() - i,
        {
            let entity = &self.binary_sensor[i];
            let id = entity.name.as_id();
            let a = self.announcement(
                Kind::BinarySensor,
                id.as_str(),
                entity.ha_config(&self.computer_assistant),
            );
            all.push(a);
            publishable.push(EntityRef { kind: Kind::BinarySensor, index: i });
            i += 1;
            assert(publishable@ =~= switches + refs(Kind::BinarySensor, i as nat));
        }
        let ghost published = publishable@;

        let mut i: usize = 0;
        while i < self.number.len()
            invariant
                i <= self.number.len(),
                s == self.switch.len(),
                b == s + self.binary_sensor.len(),
                all.len() == b + i,
                forall|j: int|
                    0 <= j < self.switch.len() ==> self.announces_switch(#[trigger] all[j], j),
                forall|j: int|
                    0 <= j < self.binary_sensor.len() ==> self.announces_binary_sensor(
                        #[trigger] all[s + j],
                        j,
                    ),
                forall|j: int| 0 <= j < i ==> self.announces_number(#[trigger] all[b + j], j),
                updateable@ == switches + refs(Kind::Number, i as nat),
                publishable@ == published + refs(Kind::Number, i as nat),
            decreases self.number.len() - i,
        {
            let entity = &self.number[i];
            let id = entity.name.as_id();
            let a = self.announcement(
                Kind::Number,
                id.as_str(),
                entity.ha_config(&self.computer_assistant),
            );
            all.push(a);
            publishable.push(EntityRef { kind: Kind::Number, index: i });
            updateable.push(EntityRef { kind: Kind::Number, index: i });
            i += 1;
            assert(updateable@ =~= switches + refs(Kind::Number, i as nat));
            assert(publishable@ =~= published + refs(Kind::Number, i as nat));
        }
        let ghost updated = updateable@;
        let ghost published = publishable@;

        let mut i: usize = 0;
        while i < self.button.len()
            invariant
                i <= self.button.len(),
                s == self.switch.len(),
                b == s + self.binary_sensor.len(),
                n == b + self.number.len(),
                all.len() == n + i,
                forall|j: int|
                    0 <= j < self.switch.len() ==> self.announces_switch(#[trigger] all[j], j),
                forall|j: int|
                    0 <= j < self.binary_sensor.len() ==> self.announces_binary_sensor(
                        #[trigger] all[s + j],
                        j,
                    ),
                forall|j: int|
                    0 <= j < self.number.len() ==> self.announces_number(
                        #[trigger] all[b + j],
                        j,
                    ),
                forall|j: int| 0 <= j < i ==> self.announces_button(#[trigger] all[n + j], j),
                updateable@ == updated + refs(Kind::Button, i as nat),
                publishable@ == published,
            decreases self.button.len() - i,
        {
            let entity = &self.button[i];
            let id = entity.name.as_id();
            let a = self.announcement(
                Kind::Button,
                id.as_str(),
                entity.ha_config(&self.computer_assistant),
            );
            all.push(a);
            updateable.push(EntityRef { kind: Kind::Button, index: i });
            i += 1;
            assert(updateable@ =~= updated + refs(Kind::Button, i as nat));
        }

        let mut i: usize = 0;
        while i < self.sensor.len()
            invariant
                i <= self.sensor.len(),
                s == self.switch.len(),
                b == s + self.binary_sensor.len(),
                n == b + self.number.len(),
                p == n + self.button.len(),
                all.len() == p + i,
                forall|j: int|
                    0 <= j < self.switch.len() ==> self.announces_switch(#[trigger] all[j], j),
                forall|j: int|
                    0 <= j < self.binary_sensor.len() ==> self.announces_binary_sensor(
                        #[trigger] all[s + j],
                        j,
                    ),
                forall|j: int|
                    0 <= j < self.number.len() ==> self.announces_number(
                        #[trigger] all[b + j],
                        j,
                    ),
                forall|j: int|
                    0 <= j < self.button.len() ==> self.announces_button(
                        #[trigger] all[n + j],
                        j,
                    ),
                forall|j: int| 0 <= j < i ==> self.announces_sensor(#[trigger] all[p + j], j),
                updateable@ == self.updateable(),
                publishable@ == published + refs(Kind::Sensor, i as nat),
            decreases self.sensor.len() - i,
        {
            let entity = &self.sensor[i];
            let id = entity.name.as_id();
            let a = self.announcement(
                Kind::Sensor,
                id.as_str(),
                entity.ha_config(&self.computer_assistant),
            );
            all.push(a);
            publishable.push(EntityRef { kind: Kind::Sensor, index: i });
            i += 1;
            assert(publishable@ =~= published + refs(Kind::Sensor, i as nat));
        }
        Registration {
            announcements: all,
            updateable: UpdateableHandlers(updateable),
            publishable: PublishableHandlers(publishable),
        }
    }
}

} // verus!
