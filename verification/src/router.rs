//! The router: from a message on the bus to the scripts that it asks for.

use vstd::prelude::*;
use vstd::utf8::{decode_utf8, is_ascii_chars, valid_utf8};
use crate::error::Error;
use crate::message::Delivery;
use crate::registry::{Config, EntityRef, UpdateableHandlers};
use crate::config::id_of;
use crate::script::{addressed, plan_view, Invocation, InvocationView, Updateable};
use crate::text::{
    all_distinct, ascii_uppercased, chars_of, decode, split, split_at_separator, split_range,
    split_without_separator, starts_with_at, texts, trim_back, trim_bounds, trim_front, trimmed,
    uppercased, CharClass,
};
use crate::topic::{
    command_filter, command_filter_of, command_prefix, command_prefix_of, command_topic_of,
    command_topic_under_prefix, kind_text, kind_text_injective, kind_text_shape, Kind,
};

verus! {

/// The pause behind each message unless another is chosen, in milliseconds.
pub const MESSAGE_PAUSE_MILLIS: u64 = 500;

/// A message that came in from the bus.
#[derive(Debug)]
pub struct Inbound {
    pub topic: String,
    pub payload: Vec<u8>,
}

/// What to subscribe to, and how.
#[derive(Debug)]
pub struct Subscription {
    pub filter: String,
    pub delivery: Delivery,
}

/// What the listener does next.
#[derive(Debug)]
pub enum ListenStep {
    /// The stream of messages has ended, and so does listening.
    Stop,
    /// A message came in: the scripts to run for it, in order, or the error to
    /// report; then the pause to keep before the next message is taken.
    Handle { commands: Result<Vec<Invocation>, Error>, pause_millis: u64 },
}

/// The views of `v`, in order.
pub open spec fn invocations(v: Seq<Invocation>) -> Seq<InvocationView> {
    Seq::new(v.len(), |i: int| v[i]@)
}

/// Scripts or an error, as plain values.
pub open spec fn plans_view(r: Result<Vec<Invocation>, Error>) -> Result<
    Seq<InvocationView>,
    Error,
> {
    match r {
        Ok(v) => Ok(invocations(v@)),
        Err(e) => Err(e),
    }
}

/// Whether `topic` is `prefix` or lies under it: it begins with `prefix`, and
/// `prefix` ends where a segment of `topic` ends. That is so where nothing
/// follows the prefix, where a separator follows it, and where the prefix
/// itself ends in a separator or is empty.
pub open spec fn under(topic: Seq<char>, prefix: Seq<char>) -> bool {
    &&& prefix.is_prefix_of(topic)
    &&& (topic.len() == prefix.len() || topic[prefix.len() as int] == '/' || prefix.len() == 0
        || prefix.last() == '/')
}

/// The path of `topic` behind `prefix`: what follows the prefix, without
/// separators at either end, split at the separators. A topic that is not
/// under `prefix` has none.
pub open spec fn subtopics_of(topic: Seq<char>, prefix: Seq<char>) -> Option<Seq<Seq<char>>> {
    if under(topic, prefix) {
        Some(split(trimmed(topic.skip(prefix.len() as int), CharClass::Separator), '/'))
    } else {
        None
    }
}

/// A topic in which the prefix is followed by anything but a separator is not
/// under the prefix, unless the prefix is empty or ends in a separator.
pub proof fn glued_topic_is_not_under(topic: Seq<char>, prefix: Seq<char>)
    requires
        prefix.len() > 0,
        prefix.last() != '/',
        topic.len() > prefix.len(),
        topic[prefix.len() as int] != '/',
    ensures
        subtopics_of(topic, prefix) is None,
{
}

/// The command topic of an entity leads back to the entity: behind the
/// command prefix of its base topic, its path is the kind and the id. This
/// holds of every id that is not empty and holds no separator.
pub proof fn command_topic_path(base: Seq<char>, kind: Kind, id: Seq<char>)
    requires
        id.len() > 0,
        forall|i: int| 0 <= i < id.len() ==> id[i] != '/',
    ensures
        subtopics_of(command_topic_of(base, kind, id), command_prefix_of(base)) == Some(
            seq![kind_text(kind), id],
        ),
{
    reveal_strlit("/entities/cmd");
    reveal_strlit("/entities/cmd/");
    reveal_strlit("/");
    kind_text_shape(kind);
    command_topic_under_prefix(base, kind, id);
    let prefix = command_prefix_of(base);
    let topic = command_topic_of(base, kind, id);
    let name = kind_text(kind);
    let path = name + seq!['/'] + id;
    let rest = seq!['/'] + path;
    assert(topic.skip(prefix.len() as int) =~= rest);
    assert(topic[prefix.len() as int] == rest[0]);
    assert(rest.drop_first() =~= path);
    assert(path.first() == name[0]);
    assert(trim_front(path, CharClass::Separator) == path);
    assert(trim_front(rest, CharClass::Separator) == path);
    assert(path.last() == id.last());
    assert(trim_back(path, CharClass::Separator) == path);
    split_without_separator(name, '/');
    split_at_separator(name, id, '/');
    assert(seq![name].push(id) =~= seq![name, id]);
}

/// A message on the command topic of an entity is the command for every
/// registered entity of that kind and id: its payload, decoded, or an error
/// where the payload is not UTF-8. This holds of every id that is not empty
/// and holds no separator.
pub proof fn command_topic_is_routed(
    config: Config,
    all: Seq<EntityRef>,
    kind: Kind,
    id: Seq<char>,
    payload: Seq<u8>,
    upper: Seq<char>,
)
    requires
        id.len() > 0,
        forall|i: int| 0 <= i < id.len() ==> id[i] != '/',
    ensures
        config.dispatched_given(
            all,
            command_topic_of(config.computer_assistant.base_topic@, kind, id),
            payload,
            upper,
        ) == if valid_utf8(payload) {
            config.commands_given(all, seq![kind_text(kind), id], decode_utf8(payload), upper)
        } else {
            Err(Error::Payload)
        },
{
    command_topic_path(config.computer_assistant.base_topic@, kind, id);
}

/// A topic whose path behind the command prefix is not a kind and an id asks
/// nothing and is no error, whatever the payload and the entities.
pub proof fn other_paths_ask_nothing(
    config: Config,
    all: Seq<EntityRef>,
    topic: Seq<char>,
    payload: Seq<u8>,
    upper: Seq<char>,
)
    requires
        match subtopics_of(topic, command_prefix_of(config.computer_assistant.base_topic@)) {
            Some(path) => path.len() != 2,
            None => true,
        },
    ensures
        config.dispatched_given(all, topic, payload, upper) == Ok::<Seq<InvocationView>, Error>(
            Seq::empty(),
        ),
{
}

/// The path of `topic` behind `prefix`, if `topic` is under `prefix`.
pub fn subtopics(topic: &str, prefix: &str) -> (r: Option<Vec<String>>)
    ensures
        match r {
            Some(path) => subtopics_of(topic@, prefix@) == Some(texts(path@)),
            None => subtopics_of(topic@, prefix@) is None,
        },
{
    let t = chars_of(topic);
    let p = chars_of(prefix);
    assert(t@.skip(0) =~= t@);
    if !starts_with_at(&t, 0, &p) {
        return None;
    }
    let n = p.len();
    if !(t.len() == n || t[n] == '/' || n == 0 || p[n - 1] == '/') {
        return None;
    }
    let (from, to) = trim_bounds(&t, n, CharClass::Separator);
    Some(split_range(&t, from, to, '/'))
}

impl Config {
    /// Whether `e` is an entity of the configuration that accepts commands.
    pub open spec fn accepts(&self, e: EntityRef) -> bool {
        match e.kind {
            Kind::Switch => e.index < self.switch.len(),
            Kind::Button => e.index < self.button.len(),
            Kind::Number => e.index < self.number.len(),
            _ => false,
        }
    }

    /// Whether `path` is the kind and the id of `e`, an entity of the
    /// configuration that accepts commands.
    pub open spec fn addresses(&self, e: EntityRef, path: Seq<Seq<char>>) -> bool {
        &&& self.accepts(e)
        &&& addressed(
            path,
            e.kind,
            id_of(
                match e.kind {
                    Kind::Switch => self.switch[e.index as int].name@,
                    Kind::Button => self.button[e.index as int].name@,
                    _ => self.number[e.index as int].name@,
                },
            ),
        )
    }

    /// Whether no two entities of a kind share an id.
    pub open spec fn ids_distinct(&self) -> bool {
        &&& forall|i: int, j: int|
            0 <= i < j < self.switch.len() ==> id_of(self.switch[i].name@) != id_of(
                self.switch[j].name@,
            )
        &&& forall|i: int, j: int|
            0 <= i < j < self.button.len() ==> id_of(self.button[i].name@) != id_of(
                self.button[j].name@,
            )
        &&& forall|i: int, j: int|
            0 <= i < j < self.number.len() ==> id_of(self.number[i].name@) != id_of(
                self.number[j].name@,
            )
        &&& forall|i: int, j: int|
            0 <= i < j < self.binary_sensor.len() ==> id_of(self.binary_sensor[i].name@) != id_of(
                self.binary_sensor[j].name@,
            )
        &&& forall|i: int, j: int|
            0 <= i < j < self.sensor.len() ==> id_of(self.sensor[i].name@) != id_of(
                self.sensor[j].name@,
            )
    }

    /// What the command `state`, sent to `path`, asks of the entity `e`, where
    /// `upper` is the command in upper case. An entity that the configuration
    /// does not hold, or one that accepts no commands, is asked nothing.
    pub open spec fn command_given(
        &self,
        e: EntityRef,
        path: Seq<Seq<char>>,
        state: Seq<char>,
        upper: Seq<char>,
    ) -> Result<Option<InvocationView>, Error> {
        match e.kind {
            Kind::Switch => if e.index < self.switch.len() {
                self.switch[e.index as int].command_given(path, state, upper)
            } else {
                Ok(None)
            },
            Kind::Button => if e.index < self.button.len() {
                self.button[e.index as int].command_given(path, state, upper)
            } else {
                Ok(None)
            },
            Kind::Number => if e.index < self.number.len() {
                self.number[e.index as int].command_given(path, state, upper)
            } else {
                Ok(None)
            },
            _ => Ok(None),
        }
    }

    /// What the command `state`, sent to `path`, asks of the entity `e`.
    pub open spec fn command_of(&self, e: EntityRef, path: Seq<Seq<char>>, state: Seq<char>)
        -> Result<Option<InvocationView>, Error> {
        self.command_given(e, path, state, uppercased(state))
    }

    /// What the command `state`, sent to `path`, asks of the entities `all`,
    /// one after the other, where `upper` is the command in upper case: the
    /// scripts of all that it addresses, or the first error.
    pub open spec fn commands_given(
        &self,
        all: Seq<EntityRef>,
        path: Seq<Seq<char>>,
        state: Seq<char>,
        upper: Seq<char>,
    ) -> Result<Seq<InvocationView>, Error>
        decreases all.len(),
    {
        if all.len() == 0 {
            Ok(Seq::empty())
        } else {
            match self.command_given(all.first(), path, state, upper) {
                Err(e) => Err(e),
                Ok(first) => match self.commands_given(all.drop_first(), path, state, upper) {
                    Err(e) => Err(e),
                    Ok(rest) => Ok(
                        match first {
                            Some(invocation) => seq![invocation] + rest,
                            None => rest,
                        },
                    ),
                },
            }
        }
    }

    /// What the command `state`, sent to `path`, asks of the entities `all`,
    /// one after the other: the scripts of all that it addresses, or the
    /// first error.
    pub open spec fn commands_of(
        &self,
        all: Seq<EntityRef>,
        path: Seq<Seq<char>>,
        state: Seq<char>,
    ) -> Result<Seq<InvocationView>, Error> {
        self.commands_given(all, path, state, uppercased(state))
    }

    /// What the message `payload` on `topic` asks of the entities `all`, where
    /// `upper` is the decoded payload in upper case. A topic that is not under
    /// the command prefix, or one whose path is not a kind and an id, asks
    /// nothing. Otherwise the payload has to be UTF-8, and is the command for
    /// every entity that the path addresses.
    pub open spec fn dispatched_given(
        &self,
        all: Seq<EntityRef>,
        topic: Seq<char>,
        payload: Seq<u8>,
        upper: Seq<char>,
    ) -> Result<Seq<InvocationView>, Error> {
        match subtopics_of(topic, command_prefix_of(self.computer_assistant.base_topic@)) {
            None => Ok(Seq::empty()),
            Some(path) => if path.len() != 2 {
                Ok(Seq::empty())
            } else if !valid_utf8(payload) {
                Err(Error::Payload)
            } else {
                self.commands_given(all, path, decode_utf8(payload), upper)
            },
        }
    }

    /// What the message `payload` on `topic` asks of the entities `all`.
    pub open spec fn dispatched(&self, all: Seq<EntityRef>, topic: Seq<char>, payload: Seq<u8>)
        -> Result<Seq<InvocationView>, Error> {
        self.dispatched_given(all, topic, payload, uppercased(decode_utf8(payload)))
    }

    /// The ids of the switches, in order.
    pub fn switch_ids(&self) -> (r: Vec<String>)
        ensures
            r.len() == self.switch.len(),
            forall|k: int| 0 <= k < r.len() ==> #[trigger] r@[k]@ == id_of(self.switch[k].name@),
    {
        let mut ids: Vec<String> = Vec::new();
        let mut i: usize = 0;
        while i < self.switch.len()
            invariant
                i <= self.switch.len(),
                ids.len() == i,
                forall|k: int| 0 <= k < i ==> #[trigger] ids@[k]@ == id_of(self.switch[k].name@),
            decreases self.switch.len() - i,
        {
            ids.push(self.switch[i].name.as_id());
            i += 1;
        }
        ids
    }

    /// The ids of the buttons, in order.
    pub fn button_ids(&self) -> (r: Vec<String>)
        ensures
            r.len() == self.button.len(),
            forall|k: int| 0 <= k < r.len() ==> #[trigger] r@[k]@ == id_of(self.button[k].name@),
    {
        let mut ids: Vec<String> = Vec::new();
        let mut i: usize = 0;
        while i < self.button.len()
            invariant
                i <= self.button.len(),
                ids.len() == i,
                forall|k: int| 0 <= k < i ==> #[trigger] ids@[k]@ == id_of(self.button[k].name@),
            decreases self.button.len() - i,
        {
            ids.push(self.button[i].name.as_id());
            i += 1;
        }
        ids
    }

    /// The ids of the numbers, in order.
    pub fn number_ids(&self) -> (r: Vec<String>)
        ensures
            r.len() == self.number.len(),
            forall|k: int| 0 <= k < r.len() ==> #[trigger] r@[k]@ == id_of(self.number[k].name@),
    {
        let mut ids: Vec<String> = Vec::new();
        let mut i: usize = 0;
        while i < self.number.len()
            invariant
                i <= self.number.len(),
                ids.len() == i,
                forall|k: int| 0 <= k < i ==> #[trigger] ids@[k]@ == id_of(self.number[k].name@),
            decreases self.number.len() - i,
        {
            ids.push(self.number[i].name.as_id());
            i += 1;
        }
        ids
    }

    /// The ids of the binary sensors, in order.
    pub fn binary_sensor_ids(&self) -> (r: Vec<String>)
        ensures
            r.len() == self.binary_sensor.len(),
            forall|k: int| 0 <= k < r.len() ==> #[trigger] r@[k]@ == id_of(self.binary_sensor[k].name@),
    {
        let mut ids: Vec<String> = Vec::new();
        let mut i: usize = 0;
        while i < self.binary_sensor.len()
            invariant
                i <= self.binary_sensor.len(),
                ids.len() == i,
                forall|k: int| 0 <= k < i ==> #[trigger] ids@[k]@ == id_of(self.binary_sensor[k].name@),
            decreases self.binary_sensor.len() - i,
        {
            ids.push(self.binary_sensor[i].name.as_id());
            i += 1;
        }
        ids
    }

    /// The ids of the sensors, in order.
    pub fn sensor_ids(&self) -> (r: Vec<String>)
        ensures
            r.len() == self.sensor.len(),
            forall|k: int| 0 <= k < r.len() ==> #[trigger] r@[k]@ == id_of(self.sensor[k].name@),
    {
        let mut ids: Vec<String> = Vec::new();
        let mut i: usize = 0;
        while i < self.sensor.len()
            invariant
                i <= self.sensor.len(),
                ids.len() == i,
                forall|k: int| 0 <= k < i ==> #[trigger] ids@[k]@ == id_of(self.sensor[k].name@),
            decreases self.sensor.len() - i,
        {
            ids.push(self.sensor[i].name.as_id());
            i += 1;
        }
        ids
    }

    /// Whether no two entities of a kind share an id.
    pub fn has_distinct_ids(&self) -> (r: bool)
        ensures
            r == self.ids_distinct(),
    {
        let switches = self.switch_ids();
        let buttons = self.button_ids();
        let numbers = self.number_ids();
        let binary_sensors = self.binary_sensor_ids();
        let sensors = self.sensor_ids();
        let s = all_distinct(&switches);
        let b = all_distinct(&buttons);
        let n = all_distinct(&numbers);
        let d = all_distinct(&binary_sensors);
        let t = all_distinct(&sensors);
        proof {
            if s && b && n && d && t {
                assert forall|i: int, j: int| 0 <= i < j < self.binary_sensor.len() implies id_of(
                    self.binary_sensor[i].name@,
                ) != id_of(self.binary_sensor[j].name@) by {
                    assert(binary_sensors@[i]@ != binary_sensors@[j]@);
                }
                assert forall|i: int, j: int| 0 <= i < j < self.sensor.len() implies id_of(
                    self.sensor[i].name@,
                ) != id_of(self.sensor[j].name@) by {
                    assert(sensors@[i]@ != sensors@[j]@);
                }
                assert forall|i: int, j: int| 0 <= i < j < self.switch.len() implies id_of(
                    self.switch[i].name@,
                ) != id_of(self.switch[j].name@) by {
                    assert(switches@[i]@ != switches@[j]@);
                }
                assert forall|i: int, j: int| 0 <= i < j < self.button.len() implies id_of(
                    self.button[i].name@,
                ) != id_of(self.button[j].name@) by {
                    assert(buttons@[i]@ != buttons@[j]@);
                }
                assert forall|i: int, j: int| 0 <= i < j < self.number.len() implies id_of(
                    self.number[i].name@,
                ) != id_of(self.number[j].name@) by {
                    assert(numbers@[i]@ != numbers@[j]@);
                }
            }
        }
        s && b && n && d && t
    }

    /// What the command `state`, sent to `path`, asks of the entity `e`.
    pub fn update(&self, e: EntityRef, path: &Vec<String>, state: &str) -> (r: Result<
        Option<Invocation>,
        Error,
    >)
        ensures
            plan_view(r) == self.command_of(e, texts(path@), state@),
            is_ascii_chars(state@) ==> plan_view(r) == self.command_given(
                e,
                texts(path@),
                state@,
                ascii_uppercased(state@),
            ),
    {
        match e.kind {
            Kind::Switch => if e.index < self.switch.len() {
                self.switch[e.index].update(path, state)
            } else {
                Ok(None)
            },
            Kind::Button => if e.index < self.button.len() {
                self.button[e.index].update(path, state)
            } else {
                Ok(None)
            },
            Kind::Number => if e.index < self.number.len() {
                self.number[e.index].update(path, state)
            } else {
                Ok(None)
            },
            _ => Ok(None),
        }
    }
}

/// Every entity that registering puts among those that accept commands is an
/// entity of the configuration that does.
pub proof fn registered_entities_accept(config: Config, i: int)
    requires
        0 <= i < config.updateable().len(),
    ensures
        config.accepts(config.updateable()[i]),
{
}

/// An entity that a path does not address is asked nothing.
pub proof fn unaddressed_is_asked_nothing(
    config: Config,
    e: EntityRef,
    path: Seq<Seq<char>>,
    state: Seq<char>,
    upper: Seq<char>,
)
    requires
        !config.addresses(e, path),
    ensures
        config.command_given(e, path, state, upper) == Ok::<Option<InvocationView>, Error>(None),
{
}

/// Where a path addresses none of the entities, the command asks nothing.
pub proof fn none_addressed_asks_nothing(
    config: Config,
    all: Seq<EntityRef>,
    path: Seq<Seq<char>>,
    state: Seq<char>,
    upper: Seq<char>,
)
    requires
        forall|i: int| 0 <= i < all.len() ==> !config.addresses(all[i], path),
    ensures
        config.commands_given(all, path, state, upper) == Ok::<Seq<InvocationView>, Error>(
            Seq::empty(),
        ),
    decreases all.len(),
{
    if all.len() > 0 {
        unaddressed_is_asked_nothing(config, all.first(), path, state, upper);
        assert forall|i: int| 0 <= i < all.drop_first().len() implies !config.addresses(
            all.drop_first()[i],
            path,
        ) by {
            assert(all.drop_first()[i] == all[i + 1]);
        }
        none_addressed_asks_nothing(config, all.drop_first(), path, state, upper);
    }
}

/// Where no two entities of a kind share an id, a path addresses one entity
/// at most.
pub proof fn one_entity_addressed(config: Config, a: EntityRef, b: EntityRef, path: Seq<Seq<char>>)
    requires
        config.ids_distinct(),
        config.addresses(a, path),
        config.addresses(b, path),
    ensures
        a == b,
{
    kind_text_injective(a.kind, b.kind);
}

/// Where no two entities of a kind share an id, a command runs one script at
/// most, however many entities are registered, each once.
pub proof fn distinct_ids_one_script(
    config: Config,
    all: Seq<EntityRef>,
    path: Seq<Seq<char>>,
    state: Seq<char>,
    upper: Seq<char>,
)
    requires
        config.ids_distinct(),
        forall|i: int, j: int| 0 <= i < j < all.len() ==> all[i] != all[j],
    ensures
        config.commands_given(all, path, state, upper) matches Ok(scripts) ==> scripts.len() <= 1,
    decreases all.len(),
{
    if all.len() > 0 {
        let rest = all.drop_first();
        assert forall|i: int| 0 <= i < rest.len() implies rest[i] == all[i + 1] by {}
        if config.addresses(all.first(), path) {
            assert forall|i: int| 0 <= i < rest.len() implies !config.addresses(
                rest[i],
                path,
            ) by {
                if config.addresses(rest[i], path) {
                    one_entity_addressed(config, all[0], all[i + 1], path);
                }
            }
            none_addressed_asks_nothing(config, rest, path, state, upper);
        } else {
            unaddressed_is_asked_nothing(config, all.first(), path, state, upper);
            distinct_ids_one_script(config, rest, path, state, upper);
        }
    }
}

/// Whether `payload` is ASCII text. Its upper-case form is then the text with
/// each small letter replaced by its capital.
pub open spec fn ascii_payload(payload: Seq<u8>) -> bool {
    valid_utf8(payload) && is_ascii_chars(decode_utf8(payload))
}

/// What `done`, already collected, and `rest`, still to come, make together.
pub open spec fn followed_by(done: Seq<InvocationView>, rest: Result<Seq<InvocationView>, Error>)
    -> Result<Seq<InvocationView>, Error> {
    match rest {
        Ok(more) => Ok(done + more),
        Err(e) => Err(e),
    }
}

impl UpdateableHandlers {
    /// The subscription that brings in every command of the bridge.
    pub fn subscription(config: &Config) -> (r: Subscription)
        ensures
            r.filter@ == command_filter_of(config.computer_assistant.base_topic@),
            r.delivery == Delivery::AtLeastOnce,
    {
        Subscription {
            filter: command_filter(config.computer_assistant.base_topic.as_str()),
            delivery: Delivery::AtLeastOnce,
        }
    }

    /// The scripts that the command `state`, sent to `path`, asks for: one for
    /// each entity that it addresses, in the order of registration; or the
    /// first error, and then no script at all.
    pub fn route(&self, config: &Config, path: &Vec<String>, state: &str) -> (r: Result<
        Vec<Invocation>,
        Error,
    >)
        ensures
            plans_view(r) == config.commands_of(self.0@, texts(path@), state@),
            is_ascii_chars(state@) ==> plans_view(r) == config.commands_given(
                self.0@,
                texts(path@),
                state@,
                ascii_uppercased(state@),
            ),
    {
        let mut done: Vec<Invocation> = Vec::new();
        let mut i: usize = 0;
        assert(self.0@.skip(0) =~= self.0@);
        assert(invocations(done@) + Seq::<InvocationView>::empty() =~= invocations(done@));
        while i < self.0.len()
            invariant
                i <= self.0.len(),
                followed_by(
                    invocations(done@),
                    config.commands_of(self.0@.skip(i as int), texts(path@), state@),
                ) == config.commands_of(self.0@, texts(path@), state@),
                is_ascii_chars(state@) ==> followed_by(
                    invocations(done@),
                    config.commands_given(
                        self.0@.skip(i as int),
                        texts(path@),
                        state@,
                        ascii_uppercased(state@),
                    ),
                ) == config.commands_given(
                    self.0@,
                    texts(path@),
                    state@,
                    ascii_uppercased(state@),
                ),
            decreases self.0.len() - i,
        {
            let ghost rest = self.0@.skip(i as int);
            let ghost before = invocations(done@);
            assert(rest.first() == self.0@[i as int]);
            assert(rest.drop_first() =~= self.0@.skip(i + 1));
            match config.update(self.0[i], path, state) {
                Err(e) => {
                    return Err(e);
                },
                Ok(Some(invocation)) => {
                    done.push(invocation);
                    assert(invocations(done@) =~= before.push(invocation@));
                    assert forall|more: Seq<InvocationView>|
                        before + (seq![invocation@] + more) == #[trigger] (before.push(
                            invocation@,
                        ) + more) by {
                        assert(before + (seq![invocation@] + more) =~= before.push(invocation@)
                            + more);
                    }
                },
                Ok(None) => {},
            }
            i += 1;
        }
        assert(invocations(done@) + Seq::<InvocationView>::empty() =~= invocations(done@));
        Ok(done)
    }

    /// The scripts that the message `payload` on `topic` asks for.
    pub fn dispatch(&self, config: &Config, topic: &str, payload: &[u8]) -> (r: Result<
        Vec<Invocation>,
        Error,
    >)
        ensures
            plans_view(r) == config.dispatched(self.0@, topic@, payload@),
            ascii_payload(payload@) ==> plans_view(r) == config.dispatched_given(
                self.0@,
                topic@,
                payload@,
                ascii_uppercased(decode_utf8(payload@)),
            ),
    {
        let prefix = command_prefix(config.computer_assistant.base_topic.as_str());
        match subtopics(topic, prefix.as_str()) {
            None => Ok(Self::nothing()),
            Some(path) => {
                if path.len() != 2 {
                    Ok(Self::nothing())
                } else {
                    match decode(payload) {
                        None => Err(Error::Payload),
                        Some(state) => self.route(config, &path, state.as_str()),
                    }
                }
            },
        }
    }

    /// No script.
    fn nothing() -> (r: Vec<Invocation>)
        ensures
            invocations(r@) == Seq::<InvocationView>::empty(),
    {
        let r: Vec<Invocation> = Vec::new();
        assert(invocations(r@) =~= Seq::<InvocationView>::empty());
        r
    }

    /// One turn of listening. The end of the stream (`None`) ends it; a
    /// message is dispatched, and `pause_millis` is the pause to keep behind
    /// it whether it asked for anything or not. The upper-case form of an
    /// ASCII payload is the payload with each small letter replaced by its
    /// capital.
    pub fn listen_mqtt(&self, config: &Config, event: Option<&Inbound>, pause_millis: u64) -> (r:
        ListenStep)
        ensures
            match event {
                None => r is Stop,
                Some(message) => r matches ListenStep::Handle { commands, pause_millis: pause }
                    && pause == pause_millis && plans_view(commands) == config.dispatched(
                    self.0@,
                    message.topic@,
                    message.payload@,
                ) && (ascii_payload(message.payload@) ==> plans_view(commands)
                    == config.dispatched_given(
                    self.0@,
                    message.topic@,
                    message.payload@,
                    ascii_uppercased(decode_utf8(message.payload@)),
                )),
            },
    {
        match event {
            None => ListenStep::Stop,
            Some(message) => ListenStep::Handle {
                commands: self.dispatch(
                    config,
                    message.topic.as_str(),
                    message.payload.as_slice(),
                ),
                pause_millis,
            },
        }
    }
}

} // verus!
