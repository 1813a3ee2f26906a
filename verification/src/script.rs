//! Scripts: what is run for an entity, and what its outcome means.

use vstd::prelude::*;
use vstd::string::*;
use vstd::utf8::{decode_utf8, is_ascii_chars, valid_utf8};
use crate::config::{id_of, ComputerAssistantConfig};
use crate::error::Error;
use crate::message::{Delivery, MessageView, OutboundMessage};
use crate::state::{state_text, State};
use crate::text::{
    ascii_uppercased, decode, same_text, texts, trim, trimmed, uppercased, CharClass,
};
use crate::topic::{kind_text, state_topic_of, Kind};

verus! {

/// A script to run through the shell, with the arguments that it is given.
#[derive(Debug)]
pub struct Invocation {
    pub script: String,
    pub args: Vec<String>,
}

/// An invocation as plain values.
pub struct InvocationView {
    pub script: Seq<char>,
    pub args: Seq<Seq<char>>,
}

impl View for Invocation {
    type V = InvocationView;

    open spec fn view(&self) -> InvocationView {
        InvocationView { script: self.script@, args: texts(self.args@) }
    }
}

/// How a script ended.
#[derive(Debug)]
pub enum ScriptOutcome {
    /// The process could not be started.
    SpawnFailed,
    /// The process ran and ended: whether its exit code was zero, and what it
    /// wrote to standard output where that was captured.
    Finished { success: bool, stdout: Vec<u8> },
}

/// What a command asks for, as plain values.
pub open spec fn plan_view(r: Result<Option<Invocation>, Error>) -> Result<
    Option<InvocationView>,
    Error,
> {
    match r {
        Ok(Some(invocation)) => Ok(Some(invocation@)),
        Ok(None) => Ok(None),
        Err(e) => Err(e),
    }
}

/// A text or an error, as plain values.
pub open spec fn text_view(r: Result<String, Error>) -> Result<Seq<char>, Error> {
    match r {
        Ok(s) => Ok(s@),
        Err(e) => Err(e),
    }
}

/// A message or an error, as plain values.
pub open spec fn message_view(r: Result<OutboundMessage, Error>) -> Result<MessageView, Error> {
    match r {
        Ok(m) => Ok(m@),
        Err(e) => Err(e),
    }
}

/// Whether a path of subtopics is the kind and the id of an entity, and
/// nothing more.
pub open spec fn addressed(topic: Seq<Seq<char>>, kind: Kind, id: Seq<char>) -> bool {
    topic.len() == 2 && topic[0] == kind_text(kind) && topic[1] == id
}

/// Whether `topic` is the kind and the id of an entity, and nothing more.
pub fn is_addressed(topic: &Vec<String>, kind: Kind, id: &str) -> (r: bool)
    ensures
        r == addressed(texts(topic@), kind, id@),
{
    topic.len() == 2 && same_text(topic[0].as_str(), kind.as_str()) && same_text(
        topic[1].as_str(),
        id,
    )
}

/// The invocation that runs `script` without arguments.
pub fn run(script: &str) -> (r: Invocation)
    ensures
        r@ == (InvocationView { script: script@, args: Seq::empty() }),
{
    let args: Vec<String> = Vec::new();
    assert(texts(args@) =~= Seq::<Seq<char>>::empty());
    Invocation { script: String::from_str(script), args }
}

/// The invocation that runs `script` with the arguments `first` and `second`.
pub fn run_with(script: &str, first: &str, second: &str) -> (r: Invocation)
    ensures
        r@ == (InvocationView { script: script@, args: seq![first@, second@] }),
{
    let mut args: Vec<String> = Vec::new();
    args.push(String::from_str(first));
    args.push(String::from_str(second));
    assert(texts(args@) =~= seq![first@, second@]);
    Invocation { script: String::from_str(script), args }
}

/// The state that an outcome stands for: on where the script ran and ended
/// with exit code zero, off in every other case.
pub open spec fn state_shown(outcome: ScriptOutcome) -> State {
    match outcome {
        ScriptOutcome::Finished { success, stdout } => if success {
            State::On
        } else {
            State::Off
        },
        ScriptOutcome::SpawnFailed => State::Off,
    }
}

/// The value that an outcome carries: what the script wrote, decoded and
/// without the characters of `class` at either end, whatever its exit code.
pub open spec fn value_shown_by(outcome: ScriptOutcome, class: CharClass) -> Result<
    Seq<char>,
    Error,
> {
    match outcome {
        ScriptOutcome::Finished { success, stdout } => if valid_utf8(stdout@) {
            Ok(trimmed(decode_utf8(stdout@), class))
        } else {
            Err(Error::ScriptOutput)
        },
        ScriptOutcome::SpawnFailed => Err(Error::ScriptSpawn),
    }
}

/// The value that an outcome carries: what the script wrote, decoded and
/// without white space at either end, whatever its exit code.
pub open spec fn value_shown(outcome: ScriptOutcome) -> Result<Seq<char>, Error> {
    value_shown_by(outcome, CharClass::WhiteSpace)
}

/// Whether the script wrote ASCII text. White space is then ASCII white
/// space.
pub open spec fn ascii_output(outcome: ScriptOutcome) -> bool {
    outcome matches ScriptOutcome::Finished { success, stdout } && valid_utf8(stdout@)
        && is_ascii_chars(decode_utf8(stdout@))
}

/// The payload that reports an outcome, for an entity that reports a value
/// (`captures`), trimmed of `class`, or one that is on or off.
pub open spec fn payload_by(captures: bool, outcome: ScriptOutcome, class: CharClass) -> Result<
    Seq<char>,
    Error,
> {
    if captures {
        value_shown_by(outcome, class)
    } else {
        Ok(state_text(state_shown(outcome)))
    }
}

/// The payload that reports an outcome, for an entity that reports a value
/// (`captures`) or one that is on or off.
pub open spec fn payload_of(captures: bool, outcome: ScriptOutcome) -> Result<Seq<char>, Error> {
    payload_by(captures, outcome, CharClass::WhiteSpace)
}

/// The message that reports an outcome for the entity of `kind` called
/// `name`: the payload, a value being trimmed of `class`, on the entity's
/// state topic, to be delivered at least once and not retained.
pub open spec fn report_by(
    base: Seq<char>,
    kind: Kind,
    name: Seq<char>,
    captures: bool,
    outcome: ScriptOutcome,
    class: CharClass,
) -> Result<MessageView, Error> {
    match payload_by(captures, outcome, class) {
        Ok(payload) => Ok(
            MessageView {
                topic: state_topic_of(base, kind, id_of(name)),
                payload,
                delivery: Delivery::AtLeastOnce,
                retained: false,
            },
        ),
        Err(e) => Err(e),
    }
}

/// The message that reports an outcome for the entity of `kind` called
/// `name`: the payload on the entity's state topic, to be delivered at least
/// once and not retained.
pub open spec fn report_of(
    base: Seq<char>,
    kind: Kind,
    name: Seq<char>,
    captures: bool,
    outcome: ScriptOutcome,
) -> Result<MessageView, Error> {
    report_by(base, kind, name, captures, outcome, CharClass::WhiteSpace)
}

/// The payload of an entity that is on or off: `ON` where the script ran and
/// ended with exit code zero, `OFF` otherwise. What the script wrote is not
/// looked at.
pub fn on_off_payload(outcome: &ScriptOutcome) -> (r: String)
    ensures
        r@ == state_text(state_shown(*outcome)),
{
    let state = match outcome {
        ScriptOutcome::Finished { success, stdout } => if *success {
            State::On
        } else {
            State::Off
        },
        ScriptOutcome::SpawnFailed => State::Off,
    };
    state.to_string()
}

/// The payload of an entity that reports a value: what the script wrote to
/// standard output, without white space at either end. The exit code is not
/// looked at. Where the script wrote ASCII text, white space is ASCII white
/// space.
pub fn value_payload(outcome: &ScriptOutcome) -> (r: Result<String, Error>)
    ensures
        text_view(r) == value_shown(*outcome),
        ascii_output(*outcome) ==> text_view(r) == value_shown_by(
            *outcome,
            CharClass::AsciiWhiteSpace,
        ),
{
    match outcome {
        ScriptOutcome::Finished { success, stdout } => {
            match decode(stdout.as_slice()) {
                Some(text) => Ok(trim(text.as_str())),
                None => Err(Error::ScriptOutput),
            }
        },
        ScriptOutcome::SpawnFailed => Err(Error::ScriptSpawn),
    }
}

/// What the outcome of a command script amounts to: an error where the
/// script could not be started, and success otherwise, however it ended.
pub open spec fn command_shown(outcome: ScriptOutcome) -> Result<(), Error> {
    match outcome {
        ScriptOutcome::Finished { success, stdout } => Ok(()),
        ScriptOutcome::SpawnFailed => Err(Error::ScriptSpawn),
    }
}

/// Whether a command was carried out, by the outcome of its script. After an
/// error the commands that the same message still asks for are not run.
pub fn command_result(outcome: &ScriptOutcome) -> (r: Result<(), Error>)
    ensures
        r == command_shown(*outcome),
{
    match outcome {
        ScriptOutcome::Finished { success, stdout } => Ok(()),
        ScriptOutcome::SpawnFailed => Err(Error::ScriptSpawn),
    }
}

/// An entity that accepts commands.
pub trait Updateable {
    /// What a command asks of this entity: a script to run, nothing, or an
    /// error. `topic` is the path behind the command prefix, `state` the
    /// payload and `upper` the payload in upper case.
    spec fn command_given(&self, topic: Seq<Seq<char>>, state: Seq<char>, upper: Seq<char>)
        -> Result<Option<InvocationView>, Error>;

    /// What the command `state`, sent to `topic`, asks of this entity. The
    /// upper-case form of an ASCII payload is the payload with each small
    /// letter replaced by its capital.
    fn update(&self, topic: &Vec<String>, state: &str) -> (r: Result<Option<Invocation>, Error>)
        ensures
            plan_view(r) == self.command_given(texts(topic@), state@, uppercased(state@)),
            is_ascii_chars(state@) ==> plan_view(r) == self.command_given(
                texts(topic@),
                state@,
                ascii_uppercased(state@),
            ),
    ;
}

/// An entity that reports its state.
pub trait Publishable {
    /// The kind under which the state is published.
    spec fn kind(&self) -> Kind;

    /// The name of the entity.
    spec fn label(&self) -> Seq<char>;

    /// The script that tells the state.
    spec fn script(&self) -> Seq<char>;

    /// Whether the state is what the script writes, not how it ends.
    spec fn captures(&self) -> bool;

    /// The script that tells the state.
    fn state_script(&self) -> (r: &str)
        ensures
            r@ == self.script(),
    ;

    /// Whether the script's output is to be captured.
    fn captures_output(&self) -> (r: bool)
        ensures
            r == self.captures(),
    ;

    /// The topic on which the state is published.
    fn state_topic(&self, config: &ComputerAssistantConfig) -> (r: String)
        ensures
            r@ == state_topic_of(config.base_topic@, self.kind(), id_of(self.label())),
    ;

    /// The payload that reports `outcome`, the outcome of the state script.
    /// Where the script wrote ASCII text, white space is ASCII white space.
    fn state_payload(&self, config: &ComputerAssistantConfig, outcome: &ScriptOutcome) -> (r:
        Result<String, Error>)
        ensures
            text_view(r) == payload_of(self.captures(), *outcome),
            ascii_output(*outcome) ==> text_view(r) == payload_by(
                self.captures(),
                *outcome,
                CharClass::AsciiWhiteSpace,
            ),
    {
        if self.captures_output() {
            value_payload(outcome)
        } else {
            Ok(on_off_payload(outcome))
        }
    }

    /// The message that reports `outcome` on the state topic, to be delivered
    /// at least once and not retained.
    fn publish_state(&self, config: &ComputerAssistantConfig, outcome: &ScriptOutcome) -> (r:
        Result<OutboundMessage, Error>)
        ensures
            message_view(r) == report_of(
                config.base_topic@,
                self.kind(),
                self.label(),
                self.captures(),
                *outcome,
            ),
            ascii_output(*outcome) ==> message_view(r) == report_by(
                config.base_topic@,
                self.kind(),
                self.label(),
                self.captures(),
                *outcome,
                CharClass::AsciiWhiteSpace,
            ),
    {
        match self.state_payload(config, outcome) {
            Ok(payload) => Ok(
                OutboundMessage {
                    topic: self.state_topic(config),
                    payload,
                    delivery: Delivery::AtLeastOnce,
                    retained: false,
                },
            ),
            Err(e) => Err(e),
        }
    }
}

} // verus!
