//! The configuration that the bridge is started with.

use vstd::prelude::*;
use vstd::utf8::is_ascii_chars;
use crate::discovery::HomeAssistantDevice;
use crate::text::{ascii_lower, lowercase, lowercased, replace, replaced};

verus! {

/// The label that a person gave an entity. It does not change after loading.
#[derive(Debug)]
pub struct Name(pub String);

impl Clone for Name {
    /// A name with the same text.
    fn clone(&self) -> (r: Self)
        ensures
            r@ == self@,
    {
        Name(self.0.clone())
    }
}

/// The id of the entity called `name`: the name in lower case, with an
/// underscore for each space.
pub open spec fn id_of(name: Seq<char>) -> Seq<char> {
    replaced(lowercased(name), ' ', '_')
}

/// The id of an entity whose name is ASCII: each capital letter replaced by
/// its small letter, and each space by an underscore.
pub open spec fn ascii_id_of(name: Seq<char>) -> Seq<char> {
    replaced(name.map_values(|c: char| ascii_lower(c)), ' ', '_')
}

/// What `as_id` returns for the name `name`.
pub open spec fn derives(name: Seq<char>, id: Seq<char>) -> bool {
    &&& id == id_of(name)
    &&& is_ascii_chars(name) ==> id == ascii_id_of(name)
}

impl View for Name {
    type V = Seq<char>;

    open spec fn view(&self) -> Seq<char> {
        self.0@
    }
}

impl Name {
    /// The name as it was given.
    pub fn as_str(&self) -> (r: &str)
        ensures
            r@ == self@,
    {
        self.0.as_str()
    }

    /// The name as it was given, as a text of its own.
    pub fn to_string(&self) -> (r: String)
        ensures
            r@ == self@,
    {
        self.0.clone()
    }

    /// The id by which topics and the hub refer to the entity.
    pub fn as_id(&self) -> (r: String)
        ensures
            derives(self@, r@),
    {
        let lower = lowercase(self.0.as_str());
        replace(lower.as_str(), ' ', '_')
    }
}

/// An id holds no space.
pub proof fn id_has_no_space(name: Seq<char>)
    ensures
        forall|i: int| 0 <= i < id_of(name).len() ==> id_of(name)[i] != ' ',
{
}

/// The id of an ASCII name is what deriving an ASCII id leaves as it is, and
/// is ASCII itself.
pub proof fn ascii_id_is_fixed(name: Seq<char>)
    ensures
        ascii_id_of(ascii_id_of(name)) == ascii_id_of(name),
        is_ascii_chars(name) ==> is_ascii_chars(ascii_id_of(name)),
{
    let id = ascii_id_of(name);
    assert(ascii_id_of(id) =~= id);
}

/// Deriving an id is idempotent on ASCII names: the id derived from an id that
/// was derived from such a name is that id.
pub proof fn as_id_idempotent(name: Seq<char>, id: Seq<char>, again: Seq<char>)
    requires
        is_ascii_chars(name),
        derives(name, id),
        derives(id, again),
    ensures
        again == id,
{
    ascii_id_is_fixed(name);
}

/// How many digits behind the point the hub shows of a sensor's value.
#[derive(Clone, Copy, Debug, PartialEq, Eq, Structural)]
pub struct DisplayPrecision(pub u8);

impl Default for DisplayPrecision {
    /// Two digits.
    fn default() -> (r: Self)
        ensures
            r == DisplayPrecision(2),
    {
        DisplayPrecision(2)
    }
}

impl DisplayPrecision {
    /// The number of digits.
    pub fn value(&self) -> (r: u8)
        ensures
            r == self.0,
    {
        self.0
    }
}

/// The discovery root that the hub listens on unless it is told otherwise.
pub fn _default_homeassistant_topic() -> (r: String)
    ensures
        r@ == "homeassistant"@,
{
    "homeassistant".to_owned()
}

/// The suffix of the availability topic unless the configuration names one.
pub fn _default_availability_topic() -> (r: String)
    ensures
        r@ == "status"@,
{
    "status".to_owned()
}

/// What holds for the bridge as a whole.
#[derive(Debug)]
pub struct ComputerAssistantConfig {
    /// The root of every topic of the bridge.
    pub base_topic: String,
    pub device: HomeAssistantDevice,
    pub name: Name,
    pub unique_id: String,
    /// Seconds between two rounds of state reports.
    pub status_pub_interval: u64,
    /// The root of the discovery topics.
    pub homeassistant_topic: String,
    /// The suffix of the availability topic.
    pub availability_topic: String,
}

} // verus!
