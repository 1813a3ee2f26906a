//! The topics of an entity, derived from the base topic, the entity's kind
//! and its id. No entity stores a topic.

use vstd::prelude::*;
use vstd::string::*;
use crate::text::same_text;

verus! {

/// The category of an entity, fixed when the configuration is loaded.
#[derive(Clone, Copy, Debug, PartialEq, Eq, Structural)]
pub enum Kind {
    Switch,
    Button,
    BinarySensor,
    Number,
    Sensor,
}

/// The path segment that stands for a kind.
pub open spec fn kind_text(kind: Kind) -> Seq<char> {
    match kind {
        Kind::Switch => "switch"@,
        Kind::Button => "button"@,
        Kind::BinarySensor => "binary_sensor"@,
        Kind::Number => "number"@,
        Kind::Sensor => "sensor"@,
    }
}

/// The kind that a path segment stands for, if it stands for one.
pub open spec fn kind_named(segment: Seq<char>) -> Option<Kind> {
    if segment == kind_text(Kind::Switch) {
        Some(Kind::Switch)
    } else if segment == kind_text(Kind::Button) {
        Some(Kind::Button)
    } else if segment == kind_text(Kind::BinarySensor) {
        Some(Kind::BinarySensor)
    } else if segment == kind_text(Kind::Number) {
        Some(Kind::Number)
    } else if segment == kind_text(Kind::Sensor) {
        Some(Kind::Sensor)
    } else {
        None
    }
}

/// `{base}/entities/cmd`: every command topic begins with it.
pub open spec fn command_prefix_of(base: Seq<char>) -> Seq<char> {
    base + "/entities/cmd"@
}

/// `{base}/entities/cmd/#`: the filter that matches every command topic.
pub open spec fn command_filter_of(base: Seq<char>) -> Seq<char> {
    command_prefix_of(base) + "/#"@
}

/// `{base}/entities/cmd/{kind}/{id}`.
pub open spec fn command_topic_of(base: Seq<char>, kind: Kind, id: Seq<char>) -> Seq<char> {
    base + "/entities/cmd/"@ + kind_text(kind) + "/"@ + id
}

/// `{base}/entities/stat/{kind}/{id}`.
pub open spec fn state_topic_of(base: Seq<char>, kind: Kind, id: Seq<char>) -> Seq<char> {
    base + "/entities/stat/"@ + kind_text(kind) + "/"@ + id
}

/// `{root}/{kind}/{base}/{id}/config`.
pub open spec fn discovery_topic_of(
    root: Seq<char>,
    base: Seq<char>,
    kind: Kind,
    id: Seq<char>,
) -> Seq<char> {
    root + "/"@ + kind_text(kind) + "/"@ + base + "/"@ + id + "/config"@
}

/// `{base}/{suffix}`.
pub open spec fn availability_topic_of(base: Seq<char>, suffix: Seq<char>) -> Seq<char> {
    base + "/"@ + suffix
}

impl Kind {
    /// The path segment that stands for this kind.
    pub fn as_str(&self) -> (r: &'static str)
        ensures
            r@ == kind_text(*self),
    {
        match self {
            Kind::Switch => "switch",
            Kind::Button => "button",
            Kind::BinarySensor => "binary_sensor",
            Kind::Number => "number",
            Kind::Sensor => "sensor",
        }
    }

    /// The kind that a path segment stands for, if it stands for one.
    pub fn from_segment(segment: &str) -> (r: Option<Kind>)
        ensures
            r == kind_named(segment@),
    {
        if same_text(segment, "switch") {
            Some(Kind::Switch)
        } else if same_text(segment, "button") {
            Some(Kind::Button)
        } else if same_text(segment, "binary_sensor") {
            Some(Kind::BinarySensor)
        } else if same_text(segment, "number") {
            Some(Kind::Number)
        } else if same_text(segment, "sensor") {
            Some(Kind::Sensor)
        } else {
            None
        }
    }
}

/// The prefix of the command topics under `base`.
pub fn command_prefix(base: &str) -> (r: String)
    ensures
        r@ == command_prefix_of(base@),
{
    let mut r = String::from_str(base);
    r.append("/entities/cmd");
    r
}

/// The filter to subscribe with for the command topics under `base`.
pub fn command_filter(base: &str) -> (r: String)
    ensures
        r@ == command_filter_of(base@),
{
    let mut r = command_prefix(base);
    r.append("/#");
    r
}

/// The topic on which the entity `id` of `kind` is sent commands.
pub fn command_topic(base: &str, kind: Kind, id: &str) -> (r: String)
    ensures
        r@ == command_topic_of(base@, kind, id@),
{
    let mut r = String::from_str(base);
    r.append("/entities/cmd/");
    r.append(kind.as_str());
    r.append("/");
    r.append(id);
    r
}

/// The topic on which the entity `id` of `kind` reports its state.
pub fn state_topic(base: &str, kind: Kind, id: &str) -> (r: String)
    ensures
        r@ == state_topic_of(base@, kind, id@),
{
    let mut r = String::from_str(base);
    r.append("/entities/stat/");
    r.append(kind.as_str());
    r.append("/");
    r.append(id);
    r
}

/// The topic on which the entity `id` of `kind` is announced to the hub.
pub fn discovery_topic(root: &str, base: &str, kind: Kind, id: &str) -> (r: String)
    ensures
        r@ == discovery_topic_of(root@, base@, kind, id@),
{
    let mut r = String::from_str(root);
    r.append("/");
    r.append(kind.as_str());
    r.append("/");
    r.append(base);
    r.append("/");
    r.append(id);
    r.append("/config");
    r
}

/// The topic on which the bridge says whether it is there.
pub fn availability_topic(base: &str, suffix: &str) -> (r: String)
    ensures
        r@ == availability_topic_of(base@, suffix@),
{
    let mut r = String::from_str(base);
    r.append("/");
    r.append(suffix);
    r
}

/// The segment of a kind has six characters or thirteen, none of them a
/// separator, and its first two tell the kinds apart.
pub proof fn kind_text_shape(kind: Kind)
    ensures
        kind_text(kind).len() == if kind == Kind::BinarySensor {
            13int
        } else {
            6int
        },
        forall|i: int| 0 <= i < kind_text(kind).len() ==> kind_text(kind)[i] != '/',
        kind_text(kind)[0] == match kind {
            Kind::Switch | Kind::Sensor => 's',
            Kind::Button | Kind::BinarySensor => 'b',
            Kind::Number => 'n',
        },
        kind_text(kind)[1] == match kind {
            Kind::Switch => 'w',
            Kind::Sensor => 'e',
            Kind::Button => 'u',
            Kind::BinarySensor => 'i',
            Kind::Number => 'u',
        },
{
    reveal_strlit("switch");
    reveal_strlit("button");
    reveal_strlit("binary_sensor");
    reveal_strlit("number");
    reveal_strlit("sensor");
}

/// No two kinds share a segment, and each segment names its kind.
pub proof fn kind_text_injective(a: Kind, b: Kind)
    ensures
        kind_text(a) == kind_text(b) ==> a == b,
        kind_named(kind_text(a)) == Some(a),
{
    kind_text_shape(a);
    kind_text_shape(b);
    kind_text_shape(Kind::Switch);
    kind_text_shape(Kind::Button);
    kind_text_shape(Kind::BinarySensor);
    kind_text_shape(Kind::Number);
    kind_text_shape(Kind::Sensor);
}

/// Behind a common beginning, a kind's segment, a separator and a rest tell
/// both the kind and the rest.
pub proof fn kind_and_rest_unique(
    head: Seq<char>,
    k1: Kind,
    rest1: Seq<char>,
    k2: Kind,
    rest2: Seq<char>,
)
    requires
        head + kind_text(k1) + "/"@ + rest1 == head + kind_text(k2) + "/"@ + rest2,
    ensures
        k1 == k2,
        rest1 == rest2,
{
    reveal_strlit("/");
    kind_text_shape(k1);
    kind_text_shape(k2);
    let t1 = head + kind_text(k1) + "/"@ + rest1;
    let t2 = head + kind_text(k2) + "/"@ + rest2;
    let n = head.len() as int;
    assert(t1[n] == kind_text(k1)[0]);
    assert(t2[n] == kind_text(k2)[0]);
    assert(t1[n + 1] == kind_text(k1)[1]);
    assert(t2[n + 1] == kind_text(k2)[1]);
    assert(k1 == k2);
    let m = n + kind_text(k1).len() + 1;
    assert(t1.skip(m) =~= rest1);
    assert(t2.skip(m) =~= rest2);
}

/// Under one base topic, two command topics are the same only if the kind and
/// the id are.
pub proof fn command_topics_distinct(
    base: Seq<char>,
    k1: Kind,
    id1: Seq<char>,
    k2: Kind,
    id2: Seq<char>,
)
    requires
        k1 != k2 || id1 != id2,
    ensures
        command_topic_of(base, k1, id1) != command_topic_of(base, k2, id2),
{
    if command_topic_of(base, k1, id1) == command_topic_of(base, k2, id2) {
        kind_and_rest_unique(base + "/entities/cmd/"@, k1, id1, k2, id2);
    }
}

/// Under one base topic, two state topics are the same only if the kind and
/// the id are.
pub proof fn state_topics_distinct(
    base: Seq<char>,
    k1: Kind,
    id1: Seq<char>,
    k2: Kind,
    id2: Seq<char>,
)
    requires
        k1 != k2 || id1 != id2,
    ensures
        state_topic_of(base, k1, id1) != state_topic_of(base, k2, id2),
{
    if state_topic_of(base, k1, id1) == state_topic_of(base, k2, id2) {
        kind_and_rest_unique(base + "/entities/stat/"@, k1, id1, k2, id2);
    }
}

/// Under one discovery root and one base topic, two discovery topics are the
/// same only if the kind and the id are.
pub proof fn discovery_topics_distinct(
    root: Seq<char>,
    base: Seq<char>,
    k1: Kind,
    id1: Seq<char>,
    k2: Kind,
    id2: Seq<char>,
)
    requires
        k1 != k2 || id1 != id2,
    ensures
        discovery_topic_of(root, base, k1, id1) != discovery_topic_of(root, base, k2, id2),
{
    let d1 = discovery_topic_of(root, base, k1, id1);
    let d2 = discovery_topic_of(root, base, k2, id2);
    if d1 == d2 {
        let head = root + "/"@;
        let rest1 = base + "/"@ + id1 + "/config"@;
        let rest2 = base + "/"@ + id2 + "/config"@;
        assert(d1 =~= head + kind_text(k1) + "/"@ + rest1);
        assert(d2 =~= head + kind_text(k2) + "/"@ + rest2);
        kind_and_rest_unique(head, k1, rest1, k2, rest2);
        let n = (base.len() + "/"@.len()) as int;
        assert(rest1.len() == rest2.len());
        assert(id1.len() == id2.len());
        assert(rest1.subrange(n, n + id1.len()) =~= id1);
        assert(rest2.subrange(n, n + id2.len()) =~= id2);
    }
}

/// A command topic and a state topic under one base topic are never the same.
pub proof fn command_and_state_topics_distinct(
    base: Seq<char>,
    k1: Kind,
    id1: Seq<char>,
    k2: Kind,
    id2: Seq<char>,
)
    ensures
        command_topic_of(base, k1, id1) != state_topic_of(base, k2, id2),
{
    reveal_strlit("/entities/cmd/");
    reveal_strlit("/entities/stat/");
    kind_text_shape(k1);
    kind_text_shape(k2);
    let c = command_topic_of(base, k1, id1);
    let s = state_topic_of(base, k2, id2);
    let n = base.len() as int;
    assert(c[n + 10] == "/entities/cmd/"@[10]);
    assert(s[n + 10] == "/entities/stat/"@[10]);
}

/// Every command topic begins with the command prefix of its base topic.
pub proof fn command_topic_under_prefix(base: Seq<char>, kind: Kind, id: Seq<char>)
    ensures
        command_prefix_of(base).is_prefix_of(command_topic_of(base, kind, id)),
{
    reveal_strlit("/entities/cmd/");
    reveal_strlit("/entities/cmd");
    let p = command_prefix_of(base);
    let c = command_topic_of(base, kind, id);
    assert(p =~= c.subrange(0, p.len() as int));
}

} // verus!
