//! What the hub is told of the device and of each entity when it is announced.

use vstd::prelude::*;
use vstd::string::*;
use crate::number::Real;
use crate::text::texts;
use crate::topic::Kind;

verus! {

/// The device that every entity of the bridge belongs to, as the hub shows it.
#[derive(Debug)]
pub struct HomeAssistantDevice {
    pub ids: Vec<String>,
    pub version: String,
    pub manufacturer: String,
    pub configuration_url: String,
    pub model: String,
    pub name: String,
}

/// A device as plain values.
pub struct DeviceView {
    pub ids: Seq<Seq<char>>,
    pub version: Seq<char>,
    pub manufacturer: Seq<char>,
    pub configuration_url: Seq<char>,
    pub model: Seq<char>,
    pub name: Seq<char>,
}

impl View for HomeAssistantDevice {
    type V = DeviceView;

    open spec fn view(&self) -> DeviceView {
        DeviceView {
            ids: texts(self.ids@),
            version: self.version@,
            manufacturer: self.manufacturer@,
            configuration_url: self.configuration_url@,
            model: self.model@,
            name: self.name@,
        }
    }
}

/// A copy of each text of `v`, in order.
pub fn clone_texts(v: &Vec<String>) -> (r: Vec<String>)
    ensures
        texts(r@) == texts(v@),
{
    let mut r: Vec<String> = Vec::new();
    let mut i: usize = 0;
    while i < v.len()
        invariant
            i <= v.len(),
            r.len() == i,
            forall|j: int| 0 <= j < i ==> r@[j]@ == v@[j]@,
        decreases v.len() - i,
    {
        r.push(v[i].clone());
        i += 1;
    }
    assert(texts(r@) =~= texts(v@));
    r
}

impl Clone for HomeAssistantDevice {
    /// A device with the same ids and the same texts.
    fn clone(&self) -> (r: Self)
        ensures
            r@ == self@,
    {
        HomeAssistantDevice {
            ids: clone_texts(&self.ids),
            version: self.version.clone(),
            manufacturer: self.manufacturer.clone(),
            configuration_url: self.configuration_url.clone(),
            model: self.model.clone(),
            name: self.name.clone(),
        }
    }
}

/// The announcement of one entity. The variant is the entity's kind, and a
/// variant has only the fields that mean something for its kind.
#[derive(Debug)]
pub enum HomeAssistantConfig {
    Switch {
        base_topic: String,
        command_topic: String,
        state_topic: String,
        device: HomeAssistantDevice,
        name: String,
        unique_id: String,
        value_template: Option<String>,
        state_on: String,
        state_off: String,
        availability_topic: String,
    },
    Button {
        base_topic: String,
        command_topic: String,
        device: HomeAssistantDevice,
        name: String,
        unique_id: String,
        value_template: Option<String>,
        payload_press: String,
        availability_topic: String,
    },
    BinarySensor {
        base_topic: String,
        state_topic: String,
        device: HomeAssistantDevice,
        name: String,
        unique_id: String,
        value_template: Option<String>,
        state_on: String,
        state_off: String,
        availability_topic: String,
    },
    Number {
        base_topic: String,
        command_topic: String,
        command_template: Option<String>,
        state_topic: String,
        device: HomeAssistantDevice,
        name: String,
        unique_id: String,
        value_template: Option<String>,
        availability_topic: String,
        min: Real,
        max: Real,
        step: Real,
        unit_of_measurement: String,
    },
    Sensor {
        base_topic: String,
        state_topic: String,
        device: HomeAssistantDevice,
        name: String,
        unique_id: String,
        value_template: Option<String>,
        availability_topic: String,
        unit_of_measurement: String,
        suggested_display_precision: u8,
    },
}

/// A value in an announcement as it goes over the wire.
#[derive(Debug)]
pub enum FieldValue {
    Text(String),
    Texts(Vec<String>),
    /// A text that is not there.
    Null,
    Real(Real),
    Count(u8),
    /// The device, an object of its own fields.
    Device(HomeAssistantDevice),
}

/// A key of an announcement with its value.
#[derive(Debug)]
pub struct Field {
    pub key: String,
    pub value: FieldValue,
}

/// A value as plain values.
pub enum FieldValueView {
    Text(Seq<char>),
    Texts(Seq<Seq<char>>),
    Null,
    Real(Real),
    Count(u8),
    Device(DeviceView),
}

/// A field as plain values.
pub struct FieldView {
    pub key: Seq<char>,
    pub value: FieldValueView,
}

impl View for FieldValue {
    type V = FieldValueView;

    open spec fn view(&self) -> FieldValueView {
        match *self {
            FieldValue::Text(t) => FieldValueView::Text(t@),
            FieldValue::Texts(t) => FieldValueView::Texts(texts(t@)),
            FieldValue::Null => FieldValueView::Null,
            FieldValue::Real(r) => FieldValueView::Real(r),
            FieldValue::Count(c) => FieldValueView::Count(c),
            FieldValue::Device(d) => FieldValueView::Device(d@),
        }
    }
}

impl View for Field {
    type V = FieldView;

    open spec fn view(&self) -> FieldView {
        FieldView { key: self.key@, value: self.value@ }
    }
}

/// The views of `v`, in order.
pub open spec fn fields_view(v: Seq<Field>) -> Seq<FieldView> {
    Seq::new(v.len(), |i: int| v[i]@)
}

/// The keys of `fields`, in order.
pub open spec fn keys_of(fields: Seq<FieldView>) -> Seq<Seq<char>> {
    Seq::new(fields.len(), |i: int| fields[i].key)
}

/// The field `key` with the text `value`.
pub open spec fn text_field(key: Seq<char>, value: Seq<char>) -> FieldView {
    FieldView { key, value: FieldValueView::Text(value) }
}

/// The field `key` with the text `value`, or with nothing where there is none.
pub open spec fn optional_field(key: Seq<char>, value: Option<String>) -> FieldView {
    FieldView {
        key,
        value: match value {
            Some(t) => FieldValueView::Text(t@),
            None => FieldValueView::Null,
        },
    }
}

/// The field `key` with the number `value`.
pub open spec fn real_field(key: Seq<char>, value: Real) -> FieldView {
    FieldView { key, value: FieldValueView::Real(value) }
}

/// The field `dev` with the device.
pub open spec fn device_field(device: HomeAssistantDevice) -> FieldView {
    FieldView { key: "dev"@, value: FieldValueView::Device(device@) }
}

/// The fields of a device as they go over the wire.
pub open spec fn device_fields(d: DeviceView) -> Seq<FieldView> {
    seq![
        FieldView { key: "ids"@, value: FieldValueView::Texts(d.ids) },
        text_field("sw"@, d.version),
        text_field("mf"@, d.manufacturer),
        text_field("cu"@, d.configuration_url),
        text_field("mdl"@, d.model),
        text_field("name"@, d.name),
    ]
}

/// The fields of an announcement as they go over the wire: those of its kind
/// and no others.
pub open spec fn wire_fields(d: HomeAssistantConfig) -> Seq<FieldView> {
    match d {
        HomeAssistantConfig::Switch {
            base_topic,
            command_topic,
            state_topic,
            device,
            name,
            unique_id,
            value_template,
            state_on,
            state_off,
            availability_topic,
        } => seq![
            text_field("~"@, base_topic@),
            text_field("cmd_t"@, command_topic@),
            text_field("stat_t"@, state_topic@),
            device_field(device),
            text_field("name"@, name@),
            text_field("uniq_id"@, unique_id@),
            optional_field("value_template"@, value_template),
            text_field("state_on"@, state_on@),
            text_field("state_off"@, state_off@),
            text_field("avty_t"@, availability_topic@),
        ],
        HomeAssistantConfig::Button {
            base_topic,
            command_topic,
            device,
            name,
            unique_id,
            value_template,
            payload_press,
            availability_topic,
        } => seq![
            text_field("~"@, base_topic@),
            text_field("cmd_t"@, command_topic@),
            device_field(device),
            text_field("name"@, name@),
            text_field("uniq_id"@, unique_id@),
            optional_field("value_template"@, value_template),
            text_field("payload_press"@, payload_press@),
            text_field("avty_t"@, availability_topic@),
        ],
        HomeAssistantConfig::BinarySensor {
            base_topic,
            state_topic,
            device,
            name,
            unique_id,
            value_template,
            state_on,
            state_off,
            availability_topic,
        } => seq![
            text_field("~"@, base_topic@),
            text_field("stat_t"@, state_topic@),
            device_field(device),
            text_field("name"@, name@),
            text_field("uniq_id"@, unique_id@),
            optional_field("value_template"@, value_template),
            text_field("state_on"@, state_on@),
            text_field("state_off"@, state_off@),
            text_field("avty_t"@, availability_topic@),
        ],
        HomeAssistantConfig::Number {
            base_topic,
            command_topic,
            command_template,
            state_topic,
            device,
            name,
            unique_id,
            value_template,
            availability_topic,
            min,
            max,
            step,
            unit_of_measurement,
        } => seq![
            text_field("~"@, base_topic@),
            text_field("cmd_t"@, command_topic@),
            optional_field("command_template"@, command_template),
            text_field("stat_t"@, state_topic@),
            device_field(device),
            text_field("name"@, name@),
            text_field("uniq_id"@, unique_id@),
            optional_field("value_template"@, value_template),
            text_field("avty_t"@, availability_topic@),
            real_field("min"@, min),
            real_field("max"@, max),
            real_field("step"@, step),
            text_field("unit_of_measurement"@, unit_of_measurement@),
        ],
        HomeAssistantConfig::Sensor {
            base_topic,
            state_topic,
            device,
            name,
            unique_id,
            value_template,
            availability_topic,
            unit_of_measurement,
            suggested_display_precision,
        } => seq![
            text_field("~"@, base_topic@),
            text_field("stat_t"@, state_topic@),
            device_field(device),
            text_field("name"@, name@),
            text_field("uniq_id"@, unique_id@),
            optional_field("value_template"@, value_template),
            text_field("avty_t"@, availability_topic@),
            text_field("unit_of_measurement"@, unit_of_measurement@),
            FieldView {
                key: "suggested_display_precision"@,
                value: FieldValueView::Count(suggested_display_precision),
            },
        ],
    }
}

/// The kind that an announcement is of.
pub open spec fn kind_of(d: HomeAssistantConfig) -> Kind {
    match d {
        HomeAssistantConfig::Switch { .. } => Kind::Switch,
        HomeAssistantConfig::Button { .. } => Kind::Button,
        HomeAssistantConfig::BinarySensor { .. } => Kind::BinarySensor,
        HomeAssistantConfig::Number { .. } => Kind::Number,
        HomeAssistantConfig::Sensor { .. } => Kind::Sensor,
    }
}

/// The keys of an announcement tell its kind: two announcements with the
/// same keys are of the same kind.
pub proof fn kind_told_by_keys(a: HomeAssistantConfig, b: HomeAssistantConfig)
    requires
        keys_of(wire_fields(a)) == keys_of(wire_fields(b)),
    ensures
        kind_of(a) == kind_of(b),
{
    reveal_strlit("state_on");
    reveal_strlit("avty_t");
    let ka = keys_of(wire_fields(a));
    let kb = keys_of(wire_fields(b));
    assert(ka.len() == kb.len());
    if ka.len() == 9 {
        assert(ka[6] == kb[6]);
        assert("state_on"@.len() != "avty_t"@.len());
    }
}

/// The field `key` with a copy of the text `value`.
fn text_of(key: &str, value: &String) -> (r: Field)
    ensures
        r@ == text_field(key@, value@),
{
    Field { key: String::from_str(key), value: FieldValue::Text(value.clone()) }
}

/// The field `key` with a copy of the text `value`, or with nothing where
/// there is none.
fn optional_of(key: &str, value: &Option<String>) -> (r: Field)
    ensures
        r@ == optional_field(key@, *value),
{
    match value {
        Some(t) => Field { key: String::from_str(key), value: FieldValue::Text(t.clone()) },
        None => Field { key: String::from_str(key), value: FieldValue::Null },
    }
}

/// The field `key` with the number `value`.
fn number_of(key: &str, value: Real) -> (r: Field)
    ensures
        r@ == real_field(key@, value),
{
    Field { key: String::from_str(key), value: FieldValue::Real(value) }
}

/// The field `dev` with a copy of the device.
fn device_of(device: &HomeAssistantDevice) -> (r: Field)
    ensures
        r@ == device_field(*device),
{
    Field { key: String::from_str("dev"), value: FieldValue::Device(device.clone()) }
}

impl HomeAssistantDevice {
    /// The fields of the device as they go over the wire, in order.
    pub fn fields(&self) -> (r: Vec<Field>)
        ensures
            fields_view(r@) == device_fields(self@),
    {
        let mut r: Vec<Field> = Vec::new();
        r.push(
            Field { key: String::from_str("ids"), value: FieldValue::Texts(clone_texts(&self.ids)) },
        );
        r.push(text_of("sw", &self.version));
        r.push(text_of("mf", &self.manufacturer));
        r.push(text_of("cu", &self.configuration_url));
        r.push(text_of("mdl", &self.model));
        r.push(text_of("name", &self.name));
        assert(fields_view(r@) =~= device_fields(self@));
        r
    }
}

impl HomeAssistantConfig {
    /// The fields of the announcement as they go over the wire, in order:
    /// those of its kind and no others.
    pub fn fields(&self) -> (r: Vec<Field>)
        ensures
            fields_view(r@) == wire_fields(*self),
    {
        let mut r: Vec<Field> = Vec::new();
        match self {
            HomeAssistantConfig::Switch {
                base_topic,
                command_topic,
                state_topic,
                device,
                name,
                unique_id,
                value_template,
                state_on,
                state_off,
                availability_topic,
            } => {
                r.push(text_of("~", base_topic));
                r.push(text_of("cmd_t", command_topic));
                r.push(text_of("stat_t", state_topic));
                r.push(device_of(device));
                r.push(text_of("name", name));
                r.push(text_of("uniq_id", unique_id));
                r.push(optional_of("value_template", value_template));
                r.push(text_of("state_on", state_on));
                r.push(text_of("state_off", state_off));
                r.push(text_of("avty_t", availability_topic));
            },
            HomeAssistantConfig::Button {
                base_topic,
                command_topic,
                device,
                name,
                unique_id,
                value_template,
                payload_press,
                availability_topic,
            } => {
                r.push(text_of("~", base_topic));
                r.push(text_of("cmd_t", command_topic));
                r.push(device_of(device));
                r.push(text_of("name", name));
                r.push(text_of("uniq_id", unique_id));
                r.push(optional_of("value_template", value_template));
                r.push(text_of("payload_press", payload_press));
                r.push(text_of("avty_t", availability_topic));
            },
            HomeAssistantConfig::BinarySensor {
                base_topic,
                state_topic,
                device,
                name,
                unique_id,
                value_template,
                state_on,
                state_off,
                availability_topic,
            } => {
                r.push(text_of("~", base_topic));
                r.push(text_of("stat_t", state_topic));
                r.push(device_of(device));
                r.push(text_of("name", name));
                r.push(text_of("uniq_id", unique_id));
                r.push(optional_of("value_template", value_template));
                r.push(text_of("state_on", state_on));
                r.push(text_of("state_off", state_off));
                r.push(text_of("avty_t", availability_topic));
            },
            HomeAssistantConfig::Number {
                base_topic,
                command_topic,
                command_template,
                state_topic,
                device,
                name,
                unique_id,
                value_template,
                availability_topic,
                min,
                max,
                step,
                unit_of_measurement,
            } => {
                r.push(text_of("~", base_topic));
                r.push(text_of("cmd_t", command_topic));
                r.push(optional_of("command_template", command_template));
                r.push(text_of("stat_t", state_topic));
                r.push(device_of(device));
                r.push(text_of("name", name));
                r.push(text_of("uniq_id", unique_id));
                r.push(optional_of("value_template", value_template));
                r.push(text_of("avty_t", availability_topic));
                r.push(number_of("min", *min));
                r.push(number_of("max", *max));
                r.push(number_of("step", *step));
                r.push(text_of("unit_of_measurement", unit_of_measurement));
            },
            HomeAssistantConfig::Sensor {
                base_topic,
                state_topic,
                device,
                name,
                unique_id,
                value_template,
                availability_topic,
                unit_of_measurement,
                suggested_display_precision,
            } => {
                r.push(text_of("~", base_topic));
                r.push(text_of("stat_t", state_topic));
                r.push(device_of(device));
                r.push(text_of("name", name));
                r.push(text_of("uniq_id", unique_id));
                r.push(optional_of("value_template", value_template));
                r.push(text_of("avty_t", availability_topic));
                r.push(text_of("unit_of_measurement", unit_of_measurement));
                r.push(
                    Field {
                        key: String::from_str("suggested_display_precision"),
                        value: FieldValue::Count(*suggested_display_precision),
                    },
                );
            },
        }
        assert(fields_view(r@) =~= wire_fields(*self));
        r
    }
}

/// The placeholder by which the hub takes a payload as it is.
pub open spec fn value_template_text() -> Seq<char> {
    "{{value}}"@
}

/// Whether `template` is the placeholder by which the hub takes a payload as
/// it is.
pub open spec fn is_value_template(template: Option<String>) -> bool {
    template matches Some(t) && t@ == value_template_text()
}

/// The placeholder by which the hub takes a payload as it is.
pub fn value_template() -> (r: Option<String>)
    ensures
        is_value_template(r),
{
    Some("{{value}}".to_owned())
}

} // verus!
