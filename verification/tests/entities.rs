use computer_assistant::binary_sensor::BinarySensor;
use computer_assistant::button::{is_press, Button, _default_payload_press};
use computer_assistant::config::{ComputerAssistantConfig, DisplayPrecision, Name};
use computer_assistant::discovery::{Field, FieldValue, HomeAssistantConfig, HomeAssistantDevice};
use computer_assistant::error::Error;
use computer_assistant::message::Delivery;
use computer_assistant::number::{Number, Real};
use computer_assistant::script::{
    command_result, on_off_payload, value_payload, Invocation, Publishable, ScriptOutcome,
    Updateable,
};
use computer_assistant::sensor::Sensor;
use computer_assistant::state::State;
use computer_assistant::switch::{Switch, _default_off_state, _default_on_state};

fn device() -> HomeAssistantDevice {
    HomeAssistantDevice {
        ids: vec!["pc-1".to_string(), "pc-one".to_string()],
        version: "1.2".to_string(),
        manufacturer: "ACME".to_string(),
        configuration_url: "http://pc.local".to_string(),
        model: "Tower".to_string(),
        name: "Desk PC".to_string(),
    }
}

fn bridge() -> ComputerAssistantConfig {
    ComputerAssistantConfig {
        base_topic: "home".to_string(),
        device: device(),
        name: Name("Desk".to_string()),
        unique_id: "desk".to_string(),
        status_pub_interval: 30,
        homeassistant_topic: "homeassistant".to_string(),
        availability_topic: "status".to_string(),
    }
}

fn kitchen_light() -> Switch {
    Switch {
        name: Name("Kitchen Light".to_string()),
        state_script: "light state".to_string(),
        on_script: "light on".to_string(),
        off_script: "light off".to_string(),
        toggle_script: None,
    }
}

fn reboot() -> Button {
    Button { name: Name("Reboot".to_string()), command_script: "reboot now".to_string() }
}

fn volume() -> Number {
    Number {
        name: Name("Volume".to_string()),
        state_script: "vol get".to_string(),
        command_script: "vol set".to_string(),
        min: Real { bits: 0f64.to_bits() },
        max: Real { bits: 100f64.to_bits() },
        step: Real { bits: 0.5f64.to_bits() },
        unit_of_measurement: "%".to_string(),
    }
}

fn path(kind: &str, id: &str) -> Vec<String> {
    vec![kind.to_string(), id.to_string()]
}

fn script_of(r: Result<Option<Invocation>, Error>) -> (String, Vec<String>) {
    let invocation = r.unwrap().unwrap();
    (invocation.script, invocation.args)
}

fn same_device(d: &HomeAssistantDevice) {
    let e = device();
    assert_eq!(d.ids, e.ids);
    assert_eq!(d.version, e.version);
    assert_eq!(d.manufacturer, e.manufacturer);
    assert_eq!(d.configuration_url, e.configuration_url);
    assert_eq!(d.model, e.model);
    assert_eq!(d.name, e.name);
}

#[test]
fn switch_turns_on_and_off() {
    let s = kitchen_light();
    let p = path("switch", "kitchen_light");
    assert_eq!(script_of(s.update(&p, "ON")), ("light on".to_string(), vec![]));
    assert_eq!(script_of(s.update(&p, "on")), ("light on".to_string(), vec![]));
    assert_eq!(script_of(s.update(&p, "OFF")), ("light off".to_string(), vec![]));
    assert_eq!(script_of(s.update(&p, "Off")), ("light off".to_string(), vec![]));
}

#[test]
fn switch_rejects_unknown_state() {
    let s = kitchen_light();
    let r = s.update(&path("switch", "kitchen_light"), "maybe");
    assert!(matches!(r, Err(Error::UnknownState)));
    assert!(matches!(s.command_for("maybe"), Err(Error::UnknownState)));
    assert!(matches!(s.command_for("on"), Err(Error::UnknownState)));
}

#[test]
fn switch_ignores_what_is_not_addressed_to_it() {
    let s = kitchen_light();
    assert!(matches!(s.update(&path("switch", "other"), "ON"), Ok(None)));
    assert!(matches!(s.update(&path("switch", "other"), "maybe"), Ok(None)));
    assert!(matches!(s.update(&path("button", "kitchen_light"), "ON"), Ok(None)));
    assert!(matches!(s.update(&path("switch", "Kitchen Light"), "ON"), Ok(None)));
    assert!(matches!(s.update(&vec!["switch".to_string()], "ON"), Ok(None)));
    let long =
        vec!["switch".to_string(), "kitchen_light".to_string(), "extra".to_string()];
    assert!(matches!(s.update(&long, "ON"), Ok(None)));
    assert!(matches!(s.update(&Vec::new(), "ON"), Ok(None)));
}

#[test]
fn switch_scripts_by_state() {
    let s = kitchen_light();
    assert_eq!(s.script_for(State::On), "light on");
    assert_eq!(s.script_for(State::Off), "light off");
    assert_eq!(script_of(s.command_for("ON")), ("light on".to_string(), vec![]));
    assert_eq!(script_of(s.command_for("OFF")), ("light off".to_string(), vec![]));
}

#[test]
fn button_is_pressed() {
    let b = reboot();
    let p = path("button", "reboot");
    assert_eq!(script_of(b.update(&p, "PRESS")), ("reboot now".to_string(), vec![]));
    assert_eq!(script_of(b.update(&p, "press")), ("reboot now".to_string(), vec![]));
    assert_eq!(script_of(b.update(&p, "Press")), ("reboot now".to_string(), vec![]));
}

#[test]
fn button_ignores_other_payloads() {
    let b = reboot();
    let p = path("button", "reboot");
    assert!(matches!(b.update(&p, "ON"), Ok(None)));
    assert!(matches!(b.update(&p, ""), Ok(None)));
    assert!(matches!(b.update(&p, "PRESS "), Ok(None)));
    assert!(matches!(b.update(&path("button", "other"), "PRESS"), Ok(None)));
    assert!(matches!(b.update(&path("switch", "reboot"), "PRESS"), Ok(None)));
    assert!(is_press("PRESS"));
    assert!(!is_press("press"));
    assert!(matches!(b.command_for("press"), Ok(None)));
    assert_eq!(script_of(b.command_for("PRESS")), ("reboot now".to_string(), vec![]));
}

#[test]
fn number_is_given_the_caller_and_the_payload() {
    let n = volume();
    let p = path("number", "volume");
    assert_eq!(
        script_of(n.update(&p, "42.5")),
        ("vol set".to_string(), vec!["computer-assistant".to_string(), "42.5".to_string()])
    );
    assert_eq!(
        script_of(n.update(&p, " loud ")),
        ("vol set".to_string(), vec!["computer-assistant".to_string(), " loud ".to_string()])
    );
    assert!(matches!(n.update(&path("number", "other"), "1"), Ok(None)));
    assert!(matches!(n.update(&path("sensor", "volume"), "1"), Ok(None)));
}

#[test]
fn number_state_is_trimmed_output() {
    let out = b"  42.5\n".to_vec();
    let ok = ScriptOutcome::Finished { success: true, stdout: out.clone() };
    let failed = ScriptOutcome::Finished { success: false, stdout: out };
    assert_eq!(value_payload(&ok), Ok("42.5".to_string()));
    assert_eq!(value_payload(&failed), Ok("42.5".to_string()));
    let n = volume();
    assert_eq!(n.state_payload(&bridge(), &ok), Ok("42.5".to_string()));
    assert_eq!(n.state_payload(&bridge(), &failed), Ok("42.5".to_string()));
    let empty = ScriptOutcome::Finished { success: true, stdout: Vec::new() };
    assert_eq!(value_payload(&empty), Ok(String::new()));
    let umlaut = ScriptOutcome::Finished { success: true, stdout: " gr\u{fc}n ".as_bytes().to_vec() };
    assert_eq!(value_payload(&umlaut), Ok("gr\u{fc}n".to_string()));
}

#[test]
fn value_state_errors() {
    let bad = ScriptOutcome::Finished { success: true, stdout: vec![0x34, 0xff, 0x32] };
    assert_eq!(value_payload(&bad), Err(Error::ScriptOutput));
    let cut = ScriptOutcome::Finished { success: true, stdout: vec![0xc3] };
    assert_eq!(value_payload(&cut), Err(Error::ScriptOutput));
    assert_eq!(value_payload(&ScriptOutcome::SpawnFailed), Err(Error::ScriptSpawn));
    let n = volume();
    assert_eq!(n.state_payload(&bridge(), &ScriptOutcome::SpawnFailed), Err(Error::ScriptSpawn));
    assert!(matches!(n.publish_state(&bridge(), &bad), Err(Error::ScriptOutput)));
}

#[test]
fn on_off_state_goes_by_exit_code() {
    let ok = ScriptOutcome::Finished { success: true, stdout: b"OFF".to_vec() };
    let failed = ScriptOutcome::Finished { success: false, stdout: b"ON".to_vec() };
    assert_eq!(on_off_payload(&ok), "ON");
    assert_eq!(on_off_payload(&failed), "OFF");
    assert_eq!(on_off_payload(&ScriptOutcome::SpawnFailed), "OFF");
    let s = kitchen_light();
    assert_eq!(s.state_payload(&bridge(), &ok), Ok("ON".to_string()));
    assert_eq!(s.state_payload(&bridge(), &failed), Ok("OFF".to_string()));
    let b = BinarySensor { name: Name("Door".to_string()), state_script: "door".to_string() };
    assert_eq!(b.state_payload(&bridge(), &ok), Ok("ON".to_string()));
    assert_eq!(b.state_payload(&bridge(), &failed), Ok("OFF".to_string()));
    let bad = ScriptOutcome::Finished { success: false, stdout: vec![0xff] };
    assert_eq!(b.state_payload(&bridge(), &bad), Ok("OFF".to_string()));
}

#[test]
fn state_messages() {
    let s = kitchen_light();
    let ok = ScriptOutcome::Finished { success: true, stdout: Vec::new() };
    let m = s.publish_state(&bridge(), &ok).unwrap();
    assert_eq!(m.topic, "home/entities/stat/switch/kitchen_light");
    assert_eq!(m.payload, "ON");
    assert_eq!(m.delivery, Delivery::AtLeastOnce);
    assert!(!m.retained);
    assert_eq!(s.state_topic(&bridge()), "home/entities/stat/switch/kitchen_light");
    assert_eq!(s.state_script(), "light state");
    assert!(!s.captures_output());

    let n = volume();
    let out = ScriptOutcome::Finished { success: false, stdout: b"7\n".to_vec() };
    let m = n.publish_state(&bridge(), &out).unwrap();
    assert_eq!(m.topic, "home/entities/stat/number/volume");
    assert_eq!(m.payload, "7");
    assert!(n.captures_output());
    assert_eq!(n.state_script(), "vol get");

    let t = Sensor {
        name: Name("CPU Temp".to_string()),
        state_script: "temp".to_string(),
        unit_of_measurement: "C".to_string(),
        suggested_display_precision: DisplayPrecision(1),
    };
    let m = t.publish_state(&bridge(), &out).unwrap();
    assert_eq!(m.topic, "home/entities/stat/sensor/cpu_temp");
    assert_eq!(m.payload, "7");

    let b = BinarySensor { name: Name("Door".to_string()), state_script: "door".to_string() };
    let m = b.publish_state(&bridge(), &out).unwrap();
    assert_eq!(m.topic, "home/entities/stat/binary_sensor/door");
    assert_eq!(m.payload, "OFF");
}

#[test]
fn switch_descriptor() {
    match kitchen_light().ha_config(&bridge()) {
        HomeAssistantConfig::Switch {
            base_topic,
            command_topic,
            state_topic,
            device,
            name,
            unique_id,
            value_template,
            state_on,
            state_off,
            availability_topic,
        } => {
            assert_eq!(base_topic, "");
            assert_eq!(command_topic, "home/entities/cmd/switch/kitchen_light");
            assert_eq!(state_topic, "home/entities/stat/switch/kitchen_light");
            same_device(&device);
            assert_eq!(name, "Kitchen Light");
            assert_eq!(unique_id, "kitchen_light");
            assert_eq!(value_template, Some("{{value}}".to_string()));
            assert_eq!(state_on, "ON");
            assert_eq!(state_off, "OFF");
            assert_eq!(availability_topic, "home/status");
        }
        other => panic!("not a switch: {:?}", other),
    }
}

#[test]
fn button_descriptor() {
    match reboot().ha_config(&bridge()) {
        HomeAssistantConfig::Button {
            base_topic,
            command_topic,
            device,
            name,
            unique_id,
            value_template,
            payload_press,
            availability_topic,
        } => {
            assert_eq!(base_topic, "");
            assert_eq!(command_topic, "home/entities/cmd/button/reboot");
            same_device(&device);
            assert_eq!(name, "Reboot");
            assert_eq!(unique_id, "reboot");
            assert_eq!(value_template, Some("{{value}}".to_string()));
            assert_eq!(payload_press, "PRESS");
            assert_eq!(availability_topic, "home/status");
        }
        other => panic!("not a button: {:?}", other),
    }
}

#[test]
fn binary_sensor_descriptor() {
    let b = BinarySensor { name: Name("Front Door".to_string()), state_script: "d".to_string() };
    match b.ha_config(&bridge()) {
        HomeAssistantConfig::BinarySensor {
            base_topic,
            state_topic,
            device,
            name,
            unique_id,
            value_template,
            state_on,
            state_off,
            availability_topic,
        } => {
            assert_eq!(base_topic, "");
            assert_eq!(state_topic, "home/entities/stat/binary_sensor/front_door");
            same_device(&device);
            assert_eq!(name, "Front Door");
            assert_eq!(unique_id, "front_door");
            assert_eq!(value_template, Some("{{value}}".to_string()));
            assert_eq!(state_on, "ON");
            assert_eq!(state_off, "OFF");
            assert_eq!(availability_topic, "home/status");
        }
        other => panic!("not a binary sensor: {:?}", other),
    }
}

#[test]
fn number_descriptor() {
    match volume().ha_config(&bridge()) {
        HomeAssistantConfig::Number {
            base_topic,
            command_topic,
            command_template,
            state_topic,
            device,
            name,
            unique_id,
            value_template,
            availability_topic,
            min,
            max,
            step,
            unit_of_measurement,
        } => {
            assert_eq!(base_topic, "");
            assert_eq!(command_topic, "home/entities/cmd/number/volume");
            assert_eq!(command_template, Some("{{value}}".to_string()));
            assert_eq!(state_topic, "home/entities/stat/number/volume");
            same_device(&device);
            assert_eq!(name, "Volume");
            assert_eq!(unique_id, "volume");
            assert_eq!(value_template, Some("{{value}}".to_string()));
            assert_eq!(availability_topic, "home/status");
            assert_eq!(f64::from_bits(min.bits), 0.0);
            assert_eq!(f64::from_bits(max.bits), 100.0);
            assert_eq!(f64::from_bits(step.bits), 0.5);
            assert_eq!(unit_of_measurement, "%");
        }
        other => panic!("not a number: {:?}", other),
    }
}

#[test]
fn sensor_descriptor() {
    let t = Sensor {
        name: Name("CPU Temp".to_string()),
        state_script: "temp".to_string(),
        unit_of_measurement: "C".to_string(),
        suggested_display_precision: DisplayPrecision::default(),
    };
    match t.ha_config(&bridge()) {
        HomeAssistantConfig::Sensor {
            base_topic,
            state_topic,
            device,
            name,
            unique_id,
            value_template,
            availability_topic,
            unit_of_measurement,
            suggested_display_precision,
        } => {
            assert_eq!(base_topic, "");
            assert_eq!(state_topic, "home/entities/stat/sensor/cpu_temp");
            same_device(&device);
            assert_eq!(name, "CPU Temp");
            assert_eq!(unique_id, "cpu_temp");
            assert_eq!(value_template, Some("{{value}}".to_string()));
            assert_eq!(availability_topic, "home/status");
            assert_eq!(unit_of_measurement, "C");
            assert_eq!(suggested_display_precision, 2);
        }
        other => panic!("not a sensor: {:?}", other),
    }
}

#[test]
fn device_is_copied() {
    let d = device();
    same_device(&d.clone());
}

#[test]
fn default_payloads() {
    assert_eq!(_default_on_state(), "ON");
    assert_eq!(_default_off_state(), "OFF");
    assert_eq!(_default_payload_press(), "PRESS");
}

#[test]
fn command_fails_only_where_the_script_does_not_start() {
    let ok = ScriptOutcome::Finished { success: true, stdout: Vec::new() };
    let failed = ScriptOutcome::Finished { success: false, stdout: Vec::new() };
    assert_eq!(command_result(&ok), Ok(()));
    assert_eq!(command_result(&failed), Ok(()));
    assert_eq!(command_result(&ScriptOutcome::SpawnFailed), Err(Error::ScriptSpawn));
}

fn keys(fields: &[Field]) -> Vec<&str> {
    fields.iter().map(|f| f.key.as_str()).collect()
}

fn text_at(fields: &[Field], key: &str) -> String {
    let field = fields.iter().find(|f| f.key == key).unwrap();
    match &field.value {
        FieldValue::Text(t) => t.clone(),
        other => panic!("not a text: {:?}", other),
    }
}

#[test]
fn device_fields_on_the_wire() {
    let fields = device().fields();
    assert_eq!(keys(&fields), vec!["ids", "sw", "mf", "cu", "mdl", "name"]);
    match &fields[0].value {
        FieldValue::Texts(ids) => assert_eq!(ids, &vec!["pc-1".to_string(), "pc-one".to_string()]),
        other => panic!("not texts: {:?}", other),
    }
    assert_eq!(text_at(&fields, "sw"), "1.2");
    assert_eq!(text_at(&fields, "mf"), "ACME");
    assert_eq!(text_at(&fields, "cu"), "http://pc.local");
    assert_eq!(text_at(&fields, "mdl"), "Tower");
    assert_eq!(text_at(&fields, "name"), "Desk PC");
}

#[test]
fn descriptor_fields_on_the_wire() {
    let c = bridge();
    let s = kitchen_light().ha_config(&c).fields();
    assert_eq!(
        keys(&s),
        vec![
            "~", "cmd_t", "stat_t", "dev", "name", "uniq_id", "value_template", "state_on",
            "state_off", "avty_t"
        ]
    );
    assert_eq!(text_at(&s, "~"), "");
    assert_eq!(text_at(&s, "cmd_t"), "home/entities/cmd/switch/kitchen_light");
    assert_eq!(text_at(&s, "stat_t"), "home/entities/stat/switch/kitchen_light");
    assert_eq!(text_at(&s, "name"), "Kitchen Light");
    assert_eq!(text_at(&s, "uniq_id"), "kitchen_light");
    assert_eq!(text_at(&s, "value_template"), "{{value}}");
    assert_eq!(text_at(&s, "state_on"), "ON");
    assert_eq!(text_at(&s, "state_off"), "OFF");
    assert_eq!(text_at(&s, "avty_t"), "home/status");
    match &s[3].value {
        FieldValue::Device(d) => same_device(d),
        other => panic!("not a device: {:?}", other),
    }

    let b = reboot().ha_config(&c).fields();
    assert_eq!(
        keys(&b),
        vec!["~", "cmd_t", "dev", "name", "uniq_id", "value_template", "payload_press", "avty_t"]
    );
    assert_eq!(text_at(&b, "payload_press"), "PRESS");

    let door = BinarySensor { name: Name("Door".to_string()), state_script: "d".to_string() };
    let d = door.ha_config(&c).fields();
    assert_eq!(
        keys(&d),
        vec![
            "~", "stat_t", "dev", "name", "uniq_id", "value_template", "state_on", "state_off",
            "avty_t"
        ]
    );

    let n = volume().ha_config(&c).fields();
    assert_eq!(
        keys(&n),
        vec![
            "~", "cmd_t", "command_template", "stat_t", "dev", "name", "uniq_id",
            "value_template", "avty_t", "min", "max", "step", "unit_of_measurement"
        ]
    );
    assert_eq!(text_at(&n, "command_template"), "{{value}}");
    match (&n[9].value, &n[10].value, &n[11].value) {
        (FieldValue::Real(min), FieldValue::Real(max), FieldValue::Real(step)) => {
            assert_eq!(f64::from_bits(min.bits), 0.0);
            assert_eq!(f64::from_bits(max.bits), 100.0);
            assert_eq!(f64::from_bits(step.bits), 0.5);
        }
        other => panic!("not numbers: {:?}", other),
    }

    let t = Sensor {
        name: Name("CPU Temp".to_string()),
        state_script: "temp".to_string(),
        unit_of_measurement: "C".to_string(),
        suggested_display_precision: DisplayPrecision(1),
    };
    let t = t.ha_config(&c).fields();
    assert_eq!(
        keys(&t),
        vec![
            "~", "stat_t", "dev", "name", "uniq_id", "value_template", "avty_t",
            "unit_of_measurement", "suggested_display_precision"
        ]
    );
    assert!(matches!(t[8].value, FieldValue::Count(1)));
}

#[test]
fn absent_template_is_null_on_the_wire() {
    let d = HomeAssistantConfig::Button {
        base_topic: String::new(),
        command_topic: "c".to_string(),
        device: device(),
        name: "n".to_string(),
        unique_id: "u".to_string(),
        value_template: None,
        payload_press: "PRESS".to_string(),
        availability_topic: "a".to_string(),
    };
    let fields = d.fields();
    assert!(matches!(fields[5].value, FieldValue::Null));
    assert_eq!(fields[5].key, "value_template");
}

#[test]
fn kinds_differ_in_their_keys() {
    let c = bridge();
    let door = BinarySensor { name: Name("Door".to_string()), state_script: "d".to_string() };
    let temp = Sensor {
        name: Name("T".to_string()),
        state_script: "t".to_string(),
        unit_of_measurement: "C".to_string(),
        suggested_display_precision: DisplayPrecision(1),
    };
    let all = vec![
        kitchen_light().ha_config(&c).fields(),
        reboot().ha_config(&c).fields(),
        door.ha_config(&c).fields(),
        volume().ha_config(&c).fields(),
        temp.ha_config(&c).fields(),
    ];
    for i in 0..all.len() {
        for j in 0..all.len() {
            if i != j {
                assert_ne!(keys(&all[i]), keys(&all[j]));
            }
        }
    }
}
