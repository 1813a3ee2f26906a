use computer_assistant::config::{
    DisplayPrecision, Name, _default_availability_topic, _default_homeassistant_topic,
};
use computer_assistant::error::Error;
use computer_assistant::state::State;
use computer_assistant::text::{
    all_distinct, chars_of, is_in_class, replace, same_text, string_of, trim, CharClass,
};
use computer_assistant::topic::{
    availability_topic, command_filter, command_prefix, command_topic, discovery_topic,
    state_topic, Kind,
};

const KINDS: [Kind; 5] =
    [Kind::Switch, Kind::Button, Kind::BinarySensor, Kind::Number, Kind::Sensor];

#[test]
fn kitchen_light_topics() {
    let name = Name("Kitchen Light".to_string());
    let id = name.as_id();
    assert_eq!(id, "kitchen_light");
    assert_eq!(command_topic("home", Kind::Switch, &id), "home/entities/cmd/switch/kitchen_light");
    assert_eq!(state_topic("home", Kind::Switch, &id), "home/entities/stat/switch/kitchen_light");
    assert_eq!(
        discovery_topic("homeassistant", "home", Kind::Switch, &id),
        "homeassistant/switch/home/kitchen_light/config"
    );
}

#[test]
fn kind_segments() {
    assert_eq!(Kind::Switch.as_str(), "switch");
    assert_eq!(Kind::Button.as_str(), "button");
    assert_eq!(Kind::BinarySensor.as_str(), "binary_sensor");
    assert_eq!(Kind::Number.as_str(), "number");
    assert_eq!(Kind::Sensor.as_str(), "sensor");
    for kind in KINDS {
        assert_eq!(Kind::from_segment(kind.as_str()), Some(kind));
    }
    assert_eq!(Kind::from_segment("Switch"), None);
    assert_eq!(Kind::from_segment(""), None);
    assert_eq!(Kind::from_segment("switches"), None);
}

#[test]
fn topics_of_each_kind() {
    assert_eq!(command_topic("b", Kind::Button, "x"), "b/entities/cmd/button/x");
    assert_eq!(command_topic("b", Kind::Number, "x"), "b/entities/cmd/number/x");
    assert_eq!(state_topic("b", Kind::BinarySensor, "x"), "b/entities/stat/binary_sensor/x");
    assert_eq!(state_topic("b", Kind::Sensor, "x"), "b/entities/stat/sensor/x");
    assert_eq!(discovery_topic("ha", "b", Kind::Number, "x"), "ha/number/b/x/config");
    assert_eq!(command_prefix("b"), "b/entities/cmd");
    assert_eq!(command_filter("b"), "b/entities/cmd/#");
    assert_eq!(availability_topic("b", "status"), "b/status");
}

#[test]
fn topics_are_derived_the_same_way_twice() {
    for kind in KINDS {
        assert_eq!(command_topic("home", kind, "a_b"), command_topic("home", kind, "a_b"));
        assert_eq!(state_topic("home", kind, "a_b"), state_topic("home", kind, "a_b"));
        assert_eq!(
            discovery_topic("ha", "home", kind, "a_b"),
            discovery_topic("ha", "home", kind, "a_b")
        );
    }
}

#[test]
fn topics_of_distinct_entities_differ() {
    let ids = ["a", "b", "a/b", "", "sensor", "switch/a"];
    let mut command: Vec<String> = Vec::new();
    let mut state: Vec<String> = Vec::new();
    let mut discovery: Vec<String> = Vec::new();
    for kind in KINDS {
        for id in ids {
            command.push(command_topic("home", kind, id));
            state.push(state_topic("home", kind, id));
            discovery.push(discovery_topic("ha", "home", kind, id));
        }
    }
    for list in [&command, &state, &discovery] {
        for i in 0..list.len() {
            for j in 0..list.len() {
                if i != j {
                    assert_ne!(list[i], list[j]);
                }
            }
        }
    }
    for c in &command {
        for s in &state {
            assert_ne!(c, s);
        }
    }
}

#[test]
fn id_is_lower_case_with_underscores() {
    assert_eq!(Name("ABC".to_string()).as_id(), "abc");
    assert_eq!(Name("Living Room  Lamp".to_string()).as_id(), "living_room__lamp");
    assert_eq!(Name(" x ".to_string()).as_id(), "_x_");
    assert_eq!(Name(String::new()).as_id(), "");
    assert_eq!(Name("already_an_id".to_string()).as_id(), "already_an_id");
    assert_eq!(Name("Küche ÄÖÜ".to_string()).as_id(), "küche_äöü");
}

#[test]
fn id_of_an_id_is_the_id() {
    for name in ["Kitchen Light", "A  B", "x", "", "Tab\tHere", "MiXeD 42", "Küche Ä"] {
        let id = Name(name.to_string()).as_id();
        assert_eq!(Name(id.clone()).as_id(), id);
    }
}

#[test]
fn name_is_kept_as_given() {
    let name = Name("Kitchen Light".to_string());
    assert_eq!(name.as_str(), "Kitchen Light");
    assert_eq!(name.to_string(), "Kitchen Light");
    assert_eq!(name.clone().0, "Kitchen Light");
}

#[test]
fn state_payloads() {
    assert_eq!(State::On.to_string(), "ON");
    assert_eq!(State::Off.to_string(), "OFF");
}

#[test]
fn state_from_payload() {
    assert_eq!(State::from_str("ON"), Ok(State::On));
    assert_eq!(State::from_str("on"), Ok(State::On));
    assert_eq!(State::from_str("On"), Ok(State::On));
    assert_eq!(State::from_str("OFF"), Ok(State::Off));
    assert_eq!(State::from_str("off"), Ok(State::Off));
    assert_eq!(State::from_str("maybe"), Err(Error::UnknownState));
    assert_eq!(State::from_str(""), Err(Error::UnknownState));
    assert_eq!(State::from_str(" ON"), Err(Error::UnknownState));
    assert_eq!(State::from_str("ONN"), Err(Error::UnknownState));
}

#[test]
fn state_from_payload_goes_by_unicode_upper_case() {
    assert_eq!(State::from_str("o\u{fb00}"), Ok(State::Off));
}

#[test]
fn state_from_upper_case_payload() {
    assert_eq!(State::from_upper("ON"), Ok(State::On));
    assert_eq!(State::from_upper("OFF"), Ok(State::Off));
    assert_eq!(State::from_upper("on"), Err(Error::UnknownState));
    assert_eq!(State::from_upper("off"), Err(Error::UnknownState));
}

#[test]
fn errors_are_described() {
    assert_eq!(Error::ScriptSpawn.describe(), "script could not be started");
    assert_eq!(Error::ScriptOutput.describe(), "script output is not valid UTF-8");
    assert_eq!(Error::UnknownState.describe(), "unknown state");
    assert_eq!(Error::Payload.describe(), "payload is not valid UTF-8");
    assert_eq!(Error::Bus.describe(), "bus operation failed");
}

#[test]
fn defaults() {
    assert_eq!(_default_homeassistant_topic(), "homeassistant");
    assert_eq!(_default_availability_topic(), "status");
    assert_eq!(DisplayPrecision::default(), DisplayPrecision(2));
    assert_eq!(DisplayPrecision(7).value(), 7);
}

#[test]
fn text_primitives() {
    assert_eq!(chars_of("a\u{e4}b"), vec!['a', '\u{e4}', 'b']);
    assert_eq!(string_of(&vec!['a', 'b', 'c', 'd'], 1, 3), "bc");
    assert_eq!(string_of(&vec!['a', 'b'], 2, 2), "");
    assert!(same_text("abc", "abc"));
    assert!(!same_text("abc", "abd"));
    assert!(!same_text("abc", "ab"));
    assert_eq!(replace("a b  c", ' ', '_'), "a_b__c");
    assert!(all_distinct(&vec!["a".to_string(), "b".to_string(), "ab".to_string()]));
    assert!(!all_distinct(&vec!["a".to_string(), "b".to_string(), "a".to_string()]));
    assert!(all_distinct(&Vec::new()));
    assert_eq!(trim("  42.5\n"), "42.5");
    assert_eq!(trim("\t a b \r\n"), "a b");
    assert_eq!(trim("\u{a0}x\u{2003}"), "x");
    assert_eq!(trim("   "), "");
    assert_eq!(trim(""), "");
    assert_eq!(trim("/x/"), "/x/");
}

#[test]
fn ascii_white_space_is_white_space() {
    for code in 0u8..128 {
        let c = code as char;
        let plain = c == ' ' || ('\t'..='\r').contains(&c);
        assert_eq!(is_in_class(CharClass::AsciiWhiteSpace, c), plain);
        assert_eq!(is_in_class(CharClass::WhiteSpace, c), plain);
        assert_eq!(is_in_class(CharClass::Separator, c), c == '/');
    }
    assert!(is_in_class(CharClass::WhiteSpace, '\u{a0}'));
    assert!(!is_in_class(CharClass::AsciiWhiteSpace, '\u{a0}'));
    assert_eq!(trim("\u{b}\u{c} x\t\r\n"), "x");
    assert_eq!(trim("\u{1f}x\u{1f}"), "\u{1f}x\u{1f}");
}

#[test]
fn ascii_names_are_lower_cased_letter_by_letter() {
    for code in 0u8..128 {
        let c = code as char;
        let expected = if c == ' ' { '_' } else { c.to_ascii_lowercase() };
        assert_eq!(Name(c.to_string()).as_id(), expected.to_string());
    }
}

#[test]
fn ascii_payloads_are_upper_cased_letter_by_letter() {
    for payload in ["on", "oN", "On", "ON"] {
        assert_eq!(State::from_str(payload), Ok(State::On));
    }
    for payload in ["off", "oFf", "OFF"] {
        assert_eq!(State::from_str(payload), Ok(State::Off));
    }
    for payload in ["0N", "o n", "on\n", "@N", "oN!"] {
        assert_eq!(State::from_str(payload), Err(Error::UnknownState));
    }
}
