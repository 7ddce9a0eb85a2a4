use colord::device::{Kind, Mode, Relation};
use colord::message::{Decode, Error};
use colord::scope::Scope;
use colord::sensor::{Capability, Mode as SensorMode};
use colord::value::Value;

#[test]
fn it_works() {}

#[test]
fn scope_wire_names() {
    assert_eq!(Scope::Normal.as_str(), "normal");
    assert_eq!(Scope::Temp.as_str(), "temp");
    assert_eq!(Scope::Disk.as_str(), "disk");
}

#[test]
fn scope_round_trip() {
    for scope in [Scope::Normal, Scope::Temp, Scope::Disk] {
        assert_eq!(Scope::from(scope.as_str()), scope);
    }
}

#[test]
fn scope_default_is_normal() {
    assert_eq!(Scope::default(), Scope::Normal);
}

#[test]
fn scope_unrecognized_decodes_to_default() {
    assert_eq!(Scope::from("permanent"), Scope::Normal);
    assert_eq!(Scope::from(""), Scope::Normal);
    assert_eq!(Scope::from("Temp"), Scope::Normal);
    assert_eq!(Scope::from("temp "), Scope::Normal);
    assert_eq!(Scope::from("dis"), Scope::Normal);
}

#[test]
fn scope_from_body() {
    assert_eq!(Scope::from_body(vec![Value::Str("disk".to_string())]), Ok(Scope::Disk));
    assert_eq!(Scope::from_body(vec![Value::Str("other".to_string())]), Ok(Scope::Normal));
    assert_eq!(Scope::from_body(vec![Value::U32(1)]), Err(Error::Decode));
    assert_eq!(Scope::from_body(vec![]), Err(Error::Decode));
    assert_eq!(
        Scope::from_body(vec![Value::Str("disk".to_string()), Value::Str("temp".to_string())]),
        Err(Error::Decode)
    );
}

#[test]
fn scope_to_value() {
    assert_eq!(Scope::Temp.to_value(), Value::Str("temp".to_string()));
}

#[test]
fn kind_wire_names() {
    assert_eq!(Kind::Scanner.as_str(), "scanner");
    assert_eq!(Kind::Display.as_str(), "display");
    assert_eq!(Kind::Camera.as_str(), "camera");
    assert_eq!(Kind::Printer.as_str(), "printer");
    assert_eq!(Kind::Webcam.as_str(), "webcam");
}

#[test]
fn kind_round_trip() {
    for kind in [Kind::Scanner, Kind::Display, Kind::Camera, Kind::Printer, Kind::Webcam] {
        assert_eq!(Kind::from(kind.as_str()), kind);
    }
}

#[test]
fn kind_unrecognized_decodes_to_display() {
    assert_eq!(Kind::from("toaster"), Kind::Display);
    assert_eq!(Kind::from("Camera"), Kind::Display);
    assert_eq!(Kind::from(""), Kind::Display);
}

#[test]
fn kind_from_body() {
    assert_eq!(Kind::from_body(vec![Value::Str("webcam".to_string())]), Ok(Kind::Webcam));
    assert_eq!(Kind::from_body(vec![Value::Bool(true)]), Err(Error::Decode));
}

#[test]
fn relation_wire_names() {
    assert_eq!(Relation::Soft.as_str(), "soft");
    assert_eq!(Relation::Hard.as_str(), "hard");
}

#[test]
fn relation_round_trip() {
    for relation in [Relation::Soft, Relation::Hard] {
        assert_eq!(Relation::from(relation.as_str()), relation);
    }
}

#[test]
fn relation_default_is_hard() {
    assert_eq!(Relation::default(), Relation::Hard);
}

#[test]
fn relation_unrecognized_decodes_to_default() {
    assert_eq!(Relation::from("firm"), Relation::Hard);
    assert_eq!(Relation::from("SOFT"), Relation::Hard);
}

#[test]
fn relation_from_body() {
    assert_eq!(Relation::from_body(vec![Value::Str("soft".to_string())]), Ok(Relation::Soft));
    assert_eq!(Relation::from_body(vec![Value::Path("/soft".to_string())]), Err(Error::Decode));
}

#[test]
fn device_mode_wire_names() {
    assert_eq!(Mode::Virtual.as_str(), "virtual");
    assert_eq!(Mode::Physical.as_str(), "physical");
    assert_eq!(Mode::Unknown.as_str(), "unknown");
}

#[test]
fn device_mode_round_trip() {
    for mode in [Mode::Virtual, Mode::Physical, Mode::Unknown] {
        assert_eq!(Mode::from(mode.as_str()), mode);
    }
}

#[test]
fn device_mode_default_is_unknown() {
    assert_eq!(Mode::default(), Mode::Unknown);
}

#[test]
fn device_mode_unrecognized_decodes_to_default() {
    assert_eq!(Mode::from("imaginary"), Mode::Unknown);
    assert_eq!(Mode::from("ambient"), Mode::Unknown);
}

#[test]
fn device_mode_from_body() {
    assert_eq!(Mode::from_body(vec![Value::Str("physical".to_string())]), Ok(Mode::Physical));
    assert_eq!(Mode::from_body(vec![Value::U64(0)]), Err(Error::Decode));
}

#[test]
fn sensor_mode_wire_names() {
    assert_eq!(SensorMode::Ambient.as_str(), "ambient");
    assert_eq!(SensorMode::Printer.as_str(), "printer");
    assert_eq!(SensorMode::Unknown.as_str(), "unknown");
}

#[test]
fn sensor_mode_round_trip() {
    for mode in [SensorMode::Ambient, SensorMode::Printer, SensorMode::Unknown] {
        assert_eq!(SensorMode::from(mode.as_str()), mode);
    }
}

#[test]
fn sensor_mode_unrecognized_decodes_to_unknown() {
    assert_eq!(SensorMode::from("spot"), SensorMode::Unknown);
    assert_eq!(SensorMode::from("virtual"), SensorMode::Unknown);
}

#[test]
fn sensor_mode_from_body() {
    assert_eq!(
        SensorMode::from_body(vec![Value::Str("ambient".to_string())]),
        Ok(SensorMode::Ambient)
    );
    assert_eq!(SensorMode::from_body(vec![]), Err(Error::Decode));
}

#[test]
fn capability_wire_names() {
    assert_eq!(Capability::Crt.as_str(), "crt");
    assert_eq!(Capability::Ambient.as_str(), "ambient");
    assert_eq!(Capability::Lcd.as_str(), "lcd");
    assert_eq!(Capability::Led.as_str(), "led");
    assert_eq!(Capability::Projector.as_str(), "projector");
}

#[test]
fn capability_round_trip() {
    for capability in [
        Capability::Crt,
        Capability::Ambient,
        Capability::Lcd,
        Capability::Led,
        Capability::Projector,
    ] {
        assert_eq!(Capability::from_wire(capability.as_str()), Some(capability));
    }
}

#[test]
fn capability_unrecognized_decodes_to_nothing() {
    assert_eq!(Capability::from_wire("plasma"), None);
    assert_eq!(Capability::from_wire("LCD"), None);
    assert_eq!(Capability::from_wire(""), None);
}

#[test]
fn enumerations_to_value() {
    assert_eq!(Kind::Printer.to_value(), Value::Str("printer".to_string()));
    assert_eq!(Relation::Soft.to_value(), Value::Str("soft".to_string()));
    assert_eq!(Mode::Virtual.to_value(), Value::Str("virtual".to_string()));
    assert_eq!(SensorMode::Printer.to_value(), Value::Str("printer".to_string()));
    assert_eq!(Capability::Led.to_value(), Value::Str("led".to_string()));
}
