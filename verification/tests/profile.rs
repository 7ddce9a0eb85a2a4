use colord::dict::Dict;
use colord::message::{Decode, Error, Interface, MethodCall, Outcome, PropertyRead};
use colord::profile::Profile;
use colord::scope::Scope;
use colord::value::Value;

const PROFILE_PATH: &str = "/org/freedesktop/ColorManager/profiles/icc_abcdef";

fn a_profile() -> Profile {
    Profile::new(PROFILE_PATH).unwrap()
}

fn profile_call<R: Decode>(call: &MethodCall<R>, member: &str, args: Vec<Value>) {
    assert_eq!(call.destination(), "org.freedesktop.ColorManager");
    assert_eq!(call.path.as_str(), PROFILE_PATH);
    assert_eq!(call.interface, Interface::Profile);
    assert_eq!(call.member, member);
    assert_eq!(call.args, args);
}

fn profile_read<R: Decode>(read: &PropertyRead<R>, name: &str) {
    assert_eq!(read.destination(), "org.freedesktop.ColorManager");
    assert_eq!(read.path.as_str(), PROFILE_PATH);
    assert_eq!(read.interface, Interface::Profile);
    assert_eq!(read.name, name);
}

fn profile_text(value: &str) -> Value {
    Value::Str(value.to_string())
}

#[test]
fn profile_set_property() {
    profile_call(
        &a_profile().set_property("Qualifier", "RGB.Plain.300dpi"),
        "SetProperty",
        vec![profile_text("Qualifier"), profile_text("RGB.Plain.300dpi")],
    );
    profile_call(
        &a_profile().set_property("", ""),
        "SetProperty",
        vec![profile_text(""), profile_text("")],
    );
}

#[test]
fn profile_install_system_wide() {
    let call = a_profile().install_system_wide();
    profile_call(&call, "InstallSystemWide", vec![]);
    assert_eq!(call.finish(Outcome::Body(vec![])), Ok(()));
    let refused = a_profile().install_system_wide().finish(Outcome::Failure {
        name: "org.freedesktop.ColorManager.Profile.FailedToAuthenticate".to_string(),
        message: "not allowed".to_string(),
    });
    assert_eq!(
        refused,
        Err(Error::RemoteCallFailure {
            name: "org.freedesktop.ColorManager.Profile.FailedToAuthenticate".to_string(),
            message: "not allowed".to_string(),
        })
    );
}

#[test]
fn profile_changed() {
    let wait = a_profile().changed();
    assert_eq!(wait.sender(), "org.freedesktop.ColorManager");
    assert_eq!(wait.path.as_str(), PROFILE_PATH);
    assert_eq!(wait.interface, Interface::Profile);
    assert_eq!(wait.member, "Changed");
    assert_eq!(wait.finish(Outcome::Closed), Err(Error::NoResponse));
    assert_eq!(a_profile().changed().finish(Outcome::Body(vec![])), Ok(()));
}

#[test]
fn profile_property_names() {
    let profile = a_profile();
    profile_read(&profile.profile_id(), "ProfileId");
    profile_read(&profile.title(), "Title");
    profile_read(&profile.metadata(), "Metadata");
    profile_read(&profile.qualifier(), "Qualifier");
    profile_read(&profile.format(), "Format");
    profile_read(&profile.kind(), "Kind");
    profile_read(&profile.colorspace(), "Colorspace");
    profile_read(&profile.has_vcgt(), "HasVcgt");
    profile_read(&profile.is_system_wide(), "IsSystemWide");
    profile_read(&profile.filename(), "Filename");
    profile_read(&profile.created(), "Created");
    profile_read(&profile.scope(), "Scope");
    profile_read(&profile.owner(), "Owner");
    profile_read(&profile.warnings(), "Warnings");
}

#[test]
fn profile_property_values() {
    let profile = a_profile();
    assert_eq!(
        profile.profile_id().finish(Outcome::Body(vec![profile_text("icc-abcdef")])),
        Ok("icc-abcdef".to_string())
    );
    assert_eq!(
        profile.kind().finish(Outcome::Body(vec![profile_text("display-device")])),
        Ok("display-device".to_string())
    );
    assert_eq!(profile.filename().finish(Outcome::Body(vec![profile_text("")])), Ok(String::new()));
    assert_eq!(profile.has_vcgt().finish(Outcome::Body(vec![Value::Bool(true)])), Ok(true));
    assert_eq!(profile.is_system_wide().finish(Outcome::Body(vec![Value::Bool(false)])), Ok(false));
    assert_eq!(profile.created().finish(Outcome::Body(vec![Value::U64(0)])), Ok(0));
    assert_eq!(profile.scope().finish(Outcome::Body(vec![profile_text("disk")])), Ok(Scope::Disk));
    assert_eq!(
        profile.scope().finish(Outcome::Body(vec![profile_text("eternal")])),
        Ok(Scope::Normal)
    );
    assert_eq!(profile.owner().finish(Outcome::Body(vec![Value::U32(0)])), Ok(0));
    assert_eq!(
        profile.warnings().finish(Outcome::Body(vec![Value::StrArray(vec![
            "description-missing".to_string(),
            "vcgt-non-monotonic".to_string(),
        ])])),
        Ok(vec!["description-missing".to_string(), "vcgt-non-monotonic".to_string()])
    );
    assert_eq!(profile.warnings().finish(Outcome::Body(vec![Value::StrArray(vec![])])), Ok(vec![]));
}

#[test]
fn profile_metadata() {
    let mut metadata: Dict<String> = Dict::new();
    metadata.insert("EDID_md5".to_string(), "0123".to_string());
    metadata.insert("EDID_manufacturer".to_string(), "LEN".to_string());
    let read = a_profile().metadata().finish(Outcome::Body(vec![Value::Dict(metadata)])).unwrap();
    assert_eq!(read.len(), 2);
    assert_eq!(read.get("EDID_md5"), Some(&"0123".to_string()));
    assert_eq!(read.get("EDID_manufacturer"), Some(&"LEN".to_string()));
    assert_eq!(read.get("EDID_model"), None);
}

#[test]
fn profile_property_failures() {
    let profile = a_profile();
    assert_eq!(profile.title().finish(Outcome::Body(vec![Value::U64(1)])), Err(Error::Decode));
    assert_eq!(profile.has_vcgt().finish(Outcome::Body(vec![Value::U32(1)])), Err(Error::Decode));
    assert_eq!(profile.title().finish(Outcome::Disconnected), Err(Error::Connection));
    let missing = profile.title().finish(Outcome::Failure {
        name: "org.freedesktop.DBus.Error.UnknownObject".to_string(),
        message: "gone".to_string(),
    });
    assert_eq!(
        missing,
        Err(Error::RemoteCallFailure {
            name: "org.freedesktop.DBus.Error.UnknownObject".to_string(),
            message: "gone".to_string(),
        })
    );
}
