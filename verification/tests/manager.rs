use colord::color_manager::ColorManager;
use colord::device::Device;
use colord::dict::Dict;
use colord::message::{
    Decode, Error, Interface, MethodCall, Outcome, PropertyRead, SignalMatch, DESTINATION,
};
use colord::path::ROOT;
use colord::profile::Profile;
use colord::value::Value;

fn manager_call<R: Decode>(call: &MethodCall<R>, member: &str, args: Vec<Value>) {
    assert_eq!(call.destination(), "org.freedesktop.ColorManager");
    assert_eq!(call.path.as_str(), "/org/freedesktop/ColorManager");
    assert_eq!(call.interface, Interface::Manager);
    assert_eq!(call.interface.name(), "org.freedesktop.ColorManager");
    assert_eq!(call.member, member);
    assert_eq!(call.args, args);
}

fn manager_read<R: Decode>(read: &PropertyRead<R>, name: &str) {
    assert_eq!(read.destination(), "org.freedesktop.ColorManager");
    assert_eq!(read.path.as_str(), "/org/freedesktop/ColorManager");
    assert_eq!(read.interface, Interface::Manager);
    assert_eq!(read.name, name);
}

fn manager_wait<R: Decode>(wait: &SignalMatch<R>, member: &str) {
    assert_eq!(wait.sender(), "org.freedesktop.ColorManager");
    assert_eq!(wait.path.as_str(), "/org/freedesktop/ColorManager");
    assert_eq!(wait.interface, Interface::Manager);
    assert_eq!(wait.member, member);
}

fn text(value: &str) -> Value {
    Value::Str(value.to_string())
}

fn some_properties() -> Dict<String> {
    let mut properties: Dict<String> = Dict::new();
    properties.insert("Filename".to_string(), "/tmp/profile.icc".to_string());
    properties.insert("Title".to_string(), "A profile".to_string());
    properties
}

#[test]
fn manager_is_at_the_root() {
    let manager = ColorManager::new();
    assert_eq!(manager.inner().as_str(), ROOT);
    assert_eq!(manager.clone(), manager);
    assert_eq!(DESTINATION, "org.freedesktop.ColorManager");
}

#[test]
fn interface_names() {
    assert_eq!(Interface::Manager.name(), "org.freedesktop.ColorManager");
    assert_eq!(Interface::Device.name(), "org.freedesktop.ColorManager.Device");
    assert_eq!(Interface::Profile.name(), "org.freedesktop.ColorManager.Profile");
    assert_eq!(Interface::Sensor.name(), "org.freedesktop.ColorManager.Sensor");
}

#[test]
fn manager_devices() {
    manager_call(&ColorManager::new().devices(), "GetDevices", vec![]);
}

#[test]
fn manager_devices_by_kind() {
    manager_call(
        &ColorManager::new().devices_by_kind("display"),
        "GetDevicesByKind",
        vec![text("display")],
    );
}

#[test]
fn manager_find_device_by_id() {
    manager_call(
        &ColorManager::new().find_device_by_id("cups$34:dev"),
        "FindDeviceById",
        vec![text("cups$34:dev")],
    );
}

#[test]
fn manager_find_sensor_by_id() {
    manager_call(
        &ColorManager::new().find_sensor_by_id("colormunki"),
        "FindSensorById",
        vec![text("colormunki")],
    );
}

#[test]
fn manager_find_device_by_property() {
    manager_call(
        &ColorManager::new().find_device_by_property("XRANDR_name", "eDP-1"),
        "FindDeviceByProperty",
        vec![text("XRANDR_name"), text("eDP-1")],
    );
}

#[test]
fn manager_find_profile_by_id() {
    manager_call(
        &ColorManager::new().find_profile_by_id("icc-abcdef"),
        "FindProfileById",
        vec![text("icc-abcdef")],
    );
}

#[test]
fn manager_find_profile_by_property() {
    manager_call(
        &ColorManager::new().find_profile_by_property("EDID_md5", "0123"),
        "FindProfileByProperty",
        vec![text("EDID_md5"), text("0123")],
    );
}

#[test]
fn manager_find_profile_by_filename() {
    manager_call(
        &ColorManager::new().find_profile_by_filename("sRGB.icc"),
        "FindProfileByFilename",
        vec![text("sRGB.icc")],
    );
    manager_call(
        &ColorManager::new().find_profile_by_filename("/usr/share/color/icc/sRGB.icc"),
        "FindProfileByFilename",
        vec![text("/usr/share/color/icc/sRGB.icc")],
    );
}

#[test]
fn manager_standard_space() {
    manager_call(
        &ColorManager::new().standard_space("srgb"),
        "GetStandardSpace",
        vec![text("srgb")],
    );
}

#[test]
fn manager_sensors() {
    manager_call(&ColorManager::new().sensors(), "GetSensors", vec![]);
}

#[test]
fn manager_profiles_by_kind() {
    manager_call(
        &ColorManager::new().profiles_by_kind("display-device"),
        "GetProfilesByKind",
        vec![text("display-device")],
    );
}

#[test]
fn manager_create_profile_with_fd() {
    let call = ColorManager::new().create_profile_with_fd("icc-1", "temp", 7, some_properties());
    manager_call(
        &call,
        "CreateProfileWithFd",
        vec![text("icc-1"), text("temp"), Value::Fd(7), Value::Dict(some_properties())],
    );
    match &call.args[3] {
        Value::Dict(properties) => {
            assert_eq!(properties.len(), 2);
            assert_eq!(properties.get("Filename"), Some(&"/tmp/profile.icc".to_string()));
            assert_eq!(properties.get("Title"), Some(&"A profile".to_string()));
        }
        other => panic!("{other:?}"),
    }
}

#[test]
fn manager_create_profile() {
    manager_call(
        &ColorManager::new().create_profile("normal", some_properties()),
        "CreateProfile",
        vec![text("normal"), Value::Dict(some_properties())],
    );
    manager_call(
        &ColorManager::new().create_profile("disk", Dict::new()),
        "CreateProfile",
        vec![text("disk"), Value::Dict(Dict::new())],
    );
}

#[test]
fn manager_create_device() {
    manager_call(
        &ColorManager::new().create_device("temp", some_properties()),
        "CreateDevice",
        vec![text("temp"), Value::Dict(some_properties())],
    );
}

#[test]
fn manager_delete_device() {
    let device = Device::new("/org/freedesktop/ColorManager/devices/first").unwrap();
    manager_call(
        &ColorManager::new().delete_device(device),
        "DeleteDevice",
        vec![Value::Path("/org/freedesktop/ColorManager/devices/first".to_string())],
    );
}

#[test]
fn manager_delete_profile() {
    let profile = Profile::new("/org/freedesktop/ColorManager/profiles/first").unwrap();
    manager_call(
        &ColorManager::new().delete_profile(profile),
        "DeleteProfile",
        vec![Value::Path("/org/freedesktop/ColorManager/profiles/first".to_string())],
    );
}

#[test]
fn manager_signals() {
    let manager = ColorManager::new();
    manager_wait(&manager.changed(), "Changed");
    manager_wait(&manager.device_added(), "DeviceAdded");
    manager_wait(&manager.device_changed(), "DeviceChanged");
    manager_wait(&manager.profile_added(), "ProfileAdded");
    manager_wait(&manager.profile_removed(), "ProfileRemoved");
    manager_wait(&manager.profile_changed(), "ProfileChanged");
    manager_wait(&manager.sensor_added(), "SensorAdded");
    manager_wait(&manager.sensor_removed(), "SensorRemoved");
}

#[test]
fn manager_properties() {
    let manager = ColorManager::new();
    manager_read(&manager.daemon_version(), "DaemonVersion");
    manager_read(&manager.system_vendor(), "SystemVendor");
    manager_read(&manager.system_model(), "SystemModel");
}

#[test]
fn listing_nothing_gives_an_empty_collection() {
    let manager = ColorManager::new();
    let nothing = || Outcome::Body(vec![Value::PathArray(vec![])]);
    assert_eq!(manager.devices().finish(nothing()), Ok(vec![]));
    assert_eq!(manager.devices_by_kind("printer").finish(nothing()), Ok(vec![]));
    assert_eq!(manager.sensors().finish(nothing()), Ok(vec![]));
    assert_eq!(manager.profiles_by_kind("abstract").finish(nothing()), Ok(vec![]));
}

#[test]
fn listing_keeps_the_order_of_the_daemon() {
    let manager = ColorManager::new();
    let outcome = Outcome::Body(vec![Value::PathArray(vec![
        "/org/freedesktop/ColorManager/devices/second".to_string(),
        "/org/freedesktop/ColorManager/devices/first".to_string(),
    ])]);
    let devices = manager.devices().finish(outcome).unwrap();
    assert_eq!(devices.len(), 2);
    assert_eq!(devices[0].inner().as_str(), "/org/freedesktop/ColorManager/devices/second");
    assert_eq!(devices[1].inner().as_str(), "/org/freedesktop/ColorManager/devices/first");
}

#[test]
fn find_device_by_id_of_an_unknown_id_is_not_found() {
    let call = ColorManager::new().find_device_by_id("nonexistent");
    let outcome = Outcome::Failure {
        name: "org.freedesktop.ColorManager.NotFound".to_string(),
        message: "device id 'nonexistent' does not exist".to_string(),
    };
    assert_eq!(
        call.finish(outcome),
        Err(Error::RemoteCallFailure {
            name: "org.freedesktop.ColorManager.NotFound".to_string(),
            message: "device id 'nonexistent' does not exist".to_string(),
        })
    );
}

#[test]
fn find_device_by_id_gives_the_device_at_the_returned_path() {
    let call = ColorManager::new().find_device_by_id("cups$34:dev");
    let outcome =
        Outcome::Body(vec![Value::Path("/org/freedesktop/ColorManager/cups_34_dev".to_string())]);
    let device = call.finish(outcome).unwrap();
    assert_eq!(device.inner().as_str(), "/org/freedesktop/ColorManager/cups_34_dev");
}

#[test]
fn find_profile_after_delete_fails_when_the_daemon_says_so() {
    let manager = ColorManager::new();
    let created = manager
        .create_profile_with_fd("icc-temp", "temp", 3, Dict::new())
        .finish(Outcome::Body(vec![Value::Path(
            "/org/freedesktop/ColorManager/profiles/icc_temp".to_string(),
        )]))
        .unwrap();
    assert_eq!(manager.delete_profile(created).finish(Outcome::Body(vec![])), Ok(()));
    let found = manager.find_profile_by_id("icc-temp").finish(Outcome::Failure {
        name: "org.freedesktop.ColorManager.NotFound".to_string(),
        message: "profile id 'icc-temp' does not exist".to_string(),
    });
    assert!(matches!(found, Err(Error::RemoteCallFailure { .. })));
}

#[test]
fn manager_signal_outcomes() {
    let manager = ColorManager::new();
    assert_eq!(manager.changed().finish(Outcome::Body(vec![])), Ok(()));
    assert_eq!(manager.changed().finish(Outcome::Closed), Err(Error::NoResponse));
    assert_eq!(manager.device_added().finish(Outcome::Closed), Err(Error::NoResponse));
    assert_eq!(manager.profile_removed().finish(Outcome::Disconnected), Err(Error::Connection));
    let added = manager
        .sensor_added()
        .finish(Outcome::Body(vec![Value::Path(
            "/org/freedesktop/ColorManager/sensors/s".to_string(),
        )]))
        .unwrap();
    assert_eq!(added.inner().as_str(), "/org/freedesktop/ColorManager/sensors/s");
    assert_eq!(manager.profile_added().finish(Outcome::Body(vec![])), Err(Error::Decode));
}

#[test]
fn manager_property_outcomes() {
    let manager = ColorManager::new();
    assert_eq!(
        manager.daemon_version().finish(Outcome::Body(vec![text("1.4.6")])),
        Ok("1.4.6".to_string())
    );
    assert_eq!(
        manager.system_vendor().finish(Outcome::Body(vec![Value::U32(1)])),
        Err(Error::Decode)
    );
    assert_eq!(manager.system_model().finish(Outcome::Disconnected), Err(Error::Connection));
}
