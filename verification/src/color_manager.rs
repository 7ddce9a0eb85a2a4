//! The manager: the proxy for the `org.freedesktop.ColorManager` object.

use vstd::prelude::*;
use crate::device::Device;
use crate::dict::Dict;
use crate::message::{
    four_args, no_args, one_arg, two_args, Decode, Interface, MethodCall, PropertyRead,
    SignalMatch,
};
use crate::path::{ObjectPath, ROOT};
use crate::profile::Profile;
use crate::sensor::Sensor;
use crate::value::{Value, ValueView};

verus! {

/// The proxy for the manager object of the daemon. There is one such object,
/// at the path [`ROOT`]; the view of the proxy is that path.
#[derive(Debug, PartialEq, Eq)]
pub struct ColorManager {
    path: ObjectPath,
}

impl View for ColorManager {
    type V = Seq<char>;

    closed spec fn view(&self) -> Seq<char> {
        self.path@
    }
}

impl Clone for ColorManager {
    fn clone(&self) -> (copy: ColorManager)
        ensures
            copy@ == self@,
    {
        proof {
            use_type_invariant(self);
        }
        ColorManager { path: self.path.clone() }
    }
}

impl ColorManager {
    #[verifier::type_invariant]
    spec fn at_root(self) -> bool {
        self.path@ == ROOT@
    }

    /// The proxy for the manager object.
    pub fn new() -> (manager: ColorManager)
        ensures
            manager@ == ROOT@,
    {
        ColorManager { path: ObjectPath::root() }
    }

    /// The path of the remote object, which is [`ROOT`].
    pub fn inner(&self) -> (path: &ObjectPath)
        ensures
            path@ == ROOT@,
            path@ == self@,
    {
        proof {
            use_type_invariant(self);
        }
        &self.path
    }

    fn call<R: Decode>(&self, member: &'static str, args: Vec<Value>) -> (call: MethodCall<R>)
        ensures
            call.describes(ROOT@, Interface::Manager, member@, args.deep_view()),
    {
        proof {
            use_type_invariant(self);
        }
        MethodCall::new(self.path.clone(), Interface::Manager, member, args)
    }

    fn read<R: Decode>(&self, name: &'static str) -> (read: PropertyRead<R>)
        ensures
            read.describes(ROOT@, Interface::Manager, name@),
    {
        proof {
            use_type_invariant(self);
        }
        PropertyRead::new(self.path.clone(), Interface::Manager, name)
    }

    fn wait<R: Decode>(&self, member: &'static str) -> (wait: SignalMatch<R>)
        ensures
            wait.describes(ROOT@, Interface::Manager, member@),
    {
        proof {
            use_type_invariant(self);
        }
        SignalMatch::new(self.path.clone(), Interface::Manager, member)
    }

    /// Gets a list of all the devices which have assigned color profiles,
    /// in the order in which the daemon reports them.
    pub fn devices(&self) -> (call: MethodCall<Vec<Device>>)
        ensures
            call.describes(ROOT@, Interface::Manager, "GetDevices"@, Seq::empty()),
    {
        self.call("GetDevices", no_args())
    }

    /// Gets a list of all the devices of a kind which have assigned color
    /// profiles.
    pub fn devices_by_kind(&self, kind: &str) -> (call: MethodCall<Vec<Device>>)
        ensures
            call.describes(
                ROOT@,
                Interface::Manager,
                "GetDevicesByKind"@,
                seq![ValueView::Str(kind@)],
            ),
    {
        self.call("GetDevicesByKind", one_arg(Value::text(kind)))
    }

    /// Gets the device with the given device ID. The daemon mangles device
    /// IDs to make object paths of them, so the path cannot be derived from
    /// the ID on this side. Where no device has the ID, the daemon answers
    /// with an error.
    pub fn find_device_by_id(&self, device_id: &str) -> (call: MethodCall<Device>)
        ensures
            call.describes(
                ROOT@,
                Interface::Manager,
                "FindDeviceById"@,
                seq![ValueView::Str(device_id@)],
            ),
    {
        self.call("FindDeviceById", one_arg(Value::text(device_id)))
    }

    /// Gets the sensor with the given sensor ID.
    pub fn find_sensor_by_id(&self, sensor_id: &str) -> (call: MethodCall<Sensor>)
        ensures
            call.describes(
                ROOT@,
                Interface::Manager,
                "FindSensorById"@,
                seq![ValueView::Str(sensor_id@)],
            ),
    {
        self.call("FindSensorById", one_arg(Value::text(sensor_id)))
    }

    /// Gets the device with the specified property. What matches is up to
    /// the daemon.
    pub fn find_device_by_property(&self, key: &str, value: &str) -> (call: MethodCall<Device>)
        ensures
            call.describes(
                ROOT@,
                Interface::Manager,
                "FindDeviceByProperty"@,
                seq![ValueView::Str(key@), ValueView::Str(value@)],
            ),
    {
        self.call("FindDeviceByProperty", two_args(Value::text(key), Value::text(value)))
    }

    /// Gets the profile with the given profile ID.
    pub fn find_profile_by_id(&self, profile_id: &str) -> (call: MethodCall<Profile>)
        ensures
            call.describes(
                ROOT@,
                Interface::Manager,
                "FindProfileById"@,
                seq![ValueView::Str(profile_id@)],
            ),
    {
        self.call("FindProfileById", one_arg(Value::text(profile_id)))
    }

    /// Gets the profile with the specified property. What matches is up to
    /// the daemon.
    pub fn find_profile_by_property(&self, key: &str, value: &str) -> (call: MethodCall<Profile>)
        ensures
            call.describes(
                ROOT@,
                Interface::Manager,
                "FindProfileByProperty"@,
                seq![ValueView::Str(key@), ValueView::Str(value@)],
            ),
    {
        self.call("FindProfileByProperty", two_args(Value::text(key), Value::text(value)))
    }

    /// Gets the profile with the given filename, either a fully-qualified
    /// filename with path or just the basename of the profile.
    pub fn find_profile_by_filename(&self, file_name: &str) -> (call: MethodCall<Profile>)
        ensures
            call.describes(
                ROOT@,
                Interface::Manager,
                "FindProfileByFilename"@,
                seq![ValueView::Str(file_name@)],
            ),
    {
        self.call("FindProfileByFilename", one_arg(Value::text(file_name)))
    }

    /// Gets the profile for a defined profile space. The defined space is
    /// set from the profile metadata, specifically in the `STANDARD_space`
    /// entry.
    ///
    /// Only system wide profiles are able to define themselves as standard
    /// spaces; the daemon enforces this.
    pub fn standard_space(&self, standard_space: &str) -> (call: MethodCall<Profile>)
        ensures
            call.describes(
                ROOT@,
                Interface::Manager,
                "GetStandardSpace"@,
                seq![ValueView::Str(standard_space@)],
            ),
    {
        self.call("GetStandardSpace", one_arg(Value::text(standard_space)))
    }

    /// Gets a list of all the sensors recognised by the system.
    pub fn sensors(&self) -> (call: MethodCall<Vec<Sensor>>)
        ensures
            call.describes(ROOT@, Interface::Manager, "GetSensors"@, Seq::empty()),
    {
        self.call("GetSensors", no_args())
    }

    /// Gets a list of all the profiles of a specified type.
    pub fn profiles_by_kind(&self, kind: &str) -> (call: MethodCall<Vec<Profile>>)
        ensures
            call.describes(
                ROOT@,
                Interface::Manager,
                "GetProfilesByKind"@,
                seq![ValueView::Str(kind@)],
            ),
    {
        self.call("GetProfilesByKind", one_arg(Value::text(kind)))
    }

    /// Creates a profile.
    ///
    /// If the profile has been added to a device in the past, and that
    /// device exists already, then the daemon adds the new profile to the
    /// device. To undo this, remove the assignment with `RemoveProfile` on
    /// the device.
    ///
    /// `handle` is the number of an open file descriptor for the ICC profile
    /// file, which travels with the call. It lets the daemon parse the
    /// profile without opening the file again, which it may not be allowed
    /// to do for a file in the home directory of the user.
    pub fn create_profile_with_fd(
        &self,
        profile_id: &str,
        scope: &str,
        handle: i32,
        properties: Dict<String>,
    ) -> (call: MethodCall<Profile>)
        ensures
            call.describes(
                ROOT@,
                Interface::Manager,
                "CreateProfileWithFd"@,
                seq![
                    ValueView::Str(profile_id@),
                    ValueView::Str(scope@),
                    ValueView::Fd(handle),
                    ValueView::Dict(properties.deep_view()),
                ],
            ),
    {
        self.call(
            "CreateProfileWithFd",
            four_args(
                Value::text(profile_id),
                Value::text(scope),
                Value::Fd(handle),
                Value::Dict(properties),
            ),
        )
    }

    /// Creates a profile without using a file descriptor. Prefer
    /// [`ColorManager::create_profile_with_fd`]: the daemon may not have
    /// read access to profiles in the home directory of the user.
    pub fn create_profile(&self, scope: &str, properties: Dict<String>) -> (call: MethodCall<
        Profile,
    >)
        ensures
            call.describes(
                ROOT@,
                Interface::Manager,
                "CreateProfile"@,
                seq![ValueView::Str(scope@), ValueView::Dict(properties.deep_view())],
            ),
    {
        self.call("CreateProfile", two_args(Value::text(scope), Value::Dict(properties)))
    }

    /// Creates a device.
    ///
    /// If the device has had profiles added to it in the past, and those
    /// profiles exist already, then the daemon adds them to the new device.
    /// To undo this, remove the assignment with `RemoveProfile` on the
    /// device.
    pub fn create_device(&self, scope: &str, properties: Dict<String>) -> (call: MethodCall<Device>)
        ensures
            call.describes(
                ROOT@,
                Interface::Manager,
                "CreateDevice"@,
                seq![ValueView::Str(scope@), ValueView::Dict(properties.deep_view())],
            ),
    {
        self.call("CreateDevice", two_args(Value::text(scope), Value::Dict(properties)))
    }

    /// Deletes a device.
    pub fn delete_device(&self, device: Device) -> (call: MethodCall<()>)
        ensures
            call.describes(
                ROOT@,
                Interface::Manager,
                "DeleteDevice"@,
                seq![ValueView::Path(device@)],
            ),
    {
        self.call("DeleteDevice", one_arg(device.to_value()))
    }

    /// Deletes a profile.
    pub fn delete_profile(&self, profile: Profile) -> (call: MethodCall<()>)
        ensures
            call.describes(
                ROOT@,
                Interface::Manager,
                "DeleteProfile"@,
                seq![ValueView::Path(profile@)],
            ),
    {
        self.call("DeleteProfile", one_arg(profile.to_value()))
    }

    /// Some value on the interface or the number of devices or profiles has
    /// changed.
    pub fn changed(&self) -> (wait: SignalMatch<()>)
        ensures
            wait.describes(ROOT@, Interface::Manager, "Changed"@),
    {
        self.wait("Changed")
    }

    /// A device has been added.
    pub fn device_added(&self) -> (wait: SignalMatch<Device>)
        ensures
            wait.describes(ROOT@, Interface::Manager, "DeviceAdded"@),
    {
        self.wait("DeviceAdded")
    }

    /// A device has changed.
    pub fn device_changed(&self) -> (wait: SignalMatch<Device>)
        ensures
            wait.describes(ROOT@, Interface::Manager, "DeviceChanged"@),
    {
        self.wait("DeviceChanged")
    }

    /// A profile has been added.
    pub fn profile_added(&self) -> (wait: SignalMatch<Profile>)
        ensures
            wait.describes(ROOT@, Interface::Manager, "ProfileAdded"@),
    {
        self.wait("ProfileAdded")
    }

    /// A profile has been removed.
    pub fn profile_removed(&self) -> (wait: SignalMatch<Profile>)
        ensures
            wait.describes(ROOT@, Interface::Manager, "ProfileRemoved"@),
    {
        self.wait("ProfileRemoved")
    }

    /// A sensor has been added.
    pub fn sensor_added(&self) -> (wait: SignalMatch<Sensor>)
        ensures
            wait.describes(ROOT@, Interface::Manager, "SensorAdded"@),
    {
        self.wait("SensorAdded")
    }

    /// A sensor has been removed.
    pub fn sensor_removed(&self) -> (wait: SignalMatch<Sensor>)
        ensures
            wait.describes(ROOT@, Interface::Manager, "SensorRemoved"@),
    {
        self.wait("SensorRemoved")
    }

    /// A profile has been changed.
    pub fn profile_changed(&self) -> (wait: SignalMatch<Profile>)
        ensures
            wait.describes(ROOT@, Interface::Manager, "ProfileChanged"@),
    {
        self.wait("ProfileChanged")
    }

    /// The daemon version.
    pub fn daemon_version(&self) -> (read: PropertyRead<String>)
        ensures
            read.describes(ROOT@, Interface::Manager, "DaemonVersion"@),
    {
        self.read("DaemonVersion")
    }

    /// The system vendor.
    pub fn system_vendor(&self) -> (read: PropertyRead<String>)
        ensures
            read.describes(ROOT@, Interface::Manager, "SystemVendor"@),
    {
        self.read("SystemVendor")
    }

    /// The system model.
    pub fn system_model(&self) -> (read: PropertyRead<String>)
        ensures
            read.describes(ROOT@, Interface::Manager, "SystemModel"@),
    {
        self.read("SystemModel")
    }
}

} // verus!
