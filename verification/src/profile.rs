//! Profiles: the proxy for an `org.freedesktop.ColorManager.Profile` object.

use vstd::prelude::*;
use crate::dict::Dict;
use crate::entity::{all_object_paths, entities_from_paths, entity_from_path, Entity};
use crate::message::{
    no_args, two_args, Decode, Error, Interface, MethodCall, PropertyRead, SignalMatch,
};
use crate::path::{is_object_path, ObjectPath};
use crate::scope::Scope;
use crate::value::{Value, ValueView};

verus! {

/// A proxy for one profile of the daemon. It holds nothing but the path of
/// the remote object, and its view is that path.
#[derive(Debug, PartialEq, Eq)]
pub struct Profile {
    path: ObjectPath,
}

impl View for Profile {
    type V = Seq<char>;

    closed spec fn view(&self) -> Seq<char> {
        self.path@
    }
}

impl DeepView for Profile {
    type V = Seq<char>;

    open spec fn deep_view(&self) -> Seq<char> {
        self@
    }
}

impl Clone for Profile {
    fn clone(&self) -> (copy: Profile)
        ensures
            copy@ == self@,
    {
        Profile { path: self.path.clone() }
    }
}

impl Entity for Profile {
    fn at(path: ObjectPath) -> (profile: Profile) {
        Profile { path }
    }
}

impl Profile {
    /// The proxy for the profile at `object_path`. Fails with
    /// [`Error::Decode`] where `object_path` is no object path.
    pub fn new(object_path: &str) -> (made: Result<Profile, Error>)
        ensures
            match made {
                Ok(profile) => is_object_path(object_path@) && profile@ == object_path@,
                Err(error) => !is_object_path(object_path@) && error == Error::Decode,
            },
    {
        entity_from_path(object_path)
    }

    /// One proxy for each path of `paths`, in their order. Fails with
    /// [`Error::Decode`] where one of them is no object path.
    pub fn from_paths(paths: Vec<String>) -> (made: Result<Vec<Profile>, Error>)
        ensures
            match made {
                Ok(profiles) => all_object_paths(paths.deep_view()) && profiles.deep_view()
                    == paths.deep_view(),
                Err(error) => !all_object_paths(paths.deep_view()) && error == Error::Decode,
            },
    {
        entities_from_paths(paths)
    }

    /// The path of the remote object.
    pub fn inner(&self) -> (path: &ObjectPath)
        ensures
            path@ == self@,
    {
        &self.path
    }

    /// The profile as an argument of a call: a reference to the remote
    /// object, not its properties.
    pub fn to_value(&self) -> (value: Value)
        ensures
            value.deep_view() == ValueView::Path(self@),
    {
        Value::reference(&self.path)
    }

    fn call<R: Decode>(&self, member: &'static str, args: Vec<Value>) -> (call: MethodCall<R>)
        ensures
            call.describes(self@, Interface::Profile, member@, args.deep_view()),
    {
        MethodCall::new(self.path.clone(), Interface::Profile, member, args)
    }

    fn read<R: Decode>(&self, name: &'static str) -> (read: PropertyRead<R>)
        ensures
            read.describes(self@, Interface::Profile, name@),
    {
        PropertyRead::new(self.path.clone(), Interface::Profile, name)
    }

    /// Sets a property on the object.
    pub fn set_property(&self, property_name: &str, property_value: &str) -> (call: MethodCall<()>)
        ensures
            call.describes(
                self@,
                Interface::Profile,
                "SetProperty"@,
                seq![ValueView::Str(property_name@), ValueView::Str(property_value@)],
            ),
    {
        self.call("SetProperty", two_args(Value::text(property_name), Value::text(property_value)))
    }

    /// Copies the profile system-wide so it can be used by all users on the
    /// system or when no users are logged in. Nothing in this interface
    /// undoes it.
    pub fn install_system_wide(&self) -> (call: MethodCall<()>)
        ensures
            call.describes(self@, Interface::Profile, "InstallSystemWide"@, Seq::empty()),
    {
        self.call("InstallSystemWide", no_args())
    }

    /// Some value on the interface has changed.
    pub fn changed(&self) -> (wait: SignalMatch<()>)
        ensures
            wait.describes(self@, Interface::Profile, "Changed"@),
    {
        SignalMatch::new(self.path.clone(), Interface::Profile, "Changed")
    }

    /// The identification hash of the profile.
    pub fn profile_id(&self) -> (read: PropertyRead<String>)
        ensures
            read.describes(self@, Interface::Profile, "ProfileId"@),
    {
        self.read("ProfileId")
    }

    /// The printable title for the profile.
    pub fn title(&self) -> (read: PropertyRead<String>)
        ensures
            read.describes(self@, Interface::Profile, "Title"@),
    {
        self.read("Title")
    }

    /// The metadata for the profile, which may include optional keys like
    /// `EDID_md5` and `EDID_manufacturer` that are set by several CMS
    /// frameworks.
    pub fn metadata(&self) -> (read: PropertyRead<Dict<String>>)
        ensures
            read.describes(self@, Interface::Profile, "Metadata"@),
    {
        self.read("Metadata")
    }

    /// The qualifier for the profile.
    ///
    /// A qualifier is used as a way to select a profile for a device. This
    /// might be something free text like `High quality studio` or something
    /// more programmable like `RGB.Plain.300dpi`.
    pub fn qualifier(&self) -> (read: PropertyRead<String>)
        ensures
            read.describes(self@, Interface::Profile, "Qualifier"@),
    {
        self.read("Qualifier")
    }

    /// The qualifier format for the profile.
    pub fn format(&self) -> (read: PropertyRead<String>)
        ensures
            read.describes(self@, Interface::Profile, "Format"@),
    {
        self.read("Format")
    }

    /// The profile kind, e.g. `colorspace-conversion`, `abstract` or
    /// `display-device`.
    pub fn kind(&self) -> (read: PropertyRead<String>)
        ensures
            read.describes(self@, Interface::Profile, "Kind"@),
    {
        self.read("Kind")
    }

    /// The profile colorspace, e.g. `rgb`.
    pub fn colorspace(&self) -> (read: PropertyRead<String>)
        ensures
            read.describes(self@, Interface::Profile, "Colorspace"@),
    {
        self.read("Colorspace")
    }

    /// If the profile has a VCGT entry.
    pub fn has_vcgt(&self) -> (read: PropertyRead<bool>)
        ensures
            read.describes(self@, Interface::Profile, "HasVcgt"@),
    {
        self.read("HasVcgt")
    }

    /// If the profile is installed system wide and available for all users.
    pub fn is_system_wide(&self) -> (read: PropertyRead<bool>)
        ensures
            read.describes(self@, Interface::Profile, "IsSystemWide"@),
    {
        self.read("IsSystemWide")
    }

    /// The profile filename, or the empty string for a profile without a
    /// file.
    pub fn filename(&self) -> (read: PropertyRead<String>)
        ensures
            read.describes(self@, Interface::Profile, "Filename"@),
    {
        self.read("Filename")
    }

    /// The date and time the profile was created in UNIX time.
    ///
    /// This is the date and time encoded inside the ICC profile: not the time
    /// at which the profile was registered with the daemon, nor the
    /// timestamp of its file.
    pub fn created(&self) -> (read: PropertyRead<u64>)
        ensures
            read.describes(self@, Interface::Profile, "Created"@),
    {
        self.read("Created")
    }

    /// The scope of the profile, e.g. `normal`, `temp` or `disk`.
    pub fn scope(&self) -> (read: PropertyRead<Scope>)
        ensures
            read.describes(self@, Interface::Profile, "Scope"@),
    {
        self.read("Scope")
    }

    /// The user ID of the account that created the profile.
    pub fn owner(&self) -> (read: PropertyRead<u32>)
        ensures
            read.describes(self@, Interface::Profile, "Owner"@),
    {
        self.read("Owner")
    }

    /// Any warnings for the profile, e.g. `description-missing` or
    /// `vcgt-non-monotonic`.
    pub fn warnings(&self) -> (read: PropertyRead<Vec<String>>)
        ensures
            read.describes(self@, Interface::Profile, "Warnings"@),
    {
        self.read("Warnings")
    }
}

} // verus!
