//! Devices: the proxy for an `org.freedesktop.ColorManager.Device` object,
//! and the enumerations of its interface.

use vstd::prelude::*;
use vstd::std_specs::convert::FromSpecImpl;
use crate::dict::Dict;
use crate::entity::{all_object_paths, entities_from_paths, entity_from_path, Entity};
use crate::message::{
    no_args, one_arg, sole, take_sole, two_args, Decode, Error, Interface, MethodCall,
    PropertyRead, SignalMatch,
};
use crate::path::{is_object_path, ObjectPath};
use crate::profile::Profile;
use crate::scope::Scope;
use crate::text::same_text;
use crate::value::{characters, Value, ValueView};

verus! {

/// The kind of a device.
#[derive(Debug, Clone, Copy, PartialEq, Eq, Structural)]
pub enum Kind {
    Scanner,
    Display,
    Camera,
    Printer,
    Webcam,
}

impl Kind {
    /// The string that stands for the kind on the wire.
    pub open spec fn wire(self) -> Seq<char> {
        match self {
            Kind::Scanner => "scanner"@,
            Kind::Display => "display"@,
            Kind::Camera => "camera"@,
            Kind::Printer => "printer"@,
            Kind::Webcam => "webcam"@,
        }
    }

    /// The kind that a string from the wire stands for. A string that names
    /// no kind stands for [`Kind::Display`].
    pub open spec fn parse(text: Seq<char>) -> Kind {
        if text == "scanner"@ {
            Kind::Scanner
        } else if text == "camera"@ {
            Kind::Camera
        } else if text == "printer"@ {
            Kind::Printer
        } else if text == "webcam"@ {
            Kind::Webcam
        } else {
            Kind::Display
        }
    }

    /// The string that stands for the kind on the wire.
    pub fn as_str(self) -> (text: &'static str)
        ensures
            text@ == self.wire(),
    {
        match self {
            Kind::Scanner => "scanner",
            Kind::Display => "display",
            Kind::Camera => "camera",
            Kind::Printer => "printer",
            Kind::Webcam => "webcam",
        }
    }

    /// The kind as a value for the body of a message.
    pub fn to_value(self) -> (value: Value)
        ensures
            value.deep_view() == ValueView::Str(self.wire()),
    {
        Value::text(self.as_str())
    }

    /// Decoding the string that encodes a kind gives the kind back, be it
    /// the string itself or a body that holds the string.
    pub proof fn lemma_round_trip(kind: Kind)
        ensures
            Kind::parse(kind.wire()) == kind,
            <Kind as Decode>::shape(seq![ValueView::Str(kind.wire())]) == Some(kind),
    {
        reveal_strlit("scanner");
        reveal_strlit("display");
        reveal_strlit("camera");
        reveal_strlit("printer");
        reveal_strlit("webcam");
        assert("scanner"@[0] == 's');
        assert("display"@[0] == 'd');
        assert("camera"@[0] == 'c');
        assert("printer"@[0] == 'p');
        assert("webcam"@[0] == 'w');
    }

    /// A string that encodes no kind decodes to the fallback,
    /// [`Kind::Display`].
    pub proof fn lemma_unrecognized(text: Seq<char>)
        requires
            forall|kind: Kind| text != #[trigger] kind.wire(),
        ensures
            Kind::parse(text) == Kind::Display,
    {
        assert(text != Kind::Scanner.wire());
        assert(text != Kind::Camera.wire());
        assert(text != Kind::Printer.wire());
        assert(text != Kind::Webcam.wire());
    }
}

impl<'a> From<&'a str> for Kind {
    /// Decodes a string from the wire; see [`Kind::parse`].
    fn from(text: &'a str) -> (kind: Kind) {
        if same_text(text, "scanner") {
            Kind::Scanner
        } else if same_text(text, "camera") {
            Kind::Camera
        } else if same_text(text, "printer") {
            Kind::Printer
        } else if same_text(text, "webcam") {
            Kind::Webcam
        } else {
            Kind::Display
        }
    }
}

impl<'a> FromSpecImpl<&'a str> for Kind {
    open spec fn obeys_from_spec() -> bool {
        true
    }

    open spec fn from_spec(text: &'a str) -> Kind {
        Kind::parse(text@)
    }
}

impl DeepView for Kind {
    type V = Kind;

    open spec fn deep_view(&self) -> Kind {
        *self
    }
}

impl Decode for Kind {
    /// A kind is read from a body that holds one string.
    open spec fn shape(body: Seq<ValueView>) -> Option<Kind> {
        match sole(body) {
            Some(ValueView::Str(text)) => Some(Kind::parse(text)),
            _ => None,
        }
    }

    fn from_body(body: Vec<Value>) -> (decoded: Result<Kind, Error>) {
        match take_sole(body) {
            Some(Value::Str(text)) => Ok(Kind::from(text.as_str())),
            _ => Err(Error::Decode),
        }
    }
}

/// How a profile came to be assigned to a device: `Soft` by the daemon on
/// its own, `Hard` at the request of a client.
#[derive(Debug, Clone, Copy, PartialEq, Eq, Structural)]
pub enum Relation {
    Soft,
    Hard,
}

impl Relation {
    /// The string that stands for the relation on the wire.
    pub open spec fn wire(self) -> Seq<char> {
        match self {
            Relation::Soft => "soft"@,
            Relation::Hard => "hard"@,
        }
    }

    /// The relation that a string from the wire stands for. A string that
    /// names no relation stands for [`Relation::Hard`].
    pub open spec fn parse(text: Seq<char>) -> Relation {
        if text == "soft"@ {
            Relation::Soft
        } else {
            Relation::Hard
        }
    }

    /// The string that stands for the relation on the wire.
    pub fn as_str(self) -> (text: &'static str)
        ensures
            text@ == self.wire(),
    {
        match self {
            Relation::Soft => "soft",
            Relation::Hard => "hard",
        }
    }

    /// The relation as a value for the body of a message.
    pub fn to_value(self) -> (value: Value)
        ensures
            value.deep_view() == ValueView::Str(self.wire()),
    {
        Value::text(self.as_str())
    }

    /// Decoding the string that encodes a relation gives the relation back,
    /// be it the string itself or a body that holds the string.
    pub proof fn lemma_round_trip(relation: Relation)
        ensures
            Relation::parse(relation.wire()) == relation,
            <Relation as Decode>::shape(seq![ValueView::Str(relation.wire())]) == Some(relation),
    {
        reveal_strlit("soft");
        reveal_strlit("hard");
        assert("soft"@[0] == 's');
        assert("hard"@[0] == 'h');
    }

    /// A string that encodes no relation decodes to the default,
    /// [`Relation::Hard`].
    pub proof fn lemma_unrecognized(text: Seq<char>)
        requires
            forall|relation: Relation| text != #[trigger] relation.wire(),
        ensures
            Relation::parse(text) == Relation::Hard,
    {
        assert(text != Relation::Soft.wire());
    }
}

impl Default for Relation {
    fn default() -> (relation: Relation)
        ensures
            relation == Relation::Hard,
    {
        Relation::Hard
    }
}

impl<'a> From<&'a str> for Relation {
    /// Decodes a string from the wire; see [`Relation::parse`].
    fn from(text: &'a str) -> (relation: Relation) {
        if same_text(text, "soft") {
            Relation::Soft
        } else {
            Relation::Hard
        }
    }
}

impl<'a> FromSpecImpl<&'a str> for Relation {
    open spec fn obeys_from_spec() -> bool {
        true
    }

    open spec fn from_spec(text: &'a str) -> Relation {
        Relation::parse(text@)
    }
}

impl DeepView for Relation {
    type V = Relation;

    open spec fn deep_view(&self) -> Relation {
        *self
    }
}

impl Decode for Relation {
    /// A relation is read from a body that holds one string.
    open spec fn shape(body: Seq<ValueView>) -> Option<Relation> {
        match sole(body) {
            Some(ValueView::Str(text)) => Some(Relation::parse(text)),
            _ => None,
        }
    }

    fn from_body(body: Vec<Value>) -> (decoded: Result<Relation, Error>) {
        match take_sole(body) {
            Some(Value::Str(text)) => Ok(Relation::from(text.as_str())),
            _ => Err(Error::Decode),
        }
    }
}

/// Whether a device is tied to an item of hardware.
#[derive(Debug, Clone, Copy, PartialEq, Eq, Structural)]
pub enum Mode {
    Virtual,
    Physical,
    Unknown,
}

impl Mode {
    /// The string that stands for the mode on the wire.
    pub open spec fn wire(self) -> Seq<char> {
        match self {
            Mode::Virtual => "virtual"@,
            Mode::Physical => "physical"@,
            Mode::Unknown => "unknown"@,
        }
    }

    /// The mode that a string from the wire stands for. A string that names
    /// no mode stands for [`Mode::Unknown`].
    pub open spec fn parse(text: Seq<char>) -> Mode {
        if text == "virtual"@ {
            Mode::Virtual
        } else if text == "physical"@ {
            Mode::Physical
        } else {
            Mode::Unknown
        }
    }

    /// The string that stands for the mode on the wire.
    pub fn as_str(self) -> (text: &'static str)
        ensures
            text@ == self.wire(),
    {
        match self {
            Mode::Virtual => "virtual",
            Mode::Physical => "physical",
            Mode::Unknown => "unknown",
        }
    }

    /// The mode as a value for the body of a message.
    pub fn to_value(self) -> (value: Value)
        ensures
            value.deep_view() == ValueView::Str(self.wire()),
    {
        Value::text(self.as_str())
    }

    /// Decoding the string that encodes a mode gives the mode back, be it
    /// the string itself or a body that holds the string.
    pub proof fn lemma_round_trip(mode: Mode)
        ensures
            Mode::parse(mode.wire()) == mode,
            <Mode as Decode>::shape(seq![ValueView::Str(mode.wire())]) == Some(mode),
    {
        reveal_strlit("virtual");
        reveal_strlit("physical");
        reveal_strlit("unknown");
        assert("virtual"@[0] == 'v');
        assert("physical"@[0] == 'p');
        assert("unknown"@[0] == 'u');
    }

    /// A string that encodes no mode decodes to the default,
    /// [`Mode::Unknown`].
    pub proof fn lemma_unrecognized(text: Seq<char>)
        requires
            forall|mode: Mode| text != #[trigger] mode.wire(),
        ensures
            Mode::parse(text) == Mode::Unknown,
    {
        assert(text != Mode::Virtual.wire());
        assert(text != Mode::Physical.wire());
    }
}

impl Default for Mode {
    fn default() -> (mode: Mode)
        ensures
            mode == Mode::Unknown,
    {
        Mode::Unknown
    }
}

impl<'a> From<&'a str> for Mode {
    /// Decodes a string from the wire; see [`Mode::parse`].
    fn from(text: &'a str) -> (mode: Mode) {
        if same_text(text, "virtual") {
            Mode::Virtual
        } else if same_text(text, "physical") {
            Mode::Physical
        } else {
            Mode::Unknown
        }
    }
}

impl<'a> FromSpecImpl<&'a str> for Mode {
    open spec fn obeys_from_spec() -> bool {
        true
    }

    open spec fn from_spec(text: &'a str) -> Mode {
        Mode::parse(text@)
    }
}

impl DeepView for Mode {
    type V = Mode;

    open spec fn deep_view(&self) -> Mode {
        *self
    }
}

impl Decode for Mode {
    /// A mode is read from a body that holds one string.
    open spec fn shape(body: Seq<ValueView>) -> Option<Mode> {
        match sole(body) {
            Some(ValueView::Str(text)) => Some(Mode::parse(text)),
            _ => None,
        }
    }

    fn from_body(body: Vec<Value>) -> (decoded: Result<Mode, Error>) {
        match take_sole(body) {
            Some(Value::Str(text)) => Ok(Mode::from(text.as_str())),
            _ => Err(Error::Decode),
        }
    }
}

/// A proxy for one device of the daemon. It holds nothing but the path of
/// the remote object, and its view is that path.
#[derive(Debug, PartialEq, Eq)]
pub struct Device {
    path: ObjectPath,
}

impl View for Device {
    type V = Seq<char>;

    closed spec fn view(&self) -> Seq<char> {
        self.path@
    }
}

impl DeepView for Device {
    type V = Seq<char>;

    open spec fn deep_view(&self) -> Seq<char> {
        self@
    }
}

impl Clone for Device {
    fn clone(&self) -> (copy: Device)
        ensures
            copy@ == self@,
    {
        Device { path: self.path.clone() }
    }
}

impl Entity for Device {
    fn at(path: ObjectPath) -> (device: Device) {
        Device { path }
    }
}

impl Device {
    /// The proxy for the device at `object_path`. Fails with
    /// [`Error::Decode`] where `object_path` is no object path.
    pub fn new(object_path: &str) -> (made: Result<Device, Error>)
        ensures
            match made {
                Ok(device) => is_object_path(object_path@) && device@ == object_path@,
                Err(error) => !is_object_path(object_path@) && error == Error::Decode,
            },
    {
        entity_from_path(object_path)
    }

    /// One proxy for each path of `paths`, in their order. Fails with
    /// [`Error::Decode`] where one of them is no object path.
    pub fn from_paths(paths: Vec<String>) -> (made: Result<Vec<Device>, Error>)
        ensures
            match made {
                Ok(devices) => all_object_paths(paths.deep_view()) && devices.deep_view()
                    == paths.deep_view(),
                Err(error) => !all_object_paths(paths.deep_view()) && error == Error::Decode,
            },
    {
        entities_from_paths(paths)
    }

    /// The path of the remote object.
    pub fn inner(&self) -> (path: &ObjectPath)
        ensures
            path@ == self@,
    {
        &self.path
    }

    /// The device as an argument of a call: a reference to the remote
    /// object, not its properties.
    pub fn to_value(&self) -> (value: Value)
        ensures
            value.deep_view() == ValueView::Path(self@),
    {
        Value::reference(&self.path)
    }

    fn call<R: Decode>(&self, member: &'static str, args: Vec<Value>) -> (call: MethodCall<R>)
        ensures
            call.describes(self@, Interface::Device, member@, args.deep_view()),
    {
        MethodCall::new(self.path.clone(), Interface::Device, member, args)
    }

    fn read<R: Decode>(&self, name: &'static str) -> (read: PropertyRead<R>)
        ensures
            read.describes(self@, Interface::Device, name@),
    {
        PropertyRead::new(self.path.clone(), Interface::Device, name)
    }

    /// Sets a property on the object.
    pub fn set_property(&self, property_name: &str, property_value: &str) -> (call: MethodCall<()>)
        ensures
            call.describes(
                self@,
                Interface::Device,
                "SetProperty"@,
                seq![ValueView::Str(property_name@), ValueView::Str(property_value@)],
            ),
    {
        self.call("SetProperty", two_args(Value::text(property_name), Value::text(property_value)))
    }

    /// Adds a profile to the device. The profile must have been previously
    /// created.
    ///
    /// The daemon also stores the device to profile mapping in a persistent
    /// database, so that if the device and profile happen to both exist in
    /// the future, the profile is added to the device again.
    pub fn add_profile(&self, relation: Relation, profile: &Profile) -> (call: MethodCall<()>)
        ensures
            call.describes(
                self@,
                Interface::Device,
                "AddProfile"@,
                seq![ValueView::Str(relation.wire()), ValueView::Path(profile@)],
            ),
    {
        self.call("AddProfile", two_args(relation.to_value(), profile.to_value()))
    }

    /// Removes a profile for a device.
    ///
    /// The daemon also removes the device to profile mapping from its
    /// persistent database, and stops adding the profile again on account of
    /// metadata in the profile: a removal overrides every automatic
    /// assignment.
    pub fn remove_profile(&self, profile: &Profile) -> (call: MethodCall<()>)
        ensures
            call.describes(
                self@,
                Interface::Device,
                "RemoveProfile"@,
                seq![ValueView::Path(profile@)],
            ),
    {
        self.call("RemoveProfile", one_arg(profile.to_value()))
    }

    /// Sets the default profile for a device.
    pub fn make_profile_default(&self, profile: &Profile) -> (call: MethodCall<()>)
        ensures
            call.describes(
                self@,
                Interface::Device,
                "MakeProfileDefault"@,
                seq![ValueView::Path(profile@)],
            ),
    {
        self.call("MakeProfileDefault", one_arg(profile.to_value()))
    }

    /// Gets a single profile for a list of qualifiers.
    ///
    /// A qualifier can contain `*` and `?` wildcards; the daemon decides
    /// what matches and which match it returns.
    pub fn profile_for_qualifiers(&self, qualifiers: &[&str]) -> (call: MethodCall<Profile>)
        ensures
            call.describes(
                self@,
                Interface::Device,
                "GetProfileForQualifiers"@,
                seq![ValueView::StrArray(characters(qualifiers@))],
            ),
    {
        self.call("GetProfileForQualifiers", one_arg(Value::texts(qualifiers)))
    }

    /// Gets the relation of a profile that is assigned to the device.
    pub fn profile_relation(&self, profile: &Profile) -> (call: MethodCall<Relation>)
        ensures
            call.describes(
                self@,
                Interface::Device,
                "GetProfileRelation"@,
                seq![ValueView::Path(profile@)],
            ),
    {
        self.call("GetProfileRelation", one_arg(profile.to_value()))
    }

    /// Adds an inhibit on all profiles for this device.
    ///
    /// While it holds, `GetProfileForQualifiers` matches no profile. It is
    /// meant for creating profiles, when no profile may be applied while
    /// color samples are displayed or color swatches are printed.
    ///
    /// The inhibit is a lease: the daemon removes it when the client that
    /// asked for it leaves the bus without calling `ProfilingUninhibit`.
    pub fn profiling_inhibit(&self) -> (call: MethodCall<()>)
        ensures
            call.describes(self@, Interface::Device, "ProfilingInhibit"@, Seq::empty()),
    {
        self.call("ProfilingInhibit", no_args())
    }

    /// Removes an inhibit on the device, when profiling has finished and
    /// normal device matching behaviour should resume.
    pub fn profiling_uninhibit(&self) -> (call: MethodCall<()>)
        ensures
            call.describes(self@, Interface::Device, "ProfilingUninhibit"@, Seq::empty()),
    {
        self.call("ProfilingUninhibit", no_args())
    }

    /// Sets the device enable state.
    pub fn set_enabled(&self, enabled: bool) -> (call: MethodCall<()>)
        ensures
            call.describes(
                self@,
                Interface::Device,
                "SetEnabled"@,
                seq![ValueView::Bool(enabled)],
            ),
    {
        self.call("SetEnabled", one_arg(Value::Bool(enabled)))
    }

    /// Some value on the interface has changed.
    pub fn changed(&self) -> (wait: SignalMatch<()>)
        ensures
            wait.describes(self@, Interface::Device, "Changed"@),
    {
        SignalMatch::new(self.path.clone(), Interface::Device, "Changed")
    }

    /// The date the device was created.
    pub fn created(&self) -> (read: PropertyRead<u64>)
        ensures
            read.describes(self@, Interface::Device, "Created"@),
    {
        self.read("Created")
    }

    /// The date the device was last modified.
    pub fn modified(&self) -> (read: PropertyRead<u64>)
        ensures
            read.describes(self@, Interface::Device, "Modified"@),
    {
        self.read("Modified")
    }

    /// The device model string.
    pub fn model(&self) -> (read: PropertyRead<String>)
        ensures
            read.describes(self@, Interface::Device, "Model"@),
    {
        self.read("Model")
    }

    /// The device serial string.
    pub fn serial(&self) -> (read: PropertyRead<String>)
        ensures
            read.describes(self@, Interface::Device, "Serial"@),
    {
        self.read("Serial")
    }

    /// The device vendor string.
    pub fn vendor(&self) -> (read: PropertyRead<String>)
        ensures
            read.describes(self@, Interface::Device, "Vendor"@),
    {
        self.read("Vendor")
    }

    /// The device colorspace string.
    pub fn colorspace(&self) -> (read: PropertyRead<String>)
        ensures
            read.describes(self@, Interface::Device, "Colorspace"@),
    {
        self.read("Colorspace")
    }

    /// The device kind.
    pub fn kind(&self) -> (read: PropertyRead<Kind>)
        ensures
            read.describes(self@, Interface::Device, "Kind"@),
    {
        self.read("Kind")
    }

    /// The device id string.
    pub fn device_id(&self) -> (read: PropertyRead<String>)
        ensures
            read.describes(self@, Interface::Device, "DeviceId"@),
    {
        self.read("DeviceId")
    }

    /// The profiles associated with this device.
    ///
    /// Profiles are returned even if the device is disabled or is profiling,
    /// and clients should not assume that the first profile in this array
    /// should be applied.
    pub fn profiles(&self) -> (read: PropertyRead<Vec<Profile>>)
        ensures
            read.describes(self@, Interface::Device, "Profiles"@),
    {
        self.read("Profiles")
    }

    /// The mode of the device, e.g. `virtual`, `physical` or `unknown`.
    ///
    /// Virtual devices are not tied to a specific item of hardware and can
    /// represent abstract devices such as "Boots Photo Lab".
    ///
    /// Physical devices correspond to a connected device that cannot be
    /// removed by client software.
    pub fn mode(&self) -> (read: PropertyRead<Mode>)
        ensures
            read.describes(self@, Interface::Device, "Mode"@),
    {
        self.read("Mode")
    }

    /// The qualifier format for the device, e.g.
    /// `ColorModel.OutputMode.OutputResolution`.
    pub fn format(&self) -> (read: PropertyRead<String>)
        ensures
            read.describes(self@, Interface::Device, "Format"@),
    {
        self.read("Format")
    }

    /// The scope of the device.
    pub fn scope(&self) -> (read: PropertyRead<Scope>)
        ensures
            read.describes(self@, Interface::Device, "Scope"@),
    {
        self.read("Scope")
    }

    /// The user ID of the account that created the device.
    pub fn owner(&self) -> (read: PropertyRead<u32>)
        ensures
            read.describes(self@, Interface::Device, "Owner"@),
    {
        self.read("Owner")
    }

    /// If the device is enabled.
    ///
    /// Devices are enabled by default until `SetEnabled` is called with
    /// `false`. The state is the same for all users and outlasts a reboot.
    pub fn enabled(&self) -> (read: PropertyRead<bool>)
        ensures
            read.describes(self@, Interface::Device, "Enabled"@),
    {
        self.read("Enabled")
    }

    /// The seat that the device belongs to, or an empty string for none or
    /// unknown.
    pub fn seat(&self) -> (read: PropertyRead<String>)
        ensures
            read.describes(self@, Interface::Device, "Seat"@),
    {
        self.read("Seat")
    }

    /// If the device is embedded into the hardware itself, for example the
    /// internal webcam or laptop screen.
    pub fn embedded(&self) -> (read: PropertyRead<bool>)
        ensures
            read.describes(self@, Interface::Device, "Embedded"@),
    {
        self.read("Embedded")
    }

    /// The metadata for the device, which may include optional keys like
    /// `XRANDR_name`.
    pub fn metadata(&self) -> (read: PropertyRead<Dict<String>>)
        ensures
            read.describes(self@, Interface::Device, "Metadata"@),
    {
        self.read("Metadata")
    }

    /// The bus names of all the clients that have inhibited the device for
    /// profiling, e.g. `[ ":1.99", ":1.109" ]`.
    pub fn profiling_inhibitors(&self) -> (read: PropertyRead<Vec<String>>)
        ensures
            read.describes(self@, Interface::Device, "ProfilingInhibitors"@),
    {
        self.read("ProfilingInhibitors")
    }
}

} // verus!
