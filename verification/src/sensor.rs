//! Sensors: the proxy for an `org.freedesktop.ColorManager.Sensor` object,
//! and the enumerations of its interface.

use vstd::prelude::*;
use vstd::std_specs::convert::FromSpecImpl;
use crate::dict::Dict;
use crate::entity::{all_object_paths, entities_from_paths, entity_from_path, Entity};
use crate::message::{
    no_args, one_arg, sole, take_sole, Decode, Error, Interface, MethodCall, PropertyRead,
    SignalMatch,
};
use crate::path::{is_object_path, ObjectPath};
use crate::text::same_text;
use crate::value::{OptionValue, Value, ValueView};

verus! {

/// The operating mode of a sensor.
#[derive(Debug, Clone, Copy, PartialEq, Eq, Structural)]
pub enum Mode {
    Ambient,
    Printer,
    Unknown,
}

impl Mode {
    /// The string that stands for the mode on the wire.
    pub open spec fn wire(self) -> Seq<char> {
        match self {
            Mode::Ambient => "ambient"@,
            Mode::Printer => "printer"@,
            Mode::Unknown => "unknown"@,
        }
    }

    /// The mode that a string from the wire stands for. A string that names
    /// no mode stands for [`Mode::Unknown`].
    pub open spec fn parse(text: Seq<char>) -> Mode {
        if text == "ambient"@ {
            Mode::Ambient
        } else if text == "printer"@ {
            Mode::Printer
        } else {
            Mode::Unknown
        }
    }

    /// The string that stands for the mode on the wire.
    pub fn as_str(self) -> (text: &'static str)
        ensures
            text@ == self.wire(),
    {
        match self {
            Mode::Ambient => "ambient",
            Mode::Printer => "printer",
            Mode::Unknown => "unknown",
        }
    }

    /// The mode as a value for the body of a message.
    pub fn to_value(self) -> (value: Value)
        ensures
            value.deep_view() == ValueView::Str(self.wire()),
    {
        Value::text(self.as_str())
    }

    /// Decoding the string that encodes a mode gives the mode back, be it
    /// the string itself or a body that holds the string.
    pub proof fn lemma_round_trip(mode: Mode)
        ensures
            Mode::parse(mode.wire()) == mode,
            <Mode as Decode>::shape(seq![ValueView::Str(mode.wire())]) == Some(mode),
    {
        reveal_strlit("ambient");
        reveal_strlit("printer");
        reveal_strlit("unknown");
        assert("ambient"@[0] == 'a');
        assert("printer"@[0] == 'p');
        assert("unknown"@[0] == 'u');
    }

    /// A string that encodes no mode decodes to the fallback,
    /// [`Mode::Unknown`].
    pub proof fn lemma_unrecognized(text: Seq<char>)
        requires
            forall|mode: Mode| text != #[trigger] mode.wire(),
        ensures
            Mode::parse(text) == Mode::Unknown,
    {
        assert(text != Mode::Ambient.wire());
        assert(text != Mode::Printer.wire());
    }
}

impl<'a> From<&'a str> for Mode {
    /// Decodes a string from the wire; see [`Mode::parse`].
    fn from(text: &'a str) -> (mode: Mode) {
        if same_text(text, "ambient") {
            Mode::Ambient
        } else if same_text(text, "printer") {
            Mode::Printer
        } else {
            Mode::Unknown
        }
    }
}

impl<'a> FromSpecImpl<&'a str> for Mode {
    open spec fn obeys_from_spec() -> bool {
        true
    }

    open spec fn from_spec(text: &'a str) -> Mode {
        Mode::parse(text@)
    }
}

impl DeepView for Mode {
    type V = Mode;

    open spec fn deep_view(&self) -> Mode {
        *self
    }
}

impl Decode for Mode {
    /// A mode is read from a body that holds one string.
    open spec fn shape(body: Seq<ValueView>) -> Option<Mode> {
        match sole(body) {
            Some(ValueView::Str(text)) => Some(Mode::parse(text)),
            _ => None,
        }
    }

    fn from_body(body: Vec<Value>) -> (decoded: Result<Mode, Error>) {
        match take_sole(body) {
            Some(Value::Str(text)) => Ok(Mode::from(text.as_str())),
            _ => Err(Error::Decode),
        }
    }
}

/// What a sensor is asked to measure.
#[derive(Debug, Clone, Copy, PartialEq, Eq, Structural)]
pub enum Capability {
    Crt,
    Ambient,
    Lcd,
    Led,
    Projector,
}

impl Capability {
    /// The string that stands for the capability on the wire.
    pub open spec fn wire(self) -> Seq<char> {
        match self {
            Capability::Crt => "crt"@,
            Capability::Ambient => "ambient"@,
            Capability::Lcd => "lcd"@,
            Capability::Led => "led"@,
            Capability::Projector => "projector"@,
        }
    }

    /// The capability that a string from the wire stands for, if it names
    /// one.
    pub open spec fn parse(text: Seq<char>) -> Option<Capability> {
        if text == "crt"@ {
            Some(Capability::Crt)
        } else if text == "ambient"@ {
            Some(Capability::Ambient)
        } else if text == "lcd"@ {
            Some(Capability::Lcd)
        } else if text == "led"@ {
            Some(Capability::Led)
        } else if text == "projector"@ {
            Some(Capability::Projector)
        } else {
            None
        }
    }

    /// The string that stands for the capability on the wire.
    pub fn as_str(self) -> (text: &'static str)
        ensures
            text@ == self.wire(),
    {
        match self {
            Capability::Crt => "crt",
            Capability::Ambient => "ambient",
            Capability::Lcd => "lcd",
            Capability::Led => "led",
            Capability::Projector => "projector",
        }
    }

    /// Decodes a string from the wire; see [`Capability::parse`]. The
    /// interface names no capability to fall back to, so a string that
    /// names none gives `None`.
    pub fn from_wire(text: &str) -> (capability: Option<Capability>)
        ensures
            capability == Capability::parse(text@),
    {
        if same_text(text, "crt") {
            Some(Capability::Crt)
        } else if same_text(text, "ambient") {
            Some(Capability::Ambient)
        } else if same_text(text, "lcd") {
            Some(Capability::Lcd)
        } else if same_text(text, "led") {
            Some(Capability::Led)
        } else if same_text(text, "projector") {
            Some(Capability::Projector)
        } else {
            None
        }
    }

    /// The capability as a value for the body of a message.
    pub fn to_value(self) -> (value: Value)
        ensures
            value.deep_view() == ValueView::Str(self.wire()),
    {
        Value::text(self.as_str())
    }

    /// Decoding the string that encodes a capability gives the capability
    /// back.
    pub proof fn lemma_round_trip(capability: Capability)
        ensures
            Capability::parse(capability.wire()) == Some(capability),
    {
        reveal_strlit("crt");
        reveal_strlit("ambient");
        reveal_strlit("lcd");
        reveal_strlit("led");
        reveal_strlit("projector");
        assert("crt"@[0] == 'c');
        assert("ambient"@[0] == 'a');
        assert("lcd"@[1] == 'c');
        assert("led"@[1] == 'e');
        assert("lcd"@[0] == 'l');
        assert("led"@[0] == 'l');
        assert("projector"@[0] == 'p');
    }

    /// A string that encodes no capability decodes to nothing.
    pub proof fn lemma_unrecognized(text: Seq<char>)
        requires
            forall|capability: Capability| text != #[trigger] capability.wire(),
        ensures
            Capability::parse(text) is None,
    {
        assert(text != Capability::Crt.wire());
        assert(text != Capability::Ambient.wire());
        assert(text != Capability::Lcd.wire());
        assert(text != Capability::Led.wire());
        assert(text != Capability::Projector.wire());
    }
}

/// A color sample: three coordinates, each a double given by the bits of its
/// IEEE 754 representation.
pub type Sample = (u64, u64, u64);

/// A spectrum: two calibration values and the spectral samples, each a
/// double given by the bits of its IEEE 754 representation.
pub type Spectrum = (u64, u64, Vec<u64>);

impl Decode for (u64, u64, u64) {
    /// A sample is read from a body that holds three doubles.
    open spec fn shape(body: Seq<ValueView>) -> Option<(u64, u64, u64)> {
        if body.len() == 3 {
            match (body[0], body[1], body[2]) {
                (ValueView::Double(x), ValueView::Double(y), ValueView::Double(z)) => Some(
                    (x, y, z),
                ),
                _ => None,
            }
        } else {
            None
        }
    }

    fn from_body(body: Vec<Value>) -> (decoded: Result<(u64, u64, u64), Error>) {
        let mut body = body;
        if body.len() != 3 {
            return Err(Error::Decode);
        }
        let ghost fields = body.deep_view();
        let third = body.pop();
        let second = body.pop();
        let first = body.pop();
        proof {
            assert(first.deep_view() == Some(fields[0]));
            assert(second.deep_view() == Some(fields[1]));
            assert(third.deep_view() == Some(fields[2]));
        }
        match (first, second, third) {
            (Some(Value::Double(x)), Some(Value::Double(y)), Some(Value::Double(z))) => Ok(
                (x, y, z),
            ),
            _ => Err(Error::Decode),
        }
    }
}

impl Decode for (u64, u64, Vec<u64>) {
    /// A spectrum is read from a body that holds two doubles and an array
    /// of doubles.
    open spec fn shape(body: Seq<ValueView>) -> Option<(u64, u64, Seq<u64>)> {
        if body.len() == 3 {
            match (body[0], body[1], body[2]) {
                (
                    ValueView::Double(start),
                    ValueView::Double(end),
                    ValueView::DoubleArray(samples),
                ) => Some((start, end, samples)),
                _ => None,
            }
        } else {
            None
        }
    }

    fn from_body(body: Vec<Value>) -> (decoded: Result<(u64, u64, Vec<u64>), Error>) {
        let mut body = body;
        if body.len() != 3 {
            return Err(Error::Decode);
        }
        let ghost fields = body.deep_view();
        let third = body.pop();
        let second = body.pop();
        let first = body.pop();
        proof {
            assert(first.deep_view() == Some(fields[0]));
            assert(second.deep_view() == Some(fields[1]));
            assert(third.deep_view() == Some(fields[2]));
        }
        match (first, second, third) {
            (
                Some(Value::Double(start)),
                Some(Value::Double(end)),
                Some(Value::DoubleArray(samples)),
            ) => {
                assert(samples.deep_view() =~= samples@);
                Ok((start, end, samples))
            },
            _ => Err(Error::Decode),
        }
    }
}

/// A proxy for one sensor of the daemon. It holds nothing but the path of
/// the remote object, and its view is that path.
#[derive(Debug, PartialEq, Eq)]
pub struct Sensor {
    path: ObjectPath,
}

impl View for Sensor {
    type V = Seq<char>;

    closed spec fn view(&self) -> Seq<char> {
        self.path@
    }
}

impl DeepView for Sensor {
    type V = Seq<char>;

    open spec fn deep_view(&self) -> Seq<char> {
        self@
    }
}

impl Clone for Sensor {
    fn clone(&self) -> (copy: Sensor)
        ensures
            copy@ == self@,
    {
        Sensor { path: self.path.clone() }
    }
}

impl Entity for Sensor {
    fn at(path: ObjectPath) -> (sensor: Sensor) {
        Sensor { path }
    }
}

impl Sensor {
    /// The proxy for the sensor at `object_path`. Fails with
    /// [`Error::Decode`] where `object_path` is no object path.
    pub fn new(object_path: &str) -> (made: Result<Sensor, Error>)
        ensures
            match made {
                Ok(sensor) => is_object_path(object_path@) && sensor@ == object_path@,
                Err(error) => !is_object_path(object_path@) && error == Error::Decode,
            },
    {
        entity_from_path(object_path)
    }

    /// One proxy for each path of `paths`, in their order. Fails with
    /// [`Error::Decode`] where one of them is no object path.
    pub fn from_paths(paths: Vec<String>) -> (made: Result<Vec<Sensor>, Error>)
        ensures
            match made {
                Ok(sensors) => all_object_paths(paths.deep_view()) && sensors.deep_view()
                    == paths.deep_view(),
                Err(error) => !all_object_paths(paths.deep_view()) && error == Error::Decode,
            },
    {
        entities_from_paths(paths)
    }

    /// The path of the remote object.
    pub fn inner(&self) -> (path: &ObjectPath)
        ensures
            path@ == self@,
    {
        &self.path
    }

    /// The sensor as an argument of a call: a reference to the remote
    /// object, not its properties.
    pub fn to_value(&self) -> (value: Value)
        ensures
            value.deep_view() == ValueView::Path(self@),
    {
        Value::reference(&self.path)
    }

    fn call<R: Decode>(&self, member: &'static str, args: Vec<Value>) -> (call: MethodCall<R>)
        ensures
            call.describes(self@, Interface::Sensor, member@, args.deep_view()),
    {
        MethodCall::new(self.path.clone(), Interface::Sensor, member, args)
    }

    fn read<R: Decode>(&self, name: &'static str) -> (read: PropertyRead<R>)
        ensures
            read.describes(self@, Interface::Sensor, name@),
    {
        PropertyRead::new(self.path.clone(), Interface::Sensor, name)
    }

    /// Locks the sensor for use by an application.
    ///
    /// The lock is a lease: the daemon removes it when the client that
    /// holds it leaves the bus without calling `Unlock`.
    pub fn lock(&self) -> (call: MethodCall<()>)
        ensures
            call.describes(self@, Interface::Sensor, "Lock"@, Seq::empty()),
    {
        self.call("Lock", no_args())
    }

    /// Unlocks the sensor for use by other applications.
    pub fn unlock(&self) -> (call: MethodCall<()>)
        ensures
            call.describes(self@, Interface::Sensor, "Unlock"@, Seq::empty()),
    {
        self.call("Unlock", no_args())
    }

    /// Gets a color sample using the sensor.
    pub fn sample(&self, capability: Capability) -> (call: MethodCall<Sample>)
        ensures
            call.describes(
                self@,
                Interface::Sensor,
                "GetSample"@,
                seq![ValueView::Str(capability.wire())],
            ),
    {
        self.call("GetSample", one_arg(capability.to_value()))
    }

    /// Gets a color spectrum using the sensor.
    pub fn spectrum(&self, capability: Capability) -> (call: MethodCall<Spectrum>)
        ensures
            call.describes(
                self@,
                Interface::Sensor,
                "GetSpectrum"@,
                seq![ValueView::Str(capability.wire())],
            ),
    {
        self.call("GetSpectrum", one_arg(capability.to_value()))
    }

    /// Sets one or multiple options on the sensor.
    pub fn set_options(&self, values: Dict<OptionValue>) -> (call: MethodCall<()>)
        ensures
            call.describes(
                self@,
                Interface::Sensor,
                "SetOptions"@,
                seq![ValueView::Options(values.deep_view())],
            ),
    {
        self.call("SetOptions", one_arg(Value::Options(values)))
    }

    /// A button on the sensor has been pressed.
    pub fn button_pressed(&self) -> (wait: SignalMatch<()>)
        ensures
            wait.describes(self@, Interface::Sensor, "ButtonPressed"@),
    {
        SignalMatch::new(self.path.clone(), Interface::Sensor, "ButtonPressed")
    }

    /// The sensor id string.
    pub fn sensor_id(&self) -> (read: PropertyRead<String>)
        ensures
            read.describes(self@, Interface::Sensor, "SensorId"@),
    {
        self.read("SensorId")
    }

    /// The kind of the sensor, e.g. `colormunki`.
    pub fn kind(&self) -> (read: PropertyRead<String>)
        ensures
            read.describes(self@, Interface::Sensor, "Kind"@),
    {
        self.read("Kind")
    }

    /// The state of the sensor, e.g. `starting`, `idle` or `measuring`.
    pub fn state(&self) -> (read: PropertyRead<String>)
        ensures
            read.describes(self@, Interface::Sensor, "State"@),
    {
        self.read("State")
    }

    /// The operating mode of the sensor, e.g. ambient, printer or unknown.
    ///
    /// On some devices, a sensor has to be set to a specific position before
    /// a reading can be taken. This property should be set to the current
    /// device mode.
    pub fn mode(&self) -> (read: PropertyRead<Mode>)
        ensures
            read.describes(self@, Interface::Sensor, "Mode"@),
    {
        self.read("Mode")
    }

    /// The sensor serial number, e.g. `012345678a`.
    pub fn serial(&self) -> (read: PropertyRead<String>)
        ensures
            read.describes(self@, Interface::Sensor, "Serial"@),
    {
        self.read("Serial")
    }

    /// The sensor model, e.g. `ColorMunki`.
    pub fn model(&self) -> (read: PropertyRead<String>)
        ensures
            read.describes(self@, Interface::Sensor, "Model"@),
    {
        self.read("Model")
    }

    /// The sensor vendor, e.g. `XRite`.
    pub fn vendor(&self) -> (read: PropertyRead<String>)
        ensures
            read.describes(self@, Interface::Sensor, "Vendor"@),
    {
        self.read("Vendor")
    }

    /// If the sensor is supported with a native driver, which does not
    /// require additional tools such as argyllcms.
    pub fn native(&self) -> (read: PropertyRead<bool>)
        ensures
            read.describes(self@, Interface::Sensor, "Native"@),
    {
        self.read("Native")
    }

    /// If the sensor is locked for use by colord.
    pub fn locked(&self) -> (read: PropertyRead<bool>)
        ensures
            read.describes(self@, Interface::Sensor, "Locked"@),
    {
        self.read("Locked")
    }

    /// The capabilities of the sensor, e.g. `['display', 'printer',
    /// 'projector', 'spot']`.
    pub fn capabilities(&self) -> (read: PropertyRead<Vec<String>>)
        ensures
            read.describes(self@, Interface::Sensor, "Capabilities"@),
    {
        self.read("Capabilities")
    }

    /// The metadata for the sensor, which may include optional keys like
    /// `AttachImage`.
    pub fn metadata(&self) -> (read: PropertyRead<Dict<String>>)
        ensures
            read.describes(self@, Interface::Sensor, "Metadata"@),
    {
        self.read("Metadata")
    }
}

} // verus!
