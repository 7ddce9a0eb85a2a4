//! Requests to the daemon and what comes back for them.
//!
//! A request is a description of one message: a method call, the read of a
//! property, or the wait for a signal. Whoever owns the connection sends
//! it, and hands what came back to the request as an [`Outcome`]; the request
//! turns the outcome into a typed result.

use vstd::prelude::*;
use vstd::string::StringExecFns;
use core::marker::PhantomData;
use crate::dict::Dict;
use crate::path::ObjectPath;
use crate::value::{Value, ValueView};

verus! {

/// The bus name of the daemon, to which every request is addressed.
pub const DESTINATION: &'static str = "org.freedesktop.ColorManager";

/// The interfaces of the daemon.
#[derive(Debug, Clone, Copy, PartialEq, Eq, Structural)]
pub enum Interface {
    Manager,
    Device,
    Profile,
    Sensor,
}

impl Interface {
    /// The name of the interface on the wire.
    pub open spec fn wire(self) -> Seq<char> {
        match self {
            Interface::Manager => "org.freedesktop.ColorManager"@,
            Interface::Device => "org.freedesktop.ColorManager.Device"@,
            Interface::Profile => "org.freedesktop.ColorManager.Profile"@,
            Interface::Sensor => "org.freedesktop.ColorManager.Sensor"@,
        }
    }

    /// The name of the interface on the wire.
    pub fn name(self) -> (name: &'static str)
        ensures
            name@ == self.wire(),
    {
        match self {
            Interface::Manager => "org.freedesktop.ColorManager",
            Interface::Device => "org.freedesktop.ColorManager.Device",
            Interface::Profile => "org.freedesktop.ColorManager.Profile",
            Interface::Sensor => "org.freedesktop.ColorManager.Sensor",
        }
    }
}

/// Why a request did not give a result.
#[derive(Debug, PartialEq, Eq)]
pub enum Error {
    /// The session with the bus could not be set up or has failed.
    Connection,
    /// The daemon answered the call with an error. A lookup that finds
    /// nothing ends this way.
    RemoteCallFailure { name: String, message: String },
    /// The stream of a signal ended before the signal was emitted.
    NoResponse,
    /// The payload does not have the shape that the request expects.
    Decode,
}

impl Error {
    /// A sentence that says what went wrong.
    pub open spec fn text(self) -> Seq<char> {
        match self {
            Error::Connection => "the connection to the bus failed"@,
            Error::RemoteCallFailure { name, message } => name@ + ": "@ + message@,
            Error::NoResponse => "No response"@,
            Error::Decode => "the payload has an unexpected shape"@,
        }
    }

    /// A sentence that says what went wrong. For an error of the daemon it
    /// is the name of the error, a colon and the text that came with it.
    pub fn describe(&self) -> (text: String)
        ensures
            text@ == self.text(),
    {
        match self {
            Error::Connection => "the connection to the bus failed".to_owned(),
            Error::RemoteCallFailure { name, message } => {
                let mut text = name.clone();
                text.append(": ");
                text.append(message.as_str());
                text
            },
            Error::NoResponse => "No response".to_owned(),
            Error::Decode => "the payload has an unexpected shape".to_owned(),
        }
    }
}

/// What came back for a request.
#[derive(Debug, PartialEq, Eq)]
pub enum Outcome {
    /// The fields of the body of the reply to a call, the value of the
    /// property that was read, or the fields of the body of the signal.
    Body(Vec<Value>),
    /// The daemon answered with the error `name` and the text `message`.
    Failure { name: String, message: String },
    /// The stream of the signal ended without an event.
    Closed,
    /// The connection failed before anything came back.
    Disconnected,
}

/// The only value of `body`, if it has exactly one.
pub open spec fn sole(body: Seq<ValueView>) -> Option<ValueView> {
    if body.len() == 1 {
        Some(body[0])
    } else {
        None
    }
}

/// Takes the only value out of `body`, if it has exactly one.
pub fn take_sole(body: Vec<Value>) -> (taken: Option<Value>)
    ensures
        taken.deep_view() == sole(body.deep_view()),
{
    let mut body = body;
    if body.len() == 1 {
        body.pop()
    } else {
        None
    }
}

/// The arguments of a call that takes none.
pub fn no_args() -> (args: Vec<Value>)
    ensures
        args.deep_view() == Seq::<ValueView>::empty(),
{
    let args: Vec<Value> = Vec::new();
    assert(args.deep_view() =~= Seq::<ValueView>::empty());
    args
}

/// The arguments of a call that takes `first` alone.
pub fn one_arg(first: Value) -> (args: Vec<Value>)
    ensures
        args.deep_view() == seq![first.deep_view()],
{
    let mut args: Vec<Value> = Vec::new();
    args.push(first);
    assert(args.deep_view() =~= seq![first.deep_view()]);
    args
}

/// The arguments of a call that takes `first` and `second`.
pub fn two_args(first: Value, second: Value) -> (args: Vec<Value>)
    ensures
        args.deep_view() == seq![first.deep_view(), second.deep_view()],
{
    let mut args: Vec<Value> = Vec::new();
    args.push(first);
    args.push(second);
    assert(args.deep_view() =~= seq![first.deep_view(), second.deep_view()]);
    args
}

/// The arguments of a call that takes `first`, `second`, `third` and
/// `fourth`.
pub fn four_args(first: Value, second: Value, third: Value, fourth: Value) -> (args: Vec<Value>)
    ensures
        args.deep_view() == seq![
            first.deep_view(),
            second.deep_view(),
            third.deep_view(),
            fourth.deep_view(),
        ],
{
    let mut args: Vec<Value> = Vec::new();
    args.push(first);
    args.push(second);
    args.push(third);
    args.push(fourth);
    assert(args.deep_view() =~= seq![
        first.deep_view(),
        second.deep_view(),
        third.deep_view(),
        fourth.deep_view(),
    ]);
    args
}

/// A type of result that the body of a message can be turned into.
pub trait Decode: Sized + DeepView {
    /// What `body` means as a value of this type, if it has the shape of
    /// one.
    spec fn shape(body: Seq<ValueView>) -> Option<<Self as DeepView>::V>;

    /// Turns `body` into a value of this type, or fails with
    /// [`Error::Decode`] where it does not have the shape of one.
    fn from_body(body: Vec<Value>) -> (decoded: Result<Self, Error>)
        ensures
            match decoded {
                Ok(value) => Self::shape(body.deep_view()) == Some(value.deep_view()),
                Err(error) => Self::shape(body.deep_view()) is None && error == Error::Decode,
            },
    ;
}

/// The result that `outcome` stands for when a value of type `R` is
/// expected: the decoded body, or the error that belongs to the way in which
/// the request failed.
pub open spec fn expected<R: Decode>(outcome: Outcome) -> Result<<R as DeepView>::V, Error> {
    match outcome {
        Outcome::Body(body) => match R::shape(body.deep_view()) {
            Some(value) => Ok(value),
            None => Err(Error::Decode),
        },
        Outcome::Failure { name, message } => Err(Error::RemoteCallFailure { name, message }),
        Outcome::Closed => Err(Error::NoResponse),
        Outcome::Disconnected => Err(Error::Connection),
    }
}

/// An error that the daemon reports is the result of the request, whatever
/// value was expected: a lookup that finds nothing gives no proxy.
pub proof fn lemma_failure_gives_no_value<R: Decode>(name: String, message: String)
    ensures
        expected::<R>(Outcome::Failure { name, message }) == Err::<<R as DeepView>::V, Error>(
            Error::RemoteCallFailure { name, message },
        ),
{
}

/// A stream that ends before the signal was emitted gives
/// [`Error::NoResponse`], whatever payload was expected.
pub proof fn lemma_closed_gives_no_response<R: Decode>()
    ensures
        expected::<R>(Outcome::Closed) == Err::<<R as DeepView>::V, Error>(Error::NoResponse),
{
}

/// Whether `result` is the result that `wanted` describes.
pub open spec fn matches_expected<R: Decode>(
    result: Result<R, Error>,
    wanted: Result<<R as DeepView>::V, Error>,
) -> bool {
    match result {
        Ok(value) => wanted == Ok::<<R as DeepView>::V, Error>(value.deep_view()),
        Err(error) => wanted == Err::<<R as DeepView>::V, Error>(error),
    }
}

/// Turns what came back for a request into the result of the request.
pub fn settle<R: Decode>(outcome: Outcome) -> (result: Result<R, Error>)
    ensures
        matches_expected(result, expected::<R>(outcome)),
{
    match outcome {
        Outcome::Body(body) => R::from_body(body),
        Outcome::Failure { name, message } => Err(Error::RemoteCallFailure { name, message }),
        Outcome::Closed => Err(Error::NoResponse),
        Outcome::Disconnected => Err(Error::Connection),
    }
}

/// A method call: `member` of `interface` on the object at `path`, with the
/// arguments `args`. The reply is expected to hold an `R`.
#[derive(Debug)]
pub struct MethodCall<R> {
    pub path: ObjectPath,
    pub interface: Interface,
    pub member: &'static str,
    pub args: Vec<Value>,
    pub reply: PhantomData<R>,
}

impl<R: Decode> MethodCall<R> {
    /// Whether this is the call of `member` of `interface` on the object at
    /// `path` with the arguments `args`.
    pub open spec fn describes(
        &self,
        path: Seq<char>,
        interface: Interface,
        member: Seq<char>,
        args: Seq<ValueView>,
    ) -> bool {
        &&& self.path@ == path
        &&& self.interface == interface
        &&& self.member@ == member
        &&& self.args.deep_view() == args
    }

    /// Describes the call of `member` of `interface` on the object at `path`
    /// with the arguments `args`.
    pub fn new(
        path: ObjectPath,
        interface: Interface,
        member: &'static str,
        args: Vec<Value>,
    ) -> (call: MethodCall<R>)
        ensures
            call.describes(path@, interface, member@, args.deep_view()),
    {
        MethodCall { path, interface, member, args, reply: PhantomData }
    }

    /// The bus name to send the call to.
    pub fn destination(&self) -> (name: &'static str)
        ensures
            name@ == DESTINATION@,
    {
        DESTINATION
    }

    /// The result of the call, given what came back for it.
    pub fn finish(&self, outcome: Outcome) -> (result: Result<R, Error>)
        ensures
            matches_expected(result, expected::<R>(outcome)),
    {
        settle(outcome)
    }
}

/// The read of the property `name` of `interface` on the object at `path`.
/// The property is expected to hold an `R`.
#[derive(Debug)]
pub struct PropertyRead<R> {
    pub path: ObjectPath,
    pub interface: Interface,
    pub name: &'static str,
    pub value: PhantomData<R>,
}

impl<R: Decode> PropertyRead<R> {
    /// Whether this is the read of the property `name` of `interface` on
    /// the object at `path`.
    pub open spec fn describes(
        &self,
        path: Seq<char>,
        interface: Interface,
        name: Seq<char>,
    ) -> bool {
        &&& self.path@ == path
        &&& self.interface == interface
        &&& self.name@ == name
    }

    /// Describes the read of the property `name` of `interface` on the
    /// object at `path`.
    pub fn new(path: ObjectPath, interface: Interface, name: &'static str) -> (read: PropertyRead<
        R,
    >)
        ensures
            read.describes(path@, interface, name@),
    {
        PropertyRead { path, interface, name, value: PhantomData }
    }

    /// The bus name to send the read to.
    pub fn destination(&self) -> (name: &'static str)
        ensures
            name@ == DESTINATION@,
    {
        DESTINATION
    }

    /// The value of the property, given what came back for the read. The
    /// body of the outcome holds the value of the property and nothing
    /// else.
    pub fn finish(&self, outcome: Outcome) -> (result: Result<R, Error>)
        ensures
            matches_expected(result, expected::<R>(outcome)),
    {
        settle(outcome)
    }
}

/// The wait for the signal `member` of `interface` from the object at
/// `path`. Its payload is expected to hold an `R`.
#[derive(Debug)]
pub struct SignalMatch<R> {
    pub path: ObjectPath,
    pub interface: Interface,
    pub member: &'static str,
    pub payload: PhantomData<R>,
}

impl<R: Decode> SignalMatch<R> {
    /// Whether this is the wait for the signal `member` of `interface` from
    /// the object at `path`.
    pub open spec fn describes(
        &self,
        path: Seq<char>,
        interface: Interface,
        member: Seq<char>,
    ) -> bool {
        &&& self.path@ == path
        &&& self.interface == interface
        &&& self.member@ == member
    }

    /// Describes the wait for the signal `member` of `interface` from the
    /// object at `path`.
    pub fn new(path: ObjectPath, interface: Interface, member: &'static str) -> (wait: SignalMatch<
        R,
    >)
        ensures
            wait.describes(path@, interface, member@),
    {
        SignalMatch { path, interface, member, payload: PhantomData }
    }

    /// The bus name whose signals are waited for.
    pub fn sender(&self) -> (name: &'static str)
        ensures
            name@ == DESTINATION@,
    {
        DESTINATION
    }

    /// The result of the wait, given the first event that arrived after the
    /// subscription, or [`Outcome::Closed`] where the stream ended without
    /// one.
    pub fn finish(&self, outcome: Outcome) -> (result: Result<R, Error>)
        ensures
            matches_expected(result, expected::<R>(outcome)),
    {
        settle(outcome)
    }
}

impl Decode for () {
    /// A result without content is read from any body.
    open spec fn shape(body: Seq<ValueView>) -> Option<()> {
        Some(())
    }

    fn from_body(body: Vec<Value>) -> (decoded: Result<(), Error>) {
        Ok(())
    }
}

impl Decode for bool {
    open spec fn shape(body: Seq<ValueView>) -> Option<bool> {
        match sole(body) {
            Some(ValueView::Bool(b)) => Some(b),
            _ => None,
        }
    }

    fn from_body(body: Vec<Value>) -> (decoded: Result<bool, Error>) {
        match take_sole(body) {
            Some(Value::Bool(b)) => Ok(b),
            _ => Err(Error::Decode),
        }
    }
}

impl Decode for u32 {
    open spec fn shape(body: Seq<ValueView>) -> Option<u32> {
        match sole(body) {
            Some(ValueView::U32(n)) => Some(n),
            _ => None,
        }
    }

    fn from_body(body: Vec<Value>) -> (decoded: Result<u32, Error>) {
        match take_sole(body) {
            Some(Value::U32(n)) => Ok(n),
            _ => Err(Error::Decode),
        }
    }
}

impl Decode for u64 {
    open spec fn shape(body: Seq<ValueView>) -> Option<u64> {
        match sole(body) {
            Some(ValueView::U64(n)) => Some(n),
            _ => None,
        }
    }

    fn from_body(body: Vec<Value>) -> (decoded: Result<u64, Error>) {
        match take_sole(body) {
            Some(Value::U64(n)) => Ok(n),
            _ => Err(Error::Decode),
        }
    }
}

impl Decode for String {
    open spec fn shape(body: Seq<ValueView>) -> Option<Seq<char>> {
        match sole(body) {
            Some(ValueView::Str(s)) => Some(s),
            _ => None,
        }
    }

    fn from_body(body: Vec<Value>) -> (decoded: Result<String, Error>) {
        match take_sole(body) {
            Some(Value::Str(s)) => Ok(s),
            _ => Err(Error::Decode),
        }
    }
}

impl Decode for Vec<String> {
    open spec fn shape(body: Seq<ValueView>) -> Option<Seq<Seq<char>>> {
        match sole(body) {
            Some(ValueView::StrArray(v)) => Some(v),
            _ => None,
        }
    }

    fn from_body(body: Vec<Value>) -> (decoded: Result<Vec<String>, Error>) {
        match take_sole(body) {
            Some(Value::StrArray(v)) => Ok(v),
            _ => Err(Error::Decode),
        }
    }
}

impl Decode for Dict<String> {
    open spec fn shape(body: Seq<ValueView>) -> Option<Map<Seq<char>, Seq<char>>> {
        match sole(body) {
            Some(ValueView::Dict(d)) => Some(d),
            _ => None,
        }
    }

    fn from_body(body: Vec<Value>) -> (decoded: Result<Dict<String>, Error>) {
        match take_sole(body) {
            Some(Value::Dict(d)) => Ok(d),
            _ => Err(Error::Decode),
        }
    }
}

} // verus!
