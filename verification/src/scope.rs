//! The scope of a device or a profile.

use vstd::prelude::*;
use vstd::std_specs::convert::FromSpecImpl;
use crate::message::{sole, take_sole, Decode, Error};
use crate::text::same_text;
use crate::value::{Value, ValueView};

verus! {

/// How long a device or a profile lives, and who can see it.
#[derive(Debug, Clone, Copy, PartialEq, Eq, Structural)]
pub enum Scope {
    Normal,
    Temp,
    Disk,
}

impl Scope {
    /// The string that stands for the scope on the wire.
    pub open spec fn wire(self) -> Seq<char> {
        match self {
            Scope::Normal => "normal"@,
            Scope::Temp => "temp"@,
            Scope::Disk => "disk"@,
        }
    }

    /// The scope that a string from the wire stands for. A string that names
    /// no scope stands for [`Scope::Normal`].
    pub open spec fn parse(text: Seq<char>) -> Scope {
        if text == "temp"@ {
            Scope::Temp
        } else if text == "disk"@ {
            Scope::Disk
        } else {
            Scope::Normal
        }
    }

    /// The string that stands for the scope on the wire.
    pub fn as_str(self) -> (text: &'static str)
        ensures
            text@ == self.wire(),
    {
        match self {
            Scope::Normal => "normal",
            Scope::Temp => "temp",
            Scope::Disk => "disk",
        }
    }

    /// The scope as a value for the body of a message.
    pub fn to_value(self) -> (value: Value)
        ensures
            value.deep_view() == ValueView::Str(self.wire()),
    {
        Value::Str(self.as_str().to_owned())
    }

    /// Decoding the string that encodes a scope gives the scope back, be it
    /// the string itself or a body that holds the string.
    pub proof fn lemma_round_trip(scope: Scope)
        ensures
            Scope::parse(scope.wire()) == scope,
            <Scope as Decode>::shape(seq![ValueView::Str(scope.wire())]) == Some(scope),
    {
        reveal_strlit("normal");
        reveal_strlit("temp");
        reveal_strlit("disk");
        assert("normal"@.len() == 6);
        assert("temp"@[0] == 't');
        assert("disk"@[0] == 'd');
    }

    /// A string that encodes no scope decodes to the default,
    /// [`Scope::Normal`].
    pub proof fn lemma_unrecognized(text: Seq<char>)
        requires
            forall|scope: Scope| text != #[trigger] scope.wire(),
        ensures
            Scope::parse(text) == Scope::Normal,
    {
        assert(text != Scope::Temp.wire());
        assert(text != Scope::Disk.wire());
    }
}

impl Default for Scope {
    fn default() -> (scope: Scope)
        ensures
            scope == Scope::Normal,
    {
        Scope::Normal
    }
}

impl<'a> From<&'a str> for Scope {
    /// Decodes a string from the wire; see [`Scope::parse`].
    fn from(text: &'a str) -> (scope: Scope) {
        if same_text(text, "temp") {
            Scope::Temp
        } else if same_text(text, "disk") {
            Scope::Disk
        } else {
            Scope::Normal
        }
    }
}

impl<'a> FromSpecImpl<&'a str> for Scope {
    open spec fn obeys_from_spec() -> bool {
        true
    }

    open spec fn from_spec(text: &'a str) -> Scope {
        Scope::parse(text@)
    }
}

impl DeepView for Scope {
    type V = Scope;

    open spec fn deep_view(&self) -> Scope {
        *self
    }
}

impl Decode for Scope {
    /// A scope is read from a body that holds one string.
    open spec fn shape(body: Seq<ValueView>) -> Option<Scope> {
        match sole(body) {
            Some(ValueView::Str(text)) => Some(Scope::parse(text)),
            _ => None,
        }
    }

    fn from_body(body: Vec<Value>) -> (decoded: Result<Scope, Error>) {
        match take_sole(body) {
            Some(Value::Str(text)) => Ok(Scope::from(text.as_str())),
            _ => Err(Error::Decode),
        }
    }
}

} // verus!
