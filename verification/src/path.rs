//! Object paths: the strings that name a remote object on the bus.

use vstd::prelude::*;

verus! {

/// The path of the single object that implements the manager interface.
pub const ROOT: &'static str = "/org/freedesktop/ColorManager";

/// Whether `c` may occur in an object path: `/`, `_`, an ASCII digit or an
/// ASCII letter.
pub open spec fn is_path_char(c: char) -> bool {
    let n = c as u32;
    ||| c == '/'
    ||| c == '_'
    ||| 0x30 <= n <= 0x39
    ||| 0x41 <= n <= 0x5a
    ||| 0x61 <= n <= 0x7a
}

/// The grammar of object paths: at least one character, the first one `/`,
/// only characters of [`is_path_char`], no `//`, and no `/` at the end of a
/// path longer than `/` itself.
pub open spec fn is_object_path(s: Seq<char>) -> bool {
    &&& s.len() > 0
    &&& s[0] == '/'
    &&& forall|i: int| 0 <= i < s.len() ==> is_path_char(#[trigger] s[i])
    &&& forall|i: int| 0 < i < s.len() ==> !(s[i - 1] == '/' && #[trigger] s[i] == '/')
    &&& s.len() > 1 ==> s[s.len() - 1] != '/'
}

/// Calls `zvariant::ObjectPath::try_from` on `text` and reports whether it
/// accepted the string.
///
/// Trusted: the parser of `zvariant` is taken to accept exactly the strings
/// of [`is_object_path`]. It rejects the empty string, a first byte other
/// than `/`, two `/` in a row, a `/` at the end of a string longer than one
/// byte, and every byte that is neither an ASCII letter or digit nor `_` nor
/// `/`; it accepts everything else.
#[verifier::external_body]
fn parses_as_object_path(text: &str) -> (ok: bool)
    ensures
        ok == is_object_path(text@),
{
    zbus::zvariant::ObjectPath::try_from(text).is_ok()
}

/// [`ROOT`] follows the grammar of object paths.
pub proof fn lemma_root_is_object_path()
    ensures
        is_object_path(ROOT@),
{
    reveal_strlit("/org/freedesktop/ColorManager");
}

/// A string that has been checked against the grammar of object paths.
#[derive(Debug, PartialEq, Eq)]
pub struct ObjectPath {
    text: String,
}

impl ObjectPath {
    #[verifier::type_invariant]
    spec fn well_formed(self) -> bool {
        is_object_path(self.text@)
    }

    /// Checks `text` and keeps a copy of it if it is an object path.
    pub fn parse(text: &str) -> (parsed: Option<ObjectPath>)
        ensures
            is_object_path(text@) ==> parsed is Some && parsed->0@ == text@,
            !is_object_path(text@) ==> parsed is None,
    {
        if parses_as_object_path(text) {
            Some(ObjectPath { text: text.to_owned() })
        } else {
            None
        }
    }

    /// The path of the manager object, [`ROOT`].
    pub fn root() -> (path: ObjectPath)
        ensures
            path@ == ROOT@,
    {
        proof {
            lemma_root_is_object_path();
        }
        ObjectPath { text: ROOT.to_owned() }
    }

    /// The path as a string, which is always an object path.
    pub fn as_str(&self) -> (text: &str)
        ensures
            text@ == self@,
            is_object_path(text@),
    {
        proof {
            use_type_invariant(self);
        }
        self.text.as_str()
    }
}

impl Clone for ObjectPath {
    fn clone(&self) -> (copy: ObjectPath)
        ensures
            copy@ == self@,
    {
        proof {
            use_type_invariant(self);
        }
        ObjectPath { text: self.text.clone() }
    }
}

impl View for ObjectPath {
    type V = Seq<char>;

    closed spec fn view(&self) -> Seq<char> {
        self.text@
    }
}

impl DeepView for ObjectPath {
    type V = Seq<char>;

    open spec fn deep_view(&self) -> Seq<char> {
        self@
    }
}

} // verus!
