//! What the proxies for devices, profiles and sensors have in common: each
//! stands for the remote object at one path.

use vstd::prelude::*;
use crate::message::{expected, sole, take_sole, Decode, Error, Outcome};
use crate::path::{is_object_path, ObjectPath};
use crate::value::{Value, ValueView};

verus! {

/// A proxy for the remote object at one path. Its view is that path.
pub trait Entity: Sized + DeepView<V = Seq<char>> {
    /// The proxy for the object at `path`.
    fn at(path: ObjectPath) -> (entity: Self)
        ensures
            entity.deep_view() == path@,
    ;
}

/// Whether every string of `paths` is an object path.
pub open spec fn all_object_paths(paths: Seq<Seq<char>>) -> bool {
    forall|i: int| 0 <= i < paths.len() ==> is_object_path(#[trigger] paths[i])
}

/// The path that `body` refers to, if it holds one object path and nothing
/// else.
pub open spec fn path_shape(body: Seq<ValueView>) -> Option<Seq<char>> {
    match sole(body) {
        Some(ValueView::Path(path)) => if is_object_path(path) {
            Some(path)
        } else {
            None
        },
        _ => None,
    }
}

/// The paths that `body` refers to, if it holds one array of object paths
/// and nothing else.
pub open spec fn paths_shape(body: Seq<ValueView>) -> Option<Seq<Seq<char>>> {
    match sole(body) {
        Some(ValueView::PathArray(paths)) => if all_object_paths(paths) {
            Some(paths)
        } else {
            None
        },
        _ => None,
    }
}

/// The proxy for the object at the path `text`, or [`Error::Decode`] where
/// `text` is no object path.
pub fn entity_from_path<E: Entity>(text: &str) -> (made: Result<E, Error>)
    ensures
        match made {
            Ok(entity) => is_object_path(text@) && entity.deep_view() == text@,
            Err(error) => !is_object_path(text@) && error == Error::Decode,
        },
{
    match ObjectPath::parse(text) {
        Some(path) => Ok(E::at(path)),
        None => Err(Error::Decode),
    }
}

/// One proxy for each path of `paths`, in their order, or
/// [`Error::Decode`] where one of them is no object path.
pub fn entities_from_paths<E: Entity>(paths: Vec<String>) -> (made: Result<Vec<E>, Error>)
    ensures
        match made {
            Ok(entities) => all_object_paths(paths.deep_view()) && entities.deep_view()
                == paths.deep_view(),
            Err(error) => !all_object_paths(paths.deep_view()) && error == Error::Decode,
        },
{
    let mut entities: Vec<E> = Vec::with_capacity(paths.len());
    let mut i: usize = 0;
    while i < paths.len()
        invariant
            i <= paths@.len(),
            entities@.len() == i,
            forall|j: int| 0 <= j < i ==> is_object_path(#[trigger] paths.deep_view()[j]),
            forall|j: int| 0 <= j < i ==> (#[trigger] entities@[j]).deep_view() == paths@[j]@,
        decreases paths.len() - i,
    {
        match ObjectPath::parse(paths[i].as_str()) {
            Some(path) => {
                entities.push(E::at(path));
            },
            None => {
                assert(!is_object_path(paths.deep_view()[i as int]));
                return Err(Error::Decode);
            },
        }
        i = i + 1;
    }
    assert(entities.deep_view() =~= paths.deep_view());
    Ok(entities)
}

/// A reference to the object at an object path is read back as that path.
pub proof fn lemma_reference_round_trip(path: Seq<char>)
    requires
        is_object_path(path),
    ensures
        path_shape(seq![ValueView::Path(path)]) == Some(path),
{
}

/// A path that is no object path gives no proxy.
pub proof fn lemma_invalid_path_gives_no_proxy<E: Entity>(body: Vec<Value>, path: Seq<char>)
    requires
        body.deep_view() == seq![ValueView::Path(path)],
        !is_object_path(path),
    ensures
        expected::<E>(Outcome::Body(body)) == Err::<Seq<char>, Error>(Error::Decode),
{
}

/// A listing of no remote objects is an empty collection, not an error.
pub proof fn lemma_empty_listing<E: Entity>(body: Vec<Value>)
    requires
        body.deep_view() == seq![ValueView::PathArray(Seq::empty())],
    ensures
        expected::<Vec<E>>(Outcome::Body(body)) == Ok::<Seq<Seq<char>>, Error>(Seq::empty()),
{
}

/// A listing keeps the paths in the order in which the daemon reported
/// them.
pub proof fn lemma_listing_keeps_order<E: Entity>(body: Vec<Value>, paths: Seq<Seq<char>>)
    requires
        body.deep_view() == seq![ValueView::PathArray(paths)],
        all_object_paths(paths),
    ensures
        expected::<Vec<E>>(Outcome::Body(body)) == Ok::<Seq<Seq<char>>, Error>(paths),
{
}

impl<E: Entity> Decode for E {
    /// A proxy is read from a body that holds one object path.
    open spec fn shape(body: Seq<ValueView>) -> Option<Seq<char>> {
        path_shape(body)
    }

    fn from_body(body: Vec<Value>) -> (decoded: Result<E, Error>) {
        match take_sole(body) {
            Some(Value::Path(text)) => entity_from_path(text.as_str()),
            _ => Err(Error::Decode),
        }
    }
}

impl<E: Entity> Decode for Vec<E> {
    /// A list of proxies is read from a body that holds one array of object
    /// paths, and keeps the order of the array.
    open spec fn shape(body: Seq<ValueView>) -> Option<Seq<Seq<char>>> {
        paths_shape(body)
    }

    fn from_body(body: Vec<Value>) -> (decoded: Result<Vec<E>, Error>) {
        match take_sole(body) {
            Some(Value::PathArray(paths)) => entities_from_paths(paths),
            _ => Err(Error::Decode),
        }
    }
}

} // verus!
