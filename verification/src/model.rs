//! The application model around the worker: a `Person` with a validated id.
//!
//! An `Id` is a non-blank string value. The invariant is enforced wherever
//! an id is created: from a borrowed string, or from an optional request
//! parameter. The type exposes no public data, so an `Id` value cannot be
//! mutated; the underlying value is reached through an immutable borrow.

use vstd::prelude::*;

use crate::errors::Error;

verus! {

/// A person's id: a non-blank string value.
#[derive(Debug, PartialEq)]
pub struct Id(String);

impl View for Id {
    type V = Seq<char>;

    closed spec fn view(&self) -> Seq<char> {
        self.0@
    }
}

impl Id {
    /// The invariant every `Id` value satisfies: the value is not blank.
    pub open spec fn wf(self) -> bool {
        self@.len() > 0
    }

    /// Maybe convert a borrowed string into an `Id`: the string `""` is
    /// rejected with `NotAnId`; any other string is cloned into an id.
    pub fn try_from(id: &str) -> (r: Result<Id, Error>)
        ensures
            r is Ok <==> id@.len() > 0,
            r matches Ok(v) ==> v@ == id@ && v.wf(),
            r matches Err(e) ==> e == Error::NotAnId,
    {
        if id.is_empty() {
            Err(Error::NotAnId)
        } else {
            Ok(Id(id.to_owned()))
        }
    }

    /// Maybe convert an optional request parameter into an `Id`: an absent
    /// parameter counts as blank, so it is rejected exactly like `""`.
    pub fn from_param(param: Option<&str>) -> (r: Result<Id, Error>)
        ensures
            r matches Ok(v) ==> (param matches Some(s) && s@.len() > 0 && v@ == s@ && v.wf()),
            (param matches Some(s) && s@.len() > 0) ==> r is Ok,
            r matches Err(e) ==> e == Error::NotAnId,
    {
        match param {
            Some(s) => Id::try_from(s),
            None => Err(Error::NotAnId),
        }
    }

    /// An immutable reference to the underlying id value as a string.
    pub fn as_ref(&self) -> (r: &str)
        ensures
            r@ == self@,
    {
        self.0.as_str()
    }
}

/// A person: the basic application model. A person has an `id` and a
/// `name`, which is just an owned string.
#[derive(Debug, PartialEq)]
pub struct Person {
    pub id: Id,
    pub name: String,
}

impl Person {
    /// Put an id and a name together into a person, as a request handler
    /// does after validating the id and reading the name from the request
    /// body.
    pub fn new(id: Id, name: String) -> (r: Person)
        ensures
            r.id == id,
            r.name == name,
    {
        Person { id, name }
    }
}

/// Unwrap the data a store returned for a person: absent data means the
/// requested person doesn't exist, surfaced as `PersonNotFound`.
pub fn found_person(data: Option<String>) -> (r: Result<String, Error>)
    ensures
        r is Ok <==> data is Some,
        r matches Ok(v) ==> data == Some(v),
        data is None ==> r == Err::<String, Error>(Error::PersonNotFound),
{
    match data {
        Some(s) => Ok(s),
        None => Err(Error::PersonNotFound),
    }
}

} // verus!
