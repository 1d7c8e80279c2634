//! The identity of an element.
//!
//! An identity names one element for as long as it is on screen. It is the
//! key under which a window keeps what has to outlive a single rendering.

use vstd::prelude::*;
use vstd::std_specs::convert::FromSpecImpl;

verus! {

/// A stable name for one element.
#[derive(Debug, PartialEq, Eq)]
pub enum ElementId {
    Integer(u64),
    Name(String),
    NamedInteger(String, u64),
}

/// What an [`ElementId`] says: the same variants over mathematical strings.
pub enum ElementIdView {
    Integer(u64),
    Name(Seq<char>),
    NamedInteger(Seq<char>, u64),
}

impl View for ElementId {
    type V = ElementIdView;

    open spec fn view(&self) -> ElementIdView {
        match *self {
            ElementId::Integer(n) => ElementIdView::Integer(n),
            ElementId::Name(name) => ElementIdView::Name(name@),
            ElementId::NamedInteger(name, n) => ElementIdView::NamedInteger(name@, n),
        }
    }
}

impl ElementId {
    /// Tells whether two identities name the same element.
    pub fn same(&self, other: &ElementId) -> (yes: bool)
        ensures
            yes == (self@ == other@),
    {
        match self {
            ElementId::Integer(a) => match other {
                ElementId::Integer(b) => *a == *b,
                _ => false,
            },
            ElementId::Name(a) => match other {
                ElementId::Name(b) => *a == *b,
                _ => false,
            },
            ElementId::NamedInteger(a, m) => match other {
                ElementId::NamedInteger(b, n) => *m == *n && *a == *b,
                _ => false,
            },
        }
    }
}

impl Clone for ElementId {
    fn clone(&self) -> (copy: ElementId)
        ensures
            copy@ == self@,
    {
        match self {
            ElementId::Integer(n) => ElementId::Integer(*n),
            ElementId::Name(name) => ElementId::Name(name.clone()),
            ElementId::NamedInteger(name, n) => ElementId::NamedInteger(name.clone(), *n),
        }
    }
}

/// A bare number.
impl From<u64> for ElementId {
    fn from(id: u64) -> (element: ElementId) {
        ElementId::Integer(id)
    }
}

impl FromSpecImpl<u64> for ElementId {
    open spec fn obeys_from_spec() -> bool {
        true
    }

    open spec fn from_spec(id: u64) -> ElementId {
        ElementId::Integer(id)
    }
}

/// A name.
impl From<String> for ElementId {
    fn from(name: String) -> (element: ElementId) {
        ElementId::Name(name)
    }
}

impl FromSpecImpl<String> for ElementId {
    open spec fn obeys_from_spec() -> bool {
        true
    }

    open spec fn from_spec(name: String) -> ElementId {
        ElementId::Name(name)
    }
}

/// A name given as a slice. The `String` that is made from it is known by
/// its characters alone, so this conversion is stated on the view.
impl From<&str> for ElementId {
    fn from(name: &str) -> (element: ElementId)
        ensures
            element@ == ElementIdView::Name(name@),
    {
        ElementId::Name(name.to_owned())
    }
}

impl FromSpecImpl<&str> for ElementId {
    open spec fn obeys_from_spec() -> bool {
        false
    }

    open spec fn from_spec(name: &str) -> ElementId {
        arbitrary()
    }
}

/// A name and a number, as for the rows of a list.
impl From<(String, u64)> for ElementId {
    fn from(pair: (String, u64)) -> (element: ElementId) {
        ElementId::NamedInteger(pair.0, pair.1)
    }
}

impl FromSpecImpl<(String, u64)> for ElementId {
    open spec fn obeys_from_spec() -> bool {
        true
    }

    open spec fn from_spec(pair: (String, u64)) -> ElementId {
        ElementId::NamedInteger(pair.0, pair.1)
    }
}

} // verus!
