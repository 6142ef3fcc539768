//! Plain values that describe an element of the user interface: its
//! identifier, its size and its width.

use vstd::prelude::*;

verus! {

/// The identifier of an element.
#[derive(Debug, PartialEq, Eq)]
pub enum ElementId {
    /// A name.
    Name(String),
    /// A number.
    Integer(u64),
    /// A name and a number: the name of a group and an index in it.
    NamedInteger(String, u64),
}

/// What an [`ElementId`] stands for.
pub enum ElementIdModel {
    Name(Seq<char>),
    Integer(u64),
    NamedInteger(Seq<char>, u64),
}

impl View for ElementId {
    type V = ElementIdModel;

    open spec fn view(&self) -> ElementIdModel {
        match self {
            ElementId::Name(name) => ElementIdModel::Name(name@),
            ElementId::Integer(number) => ElementIdModel::Integer(*number),
            ElementId::NamedInteger(name, number) => ElementIdModel::NamedInteger(name@, *number),
        }
    }
}

impl Clone for ElementId {
    fn clone(&self) -> (out: Self)
        ensures
            out == *self,
    {
        match self {
            ElementId::Name(name) => ElementId::Name(name.clone()),
            ElementId::Integer(number) => ElementId::Integer(*number),
            ElementId::NamedInteger(name, number) => ElementId::NamedInteger(name.clone(), *number),
        }
    }
}

impl ElementId {
    /// The identifier with the given name.
    pub fn named(name: &str) -> (out: ElementId)
        ensures
            out@ == ElementIdModel::Name(name@),
    {
        ElementId::Name(name.to_owned())
    }

    /// The identifier of the member `index` of the group `name`.
    pub fn indexed(name: &str, index: u64) -> (out: ElementId)
        ensures
            out@ == ElementIdModel::NamedInteger(name@, index),
    {
        ElementId::NamedInteger(name.to_owned(), index)
    }
}

/// The size of a control.
#[derive(Clone, Copy, Debug, PartialEq, Eq)]
pub enum Size {
    XSmall,
    Small,
    Medium,
    Large,
}

impl Default for Size {
    fn default() -> (out: Size)
        ensures
            out == Size::Medium,
    {
        Size::Medium
    }
}

/// The width of a control.
#[derive(Clone, Copy, Debug, PartialEq, Eq)]
pub enum Length {
    /// As wide as the content asks for.
    Auto,
    /// A fixed number of pixels.
    Definite(u32),
}

} // verus!
