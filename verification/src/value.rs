//! The host's dynamic values.

use vstd::prelude::*;

verus! {

/// A value as the host hands it over.
///
/// Only `Text` carries content that the boundary reads. Of the other shapes
/// only the shape is kept: nothing is ever derived from what they hold.
#[derive(Debug, Clone, PartialEq, Eq)]
pub enum HostValue {
    Undefined,
    Null,
    Boolean(bool),
    Number,
    Text(String),
    Object,
}

/// The mathematical content of a [`HostValue`].
pub enum Dynamic {
    Undefined,
    Null,
    Boolean(bool),
    Number,
    Text(Seq<char>),
    Object,
}

impl View for HostValue {
    type V = Dynamic;

    open spec fn view(&self) -> Dynamic {
        match self {
            HostValue::Undefined => Dynamic::Undefined,
            HostValue::Null => Dynamic::Null,
            HostValue::Boolean(b) => Dynamic::Boolean(*b),
            HostValue::Number => Dynamic::Number,
            HostValue::Text(s) => Dynamic::Text(s@),
            HostValue::Object => Dynamic::Object,
        }
    }
}

} // verus!
