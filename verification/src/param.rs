//! Named parameters of a texture operator.

use crate::scalar::{Scalar, Vec4};
use vstd::prelude::*;

verus! {

/// The name under which a parameter is shown and looked up.
#[derive(Clone, Debug)]
pub struct ParamName(pub String);

impl View for ParamName {
    type V = Seq<char>;

    open spec fn view(&self) -> Seq<char> {
        self.0@
    }
}

impl ParamName {
    /// The name as a string slice.
    pub fn as_str(&self) -> (s: &str)
        ensures
            s@ == self@,
    {
        self.0.as_str()
    }
}

/// What a parameter holds.
#[derive(Clone, Copy, Debug, PartialEq, Eq, Structural)]
pub enum ParamValue {
    /// A single number.
    F32(Scalar),
    /// An unsigned integer, such as a mode selector.
    U32(u32),
    /// Four numbers, such as a colour.
    Vec4(Vec4),
}

/// Position of a parameter among those of its operator.
#[derive(Clone, Copy, Debug, PartialEq, Eq, Structural)]
pub struct ParamOrder(pub u32);

/// Everything that makes up one parameter.
#[derive(Clone, Debug)]
pub struct ParamBundle {
    pub name: ParamName,
    pub value: ParamValue,
    pub order: ParamOrder,
}

impl ParamBundle {
    /// A numeric parameter with the given name, value and position.
    pub fn scalar(name: &str, value: Scalar, order: u32) -> (p: ParamBundle)
        ensures
            p.name@ == name@,
            p.value == ParamValue::F32(value),
            p.order == ParamOrder(order),
    {
        ParamBundle {
            name: ParamName(name.to_owned()),
            value: ParamValue::F32(value),
            order: ParamOrder(order),
        }
    }
}

} // verus!
