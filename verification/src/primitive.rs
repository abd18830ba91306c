//! The tagged value stored in one memory cell.

use vstd::prelude::*;

verus! {

/// The content of a single memory cell: a discriminated value whose kinds are
/// mutually distinguishable.  An unsigned integer is not interchangeable with
/// a signed integer or a float without explicit conversion; equality is
/// structural.
///
/// A float is carried as its IEEE 754 bit pattern and is never interpreted by
/// the core: it moves through memory opaquely, and arithmetic does not
/// combine float-kind values.
#[derive(Debug, Clone, PartialEq)]
pub enum Primitive {
    /// An unsigned integer.
    UInt(u64),
    /// A signed integer.
    Int(i64),
    /// A double-precision float, carried as its bit pattern.
    Float(u64),
    /// A boolean.
    Bool(bool),
    /// A text string.
    Text(String),
}

impl Primitive {
    /// The kind tag of this value, used by decode errors to name the
    /// expected and actual kinds.
    pub open spec fn kind(&self) -> crate::error::ValueKind {
        match self {
            Primitive::UInt(_) => crate::error::ValueKind::UInt,
            Primitive::Int(_) => crate::error::ValueKind::Int,
            Primitive::Float(_) => crate::error::ValueKind::Float,
            Primitive::Bool(_) => crate::error::ValueKind::Bool,
            Primitive::Text(_) => crate::error::ValueKind::Text,
        }
    }

    /// Executable twin of [`Primitive::kind`].
    pub fn kind_of(&self) -> (k: crate::error::ValueKind)
        ensures
            k == self.kind(),
    {
        match self {
            Primitive::UInt(_) => crate::error::ValueKind::UInt,
            Primitive::Int(_) => crate::error::ValueKind::Int,
            Primitive::Float(_) => crate::error::ValueKind::Float,
            Primitive::Bool(_) => crate::error::ValueKind::Bool,
            Primitive::Text(_) => crate::error::ValueKind::Text,
        }
    }

    /// Copy this value out of a borrowed cell.
    pub fn duplicate(&self) -> (r: Primitive)
        ensures
            r == *self,
    {
        match self {
            Primitive::UInt(x) => Primitive::UInt(*x),
            Primitive::Int(x) => Primitive::Int(*x),
            Primitive::Float(x) => Primitive::Float(*x),
            Primitive::Bool(x) => Primitive::Bool(*x),
            Primitive::Text(s) => Primitive::Text(s.clone()),
        }
    }
}

} // verus!
