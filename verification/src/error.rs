//! The closed set of failures raised while executing a plan.

use vstd::prelude::*;

verus! {

/// The kind of a [`crate::Primitive`], named by decode errors.
#[derive(Debug, Clone, Copy, PartialEq, Eq, Structural)]
pub enum ValueKind {
    /// An unsigned integer cell.
    UInt,
    /// A signed integer cell.
    Int,
    /// A float cell.
    Float,
    /// A boolean cell.
    Bool,
    /// A text cell.
    Text,
}

/// Errors that can occur when executing a plan.  All are fatal to the current
/// `execute` call: execution halts at the first error, and the error value is
/// the complete diagnostic.
#[derive(Debug, Clone, PartialEq)]
pub enum ExecutionError {
    /// A reference operand pointed at a cell that was never set.
    MemoryEmpty {
        /// The address that held no value.
        addr: crate::memory::Address,
    },
    /// Arithmetic was attempted on operand kinds the operation cannot
    /// combine: a non-numeric or float-kind operand, operands of two
    /// different kinds, division by zero, or a result outside the operand
    /// kind's range.
    CannotApplyOperation {
        /// The operation that was attempted.
        op: crate::arithmetic::Operation,
        /// The left operand value it was applied to.
        operand0: crate::primitive::Primitive,
        /// The right operand value it was applied to.
        operand1: crate::primitive::Primitive,
    },
    /// A decode saw a present cell of the wrong kind, or one whose value is
    /// not a valid encoding of the expected field.
    MemoryWrongType {
        /// The kind the decoder expected the cell to hold.
        expected: ValueKind,
        /// The value the cell actually held.
        actual: crate::primitive::Primitive,
    },
    /// A decode ran out of input cells before completing: either the input
    /// sequence was shorter than the value requires, or a needed cell was
    /// empty.
    MemoryWrongSize {
        /// How many cells the failing decoder required.
        expected: usize,
    },
    /// An api request named an endpoint the dispatcher does not recognize.
    UnrecognizedEndpoint {
        /// The endpoint name that was attempted.
        name: String,
    },
}

} // verus!
