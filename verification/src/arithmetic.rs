//! Operands and type-checked arithmetic over values in memory.

use vstd::prelude::*;

use crate::error::ExecutionError;
use crate::memory::{cell_at, Address, Memory};
use crate::primitive::Primitive;

verus! {

/// An operation that can be applied to values in memory.
#[derive(Debug, Clone, Copy, PartialEq, Eq, Structural)]
pub enum Operation {
    /// Addition.
    Add,
    /// Multiplication.
    Mul,
    /// Subtraction.
    Sub,
    /// Division.
    Div,
}

/// The one-character sign of an operation.
pub open spec fn symbol_spec(op: Operation) -> Seq<char> {
    match op {
        Operation::Add => seq!['+'],
        Operation::Mul => seq!['*'],
        Operation::Sub => seq!['-'],
        Operation::Div => seq!['/'],
    }
}

impl Operation {
    /// The sign this operation is written with.
    pub fn symbol(&self) -> (r: String)
        ensures
            r@ == symbol_spec(*self),
    {
        let s: String = match self {
            Operation::Add => "+".to_owned(),
            Operation::Mul => "*".to_owned(),
            Operation::Sub => "-".to_owned(),
            Operation::Div => "/".to_owned(),
        };
        proof {
            reveal_strlit("+");
            reveal_strlit("*");
            reveal_strlit("-");
            reveal_strlit("/");
            assert(s@ =~= symbol_spec(*self));
        }
        s
    }
}

/// Argument to an operation: a literal value, or a reference to an address
/// which contains some value.
#[derive(Debug, Clone, PartialEq)]
pub enum Operand {
    /// A literal value.
    Literal(Primitive),
    /// An address which contains some literal value.
    Reference(Address),
}

impl Operand {
    /// What evaluating this operand against memory `m` yields: a literal
    /// evaluates to itself; a reference evaluates to the value stored at its
    /// address, and fails when that cell was never set.
    pub open spec fn eval_spec(&self, m: Seq<Option<Primitive>>) -> Result<
        Primitive,
        ExecutionError,
    > {
        match self {
            Operand::Literal(v) => Ok(*v),
            Operand::Reference(addr) => match cell_at(m, addr.0 as int) {
                Some(v) => Ok(v),
                None => Err(ExecutionError::MemoryEmpty { addr: *addr }),
            },
        }
    }

    /// Evaluate the operand, getting its value.
    pub fn eval(&self, mem: &Memory) -> (r: Result<Primitive, ExecutionError>)
        ensures
            r == self.eval_spec(mem@),
    {
        match self {
            Operand::Literal(v) => Ok(v.duplicate()),
            Operand::Reference(addr) => {
                if addr.0 < mem.len() {
                    match mem.get(addr) {
                        Some(v) => Ok(v.duplicate()),
                        None => Err(ExecutionError::MemoryEmpty { addr: *addr }),
                    }
                } else {
                    Err(ExecutionError::MemoryEmpty { addr: *addr })
                }
            },
        }
    }
}

/// The error raised when `op` cannot combine the operand values `a` and `b`.
pub open spec fn cannot_apply(op: Operation, a: Primitive, b: Primitive) -> ExecutionError {
    ExecutionError::CannotApplyOperation { op, operand0: a, operand1: b }
}

/// What applying `op` to two evaluated operand values yields.
///
/// Only same-kind integer operands combine; there is no implicit promotion,
/// so a float-kind or non-numeric operand, or two operands of different
/// kinds, cannot be combined.  Division truncates, and division by zero, as
/// well as a result outside the operand kind's range, is reported as
/// [`ExecutionError::CannotApplyOperation`] carrying the operation and both
/// operand values.
pub open spec fn apply_spec(op: Operation, a: Primitive, b: Primitive) -> Result<
    Primitive,
    ExecutionError,
> {
    match (a, b) {
        (Primitive::UInt(x), Primitive::UInt(y)) => {
            let computed = match op {
                Operation::Add => x.checked_add(y),
                Operation::Mul => x.checked_mul(y),
                Operation::Sub => x.checked_sub(y),
                Operation::Div => x.checked_div(y),
            };
            match computed {
                Some(v) => Ok(Primitive::UInt(v)),
                None => Err(cannot_apply(op, a, b)),
            }
        },
        (Primitive::Int(x), Primitive::Int(y)) => {
            let computed = match op {
                Operation::Add => x.checked_add(y),
                Operation::Mul => x.checked_mul(y),
                Operation::Sub => x.checked_sub(y),
                Operation::Div => x.checked_div(y),
            };
            match computed {
                Some(v) => Ok(Primitive::Int(v)),
                None => Err(cannot_apply(op, a, b)),
            }
        },
        _ => Err(cannot_apply(op, a, b)),
    }
}

/// Arithmetic to perform on values in memory: an operation and its two
/// operands.
#[derive(Debug, Clone, PartialEq)]
pub struct Arithmetic {
    /// What to do.
    pub operation: Operation,
    /// The left operand.
    pub operand0: Operand,
    /// The right operand.
    pub operand1: Operand,
}

impl Arithmetic {
    /// What calculating against memory `m` yields: both operands are
    /// evaluated, left first, and the operation is applied to the two
    /// values.
    pub open spec fn calc_spec(&self, m: Seq<Option<Primitive>>) -> Result<
        Primitive,
        ExecutionError,
    > {
        match self.operand0.eval_spec(m) {
            Err(e) => Err(e),
            Ok(a) => match self.operand1.eval_spec(m) {
                Err(e) => Err(e),
                Ok(b) => apply_spec(self.operation, a, b),
            },
        }
    }

    /// Evaluate the operands and apply the operation.
    pub fn calculate(&self, mem: &Memory) -> (r: Result<Primitive, ExecutionError>)
        ensures
            r == self.calc_spec(mem@),
    {
        let a = match self.operand0.eval(mem) {
            Ok(v) => v,
            Err(e) => {
                return Err(e);
            },
        };
        let b = match self.operand1.eval(mem) {
            Ok(v) => v,
            Err(e) => {
                return Err(e);
            },
        };
        match (&a, &b) {
            (Primitive::UInt(x), Primitive::UInt(y)) => {
                let computed = match self.operation {
                    Operation::Add => x.checked_add(*y),
                    Operation::Mul => x.checked_mul(*y),
                    Operation::Sub => x.checked_sub(*y),
                    Operation::Div => x.checked_div(*y),
                };
                match computed {
                    Some(v) => Ok(Primitive::UInt(v)),
                    None => Err(
                        ExecutionError::CannotApplyOperation {
                            op: self.operation,
                            operand0: a,
                            operand1: b,
                        },
                    ),
                }
            },
            (Primitive::Int(x), Primitive::Int(y)) => {
                let computed = match self.operation {
                    Operation::Add => x.checked_add(*y),
                    Operation::Mul => x.checked_mul(*y),
                    Operation::Sub => x.checked_sub(*y),
                    Operation::Div => x.checked_div(*y),
                };
                match computed {
                    Some(v) => Ok(Primitive::Int(v)),
                    None => Err(
                        ExecutionError::CannotApplyOperation {
                            op: self.operation,
                            operand0: a,
                            operand1: b,
                        },
                    ),
                }
            },
            _ => Err(
                ExecutionError::CannotApplyOperation { op: self.operation, operand0: a, operand1: b },
            ),
        }
    }
}

} // verus!
