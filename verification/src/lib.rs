//! A register-machine runtime that executes a linear plan of instructions
//! against a flat, address-addressable memory.
//!
//! A plan is an ordered list of [`Instruction`]s: each one stores a literal
//! value, performs arithmetic on stored values, or issues a call to an
//! external dispatcher whose result is written back into memory.  Structured
//! data is representable as sequences of memory cells through the
//! [`Value`] encoding protocol.

pub mod arithmetic;
pub mod datetime;
pub mod error;
pub mod instruction;
pub mod memory;
pub mod primitive;
pub mod shared;
pub mod value;

pub use arithmetic::{Arithmetic, Operand, Operation};
pub use error::{ExecutionError, ValueKind};
pub use instruction::{execute, execute_with_outcomes, DispatchOutcome, Endpoint, Instruction};
pub use memory::{Address, Memory};
pub use primitive::Primitive;
pub use value::Value;
