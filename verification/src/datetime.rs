//! A local point in time, carried as its timestamp.

use vstd::prelude::*;

use crate::error::{ExecutionError, ValueKind};
use crate::primitive::Primitive;
use crate::value::Value;

verus! {

/// A local date and time, carried as the count of nanoseconds since the
/// Unix epoch.  The runtime stores and moves the timestamp; rendering it as
/// a calendar date is the business of the surrounding application.
#[derive(Debug, Clone, Copy, PartialEq, Eq, Hash, Structural)]
pub struct DateTimeLocal {
    /// Nanoseconds since the Unix epoch.
    pub timestamp_nanos: i64,
}

impl Value for DateTimeLocal {
    /// A datetime occupies one signed-integer cell holding its timestamp.
    open spec fn enc(&self) -> Seq<Primitive> {
        seq![Primitive::Int(self.timestamp_nanos)]
    }

    open spec fn dec(values: Seq<Option<Primitive>>) -> Result<
        (DateTimeLocal, int),
        ExecutionError,
    > {
        if values.len() < 1 {
            Err(ExecutionError::MemoryWrongSize { expected: 1 })
        } else {
            match values[0] {
                Some(Primitive::Int(n)) => Ok((DateTimeLocal { timestamp_nanos: n }, 1)),
                Some(other) => Err(
                    ExecutionError::MemoryWrongType { expected: ValueKind::Int, actual: other },
                ),
                None => Err(ExecutionError::MemoryWrongSize { expected: 1 }),
            }
        }
    }

    fn into_parts(self) -> (r: Vec<Primitive>) {
        let ghost v = self;
        let mut parts = Vec::new();
        parts.push(Primitive::Int(self.timestamp_nanos));
        proof {
            assert(parts@ =~= v.enc());
        }
        parts
    }

    fn from_parts(values: &[Option<Primitive>]) -> (r: Result<
        (DateTimeLocal, usize),
        ExecutionError,
    >) {
        if values.len() < 1 {
            Err(ExecutionError::MemoryWrongSize { expected: 1 })
        } else {
            match &values[0] {
                Some(Primitive::Int(n)) => Ok((DateTimeLocal { timestamp_nanos: *n }, 1)),
                Some(other) => Err(
                    ExecutionError::MemoryWrongType {
                        expected: ValueKind::Int,
                        actual: other.duplicate(),
                    },
                ),
                None => Err(ExecutionError::MemoryWrongSize { expected: 1 }),
            }
        }
    }

    proof fn lemma_round_trip(v: DateTimeLocal, values: Seq<Option<Primitive>>) {
    }
}

} // verus!
