//! The composite encoding protocol: flattening a structured value into an
//! ordered sequence of tagged values, and reconstructing it from a prefix of
//! an ordered sequence of optional tagged values.

use vstd::prelude::*;

use crate::error::ExecutionError;
use crate::primitive::Primitive;

verus! {

/// A value that can be written to and read back from consecutive memory
/// cells.
///
/// Encoding is total.  Decoding consumes a prefix of the input left to
/// right, one field at a time, and reports the reconstructed value together
/// with exactly how many input cells were consumed, so that a composite of
/// composites can let each field consume a variable number of cells.  It
/// fails with [`ExecutionError::MemoryWrongSize`] when the input holds fewer
/// cells than the value requires (an empty cell where a value is needed
/// counts as missing), and with [`ExecutionError::MemoryWrongType`] when a
/// present cell holds the wrong kind of value.
///
/// The protocol covers product types: a struct encodes each field in
/// declared order and decodes them in the same order, threading the
/// remaining cells forward; a type with no fields encodes to the empty
/// sequence and decodes by consuming zero cells.  Sum types are not given
/// encodings by this protocol.
pub trait Value: Sized {
    /// The cell sequence this value flattens to.
    spec fn enc(&self) -> Seq<Primitive>;

    /// What decoding reconstructs from a prefix of `values`: the value and
    /// the count of consumed cells, or the failure.
    spec fn dec(values: Seq<Option<Primitive>>) -> Result<(Self, int), ExecutionError>;

    /// Flatten this value into an ordered list of cell contents.
    fn into_parts(self) -> (r: Vec<Primitive>)
        ensures
            r@ == self.enc(),
    ;

    /// Reconstruct a value from a prefix of `values`, reporting how many
    /// cells were consumed.
    fn from_parts(values: &[Option<Primitive>]) -> (r: Result<(Self, usize), ExecutionError>)
        ensures
            match Self::dec(values@) {
                Ok((v, n)) => r matches Ok(got) && got.0 == v && got.1 == n,
                Err(e) => r matches Err(got) && got == e,
            },
    ;

    /// Decoding inverts encoding: from any input that starts with the cells
    /// `v` encodes to, decoding reconstructs `v` itself and consumes exactly
    /// the cells `v` encoded.
    proof fn lemma_round_trip(v: Self, values: Seq<Option<Primitive>>)
        requires
            v.enc().len() <= values.len(),
            forall|i: int| 0 <= i < v.enc().len() ==> values[i] == Some(v.enc()[i]),
        ensures
            Self::dec(values) == Ok::<(Self, int), ExecutionError>((v, v.enc().len() as int)),
    ;
}

impl Value for Primitive {
    /// A primitive occupies exactly one cell: itself.
    open spec fn enc(&self) -> Seq<Primitive> {
        seq![*self]
    }

    open spec fn dec(values: Seq<Option<Primitive>>) -> Result<(Primitive, int), ExecutionError> {
        if values.len() < 1 {
            Err(ExecutionError::MemoryWrongSize { expected: 1 })
        } else {
            match values[0] {
                Some(p) => Ok((p, 1)),
                None => Err(ExecutionError::MemoryWrongSize { expected: 1 }),
            }
        }
    }

    fn into_parts(self) -> (r: Vec<Primitive>) {
        let ghost v = self;
        let mut parts = Vec::new();
        parts.push(self);
        proof {
            assert(parts@ =~= v.enc());
        }
        parts
    }

    fn from_parts(values: &[Option<Primitive>]) -> (r: Result<(Primitive, usize), ExecutionError>) {
        if values.len() < 1 {
            Err(ExecutionError::MemoryWrongSize { expected: 1 })
        } else {
            match &values[0] {
                Some(p) => Ok((p.duplicate(), 1)),
                None => Err(ExecutionError::MemoryWrongSize { expected: 1 }),
            }
        }
    }

    proof fn lemma_round_trip(v: Primitive, values: Seq<Option<Primitive>>) {
    }
}

} // verus!
