//! Program memory: a flat, zero-based, growable array of optional cells.

use vstd::arithmetic::power2::pow2;
use vstd::prelude::*;

use crate::error::ExecutionError;
use crate::primitive::Primitive;
use crate::value::Value;

verus! {

/// An address in program memory, identifying one cell.
#[derive(Debug, Clone, Copy, PartialEq, Eq, Hash, Structural)]
pub struct Address(pub usize);

impl From<usize> for Address {
    fn from(value: usize) -> (r: Address) {
        Address(value)
    }
}

impl vstd::std_specs::convert::FromSpecImpl<usize> for Address {
    open spec fn obeys_from_spec() -> bool {
        true
    }

    open spec fn from_spec(v: usize) -> Address {
        Address(v)
    }
}

/// The cell a read of address `a` observes: the stored value inside the
/// array, and an empty cell at any address beyond it.
pub open spec fn cell_at(m: Seq<Option<Primitive>>, a: int) -> Option<Primitive> {
    if 0 <= a < m.len() {
        m[a]
    } else {
        None
    }
}

/// The capacity after growing a memory of capacity `len` far enough to hold
/// address `addr`: `len` is doubled until it exceeds `addr`, and is left
/// unchanged when it already does.
pub open spec fn grown_capacity(len: int, addr: int) -> int
    recommends
        1 <= len,
        0 <= addr,
    decreases (if addr + 1 - len >= 0 { addr + 1 - len } else { 0 }),
{
    if len < 1 {
        1
    } else if addr < len {
        len
    } else {
        grown_capacity(2 * len, addr)
    }
}

/// The memory after a write of `value` to address `addr`: capacity grows by
/// doubling until it covers `addr`, new cells are empty, the target cell
/// holds the value, and every other cell keeps its content.
pub open spec fn store(m: Seq<Option<Primitive>>, addr: int, value: Primitive) -> Seq<
    Option<Primitive>,
> {
    Seq::new(
        grown_capacity(m.len() as int, addr) as nat,
        |i: int|
            if i == addr {
                Some(value)
            } else if 0 <= i < m.len() {
                m[i]
            } else {
                None
            },
    )
}

/// Growing never shrinks, always covers the target address, and at most
/// doubles past it.
pub proof fn lemma_grown_capacity_bounds(len: int, addr: int)
    requires
        1 <= len,
        0 <= addr,
    ensures
        len <= grown_capacity(len, addr),
        addr < grown_capacity(len, addr),
        len <= addr ==> grown_capacity(len, addr) <= 2 * addr,
    decreases (if addr + 1 - len >= 0 { addr + 1 - len } else { 0 }),
{
    if addr >= len {
        lemma_grown_capacity_bounds(2 * len, addr);
    }
}

/// The grown capacity is the starting capacity multiplied by the least
/// power of two that carries it past the target address: growing a memory
/// of capacity `len` to hold address `addr` yields `len * pow2(k)` for the
/// smallest `k` that makes it exceed `addr`.
pub proof fn lemma_grown_capacity_doubles(len: int, addr: int)
    requires
        1 <= len,
        0 <= addr,
    ensures
        addr < grown_capacity(len, addr),
        exists|k: nat| grown_capacity(len, addr) == len * pow2(k),
        forall|j: nat| addr < len * pow2(j) ==> grown_capacity(len, addr) <= len * pow2(j),
    decreases (if addr + 1 - len >= 0 { addr + 1 - len } else { 0 }),
{
    lemma_grown_capacity_bounds(len, addr);
    if addr < len {
        assert(pow2(0) == 1) by {
            vstd::arithmetic::power2::lemma2_to64();
        }
        assert(grown_capacity(len, addr) == len * pow2(0));
        assert forall|j: nat| addr < len * pow2(j) implies grown_capacity(len, addr) <= len * pow2(
            j,
        ) by {
            vstd::arithmetic::power2::lemma_pow2_pos(j);
            vstd::arithmetic::mul::lemma_mul_inequality(1, pow2(j) as int, len);
            vstd::arithmetic::mul::lemma_mul_is_commutative(pow2(j) as int, len);
        }
    } else {
        lemma_grown_capacity_doubles(2 * len, addr);
        let k0 = choose|k: nat| grown_capacity(2 * len, addr) == (2 * len) * pow2(k);
        let p = pow2(k0) as int;
        assert(pow2(k0 + 1) == 2 * pow2(k0)) by {
            vstd::arithmetic::power2::lemma_pow2_unfold(k0 + 1);
        }
        assert((len * 2) * p == len * (2 * p)) by {
            vstd::arithmetic::mul::lemma_mul_is_associative(len, 2, p);
        }
        assert(grown_capacity(len, addr) == len * pow2(k0 + 1));
        assert forall|j: nat| addr < len * pow2(j) implies grown_capacity(len, addr) <= len * pow2(
            j,
        ) by {
            if j == 0 {
                assert(pow2(0) == 1) by {
                    vstd::arithmetic::power2::lemma2_to64();
                }
            } else {
                let q = pow2((j - 1) as nat) as int;
                assert(pow2(j) == 2 * pow2((j - 1) as nat)) by {
                    vstd::arithmetic::power2::lemma_pow2_unfold(j);
                }
                assert((len * 2) * q == len * (2 * q)) by {
                    vstd::arithmetic::mul::lemma_mul_is_associative(len, 2, q);
                }
                assert(len * pow2(j) == (2 * len) * q);
                assert(grown_capacity(2 * len, addr) <= (2 * len) * q);
            }
        }
    }
}

/// Program memory: a flat, linear list of optional tagged values.  It starts
/// at a fixed capacity with every slot empty, and grows by doubling when a
/// write targets an address beyond the current capacity.
#[derive(Debug)]
pub struct Memory {
    cells: Vec<Option<Primitive>>,
}

impl View for Memory {
    type V = Seq<Option<Primitive>>;

    closed spec fn view(&self) -> Seq<Option<Primitive>> {
        self.cells@
    }
}

impl Default for Memory {
    /// A fresh memory of 1024 empty cells.
    fn default() -> (m: Memory)
        ensures
            m.wf(),
            m@.len() == 1024,
            forall|i: int| 0 <= i < 1024 ==> m@[i] is None,
    {
        let mut cells: Vec<Option<Primitive>> = Vec::new();
        let mut k: usize = 0;
        while k < 1024
            invariant
                k <= 1024,
                cells@.len() == k,
                forall|i: int| 0 <= i < k ==> cells@[i] is None,
            decreases 1024 - k,
        {
            cells.push(None);
            k = k + 1;
        }
        Memory { cells }
    }
}

impl Memory {
    /// The memory is well formed when it holds at least one cell, so growth
    /// by doubling makes progress.  Every constructor establishes this and
    /// every write preserves it.
    pub open spec fn wf(&self) -> bool {
        self@.len() >= 1
    }

    /// The current capacity: the number of cells, set or empty.
    pub fn len(&self) -> (n: usize)
        ensures
            n == self@.len(),
    {
        self.cells.len()
    }

    /// Get a value from program memory.  Reading an empty slot is distinct
    /// from reading a zero or default value.  Addresses at or beyond the
    /// current capacity are a caller contract violation: they must come from
    /// sources validated upstream.
    pub fn get(&self, addr: &Address) -> (r: Option<&Primitive>)
        requires
            addr.0 < self@.len(),
        ensures
            match r {
                Some(v) => self@[addr.0 as int] == Some(*v),
                None => self@[addr.0 as int] is None,
            },
    {
        match &self.cells[addr.0] {
            Some(v) => Some(v),
            None => None,
        }
    }

    /// Store a value in program memory.  If the memory is not big enough to
    /// hold this address, its size is doubled until it is; all previously
    /// written cells keep their values.
    pub fn set(&mut self, addr: Address, value: Primitive)
        requires
            old(self).wf(),
            addr.0 <= usize::MAX / 2,
        ensures
            final(self).wf(),
            final(self)@ == store(old(self)@, addr.0 as int, value),
    {
        let ghost m0 = self@;
        let a = addr.0;
        let mut target = self.cells.len();
        while target <= a
            invariant
                1 <= target,
                m0.len() >= 1,
                m0.len() <= target,
                a <= usize::MAX / 2,
                grown_capacity(target as int, a as int) == grown_capacity(
                    m0.len() as int,
                    a as int,
                ),
            decreases (if a + 1 - target >= 0 { a + 1 - target } else { 0 }),
        {
            target = target * 2;
        }
        proof {
            assert(target == grown_capacity(m0.len() as int, a as int));
        }
        while self.cells.len() < target
            invariant
                m0.len() >= 1,
                m0.len() <= target,
                a < target,
                target == grown_capacity(m0.len() as int, a as int),
                m0.len() <= self.cells@.len(),
                self.cells@.len() <= target,
                forall|i: int| 0 <= i < m0.len() ==> self.cells@[i] == m0[i],
                forall|i: int| m0.len() <= i < self.cells@.len() ==> self.cells@[i] is None,
            decreases target - self.cells.len(),
        {
            self.cells.push(None);
        }
        self.cells[a] = Some(value);
        proof {
            assert(self.cells@.len() as int == grown_capacity(m0.len() as int, a as int));
            assert(self@ =~= store(m0, a as int, value));
        }
    }

    /// Store a composite value: write its parts into consecutive addresses
    /// beginning at `start`, without growing memory.  The caller must
    /// guarantee sufficient capacity; an overflow is a contract violation,
    /// not a recoverable error.
    pub fn set_composite<T: Value>(&mut self, composite_value: T, start: Address)
        requires
            start.0 + composite_value.enc().len() <= old(self)@.len(),
        ensures
            final(self)@.len() == old(self)@.len(),
            forall|i: int|
                start.0 <= i < start.0 + composite_value.enc().len() ==> final(self)@[i] == Some(
                    composite_value.enc()[i - start.0],
                ),
            forall|i: int|
                0 <= i < old(self)@.len() && !(start.0 <= i < start.0
                    + composite_value.enc().len()) ==> final(self)@[i] == old(self)@[i],
    {
        let ghost encoded = composite_value.enc();
        let ghost m0 = self@;
        let mut parts = composite_value.into_parts();
        let n = parts.len();
        let cap = self.cells.len();
        let mut k: usize = 0;
        while k < n
            invariant
                k <= n,
                n == encoded.len(),
                parts@ =~= encoded.skip(k as int),
                cap == self.cells@.len(),
                cap == m0.len(),
                start.0 + n <= cap,
                forall|i: int|
                    start.0 <= i < start.0 + k ==> self.cells@[i] == Some(encoded[i - start.0]),
                forall|i: int|
                    0 <= i < cap && !(start.0 <= i < start.0 + k) ==> self.cells@[i] == m0[i],
            decreases n - k,
        {
            let p = parts.remove(0);
            self.cells[start.0 + k] = Some(p);
            k = k + 1;
        }
    }

    /// Get a composite value whose parts are stored in consecutive memory
    /// addresses starting at `start`: decode from `start` to the end of the
    /// backing array, propagating decode failures verbatim.
    pub fn get_composite<T: Value>(&self, start: Address) -> (r: Result<T, ExecutionError>)
        requires
            start.0 <= self@.len(),
        ensures
            match T::dec(self@.skip(start.0 as int)) {
                Ok((v, n)) => r matches Ok(got) && got == v,
                Err(e) => r matches Err(got) && got == e,
            },
    {
        let tail = vstd::slice::slice_subrange(self.cells.as_slice(), start.0, self.cells.len());
        proof {
            assert(tail@ =~= self@.skip(start.0 as int));
        }
        match T::from_parts(tail) {
            Ok((v, _)) => Ok(v),
            Err(e) => Err(e),
        }
    }
}

} // verus!
