//! The instruction set and the plan interpreter.
//!
//! A plan is an ordered, finite sequence of instructions, consumed exactly
//! once, strictly in emission order, with no branching and no reordering:
//! later instructions may read values written by earlier ones within the
//! same run.  Execution halts at the first error, with no rollback of
//! already-applied writes.
//!
//! The api-request instruction is the one point where an external
//! collaborator is involved: the dispatcher that performs the named
//! operation.  The interpreter assumes nothing about that call beyond its
//! outcome, so the interpreter takes the dispatcher's outcomes as an
//! argument, one per api request, and a driver loop outside the library
//! performs the actual calls.

use vstd::prelude::*;

use crate::arithmetic::Arithmetic;
use crate::error::ExecutionError;
use crate::memory::{cell_at, store, Address, Memory};
use crate::primitive::Primitive;
use crate::value::Value;

verus! {

/// The identity of the external operation an api request invokes, read from
/// memory as a composite value: a single text cell holding the operation's
/// name.
#[derive(Debug, Clone, PartialEq)]
pub struct Endpoint {
    /// The name of the operation.
    pub name: String,
}

impl Value for Endpoint {
    /// An endpoint occupies one text cell holding its name.
    open spec fn enc(&self) -> Seq<Primitive> {
        seq![Primitive::Text(self.name)]
    }

    open spec fn dec(values: Seq<Option<Primitive>>) -> Result<(Endpoint, int), ExecutionError> {
        if values.len() < 1 {
            Err(ExecutionError::MemoryWrongSize { expected: 1 })
        } else {
            match values[0] {
                Some(Primitive::Text(s)) => Ok((Endpoint { name: s }, 1)),
                Some(other) => Err(
                    ExecutionError::MemoryWrongType {
                        expected: crate::error::ValueKind::Text,
                        actual: other,
                    },
                ),
                None => Err(ExecutionError::MemoryWrongSize { expected: 1 }),
            }
        }
    }

    fn into_parts(self) -> (r: Vec<Primitive>) {
        let ghost v = self;
        let mut parts = Vec::new();
        parts.push(Primitive::Text(self.name));
        proof {
            assert(parts@ =~= v.enc());
        }
        parts
    }

    fn from_parts(values: &[Option<Primitive>]) -> (r: Result<(Endpoint, usize), ExecutionError>) {
        if values.len() < 1 {
            Err(ExecutionError::MemoryWrongSize { expected: 1 })
        } else {
            match &values[0] {
                Some(Primitive::Text(s)) => Ok((Endpoint { name: s.clone() }, 1)),
                Some(other) => Err(
                    ExecutionError::MemoryWrongType {
                        expected: crate::error::ValueKind::Text,
                        actual: other.duplicate(),
                    },
                ),
                None => Err(ExecutionError::MemoryWrongSize { expected: 1 }),
            }
        }
    }

    proof fn lemma_round_trip(v: Endpoint, values: Seq<Option<Primitive>>) {
    }
}

/// One step of the execution plan.
#[derive(Debug, PartialEq)]
pub enum Instruction {
    /// Call the external api through the dispatcher.
    ApiRequest {
        /// Which operation to call: a composite value starting at the given
        /// address.
        endpoint: Address,
        /// Which address the response should be stored at, if any.
        store_response: Option<usize>,
        /// Look up each call input at this address.
        arguments: Vec<Address>,
    },
    /// Set a value in memory.
    SetValue {
        /// Which memory address to set.
        address: Address,
        /// What value to set the memory address to.
        value: Primitive,
    },
    /// Perform arithmetic on values in memory.
    Arithmetic {
        /// What to do.
        arithmetic: Arithmetic,
        /// Write the output to this memory address.
        destination: Address,
    },
}

/// What the external dispatcher reported for one api request.
#[derive(Debug, PartialEq)]
pub enum DispatchOutcome {
    /// The call succeeded, producing the cells to write back into memory.
    Success(Vec<Primitive>),
    /// The dispatcher did not recognize the endpoint.
    Unrecognized,
    /// The dispatcher reported a failure of its own, passed through
    /// verbatim.
    Failed(ExecutionError),
}

/// The memory cells available from address `start` to the end of memory.
pub open spec fn tail_from(m: Seq<Option<Primitive>>, start: int) -> Seq<Option<Primitive>> {
    if 0 <= start <= m.len() {
        m.skip(start)
    } else {
        Seq::empty()
    }
}

/// The values stored at the argument addresses, in order, or the first
/// address whose cell was never set.
pub open spec fn resolve_args(m: Seq<Option<Primitive>>, args: Seq<Address>) -> Result<
    Seq<Primitive>,
    ExecutionError,
>
    decreases args.len(),
{
    if args.len() == 0 {
        Ok(Seq::empty())
    } else {
        match cell_at(m, args[0].0 as int) {
            None => Err(ExecutionError::MemoryEmpty { addr: args[0] }),
            Some(v) => match resolve_args(m, args.skip(1)) {
                Ok(rest) => Ok(seq![v] + rest),
                Err(e) => Err(e),
            },
        }
    }
}

/// The memory after writing `values` into consecutive addresses starting at
/// `start`, each write growing memory as an ordinary store does.
pub open spec fn store_seq(
    m: Seq<Option<Primitive>>,
    start: int,
    values: Seq<Primitive>,
) -> Seq<Option<Primitive>>
    decreases values.len(),
{
    if values.len() == 0 {
        m
    } else {
        store_seq(store(m, start, values[0]), start + 1, values.skip(1))
    }
}

/// What one api request does to memory `m`, given the dispatcher's
/// `outcome` for it: the endpoint is decoded from memory, every argument
/// address is resolved, and only then is the dispatcher's outcome consulted.
/// A successful outcome writes the response back when a store address was
/// given; an unrecognized endpoint and a dispatcher-reported failure halt
/// execution without touching memory.
pub open spec fn api_step(
    m: Seq<Option<Primitive>>,
    endpoint: Address,
    store_response: Option<usize>,
    arguments: Seq<Address>,
    outcome: DispatchOutcome,
) -> Result<Seq<Option<Primitive>>, ExecutionError> {
    match Endpoint::dec(tail_from(m, endpoint.0 as int)) {
        Err(e) => Err(e),
        Ok((ep, _consumed)) => match resolve_args(m, arguments) {
            Err(e) => Err(e),
            Ok(_inputs) => match outcome {
                DispatchOutcome::Success(response) => Ok(
                    match store_response {
                        Some(a) => store_seq(m, a as int, response@),
                        None => m,
                    },
                ),
                DispatchOutcome::Unrecognized => Err(
                    ExecutionError::UnrecognizedEndpoint { name: ep.name },
                ),
                DispatchOutcome::Failed(e) => Err(e),
            },
        },
    }
}

/// How many api requests a plan makes, and so how many dispatcher outcomes
/// a run of it consumes.
pub open spec fn api_count(insts: Seq<Instruction>) -> nat
    decreases insts.len(),
{
    if insts.len() == 0 {
        0
    } else {
        (match insts[0] {
            Instruction::ApiRequest { .. } => 1nat,
            _ => 0nat,
        }) + api_count(insts.skip(1))
    }
}

/// The final memory and the error, if any, of running a plan against memory
/// `m`, consuming one dispatcher outcome per api request reached.
/// Execution is strictly sequential and halts at the first error, leaving
/// memory as the instructions before the failing one left it.  (A run that
/// reaches an api request with no outcome left treats it as unrecognized;
/// the executors require one outcome per request, so they never do.)
pub open spec fn run_plan(
    m: Seq<Option<Primitive>>,
    insts: Seq<Instruction>,
    outcomes: Seq<DispatchOutcome>,
) -> (Seq<Option<Primitive>>, Option<ExecutionError>)
    decreases insts.len(),
{
    if insts.len() == 0 {
        (m, None)
    } else {
        match insts[0] {
            Instruction::SetValue { address, value } => run_plan(
                store(m, address.0 as int, value),
                insts.skip(1),
                outcomes,
            ),
            Instruction::Arithmetic { arithmetic, destination } => match arithmetic.calc_spec(m) {
                Ok(v) => run_plan(store(m, destination.0 as int, v), insts.skip(1), outcomes),
                Err(e) => (m, Some(e)),
            },
            Instruction::ApiRequest { endpoint, store_response, arguments } => {
                let outcome = if outcomes.len() == 0 {
                    DispatchOutcome::Unrecognized
                } else {
                    outcomes[0]
                };
                match api_step(m, endpoint, store_response, arguments@, outcome) {
                    Ok(m2) => run_plan(m2, insts.skip(1), outcomes.skip(1)),
                    Err(e) => (m, Some(e)),
                }
            },
        }
    }
}

/// Every address an instruction writes to leaves room to grow: a machine
/// limit, since growth doubles capacity past the target address.
pub open spec fn instruction_fits(inst: Instruction) -> bool {
    match inst {
        Instruction::SetValue { address, .. } => address.0 <= usize::MAX / 2,
        Instruction::Arithmetic { destination, .. } => destination.0 <= usize::MAX / 2,
        Instruction::ApiRequest { store_response, .. } => match store_response {
            Some(a) => a <= usize::MAX / 4,
            None => true,
        },
    }
}

/// Every instruction of the plan fits the machine limits.
pub open spec fn plan_fits(insts: Seq<Instruction>) -> bool {
    forall|i: int| 0 <= i < insts.len() ==> instruction_fits(#[trigger] insts[i])
}

/// A successful outcome's response fits the machine limits.
pub open spec fn outcome_fits(outcome: DispatchOutcome) -> bool {
    match outcome {
        DispatchOutcome::Success(response) => response@.len() <= usize::MAX / 4,
        _ => true,
    }
}

/// Every outcome fits the machine limits.
pub open spec fn outcomes_fit(outcomes: Seq<DispatchOutcome>) -> bool {
    forall|i: int| 0 <= i < outcomes.len() ==> outcome_fits(#[trigger] outcomes[i])
}

/// A run that finishes without error consumes one outcome per api request
/// it executes, so a plan it ran cannot ask for more outcomes than there
/// are.
proof fn lemma_run_plan_api_count(
    m: Seq<Option<Primitive>>,
    insts: Seq<Instruction>,
    outcomes: Seq<DispatchOutcome>,
)
    requires
        run_plan(m, insts, outcomes).1 is None,
    ensures
        api_count(insts) <= outcomes.len(),
    decreases insts.len(),
{
    if insts.len() > 0 {
        match insts[0] {
            Instruction::SetValue { address, value } => {
                lemma_run_plan_api_count(store(m, address.0 as int, value), insts.skip(1), outcomes);
            },
            Instruction::Arithmetic { arithmetic, destination } => {
                match arithmetic.calc_spec(m) {
                    Ok(v) => {
                        lemma_run_plan_api_count(
                            store(m, destination.0 as int, v),
                            insts.skip(1),
                            outcomes,
                        );
                    },
                    Err(e) => {
                        assert(false);
                    },
                }
            },
            Instruction::ApiRequest { endpoint, store_response, arguments } => {
                let outcome = if outcomes.len() == 0 {
                    DispatchOutcome::Unrecognized
                } else {
                    outcomes[0]
                };
                match api_step(m, endpoint, store_response, arguments@, outcome) {
                    Ok(m1) => {
                        assert(outcomes.len() > 0);
                        lemma_run_plan_api_count(m1, insts.skip(1), outcomes.skip(1));
                    },
                    Err(e) => {
                        assert(false);
                    },
                }
            },
        }
    }
}

/// Sequential decomposition of a run: when the first `i` instructions run
/// without error, running the whole plan equals running those first and
/// then the rest, against the memory they produced, with the outcomes they
/// consumed gone.  Later instructions observe exactly the writes of earlier
/// ones.
pub proof fn lemma_run_plan_prefix(
    m: Seq<Option<Primitive>>,
    insts: Seq<Instruction>,
    outcomes: Seq<DispatchOutcome>,
    i: int,
)
    requires
        0 <= i <= insts.len(),
        run_plan(m, insts.take(i), outcomes).1 is None,
    ensures
        run_plan(m, insts, outcomes) == run_plan(
            run_plan(m, insts.take(i), outcomes).0,
            insts.skip(i),
            outcomes.skip(api_count(insts.take(i)) as int),
        ),
    decreases i,
{
    let pre = insts.take(i);
    if i == 0 {
        assert(pre =~= Seq::<Instruction>::empty());
        assert(insts.skip(0) =~= insts);
        assert(outcomes.skip(0) =~= outcomes);
    } else {
        assert(pre.skip(1) =~= insts.skip(1).take(i - 1));
        assert(insts.skip(1).skip(i - 1) =~= insts.skip(i));
        match insts[0] {
            Instruction::SetValue { address, value } => {
                let m1 = store(m, address.0 as int, value);
                lemma_run_plan_prefix(m1, insts.skip(1), outcomes, i - 1);
            },
            Instruction::Arithmetic { arithmetic, destination } => {
                match arithmetic.calc_spec(m) {
                    Ok(v) => {
                        let m1 = store(m, destination.0 as int, v);
                        lemma_run_plan_prefix(m1, insts.skip(1), outcomes, i - 1);
                    },
                    Err(e) => {
                        assert(false);
                    },
                }
            },
            Instruction::ApiRequest { endpoint, store_response, arguments } => {
                let outcome = if outcomes.len() == 0 {
                    DispatchOutcome::Unrecognized
                } else {
                    outcomes[0]
                };
                match api_step(m, endpoint, store_response, arguments@, outcome) {
                    Ok(m1) => {
                        assert(outcomes.len() > 0);
                        assert(pre[0] == insts[0]);
                        assert(api_count(pre) == 1 + api_count(pre.skip(1)));
                        lemma_run_plan_api_count(m1, insts.skip(1).take(i - 1), outcomes.skip(1));
                        lemma_run_plan_prefix(m1, insts.skip(1), outcomes.skip(1), i - 1);
                        assert(outcomes.skip(1).skip(api_count(pre.skip(1)) as int) =~= outcomes.skip(
                            api_count(pre) as int,
                        ));
                    },
                    Err(e) => {
                        assert(false);
                    },
                }
            },
        }
    }
}

/// Unknown endpoint: when the run reaches an api request whose endpoint
/// decodes and whose arguments resolve, and the dispatcher does not
/// recognize the endpoint, the run halts with `UnrecognizedEndpoint`
/// naming it, and memory is left exactly as the instructions strictly
/// before the request left it.
pub proof fn lemma_unrecognized_endpoint_halts(
    m: Seq<Option<Primitive>>,
    insts: Seq<Instruction>,
    outcomes: Seq<DispatchOutcome>,
    i: int,
    ep: Endpoint,
)
    requires
        0 <= i < insts.len(),
        run_plan(m, insts.take(i), outcomes).1 is None,
        insts[i] matches Instruction::ApiRequest { endpoint, store_response: _, arguments }
            && (Endpoint::dec(
            tail_from(run_plan(m, insts.take(i), outcomes).0, endpoint.0 as int),
        ) matches Ok(d)
            && d.0 == ep) && resolve_args(
            run_plan(m, insts.take(i), outcomes).0,
            arguments@,
        ) is Ok,
        api_count(insts.take(i)) < outcomes.len(),
        outcomes[api_count(insts.take(i)) as int] is Unrecognized,
    ensures
        run_plan(m, insts, outcomes).0 == run_plan(m, insts.take(i), outcomes).0,
        run_plan(m, insts, outcomes).1 == Some(
            ExecutionError::UnrecognizedEndpoint { name: ep.name },
        ),
{
    lemma_run_plan_prefix(m, insts, outcomes, i);
    let mi = run_plan(m, insts.take(i), outcomes).0;
    let c = api_count(insts.take(i)) as int;
    let rest = insts.skip(i);
    let outs_rest = outcomes.skip(c);
    assert(rest[0] == insts[i]);
    assert(outs_rest.len() > 0);
    assert(outs_rest[0] == outcomes[c]);
}

/// A run over arguments all of whose cells are set resolves them.
proof fn lemma_resolve_args_ok(m: Seq<Option<Primitive>>, args: Seq<Address>)
    requires
        forall|i: int| 0 <= i < args.len() ==> cell_at(m, (#[trigger] args[i]).0 as int) is Some,
    ensures
        resolve_args(m, args) is Ok,
    decreases args.len(),
{
    if args.len() > 0 {
        lemma_resolve_args_ok(m, args.skip(1));
    }
}

/// Resolution fails at the first argument whose cell was never set.
proof fn lemma_resolve_args_err(m: Seq<Option<Primitive>>, args: Seq<Address>, k: int)
    requires
        0 <= k < args.len(),
        forall|i: int| 0 <= i < k ==> cell_at(m, (#[trigger] args[i]).0 as int) is Some,
        cell_at(m, args[k].0 as int) is None,
    ensures
        resolve_args(m, args) == Err::<Seq<Primitive>, ExecutionError>(
            ExecutionError::MemoryEmpty { addr: args[k] },
        ),
    decreases k,
{
    if k > 0 {
        lemma_resolve_args_err(m, args.skip(1), k - 1);
    }
}

/// Execute the plan, handing the dispatcher's outcomes to its api requests
/// in order.  The machine-limit preconditions bound every written address;
/// one outcome is required per api request in the plan, and the outcomes of
/// requests never reached go unused.
#[verifier::loop_isolation(false)]
pub fn execute_with_outcomes(
    mem: &mut Memory,
    plan: Vec<Instruction>,
    outcomes: Vec<DispatchOutcome>,
) -> (r: Result<(), ExecutionError>)
    requires
        old(mem).wf(),
        plan_fits(plan@),
        outcomes_fit(outcomes@),
        api_count(plan@) <= outcomes@.len(),
    ensures
        final(mem).wf(),
        final(mem)@ == run_plan(old(mem)@, plan@, outcomes@).0,
        match r {
            Ok(()) => run_plan(old(mem)@, plan@, outcomes@).1 is None,
            Err(e) => run_plan(old(mem)@, plan@, outcomes@).1 == Some(e),
        },
{
    let ghost m0 = mem@;
    let ghost plan0 = plan@;
    let ghost outs0 = outcomes@;
    let mut plan = plan;
    let mut outcomes = outcomes;
    while plan.len() > 0
        invariant
            mem.wf(),
            plan_fits(plan@),
            outcomes_fit(outcomes@),
            api_count(plan@) <= outcomes@.len(),
            run_plan(m0, plan0, outs0) == run_plan(mem@, plan@, outcomes@),
        decreases plan@.len(),
    {
        let ghost m_b = mem@;
        let ghost plan_b = plan@;
        let ghost outs_b = outcomes@;
        let step = plan.remove(0);
        proof {
            assert(plan@ =~= plan_b.skip(1));
        }
        match step {
            Instruction::SetValue { address, value } => {
                mem.set(address, value);
            },
            Instruction::Arithmetic { arithmetic, destination } => {
                match arithmetic.calculate(mem) {
                    Ok(v) => {
                        mem.set(destination, v);
                    },
                    Err(e) => {
                        return Err(e);
                    },
                }
            },
            Instruction::ApiRequest { endpoint, store_response, arguments } => {
                let ep_res: Result<Endpoint, ExecutionError> = if endpoint.0 <= mem.len() {
                    mem.get_composite::<Endpoint>(endpoint)
                } else {
                    let no_cells: Vec<Option<Primitive>> = Vec::new();
                    match Endpoint::from_parts(no_cells.as_slice()) {
                        Ok((v, _)) => Ok(v),
                        Err(e) => Err(e),
                    }
                };
                proof {
                    if endpoint.0 <= m_b.len() {
                        assert(tail_from(m_b, endpoint.0 as int) =~= m_b.skip(endpoint.0 as int));
                    } else {
                        assert(tail_from(m_b, endpoint.0 as int) =~= Seq::<
                            Option<Primitive>,
                        >::empty());
                    }
                }
                let ep = match ep_res {
                    Ok(v) => v,
                    Err(e) => {
                        return Err(e);
                    },
                };
                let arg_total = arguments.len();
                let mut j: usize = 0;
                while j < arg_total
                    invariant
                        j <= arg_total,
                        arg_total == arguments@.len(),
                        mem.wf(),
                        mem@ == m_b,
                        forall|i: int|
                            0 <= i < j ==> cell_at(m_b, (#[trigger] arguments@[i]).0 as int)
                                is Some,
                    decreases arg_total - j,
                {
                    let addr = arguments[j];
                    if addr.0 >= mem.len() {
                        proof {
                            lemma_resolve_args_err(m_b, arguments@, j as int);
                        }
                        return Err(ExecutionError::MemoryEmpty { addr });
                    }
                    match mem.get(&addr) {
                        None => {
                            proof {
                                lemma_resolve_args_err(m_b, arguments@, j as int);
                            }
                            return Err(ExecutionError::MemoryEmpty { addr });
                        },
                        Some(_) => {},
                    }
                    j = j + 1;
                }
                proof {
                    lemma_resolve_args_ok(m_b, arguments@);
                }
                let outcome = outcomes.remove(0);
                proof {
                    assert(outcomes@ =~= outs_b.skip(1));
                }
                match outcome {
                    DispatchOutcome::Success(response) => {
                        if let Some(a) = store_response {
                            let ghost response0 = response@;
                            let mut response = response;
                            let total = response.len();
                            let mut k: usize = 0;
                            while k < total
                                invariant
                                    k <= total,
                                    total == response0.len(),
                                    total <= usize::MAX / 4,
                                    a <= usize::MAX / 4,
                                    response@ =~= response0.skip(k as int),
                                    mem.wf(),
                                    store_seq(m_b, a as int, response0) == store_seq(
                                        mem@,
                                        a + k,
                                        response@,
                                    ),
                                decreases total - k,
                            {
                                let v = response.remove(0);
                                mem.set(Address(a + k), v);
                                k = k + 1;
                            }
                        }
                    },
                    DispatchOutcome::Unrecognized => {
                        return Err(ExecutionError::UnrecognizedEndpoint { name: ep.name });
                    },
                    DispatchOutcome::Failed(e) => {
                        return Err(e);
                    },
                }
            },
        }
    }
    Ok(())
}

/// Execute a plan that makes no api requests.  A plan that does make them
/// needs the dispatcher's outcomes: run it with [`execute_with_outcomes`].
pub fn execute(mem: &mut Memory, plan: Vec<Instruction>) -> (r: Result<(), ExecutionError>)
    requires
        old(mem).wf(),
        plan_fits(plan@),
        api_count(plan@) == 0,
    ensures
        final(mem).wf(),
        final(mem)@ == run_plan(old(mem)@, plan@, Seq::empty()).0,
        match r {
            Ok(()) => run_plan(old(mem)@, plan@, Seq::empty()).1 is None,
            Err(e) => run_plan(old(mem)@, plan@, Seq::empty()).1 == Some(e),
        },
{
    let no_outcomes: Vec<DispatchOutcome> = Vec::new();
    execute_with_outcomes(mem, plan, no_outcomes)
}

} // verus!
