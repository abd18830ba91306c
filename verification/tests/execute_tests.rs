use execution_plan::{
    execute, execute_with_outcomes, Address, Arithmetic, DispatchOutcome, Endpoint,
    ExecutionError, Instruction, Memory, Operand, Operation, Primitive, Value,
};

fn add(a: Operand, b: Operand) -> Arithmetic {
    Arithmetic {
        operation: Operation::Add,
        operand0: a,
        operand1: b,
    }
}

fn arith(op: Operation, a: Primitive, b: Primitive) -> Arithmetic {
    Arithmetic {
        operation: op,
        operand0: Operand::Literal(a),
        operand1: Operand::Literal(b),
    }
}

#[test]
fn set_then_add_reads_the_earlier_write() {
    // Set address 5 to 3, then add a literal 4 to it into address 6.
    let mut mem = Memory::default();
    let plan = vec![
        Instruction::SetValue {
            address: Address(5),
            value: Primitive::UInt(3),
        },
        Instruction::Arithmetic {
            arithmetic: add(
                Operand::Reference(Address(5)),
                Operand::Literal(Primitive::UInt(4)),
            ),
            destination: Address(6),
        },
    ];
    assert_eq!(execute(&mut mem, plan), Ok(()));
    assert_eq!(mem.get(&Address(6)), Some(&Primitive::UInt(7)));
}

#[test]
fn reference_to_unset_cell_is_memory_empty() {
    let mem = Memory::default();
    let operand = Operand::Reference(Address(44));
    assert_eq!(
        operand.eval(&mem),
        Err(ExecutionError::MemoryEmpty { addr: Address(44) })
    );
}

#[test]
fn reference_beyond_capacity_is_memory_empty() {
    let mem = Memory::default();
    let operand = Operand::Reference(Address(100_000));
    assert_eq!(
        operand.eval(&mem),
        Err(ExecutionError::MemoryEmpty { addr: Address(100_000) })
    );
}

#[test]
fn literal_evaluates_to_itself() {
    let mem = Memory::default();
    let operand = Operand::Literal(Primitive::Text("x".to_owned()));
    assert_eq!(operand.eval(&mem), Ok(Primitive::Text("x".to_owned())));
}

#[test]
fn execution_halts_at_first_error() {
    let mut mem = Memory::default();
    let plan = vec![
        Instruction::SetValue {
            address: Address(0),
            value: Primitive::UInt(1),
        },
        Instruction::Arithmetic {
            arithmetic: add(
                Operand::Reference(Address(9)),
                Operand::Literal(Primitive::UInt(1)),
            ),
            destination: Address(1),
        },
        Instruction::SetValue {
            address: Address(2),
            value: Primitive::UInt(2),
        },
    ];
    assert_eq!(
        execute(&mut mem, plan),
        Err(ExecutionError::MemoryEmpty { addr: Address(9) })
    );
    // The write before the failure stays; the one after never happens.
    assert_eq!(mem.get(&Address(0)), Some(&Primitive::UInt(1)));
    assert!(mem.get(&Address(2)).is_none());
}

#[test]
fn unsigned_arithmetic_exact_values() {
    let mem = Memory::default();
    let cases = [
        (Operation::Add, 9u64, 4u64, 13u64),
        (Operation::Sub, 9, 4, 5),
        (Operation::Mul, 9, 4, 36),
        (Operation::Div, 9, 4, 2),
    ];
    for (op, a, b, want) in cases {
        let got = arith(op, Primitive::UInt(a), Primitive::UInt(b)).calculate(&mem);
        assert_eq!(got, Ok(Primitive::UInt(want)));
    }
}

#[test]
fn signed_arithmetic_exact_values() {
    let mem = Memory::default();
    let cases = [
        (Operation::Add, -9i64, 4i64, -5i64),
        (Operation::Sub, -9, 4, -13),
        (Operation::Mul, -9, 4, -36),
        // Division truncates toward zero.
        (Operation::Div, -7, 2, -3),
        (Operation::Div, 7, -2, -3),
        (Operation::Div, -7, -2, 3),
    ];
    for (op, a, b, want) in cases {
        let got = arith(op, Primitive::Int(a), Primitive::Int(b)).calculate(&mem);
        assert_eq!(got, Ok(Primitive::Int(want)));
    }
}

#[test]
fn division_by_zero_cannot_apply() {
    let mem = Memory::default();
    let got = arith(Operation::Div, Primitive::UInt(3), Primitive::UInt(0)).calculate(&mem);
    assert_eq!(
        got,
        Err(ExecutionError::CannotApplyOperation {
            op: Operation::Div,
            operand0: Primitive::UInt(3),
            operand1: Primitive::UInt(0),
        })
    );
}

#[test]
fn overflow_cannot_apply() {
    let mem = Memory::default();
    assert!(arith(Operation::Add, Primitive::UInt(u64::MAX), Primitive::UInt(1))
        .calculate(&mem)
        .is_err());
    assert!(arith(Operation::Sub, Primitive::UInt(0), Primitive::UInt(1))
        .calculate(&mem)
        .is_err());
    assert!(arith(Operation::Mul, Primitive::Int(i64::MAX), Primitive::Int(2))
        .calculate(&mem)
        .is_err());
    assert!(arith(Operation::Div, Primitive::Int(i64::MIN), Primitive::Int(-1))
        .calculate(&mem)
        .is_err());
}

#[test]
fn mixed_kinds_cannot_apply() {
    let mem = Memory::default();
    let got = arith(Operation::Add, Primitive::UInt(1), Primitive::Int(1)).calculate(&mem);
    assert_eq!(
        got,
        Err(ExecutionError::CannotApplyOperation {
            op: Operation::Add,
            operand0: Primitive::UInt(1),
            operand1: Primitive::Int(1),
        })
    );
}

#[test]
fn float_and_non_numeric_operands_cannot_apply() {
    let mem = Memory::default();
    let f = Primitive::Float(1.0f64.to_bits());
    assert!(arith(Operation::Add, f.clone(), f).calculate(&mem).is_err());
    assert!(arith(Operation::Add, Primitive::Bool(true), Primitive::Bool(true))
        .calculate(&mem)
        .is_err());
    assert!(arith(
        Operation::Add,
        Primitive::Text("a".to_owned()),
        Primitive::Text("b".to_owned())
    )
    .calculate(&mem)
    .is_err());
}

#[test]
fn operation_symbols() {
    assert_eq!(Operation::Add.symbol(), "+");
    assert_eq!(Operation::Mul.symbol(), "*");
    assert_eq!(Operation::Sub.symbol(), "-");
    assert_eq!(Operation::Div.symbol(), "/");
}

fn seed_endpoint(mem: &mut Memory, at: usize, name: &str) {
    mem.set_composite(
        Endpoint {
            name: name.to_owned(),
        },
        Address(at),
    );
}

#[test]
fn unrecognized_endpoint_halts_and_leaves_memory() {
    let mut mem = Memory::default();
    seed_endpoint(&mut mem, 0, "no_such_operation");
    mem.set(Address(1), Primitive::UInt(11));
    let plan = vec![
        Instruction::SetValue {
            address: Address(2),
            value: Primitive::UInt(22),
        },
        Instruction::ApiRequest {
            endpoint: Address(0),
            store_response: Some(3),
            arguments: vec![Address(1)],
        },
    ];
    let outcomes = vec![DispatchOutcome::Unrecognized];
    assert_eq!(
        execute_with_outcomes(&mut mem, plan, outcomes),
        Err(ExecutionError::UnrecognizedEndpoint {
            name: "no_such_operation".to_owned(),
        })
    );
    // The instruction strictly before the request still took effect...
    assert_eq!(mem.get(&Address(2)), Some(&Primitive::UInt(22)));
    // ...and the request itself left memory unmodified.
    assert!(mem.get(&Address(3)).is_none());
}

#[test]
fn successful_request_stores_the_response() {
    let mut mem = Memory::default();
    seed_endpoint(&mut mem, 0, "extrude");
    mem.set(Address(1), Primitive::UInt(5));
    let plan = vec![Instruction::ApiRequest {
        endpoint: Address(0),
        store_response: Some(10),
        arguments: vec![Address(1)],
    }];
    let outcomes = vec![DispatchOutcome::Success(vec![
        Primitive::UInt(1),
        Primitive::Text("done".to_owned()),
    ])];
    assert_eq!(execute_with_outcomes(&mut mem, plan, outcomes), Ok(()));
    assert_eq!(mem.get(&Address(10)), Some(&Primitive::UInt(1)));
    assert_eq!(mem.get(&Address(11)), Some(&Primitive::Text("done".to_owned())));
}

#[test]
fn successful_request_without_store_address_leaves_memory() {
    let mut mem = Memory::default();
    seed_endpoint(&mut mem, 0, "ping");
    let plan = vec![Instruction::ApiRequest {
        endpoint: Address(0),
        store_response: None,
        arguments: vec![],
    }];
    let outcomes = vec![DispatchOutcome::Success(vec![Primitive::UInt(9)])];
    assert_eq!(execute_with_outcomes(&mut mem, plan, outcomes), Ok(()));
    assert!(mem.get(&Address(9)).is_none());
    assert!(mem.get(&Address(1)).is_none());
}

#[test]
fn dispatcher_failure_passes_through() {
    let mut mem = Memory::default();
    seed_endpoint(&mut mem, 0, "extrude");
    let plan = vec![Instruction::ApiRequest {
        endpoint: Address(0),
        store_response: None,
        arguments: vec![],
    }];
    let failure = ExecutionError::MemoryWrongSize { expected: 3 };
    let outcomes = vec![DispatchOutcome::Failed(failure.clone())];
    assert_eq!(execute_with_outcomes(&mut mem, plan, outcomes), Err(failure));
}

#[test]
fn request_with_unset_argument_is_memory_empty() {
    let mut mem = Memory::default();
    seed_endpoint(&mut mem, 0, "extrude");
    let plan = vec![Instruction::ApiRequest {
        endpoint: Address(0),
        store_response: None,
        arguments: vec![Address(50)],
    }];
    let outcomes = vec![DispatchOutcome::Success(vec![])];
    assert_eq!(
        execute_with_outcomes(&mut mem, plan, outcomes),
        Err(ExecutionError::MemoryEmpty { addr: Address(50) })
    );
}

#[test]
fn request_with_undecodable_endpoint_fails() {
    let mut mem = Memory::default();
    // The endpoint cell holds an integer, not a name.
    mem.set(Address(0), Primitive::UInt(3));
    let plan = vec![Instruction::ApiRequest {
        endpoint: Address(0),
        store_response: None,
        arguments: vec![],
    }];
    let outcomes = vec![DispatchOutcome::Success(vec![])];
    assert!(matches!(
        execute_with_outcomes(&mut mem, plan, outcomes),
        Err(ExecutionError::MemoryWrongType { .. })
    ));
}

#[test]
fn response_write_can_grow_memory() {
    let mut mem = Memory::default();
    seed_endpoint(&mut mem, 0, "extrude");
    let plan = vec![Instruction::ApiRequest {
        endpoint: Address(0),
        store_response: Some(1500),
        arguments: vec![],
    }];
    let outcomes = vec![DispatchOutcome::Success(vec![Primitive::UInt(8)])];
    assert_eq!(execute_with_outcomes(&mut mem, plan, outcomes), Ok(()));
    assert_eq!(mem.len(), 2048);
    assert_eq!(mem.get(&Address(1500)), Some(&Primitive::UInt(8)));
}

#[test]
fn empty_plan_succeeds_and_leaves_memory() {
    let mut mem = Memory::default();
    assert_eq!(execute(&mut mem, vec![]), Ok(()));
    assert_eq!(mem.len(), 1024);
}

#[test]
fn endpoint_value_usable_as_plan_data() {
    // An endpoint written with set_composite decodes through get_composite.
    let mut mem = Memory::default();
    seed_endpoint(&mut mem, 77, "loft");
    let ep: Endpoint = mem.get_composite(Address(77)).unwrap();
    assert_eq!(ep.name, "loft");
    assert_eq!(ep.into_parts(), vec![Primitive::Text("loft".to_owned())]);
}
