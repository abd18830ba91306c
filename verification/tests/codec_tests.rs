use execution_plan::datetime::DateTimeLocal;
use execution_plan::shared::{
    AnnotationLineEnd, AnnotationLineEndOptions, AnnotationTextAlignmentX,
    AnnotationTextAlignmentY, AnnotationTextOptions,
};
use execution_plan::{Endpoint, ExecutionError, Primitive, Value, ValueKind};

fn cells(parts: Vec<Primitive>) -> Vec<Option<Primitive>> {
    parts.into_iter().map(Some).collect()
}

#[test]
fn datetime_into_from_values() {
    let now = chrono::Local::now();
    let a = DateTimeLocal {
        timestamp_nanos: now.timestamp_nanos_opt().unwrap(),
    };
    let parts = cells(a.into_parts());
    let Ok((b, _)) = DateTimeLocal::from_parts(&parts) else {
        unreachable!();
    };
    assert_eq!(a, b);
}

#[test]
fn primitive_round_trips() {
    for p in [
        Primitive::UInt(7),
        Primitive::Int(-3),
        Primitive::Float(2.5f64.to_bits()),
        Primitive::Bool(false),
        Primitive::Text("hello".to_owned()),
    ] {
        let parts = cells(p.clone().into_parts());
        assert_eq!(Primitive::from_parts(&parts), Ok((p, 1)));
    }
}

#[test]
fn endpoint_round_trips() {
    let ep = Endpoint {
        name: "extrude".to_owned(),
    };
    let parts = cells(ep.clone().into_parts());
    assert_eq!(parts.len(), 1);
    assert_eq!(Endpoint::from_parts(&parts), Ok((ep, 1)));
}

#[test]
fn datetime_round_trips_consume_count() {
    let a = DateTimeLocal {
        timestamp_nanos: -123_456_789,
    };
    let parts = cells(a.into_parts());
    assert_eq!(DateTimeLocal::from_parts(&parts), Ok((a, 1)));
}

#[test]
fn enum_values_round_trip() {
    for v in [AnnotationLineEnd::Bare, AnnotationLineEnd::Arrow] {
        let parts = cells(v.into_parts());
        assert_eq!(AnnotationLineEnd::from_parts(&parts), Ok((v, 1)));
    }
    for v in [
        AnnotationTextAlignmentX::Left,
        AnnotationTextAlignmentX::Center,
        AnnotationTextAlignmentX::Right,
    ] {
        let parts = cells(v.into_parts());
        assert_eq!(AnnotationTextAlignmentX::from_parts(&parts), Ok((v, 1)));
    }
    for v in [
        AnnotationTextAlignmentY::Bottom,
        AnnotationTextAlignmentY::Center,
        AnnotationTextAlignmentY::Top,
    ] {
        let parts = cells(v.into_parts());
        assert_eq!(AnnotationTextAlignmentY::from_parts(&parts), Ok((v, 1)));
    }
}

#[test]
fn two_field_composite_round_trips() {
    let v = AnnotationLineEndOptions {
        start: AnnotationLineEnd::Arrow,
        end: AnnotationLineEnd::Bare,
    };
    let parts = cells(v.into_parts());
    assert_eq!(parts.len(), 2);
    assert_eq!(AnnotationLineEndOptions::from_parts(&parts), Ok((v, 2)));
}

#[test]
fn four_field_composite_round_trips() {
    let v = AnnotationTextOptions {
        x: AnnotationTextAlignmentX::Right,
        y: AnnotationTextAlignmentY::Top,
        text: "label".to_owned(),
        point_size: 14,
    };
    let parts = cells(v.clone().into_parts());
    assert_eq!(parts.len(), 4);
    assert_eq!(AnnotationTextOptions::from_parts(&parts), Ok((v, 4)));
}

#[test]
fn decode_round_trip_ignores_trailing_cells() {
    // Decode consumes a prefix: trailing cells are left alone.
    let v = AnnotationLineEndOptions {
        start: AnnotationLineEnd::Bare,
        end: AnnotationLineEnd::Bare,
    };
    let mut parts = cells(v.into_parts());
    parts.push(Some(Primitive::Bool(true)));
    parts.push(None);
    assert_eq!(AnnotationLineEndOptions::from_parts(&parts), Ok((v, 2)));
}

#[test]
fn integer_field_from_float_cell_is_wrong_type() {
    // A decode expecting an integer cell that finds a float-kind value
    // names both kinds in its error.
    let parts = vec![Some(Primitive::Float(1.0f64.to_bits()))];
    assert_eq!(
        DateTimeLocal::from_parts(&parts),
        Err(ExecutionError::MemoryWrongType {
            expected: ValueKind::Int,
            actual: Primitive::Float(1.0f64.to_bits()),
        })
    );
}

#[test]
fn endpoint_from_integer_cell_is_wrong_type() {
    let parts = vec![Some(Primitive::UInt(9))];
    assert_eq!(
        Endpoint::from_parts(&parts),
        Err(ExecutionError::MemoryWrongType {
            expected: ValueKind::Text,
            actual: Primitive::UInt(9),
        })
    );
}

#[test]
fn enum_from_out_of_range_index_is_wrong_type() {
    let parts = vec![Some(Primitive::UInt(2))];
    assert_eq!(
        AnnotationLineEnd::from_parts(&parts),
        Err(ExecutionError::MemoryWrongType {
            expected: ValueKind::UInt,
            actual: Primitive::UInt(2),
        })
    );
}

#[test]
fn two_field_composite_from_one_cell_is_wrong_size() {
    // Decoding a 2-field composite from a 1-cell input asks for 2.
    let parts = vec![Some(Primitive::UInt(0))];
    assert_eq!(
        AnnotationLineEndOptions::from_parts(&parts),
        Err(ExecutionError::MemoryWrongSize { expected: 2 })
    );
}

#[test]
fn four_field_composite_from_short_input_is_wrong_size() {
    let parts = vec![Some(Primitive::UInt(0)), Some(Primitive::UInt(0))];
    assert_eq!(
        AnnotationTextOptions::from_parts(&parts),
        Err(ExecutionError::MemoryWrongSize { expected: 4 })
    );
}

#[test]
fn decode_from_empty_input_is_wrong_size() {
    let parts: Vec<Option<Primitive>> = Vec::new();
    assert_eq!(
        Primitive::from_parts(&parts),
        Err(ExecutionError::MemoryWrongSize { expected: 1 })
    );
}

#[test]
fn decode_from_empty_cell_is_wrong_size() {
    // A present-but-empty cell where a value is needed counts as missing.
    let parts: Vec<Option<Primitive>> = vec![None];
    assert_eq!(
        DateTimeLocal::from_parts(&parts),
        Err(ExecutionError::MemoryWrongSize { expected: 1 })
    );
}

#[test]
fn point_size_too_large_is_wrong_type() {
    let parts = vec![
        Some(Primitive::UInt(0)),
        Some(Primitive::UInt(0)),
        Some(Primitive::Text("t".to_owned())),
        Some(Primitive::UInt(u64::from(u32::MAX) + 1)),
    ];
    assert_eq!(
        AnnotationTextOptions::from_parts(&parts),
        Err(ExecutionError::MemoryWrongType {
            expected: ValueKind::UInt,
            actual: Primitive::UInt(u64::from(u32::MAX) + 1),
        })
    );
}
