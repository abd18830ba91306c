use execution_plan::{Address, Memory, Primitive, Value};
use execution_plan::shared::AnnotationLineEndOptions;
use execution_plan::shared::AnnotationLineEnd;

#[test]
fn default_memory_is_1024_empty_cells() {
    let mem = Memory::default();
    assert_eq!(mem.len(), 1024);
    for i in 0..1024 {
        assert!(mem.get(&Address(i)).is_none());
    }
}

#[test]
fn set_then_get_round_trips() {
    let mut mem = Memory::default();
    mem.set(Address(0), Primitive::UInt(42));
    mem.set(Address(1023), Primitive::Text("edge".to_owned()));
    assert_eq!(mem.get(&Address(0)), Some(&Primitive::UInt(42)));
    assert_eq!(mem.get(&Address(1023)), Some(&Primitive::Text("edge".to_owned())));
    assert!(mem.get(&Address(1)).is_none());
}

#[test]
fn set_overwrites_previous_value() {
    let mut mem = Memory::default();
    mem.set(Address(7), Primitive::Int(-1));
    mem.set(Address(7), Primitive::Bool(true));
    assert_eq!(mem.get(&Address(7)), Some(&Primitive::Bool(true)));
}

#[test]
fn growth_doubles_capacity_until_it_covers_the_address() {
    // From 1024, the smallest power-of-two multiple exceeding 5000 is 8192.
    let mut mem = Memory::default();
    mem.set(Address(3), Primitive::UInt(9));
    mem.set(Address(5000), Primitive::UInt(1));
    assert_eq!(mem.len(), 8192);
    // Previously written cells retain their values.
    assert_eq!(mem.get(&Address(3)), Some(&Primitive::UInt(9)));
    assert_eq!(mem.get(&Address(5000)), Some(&Primitive::UInt(1)));
    // New cells are empty.
    assert!(mem.get(&Address(5001)).is_none());
    assert!(mem.get(&Address(8191)).is_none());
}

#[test]
fn growth_at_exact_boundary() {
    // Writing at the current capacity itself must grow: 1024 -> 2048.
    let mut mem = Memory::default();
    mem.set(Address(1024), Primitive::UInt(5));
    assert_eq!(mem.len(), 2048);
    assert_eq!(mem.get(&Address(1024)), Some(&Primitive::UInt(5)));
}

#[test]
fn set_composite_writes_consecutive_cells() {
    let mut mem = Memory::default();
    let v = AnnotationLineEndOptions { start: AnnotationLineEnd::Bare, end: AnnotationLineEnd::Arrow };
    mem.set_composite(v, Address(10));
    assert_eq!(mem.get(&Address(10)), Some(&Primitive::UInt(0)));
    assert_eq!(mem.get(&Address(11)), Some(&Primitive::UInt(1)));
    assert!(mem.get(&Address(12)).is_none());
}

#[test]
fn get_composite_reads_back_what_set_composite_wrote() {
    let mut mem = Memory::default();
    let v = AnnotationLineEndOptions { start: AnnotationLineEnd::Arrow, end: AnnotationLineEnd::Arrow };
    mem.set_composite(v, Address(100));
    let got: AnnotationLineEndOptions = mem.get_composite(Address(100)).unwrap();
    assert_eq!(got, v);
}

#[test]
fn get_composite_propagates_decode_failure() {
    let mem = Memory::default();
    // Decoding from entirely empty memory runs out of input.
    let got: Result<AnnotationLineEndOptions, _> = mem.get_composite(Address(0));
    assert!(got.is_err());
}

#[test]
fn primitive_is_a_one_cell_composite() {
    let mut mem = Memory::default();
    mem.set_composite(Primitive::Int(-5), Address(20));
    let got: Primitive = mem.get_composite(Address(20)).unwrap();
    assert_eq!(got, Primitive::Int(-5));
}

#[test]
fn address_from_usize() {
    let a = Address::from(17usize);
    assert_eq!(a, Address(17));
}

#[test]
fn primitive_into_parts_is_itself() {
    let p = Primitive::Float(1.5f64.to_bits());
    assert_eq!(p.clone().into_parts(), vec![p]);
}
